use serenity_guild::guild::{Guild, SystemChannelFlags};
use serenity_guild::id::{ChannelId, EmojiId, GuildId, UserId};
use serenity_guild::levels::{
    DefaultMessageNotificationLevel, ExplicitContentFilter, MfaLevel, NsfwLevel, PremiumTier,
    Region, VerificationLevel, UNKNOWN_NUM,
};
use serenity_guild::model::Timestamp;
use serenity_guild::permissions::Permissions;
use serenity_guild::records::{
    GuildContainer, GuildInfo, GuildStatus, GuildUnavailable, InviteGuild, PartialGuild,
};
use serenity_guild::text::{
    decimal_string, last_index_of_char, parse_u16_text, parse_u64_text, text_eq,
};
use serenity_guild::payload::MissingField;
use serenity_guild::welcome::{GuildWelcomeChannel, GuildWelcomeScreenEmoji};

fn base_guild() -> Guild {
    Guild {
        afk_channel_id: None,
        afk_timeout: 60,
        application_id: None,
        channels: Vec::new(),
        default_message_notifications: DefaultMessageNotificationLevel::All,
        emojis: Vec::new(),
        explicit_content_filter: ExplicitContentFilter::Off,
        features: Vec::new(),
        icon: None,
        id: GuildId(381880193251409931),
        joined_at: Timestamp(0),
        large: false,
        member_count: 0,
        members: Vec::new(),
        mfa_level: MfaLevel::Off,
        name: "old".to_string(),
        owner_id: UserId(1),
        presences: Vec::new(),
        region: "europe".to_string(),
        roles: Vec::new(),
        splash: None,
        discovery_splash: None,
        system_channel_id: None,
        system_channel_flags: SystemChannelFlags(0),
        rules_channel_id: None,
        public_updates_channel_id: None,
        verification_level: VerificationLevel::Off,
        voice_states: Vec::new(),
        description: Some("kept".to_string()),
        premium_tier: PremiumTier::Tier2,
        premium_subscription_count: 7,
        banner: None,
        vanity_url_code: None,
        preferred_locale: "en-US".to_string(),
        welcome_screen: None,
        approximate_member_count: None,
        approximate_presence_count: None,
        nsfw: false,
        nsfw_level: NsfwLevel::Default,
        max_video_channel_users: None,
        max_presences: None,
        max_members: None,
        widget_enabled: None,
        widget_channel_id: None,
        stage_instances: Vec::new(),
        threads: Vec::new(),
    }
}

fn partial(id: u64) -> PartialGuild {
    PartialGuild {
        id: GuildId(id),
        afk_channel_id: Some(ChannelId(5)),
        afk_timeout: 900,
        default_message_notifications: DefaultMessageNotificationLevel::Mentions,
        emojis: Vec::new(),
        features: vec!["NEWS".to_string()],
        icon: Some("abc".to_string()),
        mfa_level: MfaLevel::Elevated,
        name: "new".to_string(),
        owner_id: UserId(2),
        region: "us-west".to_string(),
        roles: Vec::new(),
        splash: Some("spl".to_string()),
        verification_level: VerificationLevel::High,
    }
}

#[test]
fn icon_url_is_webp_or_gif() {
    let mut g = base_guild();
    assert_eq!(g.icon_url(), None);
    g.icon = Some("abc123".to_string());
    assert_eq!(
        g.icon_url().unwrap(),
        "https://cdn.discordapp.com/icons/381880193251409931/abc123.webp"
    );
    g.icon = Some("a_abc123".to_string());
    assert_eq!(
        g.icon_url().unwrap(),
        "https://cdn.discordapp.com/icons/381880193251409931/a_abc123.gif"
    );
}

#[test]
fn banner_and_splash_urls() {
    let mut g = base_guild();
    assert_eq!(g.banner_url(), None);
    assert_eq!(g.splash_url(), None);
    g.banner = Some("bnr".to_string());
    g.splash = Some("spl".to_string());
    assert_eq!(
        g.banner_url().unwrap(),
        "https://cdn.discordapp.com/banners/381880193251409931/bnr.webp?size=1024"
    );
    assert_eq!(
        g.splash_url().unwrap(),
        "https://cdn.discordapp.com/splashes/381880193251409931/spl.webp?size=4096"
    );
}

#[test]
fn guild_info_icon_url() {
    let info = GuildInfo {
        id: GuildId(0),
        icon: Some("a_x".to_string()),
        name: "g".to_string(),
        owner: false,
        permissions: Permissions::empty(),
    };
    assert_eq!(info.icon_url().unwrap(), "https://cdn.discordapp.com/icons/0/a_x.gif");
    let no_icon = GuildInfo { icon: None, ..info };
    assert_eq!(no_icon.icon_url(), None);
}

#[test]
fn invite_guild_splash_url() {
    let invite = InviteGuild {
        id: GuildId(42),
        icon: None,
        name: "g".to_string(),
        splash: Some("s".to_string()),
        description: None,
        features: Vec::new(),
        verification_level: VerificationLevel::Low,
        vanity_url_code: None,
    };
    assert_eq!(
        invite.splash_url().unwrap(),
        "https://cdn.discordapp.com/splashes/42/s.webp?size=4096"
    );
    let no_splash = InviteGuild { splash: None, ..invite };
    assert_eq!(no_splash.splash_url(), None);
}

#[test]
fn decimal_strings() {
    assert_eq!(decimal_string(0), "0");
    assert_eq!(decimal_string(7), "7");
    assert_eq!(decimal_string(1432), "1432");
    assert_eq!(decimal_string(u64::MAX), u64::MAX.to_string());
}

#[test]
fn text_helpers() {
    assert!(text_eq("general", "general"));
    assert!(!text_eq("general", "General"));
    assert!(!text_eq("gen", "general"));
    assert_eq!(last_index_of_char("a#b#c", '#'), Some(3));
    assert_eq!(last_index_of_char("é#1", '#'), Some(1));
    assert_eq!(last_index_of_char("abc", '#'), None);
    assert_eq!(parse_u16_text("1432"), Some(1432));
    assert_eq!(parse_u16_text("+7"), Some(7));
    assert_eq!(parse_u16_text("0065535"), Some(65535));
    assert_eq!(parse_u16_text("65536"), None);
    assert_eq!(parse_u64_text("18446744073709551615"), Some(u64::MAX));
    assert_eq!(parse_u64_text("18446744073709551616"), None);
    assert_eq!(parse_u64_text("+381880193251409931"), Some(381880193251409931));
    assert_eq!(parse_u64_text("12 "), None);
    assert_eq!(parse_u16_text(""), None);
    assert_eq!(parse_u16_text("+"), None);
    assert_eq!(parse_u16_text("-1"), None);
    assert_eq!(parse_u16_text("12a"), None);
}

#[test]
fn region_names() {
    assert_eq!(Region::Amsterdam.name(), "amsterdam");
    assert_eq!(Region::EuCentral.name(), "eu-central");
    assert_eq!(Region::HongKong.name(), "hongkong");
    assert_eq!(Region::VipUsWest.name(), "vip-us-west");
    assert_ne!(Region::UsEast.name(), Region::VipUsEast.name());
}

#[test]
fn level_numbers_round_trip() {
    assert_eq!(VerificationLevel::Higher.num(), 4);
    assert_eq!(VerificationLevel::from_num(2), VerificationLevel::Medium);
    assert_eq!(VerificationLevel::from_num(9), VerificationLevel::Unknown);
    assert_eq!(VerificationLevel::Unknown.num(), UNKNOWN_NUM);
    assert_eq!(MfaLevel::from_num(MfaLevel::Elevated.num()), MfaLevel::Elevated);
    assert_eq!(ExplicitContentFilter::All.num(), 2);
    assert_eq!(ExplicitContentFilter::from_num(1), ExplicitContentFilter::WithoutRole);
    assert_eq!(DefaultMessageNotificationLevel::from_num(1), DefaultMessageNotificationLevel::Mentions);
    assert_eq!(NsfwLevel::AgeRestricted.num(), 3);
    assert_eq!(NsfwLevel::from_num(2), NsfwLevel::Safe);
    assert_eq!(PremiumTier::Tier3.num(), 3);
    assert_eq!(PremiumTier::from_num(0), PremiumTier::Tier0);
    assert_eq!(PremiumTier::from_num(4), PremiumTier::Unknown);
}

#[test]
fn welcome_channel_fields() {
    let custom = GuildWelcomeChannel::from_fields(
        Some(ChannelId(1)),
        Some("rules".to_string()),
        Some(Some(EmojiId(3))),
        Some(None),
    )
    .unwrap();
    assert!(matches!(custom.emoji, Some(GuildWelcomeScreenEmoji::Custom(EmojiId(3)))));
    assert_eq!(custom.emoji_fields(), (Some(EmojiId(3)), None));

    let unicode = GuildWelcomeChannel::from_fields(
        Some(ChannelId(2)),
        Some("chat".to_string()),
        Some(Some(EmojiId(3))),
        Some(Some("👋".to_string())),
    )
    .unwrap();
    assert!(matches!(&unicode.emoji, Some(GuildWelcomeScreenEmoji::Unicode(n)) if n == "👋"));
    assert_eq!(unicode.emoji_fields(), (None, Some("👋".to_string())));
    assert_eq!(unicode.description, "chat");
    assert_eq!(unicode.channel_id, ChannelId(2));

    let none =
        GuildWelcomeChannel::from_fields(Some(ChannelId(3)), Some(String::new()), Some(None), Some(None))
            .unwrap();
    assert!(none.emoji.is_none());
    assert_eq!(none.emoji_fields(), (None, None));
}

#[test]
fn welcome_channel_missing_fields() {
    let err = |r: Result<GuildWelcomeChannel, MissingField>| r.err().unwrap();
    assert_eq!(err(GuildWelcomeChannel::from_fields(None, None, None, None)), MissingField::ChannelId);
    assert_eq!(
        err(GuildWelcomeChannel::from_fields(Some(ChannelId(1)), None, Some(None), Some(None))),
        MissingField::Description
    );
    assert_eq!(
        err(GuildWelcomeChannel::from_fields(Some(ChannelId(1)), Some("d".to_string()), None, Some(None))),
        MissingField::EmojiId
    );
    assert_eq!(
        err(GuildWelcomeChannel::from_fields(Some(ChannelId(1)), Some("d".to_string()), Some(None), None)),
        MissingField::EmojiName
    );
    assert_eq!(MissingField::EmojiName.message(), "expected emoji_name");
    assert_eq!(MissingField::ChannelId.message(), "expected channel_id");
}

#[test]
fn guild_status_id() {
    let offline = GuildStatus::Offline(GuildUnavailable { id: GuildId(3), unavailable: true });
    assert_eq!(offline.id(), GuildId(3));
    assert_eq!(GuildStatus::OnlinePartialGuild(partial(4)).id(), GuildId(4));
    assert_eq!(GuildStatus::OnlineGuild(base_guild()).id(), GuildId(381880193251409931));
}

#[test]
fn guild_container_from() {
    assert!(matches!(GuildContainer::from(GuildId(8)), GuildContainer::Id(GuildId(8))));
    assert!(matches!(GuildContainer::from(9u64), GuildContainer::Id(GuildId(9))));
    assert!(matches!(GuildContainer::from(partial(10)), GuildContainer::Guild(p) if p.id == GuildId(10)));
}

#[test]
fn apply_edit_takes_over_the_edited_fields() {
    let mut g = base_guild();
    g.apply_edit(partial(77));
    assert_eq!(g.name, "new");
    assert_eq!(g.afk_channel_id, Some(ChannelId(5)));
    assert_eq!(g.afk_timeout, 900);
    assert_eq!(g.default_message_notifications, DefaultMessageNotificationLevel::Mentions);
    assert_eq!(g.features, vec!["NEWS".to_string()]);
    assert_eq!(g.icon.as_deref(), Some("abc"));
    assert_eq!(g.mfa_level, MfaLevel::Elevated);
    assert_eq!(g.owner_id, UserId(2));
    assert_eq!(g.region, "us-west");
    assert_eq!(g.splash.as_deref(), Some("spl"));
    assert_eq!(g.verification_level, VerificationLevel::High);
    assert_eq!(g.id, GuildId(381880193251409931));
    assert_eq!(g.description.as_deref(), Some("kept"));
    assert_eq!(g.premium_subscription_count, 7);
}

#[test]
fn shard_id_of_a_guild() {
    let mut g = base_guild();
    g.id = GuildId(81384788765712384);
    assert_eq!(g.shard_id(17), 7);
    assert_eq!(g.shard_id(1), 0);
    g.id = GuildId(5 << 22);
    assert_eq!(g.shard_id(3), 2);
}
