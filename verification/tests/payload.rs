use serenity_guild::guild::{Guild, SystemChannelFlags};
use serenity_guild::id::{ChannelId, GuildId, RoleId, UserId};
use serenity_guild::levels::{
    DefaultMessageNotificationLevel, ExplicitContentFilter, MfaLevel, NsfwLevel, PremiumTier,
    VerificationLevel,
};
use serenity_guild::model::{
    ChannelType, GuildChannel, Member, OnlineStatus, Presence, Role, Timestamp, User,
};
use serenity_guild::payload::{GuildFields, MissingField};
use serenity_guild::permissions::Permissions;

fn member(uid: u64, nick: &str) -> Member {
    Member {
        deaf: false,
        guild_id: GuildId(5),
        joined_at: None,
        mute: false,
        nick: Some(nick.to_string()),
        roles: Vec::new(),
        user: User { id: UserId(uid), avatar: None, bot: false, discriminator: 1, name: "u".to_string() },
        pending: false,
        premium_since: None,
        avatar: None,
        communication_disabled_until: None,
    }
}

fn role(id: u64, name: &str) -> Role {
    Role {
        id: RoleId(id),
        guild_id: GuildId(5),
        colour: 0,
        hoist: false,
        managed: false,
        mentionable: false,
        name: name.to_string(),
        permissions: Permissions::empty(),
        position: 0,
    }
}

fn channel(id: u64, name: &str) -> GuildChannel {
    GuildChannel {
        id: ChannelId(id),
        guild_id: GuildId(5),
        kind: ChannelType::Text,
        name: name.to_string(),
        position: 0,
        topic: None,
        nsfw: false,
        permission_overwrites: Vec::new(),
    }
}

fn fields() -> GuildFields {
    GuildFields {
        id_text: None,
        afk_channel_id: None,
        afk_timeout: Some(300),
        application_id: None,
        channels: Some(vec![channel(1, "a"), channel(2, "b")]),
        default_message_notifications: Some(DefaultMessageNotificationLevel::Mentions),
        emojis: Some(Vec::new()),
        explicit_content_filter: Some(ExplicitContentFilter::All),
        features: Some(vec!["COMMUNITY".to_string()]),
        icon: Some("ic".to_string()),
        id: Some(GuildId(5)),
        joined_at: Some(Timestamp(1000)),
        large: Some(false),
        member_count: Some(2),
        members: Some(vec![member(10, "first"), member(11, "other")]),
        mfa_level: Some(MfaLevel::Elevated),
        name: Some("guild".to_string()),
        owner_id: Some(UserId(10)),
        presences: Some(vec![Presence { user_id: UserId(10), status: OnlineStatus::Online }]),
        region: Some("europe".to_string()),
        roles: Some(vec![role(5, "@everyone")]),
        splash: None,
        system_channel_id: Some(ChannelId(1)),
        verification_level: Some(VerificationLevel::Medium),
        voice_states: Some(Vec::new()),
        description: None,
        premium_tier: None,
        premium_subscription_count: None,
        banner: None,
        vanity_url_code: None,
        preferred_locale: Some("en-US".to_string()),
        welcome_screen: None,
        approximate_member_count: None,
        approximate_presence_count: None,
        max_video_channel_users: None,
        max_presences: None,
        max_members: Some(100),
        discovery_splash: None,
        nsfw: Some(false),
        nsfw_level: Some(NsfwLevel::Safe),
        widget_enabled: None,
        widget_channel_id: None,
        rules_channel_id: None,
        public_updates_channel_id: None,
        system_channel_flags: Some(SystemChannelFlags(3)),
        stage_instances: None,
        threads: None,
    }
}

#[test]
fn guild_from_complete_fields() {
    let g = Guild::from_fields(fields()).unwrap();
    assert_eq!(g.id, GuildId(5));
    assert_eq!(g.afk_timeout, 300);
    assert_eq!(g.name, "guild");
    assert_eq!(g.owner_id, UserId(10));
    assert_eq!(g.members.len(), 2);
    assert_eq!(g.channels.len(), 2);
    assert_eq!(g.preferred_locale, "en-US");
    assert_eq!(g.system_channel_flags, SystemChannelFlags(3));
    assert_eq!(g.max_members, Some(100));
    assert_eq!(g.nsfw_level, NsfwLevel::Safe);
    assert_eq!(g.verification_level, VerificationLevel::Medium);
}

#[test]
fn absent_optional_fields_take_their_defaults() {
    let g = Guild::from_fields(fields()).unwrap();
    assert_eq!(g.premium_tier, PremiumTier::Tier0);
    assert_eq!(g.premium_subscription_count, 0);
    assert!(g.stage_instances.is_empty());
    assert!(g.threads.is_empty());
    assert_eq!(PremiumTier::default(), PremiumTier::Tier0);

    let mut f = fields();
    f.premium_tier = Some(PremiumTier::Tier2);
    f.premium_subscription_count = Some(9);
    f.threads = Some(vec![channel(40, "thread")]);
    let g = Guild::from_fields(f).unwrap();
    assert_eq!(g.premium_tier, PremiumTier::Tier2);
    assert_eq!(g.premium_subscription_count, 9);
    assert_eq!(g.threads.len(), 1);
}

#[test]
fn the_first_missing_field_is_reported() {
    let mut f = fields();
    f.name = None;
    f.nsfw = None;
    assert_eq!(Guild::from_fields(f).err(), Some(MissingField::Name));

    let mut f = fields();
    f.afk_timeout = None;
    f.id = None;
    assert_eq!(Guild::from_fields(f).err(), Some(MissingField::AfkTimeout));

    let mut f = fields();
    f.preferred_locale = None;
    let e = Guild::from_fields(f).err().unwrap();
    assert_eq!(e, MissingField::PreferredLocale);
    assert_eq!(e.message(), "expected preferred locale");

    let mut f = fields();
    f.system_channel_flags = None;
    assert_eq!(Guild::from_fields(f).err(), Some(MissingField::SystemChannelFlags));
    assert_eq!(MissingField::Id.message(), "expected guild id");
}

#[test]
fn keyed_lists_keep_the_last_entry_per_id() {
    let mut f = fields();
    f.members = Some(vec![member(10, "first"), member(11, "other"), member(10, "second")]);
    f.roles = Some(vec![role(5, "a"), role(6, "b"), role(5, "c"), role(5, "d")]);
    f.channels = Some(vec![channel(2, "x"), channel(2, "y")]);
    let g = Guild::from_fields(f).unwrap();
    let members: Vec<(u64, String)> =
        g.members.iter().map(|m| (m.user.id.0, m.nick.clone().unwrap())).collect();
    assert_eq!(members, vec![(10, "second".to_string()), (11, "other".to_string())]);
    let roles: Vec<(u64, String)> = g.roles.iter().map(|r| (r.id.0, r.name.clone())).collect();
    assert_eq!(roles, vec![(5, "d".to_string()), (6, "b".to_string())]);
    assert_eq!(g.channels.len(), 1);
    assert_eq!(g.channels[0].name, "y");
    assert_eq!(g.member_named("second").map(|m| m.user.id), Some(UserId(10)));
}

#[test]
fn a_text_guild_id_is_given_to_channels_members_and_roles() {
    let mut f = fields();
    f.id_text = Some("77".to_string());
    f.channels = Some(vec![channel(1, "a")]);
    let g = Guild::from_fields(f).unwrap();
    assert!(g.channels.iter().all(|c| c.guild_id == GuildId(77)));
    assert!(g.members.iter().all(|m| m.guild_id == GuildId(77)));
    assert!(g.roles.iter().all(|r| r.guild_id == GuildId(77)));
    assert_eq!(g.channels[0].name, "a");

    let mut f = fields();
    f.id_text = Some("+12".to_string());
    let g = Guild::from_fields(f).unwrap();
    assert!(g.members.iter().all(|m| m.guild_id == GuildId(12)));

    for text in [None, Some("abc".to_string()), Some("18446744073709551616".to_string())] {
        let mut f = fields();
        f.id_text = text;
        let g = Guild::from_fields(f).unwrap();
        assert!(g.members.iter().all(|m| m.guild_id == GuildId(5)));
        assert!(g.channels.iter().all(|c| c.guild_id == GuildId(5)));
    }
}
