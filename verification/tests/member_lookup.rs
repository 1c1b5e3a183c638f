use serenity_guild::guild::{Guild, SystemChannelFlags};
use serenity_guild::id::{ApplicationId, ChannelId, GuildId, UserId};
use serenity_guild::levels::{
    DefaultMessageNotificationLevel, ExplicitContentFilter, MfaLevel, NsfwLevel, PremiumTier,
    VerificationLevel,
};
use serenity_guild::model::{Member, Timestamp, User};

use chrono::{FixedOffset, TimeZone, Utc};

fn joined_at() -> Timestamp {
    let dt = FixedOffset::east_opt(5 * 3600)
        .unwrap()
        .with_ymd_and_hms(2016, 11, 8, 0, 0, 0)
        .unwrap()
        .with_timezone(&Utc);
    Timestamp(dt.timestamp_millis())
}

fn gen_user() -> User {
    User::default()
}

fn gen_member() -> Member {
    Member {
        deaf: false,
        guild_id: GuildId(1),
        joined_at: Some(joined_at()),
        mute: false,
        nick: Some("aaaa".to_string()),
        roles: Vec::new(),
        user: gen_user(),
        pending: false,
        premium_since: None,
        avatar: None,
        communication_disabled_until: None,
    }
}

fn gen() -> Guild {
    let m = gen_member();
    Guild {
        afk_channel_id: Some(ChannelId(0)),
        afk_timeout: 0,
        application_id: Some(ApplicationId(0)),
        channels: Vec::new(),
        default_message_notifications: DefaultMessageNotificationLevel::All,
        emojis: Vec::new(),
        explicit_content_filter: ExplicitContentFilter::Off,
        features: Vec::new(),
        icon: Some("/avatars/210/a_aaa.webp?size=1024".to_string()),
        id: GuildId(1),
        joined_at: joined_at(),
        large: false,
        member_count: 1,
        members: vec![m],
        mfa_level: MfaLevel::Elevated,
        name: "Spaghetti".to_string(),
        owner_id: UserId(210),
        presences: Vec::new(),
        region: "NA".to_string(),
        roles: Vec::new(),
        splash: Some("asdf".to_string()),
        discovery_splash: None,
        system_channel_id: Some(ChannelId(0)),
        system_channel_flags: SystemChannelFlags(0),
        rules_channel_id: None,
        public_updates_channel_id: None,
        verification_level: VerificationLevel::Off,
        voice_states: Vec::new(),
        description: None,
        premium_tier: PremiumTier::Tier1,
        premium_subscription_count: 12,
        banner: None,
        vanity_url_code: Some("bruhmoment".to_string()),
        preferred_locale: "en-US".to_string(),
        welcome_screen: None,
        approximate_member_count: None,
        approximate_presence_count: None,
        nsfw: false,
        nsfw_level: NsfwLevel::Default,
        max_video_channel_users: None,
        max_presences: None,
        max_members: None,
        widget_enabled: Some(false),
        widget_channel_id: None,
        stage_instances: vec![],
        threads: vec![],
    }
}

#[test]
fn member_named_username() {
    let guild = gen();
    let lhs = guild.member_named("test#1432").unwrap().display_name();

    assert_eq!(lhs, gen_member().display_name());
}

#[test]
fn member_named_nickname() {
    let guild = gen();
    let lhs = guild.member_named("aaaa").unwrap().display_name();

    assert_eq!(lhs, gen_member().display_name());
}

#[test]
fn member_named_plain_username() {
    let guild = gen();
    assert_eq!(guild.member_named("test").unwrap().user.id, UserId(210));
}

#[test]
fn member_named_wrong_discriminator_is_not_found() {
    let guild = gen();
    assert!(guild.member_named("test#1433").is_none());
}

#[test]
fn member_named_discriminator_with_plus_sign() {
    let guild = gen();
    assert!(guild.member_named("test#+1432").is_some());
}

#[test]
fn member_named_unparsable_discriminator_searches_whole_text() {
    let mut guild = gen();
    guild.members[0].user.name = "a#b".to_string();
    guild.members[0].nick = None;
    assert!(guild.member_named("a#b").is_some());
    guild.members[0].user.name = "a#99999".to_string();
    assert!(guild.member_named("a#99999").is_some());
}

#[test]
fn member_named_nickname_keeps_the_hash_part() {
    let mut guild = gen();
    guild.members[0].nick = Some("nick#12".to_string());
    assert!(guild.member_named("nick#12").is_some());
    assert!(guild.member_named("nick").is_none());
}

#[test]
fn member_named_missing() {
    let guild = gen();
    assert!(guild.member_named("nobody").is_none());
}

#[test]
fn display_name_falls_back_to_username() {
    let mut m = gen_member();
    m.nick = None;
    assert_eq!(m.display_name(), "test");
}

#[test]
fn default_user() {
    let u = User::default();
    assert_eq!(u.id, UserId(210));
    assert_eq!(u.avatar.as_deref(), Some("abc"));
    assert!(u.bot);
    assert_eq!(u.discriminator, 1432);
    assert_eq!(u.name, "test");
}

#[test]
fn is_large_counts_members() {
    let mut guild = gen();
    assert!(!guild.is_large());
    let m = gen_member();
    guild.members = (0..250).map(|_| m.clone()).collect();
    assert!(!guild.is_large());
    guild.members.push(m);
    assert!(guild.is_large());
}
