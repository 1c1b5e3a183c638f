use serenity_guild::guild::{Guild, SystemChannelFlags};
use serenity_guild::id::{ChannelId, GuildId, RoleId, UserId};
use serenity_guild::levels::{
    DefaultMessageNotificationLevel, ExplicitContentFilter, MfaLevel, NsfwLevel, PremiumTier,
    VerificationLevel,
};
use serenity_guild::model::{
    ChannelType, GuildChannel, Member, OnlineStatus, Presence, Role, Timestamp, User,
};
use serenity_guild::permissions::Permissions;
use serenity_guild::text::{
    closest_to_origin, contains_case_insensitive, starts_with_case_insensitive,
};

use std::cmp::Ordering;

fn member(uid: u64, name: &str, nick: Option<&str>) -> Member {
    Member {
        deaf: false,
        guild_id: GuildId(9),
        joined_at: None,
        mute: false,
        nick: nick.map(|n| n.to_string()),
        roles: Vec::new(),
        user: User {
            id: UserId(uid),
            avatar: None,
            bot: false,
            discriminator: 1,
            name: name.to_string(),
        },
        pending: false,
        premium_since: None,
        avatar: None,
        communication_disabled_until: None,
    }
}

fn named_role(id: u64, name: &str) -> Role {
    Role {
        id: RoleId(id),
        guild_id: GuildId(9),
        colour: 0,
        hoist: false,
        managed: false,
        mentionable: false,
        name: name.to_string(),
        permissions: Permissions::empty(),
        position: 0,
    }
}

fn named_channel(id: u64, name: &str) -> GuildChannel {
    GuildChannel {
        id: ChannelId(id),
        guild_id: GuildId(9),
        kind: ChannelType::Text,
        name: name.to_string(),
        position: 0,
        topic: None,
        nsfw: false,
        permission_overwrites: Vec::new(),
    }
}

fn guild(members: Vec<Member>) -> Guild {
    Guild {
        afk_channel_id: None,
        afk_timeout: 0,
        application_id: None,
        channels: Vec::new(),
        default_message_notifications: DefaultMessageNotificationLevel::All,
        emojis: Vec::new(),
        explicit_content_filter: ExplicitContentFilter::Off,
        features: Vec::new(),
        icon: None,
        id: GuildId(9),
        joined_at: Timestamp(0),
        large: false,
        member_count: members.len() as u64,
        members,
        mfa_level: MfaLevel::Off,
        name: "search".to_string(),
        owner_id: UserId(1),
        presences: Vec::new(),
        region: "europe".to_string(),
        roles: Vec::new(),
        splash: None,
        discovery_splash: None,
        system_channel_id: None,
        system_channel_flags: SystemChannelFlags(0),
        rules_channel_id: None,
        public_updates_channel_id: None,
        verification_level: VerificationLevel::Low,
        voice_states: Vec::new(),
        description: None,
        premium_tier: PremiumTier::Tier0,
        premium_subscription_count: 0,
        banner: None,
        vanity_url_code: None,
        preferred_locale: "en-US".to_string(),
        welcome_screen: None,
        approximate_member_count: None,
        approximate_presence_count: None,
        nsfw: false,
        nsfw_level: NsfwLevel::Default,
        max_video_channel_users: None,
        max_presences: None,
        max_members: None,
        widget_enabled: None,
        widget_channel_id: None,
        stage_instances: Vec::new(),
        threads: Vec::new(),
    }
}

fn names(result: &[(&Member, String)]) -> Vec<String> {
    result.iter().map(|(_, n)| n.clone()).collect()
}

fn ids(result: &[(&Member, String)]) -> Vec<u64> {
    result.iter().map(|(m, _)| m.user.id.0).collect()
}

fn users(list: &[&str]) -> Vec<Member> {
    list.iter().enumerate().map(|(i, n)| member(i as u64 + 1, n, None)).collect()
}

#[test]
fn starting_with_sorted_follows_the_documented_order() {
    let g = guild(users(&["zeyzeyzey", "zeyaa", "zeyla", "zeya", "zeyzey", "other"]));
    let r = g.members_starting_with("zey", true, true);
    assert_eq!(names(&r), vec!["zeya", "zeyaa", "zeyla", "zeyzey", "zeyzeyzey"]);
}

#[test]
fn starting_with_unsorted_keeps_member_order() {
    let g = guild(users(&["zeyzeyzey", "zeyla", "azey", "zeya"]));
    let r = g.members_starting_with("zey", true, false);
    assert_eq!(names(&r), vec!["zeyzeyzey", "zeyla", "zeya"]);
    assert_eq!(ids(&r), vec![1, 2, 4]);
}

#[test]
fn starting_with_falls_back_to_the_nickname() {
    let g = guild(vec![member(1, "bob", Some("zeybob")), member(2, "zeyla", Some("nick"))]);
    let r = g.members_starting_with("zey", true, false);
    assert_eq!(names(&r), vec!["zeybob", "zeyla"]);
}

#[test]
fn starting_with_case_insensitive() {
    let g = guild(users(&["ZEYla", "zeyLA", "azey"]));
    assert_eq!(names(&g.members_starting_with("Zey", false, false)), vec!["ZEYla", "zeyLA"]);
    assert!(g.members_starting_with("Zey", true, false).is_empty());
}

#[test]
fn containing_sorted_follows_the_documented_order() {
    let g = guild(users(&["azey", "zey", "zeyla", "zeylaa", "zeyzeyzey", "nobody"]));
    let r = g.members_containing("zey", true, true);
    assert_eq!(names(&r), vec!["zey", "azey", "zeyla", "zeylaa", "zeyzeyzey"]);
}

#[test]
fn containing_prefers_the_username() {
    let g = guild(vec![
        member(1, "zeyla", Some("zeylanick")),
        member(2, "bob", Some("meiyla")),
        member(3, "carl", None),
    ]);
    let r = g.members_containing("yla", true, false);
    assert_eq!(names(&r), vec!["zeyla", "meiyla"]);
    assert_eq!(ids(&r), vec![1, 2]);
}

#[test]
fn containing_case_sensitivity() {
    let g = guild(users(&["zeYLa", "meiyLa", "LYAdenislyA", "zeyla"]));
    assert_eq!(names(&g.members_containing("yla", true, false)), vec!["zeyla"]);
    assert_eq!(
        names(&g.members_containing("yla", false, false)),
        vec!["zeYLa", "meiyLa", "zeyla"]
    );
}

#[test]
fn username_containing_sorted_follows_the_documented_order() {
    let g = guild(users(&["azey", "zey", "zeyla", "zeylaa", "zeyzeyzey"]));
    let r = g.members_username_containing("zey", true, true);
    assert_eq!(names(&r), vec!["zey", "azey", "zeyla", "zeylaa", "zeyzeyzey"]);
}

#[test]
fn username_containing_ignores_nicknames() {
    let g = guild(vec![member(1, "bob", Some("zeyla")), member(2, "meiyla", Some("x"))]);
    let r = g.members_username_containing("yla", true, false);
    assert_eq!(names(&r), vec!["meiyla"]);
}

#[test]
fn username_containing_case_sensitivity() {
    let g = guild(users(&["zeYLa", "meiyla"]));
    assert_eq!(names(&g.members_username_containing("yla", true, false)), vec!["meiyla"]);
    assert_eq!(
        names(&g.members_username_containing("yla", false, false)),
        vec!["zeYLa", "meiyla"]
    );
}

#[test]
fn nick_containing_uses_nick_or_username() {
    let g = guild(vec![
        member(1, "zeyla", Some("bob")),
        member(2, "carl", Some("zeynick")),
        member(3, "azey", None),
    ]);
    let r = g.members_nick_containing("zey", true, true);
    assert_eq!(names(&r), vec!["azey", "zeynick"]);
    assert_eq!(ids(&r), vec![3, 2]);
}

#[test]
fn nick_containing_case_insensitive() {
    let g = guild(vec![member(1, "a", Some("ZEYla")), member(2, "b", Some("nope"))]);
    assert_eq!(names(&g.members_nick_containing("yla", false, false)), vec!["ZEYla"]);
    assert!(g.members_nick_containing("yla", true, false).is_empty());
}

#[test]
fn members_with_status_in_member_order() {
    let mut g = guild(users(&["a", "b", "c", "d"]));
    g.presences = vec![
        Presence { user_id: UserId(3), status: OnlineStatus::Online },
        Presence { user_id: UserId(1), status: OnlineStatus::Online },
        Presence { user_id: UserId(2), status: OnlineStatus::Idle },
    ];
    let online: Vec<u64> = g.members_with_status(OnlineStatus::Online).iter().map(|m| m.user.id.0).collect();
    assert_eq!(online, vec![1, 3]);
    let idle: Vec<u64> = g.members_with_status(OnlineStatus::Idle).iter().map(|m| m.user.id.0).collect();
    assert_eq!(idle, vec![2]);
    assert!(g.members_with_status(OnlineStatus::Offline).is_empty());
}

#[test]
fn role_by_name_finds_the_first() {
    let mut g = guild(Vec::new());
    g.roles = vec![named_role(1, "mods"), named_role(2, "admins"), named_role(3, "mods")];
    assert_eq!(g.role_by_name("mods").unwrap().id, RoleId(1));
    assert_eq!(g.role_by_name("admins").unwrap().id, RoleId(2));
    assert!(g.role_by_name("Mods").is_none());
}

#[test]
fn channel_id_from_name_finds_the_first() {
    let mut g = guild(Vec::new());
    g.channels = vec![named_channel(10, "general"), named_channel(11, "memes"), named_channel(12, "general")];
    assert_eq!(g.channel_id_from_name("general"), Some(ChannelId(10)));
    assert_eq!(g.channel_id_from_name("memes"), Some(ChannelId(11)));
    assert_eq!(g.channel_id_from_name("gen"), None);
}

#[test]
fn case_insensitive_helpers() {
    assert!(contains_case_insensitive("ZEYLA", "yla"));
    assert!(contains_case_insensitive("zeyla", "YLA"));
    assert!(!contains_case_insensitive("zeyla", "ylb"));
    assert!(starts_with_case_insensitive("Zeyla", "zEY"));
    assert!(!starts_with_case_insensitive("azeyla", "zey"));
}

#[test]
fn closest_to_origin_orders_by_match_end() {
    assert_eq!(closest_to_origin("zey", "zey", "azey"), Ordering::Less);
    assert_eq!(closest_to_origin("zey", "azey", "zeylaa"), Ordering::Less);
    assert_eq!(closest_to_origin("zey", "azey", "zeyla"), Ordering::Equal);
    assert_eq!(closest_to_origin("zey", "zeyzeyzey", "zeyla"), Ordering::Greater);
    assert_eq!(closest_to_origin("zey", "bob", "zey"), Ordering::Greater);
    assert_eq!(closest_to_origin("zey", "zey", "bob"), Ordering::Less);
}

#[test]
fn sorting_keeps_equally_close_entries_in_order() {
    let g = guild(users(&["zeyb", "zeyzey", "zeya", "azey"]));
    let unsorted = g.members_containing("zey", true, false);
    assert_eq!(names(&unsorted), vec!["zeyb", "zeyzey", "zeya", "azey"]);
    let sorted = g.members_containing("zey", true, true);
    assert_eq!(names(&sorted), vec!["zeyb", "zeya", "azey", "zeyzey"]);
    let sorted = g.members_starting_with("zey", true, true);
    assert_eq!(names(&sorted), vec!["zeyb", "zeya", "zeyzey"]);
}
