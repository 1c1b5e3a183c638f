use serenity_guild::access::find_role;
use serenity_guild::error::ModelError;
use serenity_guild::hierarchy::find_member;
use serenity_guild::guild::{Guild, SystemChannelFlags};
use serenity_guild::id::{GuildId, RoleId, UserId};
use serenity_guild::levels::{
    DefaultMessageNotificationLevel, ExplicitContentFilter, MfaLevel, NsfwLevel, PremiumTier,
    VerificationLevel,
};
use serenity_guild::model::{Member, Role, Timestamp, User};
use serenity_guild::permissions::Permissions;

fn role(id: u64, position: i64) -> Role {
    Role {
        id: RoleId(id),
        guild_id: GuildId(1),
        colour: 0,
        hoist: false,
        managed: false,
        mentionable: false,
        name: format!("r{}", id),
        permissions: Permissions::empty(),
        position,
    }
}

fn member(uid: u64, roles: &[u64]) -> Member {
    Member {
        deaf: false,
        guild_id: GuildId(1),
        joined_at: None,
        mute: false,
        nick: None,
        roles: roles.iter().map(|r| RoleId(*r)).collect(),
        user: User { id: UserId(uid), avatar: None, bot: false, discriminator: 0, name: format!("u{}", uid) },
        pending: false,
        premium_since: None,
        avatar: None,
        communication_disabled_until: None,
    }
}

fn guild(members: Vec<Member>, roles: Vec<Role>) -> Guild {
    Guild {
        afk_channel_id: None,
        afk_timeout: 0,
        application_id: None,
        channels: Vec::new(),
        default_message_notifications: DefaultMessageNotificationLevel::All,
        emojis: Vec::new(),
        explicit_content_filter: ExplicitContentFilter::Off,
        features: Vec::new(),
        icon: None,
        id: GuildId(1),
        joined_at: Timestamp(0),
        large: false,
        member_count: 0,
        members,
        mfa_level: MfaLevel::Off,
        name: "g".to_string(),
        owner_id: UserId(1),
        presences: Vec::new(),
        region: String::new(),
        roles,
        splash: None,
        discovery_splash: None,
        system_channel_id: None,
        system_channel_flags: SystemChannelFlags(0),
        rules_channel_id: None,
        public_updates_channel_id: None,
        verification_level: VerificationLevel::Off,
        voice_states: Vec::new(),
        description: None,
        premium_tier: PremiumTier::Tier0,
        premium_subscription_count: 0,
        banner: None,
        vanity_url_code: None,
        preferred_locale: String::new(),
        welcome_screen: None,
        approximate_member_count: None,
        approximate_presence_count: None,
        nsfw: false,
        nsfw_level: NsfwLevel::Default,
        max_video_channel_users: None,
        max_presences: None,
        max_members: None,
        widget_enabled: None,
        widget_channel_id: None,
        stage_instances: Vec::new(),
        threads: Vec::new(),
    }
}

fn sample() -> Guild {
    guild(
        vec![
            member(10, &[20, 21]),
            member(11, &[22]),
            member(12, &[23]),
            member(13, &[]),
            member(14, &[99]),
            member(15, &[21]),
        ],
        vec![role(20, 1), role(21, 5), role(22, 3), role(23, 5), role(1, 0)],
    )
}

#[test]
fn same_user_has_no_winner() {
    assert_eq!(sample().greater_member_hierarchy(UserId(10), UserId(10)), None);
    assert_eq!(sample().greater_member_hierarchy(UserId(1), UserId(1)), None);
}

#[test]
fn owner_wins() {
    let g = sample();
    assert_eq!(g.greater_member_hierarchy(UserId(1), UserId(10)), Some(UserId(1)));
    assert_eq!(g.greater_member_hierarchy(UserId(10), UserId(1)), Some(UserId(1)));
    // Even a user who is not a member loses to the owner.
    assert_eq!(g.greater_member_hierarchy(UserId(77), UserId(1)), Some(UserId(1)));
}

#[test]
fn higher_position_wins_either_way() {
    let g = sample();
    assert_eq!(g.greater_member_hierarchy(UserId(10), UserId(11)), Some(UserId(10)));
    assert_eq!(g.greater_member_hierarchy(UserId(11), UserId(10)), Some(UserId(10)));
}

#[test]
fn equal_position_lower_role_id_wins() {
    let g = sample();
    assert_eq!(g.greater_member_hierarchy(UserId(10), UserId(12)), Some(UserId(10)));
    assert_eq!(g.greater_member_hierarchy(UserId(12), UserId(10)), Some(UserId(10)));
}

#[test]
fn shared_highest_role_has_no_winner() {
    let g = sample();
    assert_eq!(g.greater_member_hierarchy(UserId(10), UserId(15)), None);
}

#[test]
fn members_without_roles_have_no_winner() {
    let g = sample();
    assert_eq!(g.greater_member_hierarchy(UserId(13), UserId(14)), None);
    assert_eq!(g.greater_member_hierarchy(UserId(13), UserId(11)), Some(UserId(11)));
}

#[test]
fn missing_member_has_no_winner() {
    let g = sample();
    assert_eq!(g.greater_member_hierarchy(UserId(10), UserId(77)), None);
    assert_eq!(g.greater_member_hierarchy(UserId(77), UserId(10)), None);
}

#[test]
fn highest_role_info_picks_top_position_then_lowest_id() {
    let g = sample();
    assert_eq!(g.members[0].highest_role_info(&g.roles), Some((RoleId(21), 5)));
    let m = member(16, &[23, 21, 20]);
    assert_eq!(m.highest_role_info(&g.roles), Some((RoleId(21), 5)));
    assert_eq!(member(17, &[99]).highest_role_info(&g.roles), None);
}

#[test]
fn check_hierarchy_refuses_acting_on_a_higher_member() {
    let g = sample();
    assert_eq!(g.check_hierarchy(UserId(11), UserId(10)), Err(ModelError::Hierarchy));
    assert_eq!(g.check_hierarchy(UserId(10), UserId(11)), Ok(()));
    assert_eq!(g.check_hierarchy(UserId(10), UserId(15)), Ok(()));
    assert_eq!(g.check_hierarchy(UserId(1), UserId(10)), Ok(()));
}

#[test]
fn lookup_by_id_finds_that_entry() {
    let g = sample();
    for m in &g.members {
        let found = find_member(&g.members, m.user.id).unwrap();
        assert_eq!(found.user.id, m.user.id);
        assert_eq!(found.roles, m.roles);
    }
    for r in &g.roles {
        assert_eq!(find_role(&g.roles, r.id).unwrap().position, r.position);
    }
    assert!(find_member(&g.members, UserId(77)).is_none());
    assert!(find_role(&g.roles, RoleId(77)).is_none());
}
