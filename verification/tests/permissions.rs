use serenity_guild::access::GuildAction;
use serenity_guild::error::{Error, ModelError};
use serenity_guild::guild::{Guild, SystemChannelFlags};
use serenity_guild::id::{ChannelId, GuildId, RoleId, UserId};
use serenity_guild::levels::{
    DefaultMessageNotificationLevel, ExplicitContentFilter, MfaLevel, NsfwLevel, PremiumTier,
    VerificationLevel,
};
use serenity_guild::model::{
    ChannelType, GuildChannel, Member, PermissionOverwrite, PermissionOverwriteType, Role,
    Timestamp, User,
};
use serenity_guild::permissions::{Permissions, ALL_BITS, VOICE_PERMISSIONS};

const GID: u64 = 100;
const OWNER: u64 = 1;

fn p(bits: u64) -> Permissions {
    Permissions::from_bits_truncate(bits)
}

fn role(id: u64, bits: u64, position: i64) -> Role {
    Role {
        id: RoleId(id),
        guild_id: GuildId(GID),
        colour: 0,
        hoist: false,
        managed: false,
        mentionable: false,
        name: format!("role{}", id),
        permissions: p(bits),
        position,
    }
}

fn member(uid: u64, roles: Vec<u64>) -> Member {
    Member {
        deaf: false,
        guild_id: GuildId(GID),
        joined_at: None,
        mute: false,
        nick: None,
        roles: roles.into_iter().map(RoleId).collect(),
        user: User {
            id: UserId(uid),
            avatar: None,
            bot: false,
            discriminator: 1,
            name: format!("user{}", uid),
        },
        pending: false,
        premium_since: None,
        avatar: None,
        communication_disabled_until: None,
    }
}

fn channel(id: u64, kind: ChannelType, overwrites: Vec<PermissionOverwrite>) -> GuildChannel {
    GuildChannel {
        id: ChannelId(id),
        guild_id: GuildId(GID),
        kind,
        name: format!("channel{}", id),
        position: 0,
        topic: None,
        nsfw: false,
        permission_overwrites: overwrites,
    }
}

fn role_ow(rid: u64, allow: u64, deny: u64) -> PermissionOverwrite {
    PermissionOverwrite { allow: p(allow), deny: p(deny), kind: PermissionOverwriteType::Role(RoleId(rid)) }
}

fn member_ow(uid: u64, allow: u64, deny: u64) -> PermissionOverwrite {
    PermissionOverwrite {
        allow: p(allow),
        deny: p(deny),
        kind: PermissionOverwriteType::Member(UserId(uid)),
    }
}

const READ: u64 = Permissions::READ_MESSAGES;
const SEND: u64 = Permissions::SEND_MESSAGES;
const KICK: u64 = Permissions::KICK_MEMBERS;
const MANAGE_MESSAGES: u64 = Permissions::MANAGE_MESSAGES;

fn roles() -> Vec<Role> {
    vec![
        role(GID, READ | SEND, 0),
        role(5, KICK | MANAGE_MESSAGES, 2),
        role(6, Permissions::ADMINISTRATOR, 3),
        role(7, Permissions::EMBED_LINKS, 1),
    ]
}

fn guild(members: Vec<Member>, channels: Vec<GuildChannel>) -> Guild {
    Guild {
        afk_channel_id: None,
        afk_timeout: 300,
        application_id: None,
        channels,
        default_message_notifications: DefaultMessageNotificationLevel::Mentions,
        emojis: Vec::new(),
        explicit_content_filter: ExplicitContentFilter::All,
        features: Vec::new(),
        icon: None,
        id: GuildId(GID),
        joined_at: Timestamp(0),
        large: false,
        member_count: members.len() as u64,
        members,
        mfa_level: MfaLevel::Off,
        name: "guild".to_string(),
        owner_id: UserId(OWNER),
        presences: Vec::new(),
        region: "us-west".to_string(),
        roles: roles(),
        splash: None,
        discovery_splash: None,
        system_channel_id: None,
        system_channel_flags: SystemChannelFlags(0),
        rules_channel_id: None,
        public_updates_channel_id: None,
        verification_level: VerificationLevel::Low,
        voice_states: Vec::new(),
        description: None,
        premium_tier: PremiumTier::Tier0,
        premium_subscription_count: 0,
        banner: None,
        vanity_url_code: None,
        preferred_locale: "en-US".to_string(),
        welcome_screen: None,
        approximate_member_count: None,
        approximate_presence_count: None,
        nsfw: false,
        nsfw_level: NsfwLevel::Safe,
        max_video_channel_users: None,
        max_presences: None,
        max_members: None,
        widget_enabled: None,
        widget_channel_id: None,
        stage_instances: Vec::new(),
        threads: Vec::new(),
    }
}

#[test]
fn owner_has_all_but_voice_in_text_channel() {
    let g = guild(vec![], vec![]);
    let c = channel(300, ChannelType::Text, vec![member_ow(OWNER, 0, READ)]);
    let r = g.user_permissions_in(&c, &member(OWNER, vec![])).unwrap();
    assert_eq!(r.bits(), ALL_BITS & !VOICE_PERMISSIONS);
    let v = channel(301, ChannelType::Voice, vec![]);
    assert_eq!(g.user_permissions_in(&v, &member(OWNER, vec![])).unwrap().bits(), ALL_BITS);
}

#[test]
fn administrator_has_all_permissions() {
    let g = guild(vec![], vec![]);
    let c = channel(300, ChannelType::Text, vec![role_ow(6, 0, ALL_BITS)]);
    let r = g.user_permissions_in(&c, &member(42, vec![6])).unwrap();
    assert_eq!(r.bits(), ALL_BITS & !VOICE_PERMISSIONS);
}

#[test]
fn everyone_and_member_roles_are_joined() {
    let g = guild(vec![], vec![]);
    let c = channel(300, ChannelType::Text, vec![]);
    let r = g.user_permissions_in(&c, &member(42, vec![5])).unwrap();
    assert_eq!(r.bits(), READ | SEND | KICK | MANAGE_MESSAGES);
}

#[test]
fn role_overwrites_apply_from_lowest_position() {
    let g = guild(vec![], vec![]);
    // In channel order the role of position 2 comes first; it must still apply last.
    let c = channel(300, ChannelType::Text, vec![role_ow(5, 0, SEND), role_ow(GID, SEND, 0)]);
    let r = g.user_permissions_in(&c, &member(42, vec![5])).unwrap();
    assert_eq!(r.bits(), READ | KICK | MANAGE_MESSAGES);
}

#[test]
fn overwrites_of_roles_the_member_lacks_are_ignored() {
    let g = guild(vec![], vec![]);
    let c = channel(300, ChannelType::Text, vec![role_ow(7, 0, READ | SEND)]);
    let r = g.user_permissions_in(&c, &member(42, vec![5])).unwrap();
    assert_eq!(r.bits(), READ | SEND | KICK | MANAGE_MESSAGES);
}

#[test]
fn member_overwrite_applies_after_roles_and_unusable_go() {
    let g = guild(vec![], vec![]);
    let c = channel(300, ChannelType::Text, vec![member_ow(42, 0, READ), role_ow(5, READ, 0)]);
    let r = g.user_permissions_in(&c, &member(42, vec![5])).unwrap();
    // Without reading, kicking is of no use and goes too.
    assert_eq!(r.bits(), SEND | MANAGE_MESSAGES);
}

#[test]
fn default_channel_is_always_readable() {
    let g = guild(vec![], vec![]);
    let c = channel(GID, ChannelType::Text, vec![member_ow(42, 0, READ)]);
    let r = g.user_permissions_in(&c, &member(42, vec![5])).unwrap();
    assert_eq!(r.bits(), READ | SEND | KICK | MANAGE_MESSAGES);
}

#[test]
fn missing_member_role_is_an_error() {
    let g = guild(vec![], vec![]);
    let c = channel(300, ChannelType::Text, vec![]);
    assert_eq!(g.user_permissions_in(&c, &member(42, vec![5, 99])), Err(ModelError::RoleNotFound));
}

#[test]
fn missing_everyone_role_is_an_error() {
    let mut g = guild(vec![], vec![]);
    g.roles.remove(0);
    let c = channel(300, ChannelType::Text, vec![]);
    assert_eq!(g.user_permissions_in(&c, &member(42, vec![5])), Err(ModelError::RoleNotFound));
    // The owner needs no role.
    assert!(g.user_permissions_in(&c, &member(OWNER, vec![])).is_ok());
}

#[test]
fn role_permissions_apply_the_role_overwrite() {
    let g = guild(vec![], vec![]);
    let c = channel(300, ChannelType::Text, vec![role_ow(5, Permissions::EMBED_LINKS, 0)]);
    let r = g.role_permissions_in(&c, &roles()[1]).unwrap();
    // Embedding needs sending, kicking needs reading: both go.
    assert_eq!(r.bits(), MANAGE_MESSAGES);
    let r = g.role_permissions_in(&c, &roles()[0]).unwrap();
    assert_eq!(r.bits(), READ | SEND);
}

#[test]
fn role_permissions_of_administrator() {
    let g = guild(vec![], vec![]);
    let c = channel(300, ChannelType::Text, vec![]);
    let r = g.role_permissions_in(&c, &roles()[2]).unwrap();
    assert_eq!(r.bits(), ALL_BITS & !VOICE_PERMISSIONS);
}

#[test]
fn role_permissions_from_another_guild_fail() {
    let g = guild(vec![], vec![]);
    let c = channel(300, ChannelType::Text, vec![]);
    let mut r = roles()[1].clone();
    r.guild_id = GuildId(7);
    assert_eq!(g.role_permissions_in(&c, &r), Err(ModelError::WrongGuild));
    let mut c2 = c.clone();
    c2.guild_id = GuildId(7);
    assert_eq!(g.role_permissions_in(&c2, &roles()[1]), Err(ModelError::WrongGuild));
}

#[test]
fn guild_permissions_of_members() {
    let g = guild(vec![], vec![]);
    assert_eq!(
        g._member_permission_from_member(&member(42, vec![5, 99])).bits(),
        READ | SEND | KICK | MANAGE_MESSAGES
    );
    assert_eq!(g._member_permission_from_member(&member(42, vec![7, 6])).bits(), ALL_BITS);
    assert_eq!(g._member_permission_from_member(&member(OWNER, vec![])).bits(), ALL_BITS);
    let mut g2 = guild(vec![], vec![]);
    g2.roles.remove(0);
    assert!(g2._member_permission_from_member(&member(42, vec![5])).is_empty());
}

#[test]
fn member_permissions_and_has_perms() {
    let g = guild(vec![member(42, vec![5]), member(43, vec![])], vec![]);
    assert_eq!(g.member_permissions(UserId(OWNER), None).unwrap().bits(), ALL_BITS);
    assert_eq!(g.member_permissions(UserId(42), None).unwrap().bits(), READ | SEND | KICK | MANAGE_MESSAGES);
    assert!(g.member_permissions(UserId(44), None).is_none());
    assert!(g.has_perms(UserId(42), None, p(KICK | READ)));
    assert!(!g.has_perms(UserId(42), None, p(Permissions::BAN_MEMBERS)));
    assert!(!g.has_perms(UserId(44), None, Permissions::empty()));
}

#[test]
fn permission_checks() {
    let g = guild(vec![member(42, vec![5]), member(43, vec![])], vec![]);
    let ban = p(Permissions::BAN_MEMBERS);
    assert_eq!(g.check_permissions(None, None, ban), Ok(()));
    assert_eq!(g.check_permissions(Some(UserId(OWNER)), None, ban), Ok(()));
    assert_eq!(g.check_permissions(Some(UserId(42)), None, ban), Err(ModelError::InvalidPermissions(ban)));
    assert_eq!(g.check_permissions(Some(UserId(42)), None, p(KICK)), Ok(()));
    assert_eq!(g.check_delete(None), Ok(()));
    assert_eq!(g.check_delete(Some(UserId(OWNER))), Ok(()));
    assert_eq!(
        g.check_delete(Some(UserId(42))),
        Err(ModelError::InvalidUser)
    );
}

#[test]
fn ban_checks() {
    let g = guild(vec![member(42, vec![5]), member(43, vec![6])], vec![]);
    let ban = p(Permissions::BAN_MEMBERS);
    assert!(matches!(g.check_ban(None, None, UserId(42), 7, ""), Ok(())));
    assert!(matches!(
        g.check_ban(Some(UserId(42)), None, UserId(43), 0, ""),
        Err(Error::Model(ModelError::InvalidPermissions(x))) if x == ban
    ));
    // The administrator may ban, but not the owner, who outranks everyone.
    assert!(matches!(
        g.check_ban(Some(UserId(43)), None, UserId(OWNER), 0, ""),
        Err(Error::Model(ModelError::Hierarchy))
    ));
    assert!(matches!(g.check_ban(Some(UserId(43)), None, UserId(42), 0, "spam"), Ok(())));
    assert!(matches!(
        g.check_ban(Some(UserId(43)), None, UserId(42), 8, ""),
        Err(Error::Model(ModelError::DeleteMessageDaysAmount(8)))
    ));
    let long = "x".repeat(513);
    match g.check_ban(None, None, UserId(42), 0, &long) {
        Err(Error::ExceededLimit(text, 512)) => assert_eq!(text, long),
        other => panic!("unexpected {:?}", other),
    }
    assert!(matches!(g.check_ban(None, None, UserId(42), 0, &"x".repeat(512)), Ok(())));
}

#[test]
fn default_channel_for_member() {
    let hidden = channel(300, ChannelType::Text, vec![role_ow(GID, 0, READ)]);
    let open = channel(301, ChannelType::Text, vec![]);
    let g = guild(vec![member(42, vec![5])], vec![hidden.clone(), open]);
    assert_eq!(g.default_channel(UserId(42)).unwrap().id, ChannelId(301));
    assert!(g.default_channel(UserId(44)).is_none());
    let g2 = guild(vec![member(42, vec![5])], vec![hidden]);
    assert!(g2.default_channel(UserId(42)).is_none());
    // A permission error stops the search.
    let g3 = guild(vec![member(42, vec![99])], vec![channel(301, ChannelType::Text, vec![])]);
    assert!(g3.default_channel(UserId(42)).is_none());
}

#[test]
fn default_channel_guaranteed_is_readable_by_everyone() {
    let hidden = channel(300, ChannelType::Text, vec![role_ow(GID, 0, READ), member_ow(43, READ, 0)]);
    let closed = channel(302, ChannelType::Text, vec![role_ow(GID, 0, READ)]);
    let open = channel(301, ChannelType::Text, vec![]);
    let members = vec![member(42, vec![5]), member(43, vec![])];
    let g = guild(members.clone(), vec![closed.clone(), hidden.clone(), open]);
    assert_eq!(g.default_channel_guaranteed().unwrap().id, ChannelId(301));
    let g2 = guild(members, vec![closed, hidden.clone()]);
    assert!(g2.default_channel_guaranteed().is_none());
    // With no members every channel is readable by all of them.
    let g3 = guild(vec![], vec![hidden]);
    assert_eq!(g3.default_channel_guaranteed().unwrap().id, ChannelId(300));
    // A permission error stops the search.
    let g4 = guild(vec![member(42, vec![99])], vec![channel(301, ChannelType::Text, vec![])]);
    assert!(g4.default_channel_guaranteed().is_none());
}

#[test]
fn remove_unusable_permissions_drops_what_is_of_no_use() {
    let mut perms = p(READ | Permissions::EMBED_LINKS | Permissions::ATTACH_FILES | KICK);
    Guild::remove_unusable_permissions(&mut perms);
    assert_eq!(perms.bits(), READ | KICK);
    let mut perms = p(SEND | Permissions::EMBED_LINKS | KICK | Permissions::ADMINISTRATOR);
    Guild::remove_unusable_permissions(&mut perms);
    assert_eq!(perms.bits(), SEND | Permissions::EMBED_LINKS);
}

#[test]
fn voice_permissions_leave_text_channels() {
    let text = channel(300, ChannelType::Text, vec![]);
    let voice = channel(301, ChannelType::Voice, vec![]);
    let perms = p(Permissions::CONNECT | Permissions::SPEAK | READ);
    assert_eq!(Guild::remove_unnecessary_voice_permissions(&text, perms).bits(), READ);
    assert_eq!(Guild::remove_unnecessary_voice_permissions(&voice, perms), perms);
}

#[test]
fn permission_set_operations() {
    let a = p(READ | SEND);
    let b = p(SEND | KICK);
    assert_eq!(a.union(b).bits(), READ | SEND | KICK);
    assert_eq!(a.intersection(b).bits(), SEND);
    assert_eq!(a.complement().bits(), ALL_BITS & !(READ | SEND));
    let mut c = a;
    c.remove(b);
    assert_eq!(c.bits(), READ);
    c.insert(b);
    assert_eq!(c.bits(), READ | SEND | KICK);
    assert!(c.contains(a));
    assert!(!a.contains(b));
    assert!(a.read_messages());
    assert!(!a.administrator());
    assert_eq!(Permissions::from_bits(1u64 << 41), None);
    assert_eq!(Permissions::from_bits(READ), Some(p(READ)));
    assert_eq!(Permissions::from_bits_truncate(u64::MAX).bits(), ALL_BITS);
    assert!(Permissions::empty().is_empty());
    assert_eq!(Permissions::all().bits(), ALL_BITS);
}

#[test]
fn a_member_looked_up_elsewhere_counts_when_the_guild_lacks_it() {
    let g = guild(vec![member(42, vec![5])], vec![]);
    let outsider = member(44, vec![6]);
    assert!(g.member_permissions(UserId(44), None).is_none());
    assert_eq!(g.member_permissions(UserId(44), Some(&outsider)).unwrap().bits(), ALL_BITS);
    // The guild's own member wins over a member looked up elsewhere.
    let stale = member(42, vec![6]);
    assert_eq!(
        g.member_permissions(UserId(42), Some(&stale)).unwrap().bits(),
        READ | SEND | KICK | MANAGE_MESSAGES
    );
    let ban = p(Permissions::BAN_MEMBERS);
    assert_eq!(g.check_permissions(Some(UserId(44)), None, ban), Err(ModelError::InvalidPermissions(ban)));
    assert_eq!(g.check_permissions(Some(UserId(44)), Some(&outsider), ban), Ok(()));
    assert!(matches!(g.check_ban(Some(UserId(44)), Some(&outsider), UserId(42), 0, ""), Ok(())));
}

#[test]
fn each_action_checks_its_permission() {
    let g = guild(vec![member(42, vec![5]), member(43, vec![])], vec![]);
    let cases = [
        (GuildAction::Bans, Permissions::BAN_MEMBERS),
        (GuildAction::Unban, Permissions::BAN_MEMBERS),
        (GuildAction::CreateChannel, Permissions::MANAGE_CHANNELS),
        (GuildAction::CreateRole, Permissions::MANAGE_ROLES),
        (GuildAction::Edit, Permissions::MANAGE_GUILD),
        (GuildAction::EditNickname, Permissions::CHANGE_NICKNAME),
        (GuildAction::Invites, Permissions::MANAGE_GUILD),
        (GuildAction::PruneCount, Permissions::KICK_MEMBERS),
        (GuildAction::StartPrune, Permissions::KICK_MEMBERS),
    ];
    for (action, bits) in cases {
        assert_eq!(action.required().bits(), bits);
        assert_eq!(g.check_action(action, None, None), Ok(()));
        assert_eq!(g.check_action(action, Some(UserId(OWNER)), None), Ok(()));
        assert_eq!(
            g.check_action(action, Some(UserId(43)), None),
            Err(ModelError::InvalidPermissions(p(bits)))
        );
    }
    assert_eq!(g.check_action(GuildAction::PruneCount, Some(UserId(42)), None), Ok(()));
}
