//! Building a guild, and a welcome channel, from the fields of a gateway payload.
//!
//! A payload names each field by its key; here every field arrives already read into
//! its value, `None` where the payload lacks the key (and, for a field that may be null,
//! also where it is null). What is decided here is which fields must be present, in which
//! order a missing one is reported, what an absent optional field becomes, and that a
//! list keyed by id keeps one entry per id, the last one.

use vstd::prelude::*;

use crate::guild::{Guild, SystemChannelFlags};
use crate::id::{ApplicationId, ChannelId, GuildId, RoleId, UserId};
use crate::access::role_with_id;
use crate::hierarchy::member_with_id;
use crate::keyed::{
    keep_last, keep_last_by_key, last_with_key, lemma_keep_last_by_key, lemma_keep_last_lookup,
    Keyed,
};
use crate::levels::{
    DefaultMessageNotificationLevel, ExplicitContentFilter, MfaLevel, NsfwLevel, PremiumTier,
    VerificationLevel,
};
use crate::model::{
    Emoji, GuildChannel, Member, Presence, Role, StageInstance, Timestamp, VoiceState,
};
use crate::text::{parse_u64, parse_u64_text};
use crate::welcome::GuildWelcomeScreen;

verus! {

/// A field that a payload must carry and does not.
#[derive(Clone, Copy, Debug, PartialEq, Eq, Structural)]
pub enum MissingField {
    AfkTimeout,
    Channels,
    DefaultMessageNotifications,
    Emojis,
    ExplicitContentFilter,
    Features,
    Id,
    JoinedAt,
    Large,
    MemberCount,
    Members,
    MfaLevel,
    Name,
    OwnerId,
    Presences,
    Region,
    Roles,
    VerificationLevel,
    VoiceStates,
    PreferredLocale,
    Nsfw,
    NsfwLevel,
    SystemChannelFlags,
    ChannelId,
    Description,
    EmojiId,
    EmojiName,
}

/// The message that reports a missing field.
pub open spec fn missing_field_message(field: MissingField) -> Seq<char> {
    match field {
        MissingField::AfkTimeout => "expected guild afk_timeout"@,
        MissingField::Channels => "expected guild channels"@,
        MissingField::DefaultMessageNotifications => "expected guild default_message_notifications"@,
        MissingField::Emojis => "expected guild emojis"@,
        MissingField::ExplicitContentFilter => "expected guild explicit_content_filter"@,
        MissingField::Features => "expected guild features"@,
        MissingField::Id => "expected guild id"@,
        MissingField::JoinedAt => "expected guild joined_at"@,
        MissingField::Large => "expected guild large"@,
        MissingField::MemberCount => "expected guild member_count"@,
        MissingField::Members => "expected guild members"@,
        MissingField::MfaLevel => "expected guild mfa_level"@,
        MissingField::Name => "expected guild name"@,
        MissingField::OwnerId => "expected guild owner_id"@,
        MissingField::Presences => "expected guild presences"@,
        MissingField::Region => "expected guild region"@,
        MissingField::Roles => "expected guild roles"@,
        MissingField::VerificationLevel => "expected guild verification_level"@,
        MissingField::VoiceStates => "expected guild voice_states"@,
        MissingField::PreferredLocale => "expected preferred locale"@,
        MissingField::Nsfw => "expected nsfw"@,
        MissingField::NsfwLevel => "expected nsfw_level"@,
        MissingField::SystemChannelFlags => "expected system_channel_flags"@,
        MissingField::ChannelId => "expected channel_id"@,
        MissingField::Description => "expected description"@,
        MissingField::EmojiId => "expected emoji_id"@,
        MissingField::EmojiName => "expected emoji_name"@,
    }
}

impl MissingField {
    /// The message that reports the missing field.
    pub fn message(&self) -> (r: &'static str)
        ensures
            r@ == missing_field_message(*self),
    {
        match self {
            MissingField::AfkTimeout => "expected guild afk_timeout",
            MissingField::Channels => "expected guild channels",
            MissingField::DefaultMessageNotifications => "expected guild default_message_notifications",
            MissingField::Emojis => "expected guild emojis",
            MissingField::ExplicitContentFilter => "expected guild explicit_content_filter",
            MissingField::Features => "expected guild features",
            MissingField::Id => "expected guild id",
            MissingField::JoinedAt => "expected guild joined_at",
            MissingField::Large => "expected guild large",
            MissingField::MemberCount => "expected guild member_count",
            MissingField::Members => "expected guild members",
            MissingField::MfaLevel => "expected guild mfa_level",
            MissingField::Name => "expected guild name",
            MissingField::OwnerId => "expected guild owner_id",
            MissingField::Presences => "expected guild presences",
            MissingField::Region => "expected guild region",
            MissingField::Roles => "expected guild roles",
            MissingField::VerificationLevel => "expected guild verification_level",
            MissingField::VoiceStates => "expected guild voice_states",
            MissingField::PreferredLocale => "expected preferred locale",
            MissingField::Nsfw => "expected nsfw",
            MissingField::NsfwLevel => "expected nsfw_level",
            MissingField::SystemChannelFlags => "expected system_channel_flags",
            MissingField::ChannelId => "expected channel_id",
            MissingField::Description => "expected description",
            MissingField::EmojiId => "expected emoji_id",
            MissingField::EmojiName => "expected emoji_name",
        }
    }
}

/// The fields of a guild payload, read into their values.
///
/// A field whose payload key may be absent or null is `None` in both cases. A field that
/// the payload must carry is `None` where the key is absent.
#[derive(Clone, Debug)]
pub struct GuildFields {
    /// The guild id as the payload writes it, where it writes it as a text.
    pub id_text: Option<String>,
    pub afk_channel_id: Option<ChannelId>,
    pub afk_timeout: Option<u64>,
    pub application_id: Option<ApplicationId>,
    pub channels: Option<Vec<GuildChannel>>,
    pub default_message_notifications: Option<DefaultMessageNotificationLevel>,
    pub emojis: Option<Vec<Emoji>>,
    pub explicit_content_filter: Option<ExplicitContentFilter>,
    pub features: Option<Vec<String>>,
    pub icon: Option<String>,
    pub id: Option<GuildId>,
    pub joined_at: Option<Timestamp>,
    pub large: Option<bool>,
    pub member_count: Option<u64>,
    pub members: Option<Vec<Member>>,
    pub mfa_level: Option<MfaLevel>,
    pub name: Option<String>,
    pub owner_id: Option<UserId>,
    pub presences: Option<Vec<Presence>>,
    pub region: Option<String>,
    pub roles: Option<Vec<Role>>,
    pub splash: Option<String>,
    pub system_channel_id: Option<ChannelId>,
    pub verification_level: Option<VerificationLevel>,
    pub voice_states: Option<Vec<VoiceState>>,
    pub description: Option<String>,
    /// Absent: the default tier.
    pub premium_tier: Option<PremiumTier>,
    /// Absent or null: no boosts.
    pub premium_subscription_count: Option<u64>,
    pub banner: Option<String>,
    pub vanity_url_code: Option<String>,
    pub preferred_locale: Option<String>,
    pub welcome_screen: Option<GuildWelcomeScreen>,
    pub approximate_member_count: Option<u64>,
    pub approximate_presence_count: Option<u64>,
    pub max_video_channel_users: Option<u64>,
    pub max_presences: Option<u64>,
    pub max_members: Option<u64>,
    pub discovery_splash: Option<String>,
    pub nsfw: Option<bool>,
    pub nsfw_level: Option<NsfwLevel>,
    pub widget_enabled: Option<bool>,
    pub widget_channel_id: Option<ChannelId>,
    pub rules_channel_id: Option<ChannelId>,
    pub public_updates_channel_id: Option<ChannelId>,
    pub system_channel_flags: Option<SystemChannelFlags>,
    /// Absent: no stage instances.
    pub stage_instances: Option<Vec<StageInstance>>,
    /// Absent: no threads.
    pub threads: Option<Vec<GuildChannel>>,
}

/// The first field, in the order the payload is read, that a guild payload must carry
/// and lacks.
pub open spec fn first_missing(f: GuildFields) -> Option<MissingField> {
    if f.afk_timeout.is_none() {
        Some(MissingField::AfkTimeout)
    } else if f.channels.is_none() {
        Some(MissingField::Channels)
    } else if f.default_message_notifications.is_none() {
        Some(MissingField::DefaultMessageNotifications)
    } else if f.emojis.is_none() {
        Some(MissingField::Emojis)
    } else if f.explicit_content_filter.is_none() {
        Some(MissingField::ExplicitContentFilter)
    } else if f.features.is_none() {
        Some(MissingField::Features)
    } else if f.id.is_none() {
        Some(MissingField::Id)
    } else if f.joined_at.is_none() {
        Some(MissingField::JoinedAt)
    } else if f.large.is_none() {
        Some(MissingField::Large)
    } else if f.member_count.is_none() {
        Some(MissingField::MemberCount)
    } else if f.members.is_none() {
        Some(MissingField::Members)
    } else if f.mfa_level.is_none() {
        Some(MissingField::MfaLevel)
    } else if f.name.is_none() {
        Some(MissingField::Name)
    } else if f.owner_id.is_none() {
        Some(MissingField::OwnerId)
    } else if f.presences.is_none() {
        Some(MissingField::Presences)
    } else if f.region.is_none() {
        Some(MissingField::Region)
    } else if f.roles.is_none() {
        Some(MissingField::Roles)
    } else if f.verification_level.is_none() {
        Some(MissingField::VerificationLevel)
    } else if f.voice_states.is_none() {
        Some(MissingField::VoiceStates)
    } else if f.preferred_locale.is_none() {
        Some(MissingField::PreferredLocale)
    } else if f.nsfw.is_none() {
        Some(MissingField::Nsfw)
    } else if f.nsfw_level.is_none() {
        Some(MissingField::NsfwLevel)
    } else if f.system_channel_flags.is_none() {
        Some(MissingField::SystemChannelFlags)
    } else {
        None
    }
}

/// A list that may be absent, absent read as empty.
pub open spec fn or_empty<T>(v: Option<Vec<T>>) -> Seq<T> {
    match v {
        Some(v) => v@,
        None => Seq::empty(),
    }
}

fn unwrap_or_empty<T>(v: Option<Vec<T>>) -> (r: Vec<T>)
    ensures
        r@ == or_empty(v),
{
    match v {
        Some(v) => v,
        None => Vec::new(),
    }
}

/// A value that records the guild it belongs to.
pub trait InGuild: Sized {
    /// The value, recorded as belonging to the guild `gid`.
    spec fn in_guild(self, gid: GuildId) -> Self;

    /// The value, recorded as belonging to the guild `gid`.
    fn with_guild_id(self, gid: GuildId) -> (r: Self)
        ensures
            r == self.in_guild(gid),
    ;
}

impl InGuild for GuildChannel {
    open spec fn in_guild(self, gid: GuildId) -> GuildChannel {
        GuildChannel { guild_id: gid, ..self }
    }

    fn with_guild_id(self, gid: GuildId) -> (r: GuildChannel) {
        let mut c = self;
        c.guild_id = gid;
        c
    }
}

impl InGuild for Member {
    open spec fn in_guild(self, gid: GuildId) -> Member {
        Member { guild_id: gid, ..self }
    }

    fn with_guild_id(self, gid: GuildId) -> (r: Member) {
        let mut m = self;
        m.guild_id = gid;
        m
    }
}

impl InGuild for Role {
    open spec fn in_guild(self, gid: GuildId) -> Role {
        Role { guild_id: gid, ..self }
    }

    fn with_guild_id(self, gid: GuildId) -> (r: Role) {
        let mut r = self;
        r.guild_id = gid;
        r
    }
}

/// The entries of `s`, each recorded as belonging to the guild `gid` when there is one.
pub open spec fn assigned<T: InGuild>(s: Seq<T>, gid: Option<GuildId>) -> Seq<T> {
    match gid {
        Some(g) => s.map_values(|x: T| x.in_guild(g)),
        None => s,
    }
}

/// The guild id that a payload's id, written as a text, gives its channels, members and
/// roles: the number the text spells, if it spells one.
pub open spec fn text_guild_id(id_text: Option<String>) -> Option<GuildId> {
    match id_text {
        Some(t) => match parse_u64(t@) {
            Some(n) => Some(GuildId(n)),
            None => None,
        },
        None => None,
    }
}

/// The guild id given by a payload's id text, if the text spells a number.
pub fn guild_id_from_text(id_text: &Option<String>) -> (r: Option<GuildId>)
    ensures
        r == text_guild_id(*id_text),
{
    match id_text {
        Some(t) => match parse_u64_text(t.as_str()) {
            Some(n) => Some(GuildId(n)),
            None => None,
        },
        None => None,
    }
}

/// Records every entry of `items` as belonging to the guild `gid`.
fn assign_guild_id<T: InGuild>(items: Vec<T>, gid: Option<GuildId>) -> (r: Vec<T>)
    ensures
        r@ == assigned(items@, gid),
{
    let g = match gid {
        Some(g) => g,
        None => {
            return items;
        },
    };
    let ghost all = items@;
    let ghost mut done: int = 0;
    let mut items = items;
    let mut out: Vec<T> = Vec::new();
    while items.len() > 0
        invariant
            0 <= done <= all.len(),
            items@ == all.skip(done),
            out@ == all.take(done).map_values(|x: T| x.in_guild(g)),
        decreases items.len(),
    {
        let x = items.remove(0);
        proof {
            assert(all[done] == x);
            assert(items@ =~= all.skip(done + 1));
            assert(all.take(done + 1).map_values(|x: T| x.in_guild(g)) =~= all.take(done).map_values(
                |x: T| x.in_guild(g),
            ).push(x.in_guild(g)));
            done = done + 1;
        }
        out.push(x.with_guild_id(g));
    }
    proof {
        assert(all.take(done) =~= all);
    }
    out
}

impl Guild {
    /// Builds a guild from the fields of its payload.
    ///
    /// Fails with the first missing field that the payload must carry. Otherwise the
    /// guild, in which no id occurs twice, takes each field as it is: an absent premium
    /// tier is the default tier, an absent or null boost count is 0, absent stage
    /// instances and threads are empty, and the channels, emojis, members, presences,
    /// roles and voice states keep one entry per id, the last one the payload lists.
    /// Where the payload writes the guild id as a text that spells a number, every
    /// channel, member and role belongs to the guild of that id.
    pub fn from_fields(fields: GuildFields) -> (r: Result<Guild, MissingField>)
        ensures
            match r {
                Err(e) => first_missing(fields) == Some(e),
                Ok(g) => {
                    &&& first_missing(fields).is_none()
                    &&& g.keys_unique()
                    &&& g.channels@ == assigned(
                        keep_last_by_key(fields.channels.unwrap()@),
                        text_guild_id(fields.id_text),
                    )
                    &&& g.emojis@ == keep_last_by_key(fields.emojis.unwrap()@)
                    &&& g.members@ == assigned(
                        keep_last_by_key(fields.members.unwrap()@),
                        text_guild_id(fields.id_text),
                    )
                    &&& g.presences@ == keep_last_by_key(fields.presences.unwrap()@)
                    &&& g.roles@ == assigned(
                        keep_last_by_key(fields.roles.unwrap()@),
                        text_guild_id(fields.id_text),
                    )
                    &&& text_guild_id(fields.id_text) matches Some(gid) ==> {
                        &&& forall|i: int|
                            0 <= i < g.channels@.len() ==> (#[trigger] g.channels@[i]).guild_id == gid
                        &&& forall|i: int|
                            0 <= i < g.members@.len() ==> (#[trigger] g.members@[i]).guild_id == gid
                        &&& forall|i: int|
                            0 <= i < g.roles@.len() ==> (#[trigger] g.roles@[i]).guild_id == gid
                    }
                    &&& g.voice_states@ == keep_last_by_key(fields.voice_states.unwrap()@)
                    &&& g.stage_instances@ == or_empty(fields.stage_instances)
                    &&& g.threads@ == or_empty(fields.threads)
                    &&& g == (Guild {
                        channels: g.channels,
                        emojis: g.emojis,
                        members: g.members,
                        presences: g.presences,
                        roles: g.roles,
                        voice_states: g.voice_states,
                        stage_instances: g.stage_instances,
                        threads: g.threads,
                        afk_channel_id: fields.afk_channel_id,
                        afk_timeout: fields.afk_timeout.unwrap(),
                        application_id: fields.application_id,
                        default_message_notifications: fields.default_message_notifications.unwrap(),
                        explicit_content_filter: fields.explicit_content_filter.unwrap(),
                        features: fields.features.unwrap(),
                        icon: fields.icon,
                        id: fields.id.unwrap(),
                        joined_at: fields.joined_at.unwrap(),
                        large: fields.large.unwrap(),
                        member_count: fields.member_count.unwrap(),
                        mfa_level: fields.mfa_level.unwrap(),
                        name: fields.name.unwrap(),
                        owner_id: fields.owner_id.unwrap(),
                        region: fields.region.unwrap(),
                        splash: fields.splash,
                        discovery_splash: fields.discovery_splash,
                        system_channel_id: fields.system_channel_id,
                        system_channel_flags: fields.system_channel_flags.unwrap(),
                        rules_channel_id: fields.rules_channel_id,
                        public_updates_channel_id: fields.public_updates_channel_id,
                        verification_level: fields.verification_level.unwrap(),
                        description: fields.description,
                        premium_tier: match fields.premium_tier {
                            Some(t) => t,
                            None => PremiumTier::Tier0,
                        },
                        premium_subscription_count: match fields.premium_subscription_count {
                            Some(n) => n,
                            None => 0,
                        },
                        banner: fields.banner,
                        vanity_url_code: fields.vanity_url_code,
                        preferred_locale: fields.preferred_locale.unwrap(),
                        welcome_screen: fields.welcome_screen,
                        approximate_member_count: fields.approximate_member_count,
                        approximate_presence_count: fields.approximate_presence_count,
                        nsfw: fields.nsfw.unwrap(),
                        nsfw_level: fields.nsfw_level.unwrap(),
                        max_video_channel_users: fields.max_video_channel_users,
                        max_presences: fields.max_presences,
                        max_members: fields.max_members,
                        widget_enabled: fields.widget_enabled,
                        widget_channel_id: fields.widget_channel_id,
                    })
                },
            },
    {
        let gid = guild_id_from_text(&fields.id_text);
        let GuildFields {
            id_text: _,
            afk_channel_id,
            afk_timeout,
            application_id,
            channels,
            default_message_notifications,
            emojis,
            explicit_content_filter,
            features,
            icon,
            id,
            joined_at,
            large,
            member_count,
            members,
            mfa_level,
            name,
            owner_id,
            presences,
            region,
            roles,
            splash,
            system_channel_id,
            verification_level,
            voice_states,
            description,
            premium_tier,
            premium_subscription_count,
            banner,
            vanity_url_code,
            preferred_locale,
            welcome_screen,
            approximate_member_count,
            approximate_presence_count,
            max_video_channel_users,
            max_presences,
            max_members,
            discovery_splash,
            nsfw,
            nsfw_level,
            widget_enabled,
            widget_channel_id,
            rules_channel_id,
            public_updates_channel_id,
            system_channel_flags,
            stage_instances,
            threads,
        } = fields;
        let afk_timeout = match afk_timeout {
            Some(v) => v,
            None => return Err(MissingField::AfkTimeout),
        };
        let channels = match channels {
            Some(v) => v,
            None => return Err(MissingField::Channels),
        };
        let default_message_notifications = match default_message_notifications {
            Some(v) => v,
            None => return Err(MissingField::DefaultMessageNotifications),
        };
        let emojis = match emojis {
            Some(v) => v,
            None => return Err(MissingField::Emojis),
        };
        let explicit_content_filter = match explicit_content_filter {
            Some(v) => v,
            None => return Err(MissingField::ExplicitContentFilter),
        };
        let features = match features {
            Some(v) => v,
            None => return Err(MissingField::Features),
        };
        let id = match id {
            Some(v) => v,
            None => return Err(MissingField::Id),
        };
        let joined_at = match joined_at {
            Some(v) => v,
            None => return Err(MissingField::JoinedAt),
        };
        let large = match large {
            Some(v) => v,
            None => return Err(MissingField::Large),
        };
        let member_count = match member_count {
            Some(v) => v,
            None => return Err(MissingField::MemberCount),
        };
        let members = match members {
            Some(v) => v,
            None => return Err(MissingField::Members),
        };
        let mfa_level = match mfa_level {
            Some(v) => v,
            None => return Err(MissingField::MfaLevel),
        };
        let name = match name {
            Some(v) => v,
            None => return Err(MissingField::Name),
        };
        let owner_id = match owner_id {
            Some(v) => v,
            None => return Err(MissingField::OwnerId),
        };
        let presences = match presences {
            Some(v) => v,
            None => return Err(MissingField::Presences),
        };
        let region = match region {
            Some(v) => v,
            None => return Err(MissingField::Region),
        };
        let roles = match roles {
            Some(v) => v,
            None => return Err(MissingField::Roles),
        };
        let verification_level = match verification_level {
            Some(v) => v,
            None => return Err(MissingField::VerificationLevel),
        };
        let voice_states = match voice_states {
            Some(v) => v,
            None => return Err(MissingField::VoiceStates),
        };
        let preferred_locale = match preferred_locale {
            Some(v) => v,
            None => return Err(MissingField::PreferredLocale),
        };
        let nsfw = match nsfw {
            Some(v) => v,
            None => return Err(MissingField::Nsfw),
        };
        let nsfw_level = match nsfw_level {
            Some(v) => v,
            None => return Err(MissingField::NsfwLevel),
        };
        let system_channel_flags = match system_channel_flags {
            Some(v) => v,
            None => return Err(MissingField::SystemChannelFlags),
        };
        let premium_tier = match premium_tier {
            Some(t) => t,
            None => PremiumTier::default(),
        };
        let premium_subscription_count = match premium_subscription_count {
            Some(n) => n,
            None => 0,
        };
        proof {
            lemma_keep_last_by_key(channels@);
            lemma_keep_last_by_key(emojis@);
            lemma_keep_last_by_key(members@);
            lemma_keep_last_by_key(presences@);
            lemma_keep_last_by_key(roles@);
            lemma_keep_last_by_key(voice_states@);
        }
        Ok(Guild {
            afk_channel_id,
            afk_timeout,
            application_id,
            channels: assign_guild_id(keep_last(channels), gid),
            default_message_notifications,
            emojis: keep_last(emojis),
            explicit_content_filter,
            features,
            icon,
            id,
            joined_at,
            large,
            member_count,
            members: assign_guild_id(keep_last(members), gid),
            mfa_level,
            name,
            owner_id,
            presences: keep_last(presences),
            region,
            roles: assign_guild_id(keep_last(roles), gid),
            splash,
            discovery_splash,
            system_channel_id,
            system_channel_flags,
            rules_channel_id,
            public_updates_channel_id,
            verification_level,
            voice_states: keep_last(voice_states),
            description,
            premium_tier,
            premium_subscription_count,
            banner,
            vanity_url_code,
            preferred_locale,
            welcome_screen,
            approximate_member_count,
            approximate_presence_count,
            nsfw,
            nsfw_level,
            max_video_channel_users,
            max_presences,
            max_members,
            widget_enabled,
            widget_channel_id,
            stage_instances: unwrap_or_empty(stage_instances),
            threads: unwrap_or_empty(threads),
        })
    }
}

/// In a guild built from a payload, the member found for a user id is the last member the
/// payload lists with that id, and the role found for a role id the last role listed with
/// it.
pub proof fn lemma_payload_lookup_finds_last(
    members: Seq<Member>,
    roles: Seq<Role>,
    uid: UserId,
    rid: RoleId,
)
    ensures
        member_with_id(keep_last_by_key(members), uid) == last_with_key(members, uid.0),
        role_with_id(keep_last_by_key(roles), rid) == last_with_key(roles, rid.0),
{
    lemma_keep_last_lookup(members, uid.0);
    assert((|m: Member| m.user.id == uid) =~= (|x: Member| x.key_of() == uid.0));
    lemma_keep_last_lookup(roles, rid.0);
    assert((|r: Role| r.id == rid) =~= (|x: Role| x.key_of() == rid.0));
}

} // verus!
