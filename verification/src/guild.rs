//! The guild, as the gateway describes it.

use vstd::prelude::*;

use crate::id::{ApplicationId, ChannelId, GuildId, UserId};
use crate::levels::{
    DefaultMessageNotificationLevel, ExplicitContentFilter, MfaLevel, NsfwLevel, PremiumTier,
    VerificationLevel,
};
use crate::model::{
    Emoji, GuildChannel, Member, Presence, Role, StageInstance, Timestamp, VoiceState,
};
use crate::records::PartialGuild;
use crate::welcome::GuildWelcomeScreen;

verus! {

/// The guild has more members than this, it counts as large.
pub const LARGE_THRESHOLD: u64 = 250;

/// Flags that tell which system messages a guild suppresses.
#[derive(Clone, Copy, Debug, PartialEq, Eq, Structural, Hash)]
pub struct SystemChannelFlags(pub u64);

/// Information about a Discord guild, such as channels, emojis, etc.
///
/// The collections keyed by id in Discord's model (channels, emojis, members, presences,
/// roles, voice states) are sequences here; [`Guild::keys_unique`] states that no key
/// occurs twice in them.
#[derive(Clone, Debug)]
pub struct Guild {
    /// Id of a voice channel that's considered the AFK channel.
    pub afk_channel_id: Option<ChannelId>,
    /// The amount of seconds a user can not show any activity in a voice
    /// channel before being moved to an AFK channel -- if one exists.
    pub afk_timeout: u64,
    /// Application ID of the guild creator if it is bot-created.
    pub application_id: Option<ApplicationId>,
    /// All voice and text channels contained within a guild.
    pub channels: Vec<GuildChannel>,
    /// Indicator of whether notifications for all messages are enabled by
    /// default in the guild.
    pub default_message_notifications: DefaultMessageNotificationLevel,
    /// All of the guild's custom emojis.
    pub emojis: Vec<Emoji>,
    /// Default explicit content filter level.
    pub explicit_content_filter: ExplicitContentFilter,
    /// The guild features.
    pub features: Vec<String>,
    /// The hash of the icon used by the guild.
    pub icon: Option<String>,
    /// The unique Id identifying the guild; also the id of the `@everyone` role
    /// and of the default channel.
    pub id: GuildId,
    /// The date that the current user joined the guild.
    pub joined_at: Timestamp,
    /// Indicator of whether the guild is considered "large" by Discord.
    pub large: bool,
    /// The number of members in the guild.
    pub member_count: u64,
    /// Users who are members of the guild.
    pub members: Vec<Member>,
    /// Indicator of whether the guild requires multi-factor authentication for
    /// roles or users with moderation permissions.
    pub mfa_level: MfaLevel,
    /// The name of the guild.
    pub name: String,
    /// The Id of the user who owns the guild.
    pub owner_id: UserId,
    /// The current presences of users.
    pub presences: Vec<Presence>,
    /// The region that the voice servers that the guild uses are located in.
    pub region: String,
    /// The guild's roles.
    pub roles: Vec<Role>,
    /// An identifying hash of the guild's splash icon.
    pub splash: Option<String>,
    /// An identifying hash of the guild discovery's splash icon.
    pub discovery_splash: Option<String>,
    /// The ID of the channel to which system messages are sent.
    pub system_channel_id: Option<ChannelId>,
    /// System channel flags.
    pub system_channel_flags: SystemChannelFlags,
    /// The id of the channel where rules and/or guidelines are displayed.
    pub rules_channel_id: Option<ChannelId>,
    /// The id of the channel where admins and moderators of Community guilds
    /// receive notices from Discord.
    pub public_updates_channel_id: Option<ChannelId>,
    /// Indicator of the current verification level of the guild.
    pub verification_level: VerificationLevel,
    /// The current voice states of users.
    pub voice_states: Vec<VoiceState>,
    /// The server's description, if it has one.
    pub description: Option<String>,
    /// The server's premium boosting level.
    pub premium_tier: PremiumTier,
    /// The total number of users currently boosting this server.
    pub premium_subscription_count: u64,
    /// The guild's banner, if it has one.
    pub banner: Option<String>,
    /// The vanity url code for the guild, if it has one.
    pub vanity_url_code: Option<String>,
    /// The preferred locale of this guild.
    pub preferred_locale: String,
    /// The welcome screen of the guild.
    pub welcome_screen: Option<GuildWelcomeScreen>,
    /// Approximate number of members in this guild.
    pub approximate_member_count: Option<u64>,
    /// Approximate number of non-offline members in this guild.
    pub approximate_presence_count: Option<u64>,
    /// Whether or not this guild is designated as NSFW.
    pub nsfw: bool,
    /// The guild NSFW state.
    pub nsfw_level: NsfwLevel,
    /// The maximum amount of users in a video channel.
    pub max_video_channel_users: Option<u64>,
    /// The maximum number of presences for the guild.
    pub max_presences: Option<u64>,
    /// The maximum number of members for the guild.
    pub max_members: Option<u64>,
    /// Whether or not the guild widget is enabled.
    pub widget_enabled: Option<bool>,
    /// The channel id that the widget will generate an invite to.
    pub widget_channel_id: Option<ChannelId>,
    /// The stage instances in this guild.
    pub stage_instances: Vec<StageInstance>,
    /// All active threads in this guild that current user has permission to view.
    pub threads: Vec<GuildChannel>,
}

impl Guild {
    /// No id occurs twice among the guild's channels, emojis, members, presences,
    /// roles and voice states.
    pub open spec fn keys_unique(&self) -> bool {
        &&& forall|i: int, j: int|
            0 <= i < j < self.channels@.len() ==> self.channels@[i].id != self.channels@[j].id
        &&& forall|i: int, j: int|
            0 <= i < j < self.emojis@.len() ==> self.emojis@[i].id != self.emojis@[j].id
        &&& forall|i: int, j: int|
            0 <= i < j < self.members@.len() ==> self.members@[i].user.id
                != self.members@[j].user.id
        &&& forall|i: int, j: int|
            0 <= i < j < self.presences@.len() ==> self.presences@[i].user_id
                != self.presences@[j].user_id
        &&& forall|i: int, j: int|
            0 <= i < j < self.roles@.len() ==> self.roles@[i].id != self.roles@[j].id
        &&& forall|i: int, j: int|
            0 <= i < j < self.voice_states@.len() ==> self.voice_states@[i].user_id
                != self.voice_states@[j].user_id
    }
}

impl Guild {
    /// Takes over the data that an edit of the guild answers with: the AFK channel and
    /// timeout, notification level, emojis, features, icon, MFA level, name, owner,
    /// region, roles, splash and verification level. Everything else stays.
    pub fn apply_edit(&mut self, guild: PartialGuild)
        ensures
            *final(self) == (Guild {
                afk_channel_id: guild.afk_channel_id,
                afk_timeout: guild.afk_timeout,
                default_message_notifications: guild.default_message_notifications,
                emojis: guild.emojis,
                features: guild.features,
                icon: guild.icon,
                mfa_level: guild.mfa_level,
                name: guild.name,
                owner_id: guild.owner_id,
                region: guild.region,
                roles: guild.roles,
                splash: guild.splash,
                verification_level: guild.verification_level,
                ..*old(self)
            }),
    {
        self.afk_channel_id = guild.afk_channel_id;
        self.afk_timeout = guild.afk_timeout;
        self.default_message_notifications = guild.default_message_notifications;
        self.emojis = guild.emojis;
        self.features = guild.features;
        self.icon = guild.icon;
        self.mfa_level = guild.mfa_level;
        self.name = guild.name;
        self.owner_id = guild.owner_id;
        self.region = guild.region;
        self.roles = guild.roles;
        self.splash = guild.splash;
        self.verification_level = guild.verification_level;
    }
}

impl Guild {
    /// Returns the id of the shard associated with the guild, of `shard_count` shards:
    /// the guild id without its lowest 22 bits, modulo the number of shards.
    pub fn shard_id(&self, shard_count: u64) -> (r: u64)
        requires
            shard_count > 0,
        ensures
            r == (self.id.0 / 0x40_0000) % shard_count,
    {
        let id = self.id.0;
        assert(id >> 22u64 == id / 0x40_0000) by (bit_vector);
        (id >> 22u64) % shard_count
    }
}

} // verus!
