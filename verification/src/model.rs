//! The values a guild is made of: users, members, roles, channels and presences.

use vstd::prelude::*;

use crate::id::{ChannelId, EmojiId, GuildId, RoleId, UserId};
use crate::permissions::Permissions;

verus! {

/// A point in time, in milliseconds since the Unix epoch (UTC).
#[derive(Clone, Copy, Debug, PartialEq, Eq, Structural, Hash)]
pub struct Timestamp(pub i64);

/// A Discord user.
#[derive(Clone, Debug)]
pub struct User {
    /// The unique id of the user.
    pub id: UserId,
    /// The avatar hash, if the user has one.
    pub avatar: Option<String>,
    /// Whether the user is a bot account.
    pub bot: bool,
    /// The four-digit discriminator that tells users with the same name apart.
    pub discriminator: u16,
    /// The account name.
    pub name: String,
}

impl Default for User {
    /// A placeholder user: id 210, avatar `abc`, a bot, discriminator 1432, named `test`.
    fn default() -> (r: User)
        ensures
            r.id == UserId(210),
            r.avatar matches Some(a) && a@ == "abc"@,
            r.bot,
            r.discriminator == 1432,
            r.name@ == "test"@,
    {
        User {
            id: UserId(210),
            avatar: Some(String::from_str("abc")),
            bot: true,
            discriminator: 1432,
            name: String::from_str("test"),
        }
    }
}

/// A user's membership in a guild.
#[derive(Clone, Debug)]
pub struct Member {
    /// Whether the member is deafened in voice channels.
    pub deaf: bool,
    /// The guild the member belongs to.
    pub guild_id: GuildId,
    /// When the member joined the guild.
    pub joined_at: Option<Timestamp>,
    /// Whether the member is muted in voice channels.
    pub mute: bool,
    /// The member's nickname in the guild, if any.
    pub nick: Option<String>,
    /// The ids of the member's roles.
    pub roles: Vec<RoleId>,
    /// The user behind the membership.
    pub user: User,
    /// Whether the member has yet to pass the membership screening.
    pub pending: bool,
    /// Since when the member boosts the guild, if they do.
    pub premium_since: Option<Timestamp>,
    /// The member's guild-specific avatar hash, if any.
    pub avatar: Option<String>,
    /// Until when the member is timed out, if they are.
    pub communication_disabled_until: Option<Timestamp>,
}

/// The name a member is shown with: the nickname, or else the account name.
pub open spec fn display_name_of(member: Member) -> Seq<char> {
    match member.nick {
        Some(nick) => nick@,
        None => member.user.name@,
    }
}

impl Member {
    /// The nickname if the member has one, otherwise the account name.
    pub fn display_name(&self) -> (r: String)
        ensures
            r@ == display_name_of(*self),
    {
        match &self.nick {
            Some(nick) => nick.clone(),
            None => self.user.name.clone(),
        }
    }
}

/// A role of a guild.
#[derive(Clone, Debug)]
pub struct Role {
    /// The unique id of the role.
    pub id: RoleId,
    /// The guild the role belongs to.
    pub guild_id: GuildId,
    /// The colour of the role, as a 24-bit RGB value.
    pub colour: u32,
    /// Whether members with the role are listed apart from others.
    pub hoist: bool,
    /// Whether an integration manages the role.
    pub managed: bool,
    /// Whether the role can be mentioned.
    pub mentionable: bool,
    /// The name of the role.
    pub name: String,
    /// The permissions the role grants.
    pub permissions: Permissions,
    /// The position of the role in the role list; higher is more powerful.
    pub position: i64,
}

/// The kind of a channel.
#[derive(Clone, Copy, Debug, PartialEq, Eq, Structural, Hash)]
pub enum ChannelType {
    /// A text channel of a guild.
    Text,
    /// A direct message channel.
    Private,
    /// A voice channel of a guild.
    Voice,
    /// A group direct message channel.
    Group,
    /// A channel category.
    Category,
    /// A news channel.
    News,
    /// A store channel.
    Store,
    /// A thread of a news channel.
    NewsThread,
    /// A public thread.
    PublicThread,
    /// A private thread.
    PrivateThread,
    /// A stage channel.
    Stage,
    /// A kind not known to this library.
    Unknown,
}

/// Whom a permission overwrite applies to.
#[derive(Clone, Copy, Debug, PartialEq, Eq, Structural, Hash)]
pub enum PermissionOverwriteType {
    /// A single member, by user id.
    Member(UserId),
    /// Every member with a role.
    Role(RoleId),
}

/// Permissions a channel grants or denies on top of the guild-wide ones.
#[derive(Clone, Copy, Debug, PartialEq, Eq, Structural, Hash)]
pub struct PermissionOverwrite {
    /// The permissions granted.
    pub allow: Permissions,
    /// The permissions taken away.
    pub deny: Permissions,
    /// Whom the overwrite applies to.
    pub kind: PermissionOverwriteType,
}

/// A channel of a guild.
#[derive(Clone, Debug)]
pub struct GuildChannel {
    /// The unique id of the channel.
    pub id: ChannelId,
    /// The guild the channel belongs to.
    pub guild_id: GuildId,
    /// The kind of the channel.
    pub kind: ChannelType,
    /// The name of the channel.
    pub name: String,
    /// The position of the channel in the channel list.
    pub position: i64,
    /// The topic of the channel, if any.
    pub topic: Option<String>,
    /// Whether the channel is marked NSFW.
    pub nsfw: bool,
    /// The permission overwrites of the channel.
    pub permission_overwrites: Vec<PermissionOverwrite>,
}

/// The online status a user shows.
#[derive(Clone, Copy, Debug, PartialEq, Eq, Structural, Hash)]
pub enum OnlineStatus {
    /// Do not disturb.
    DoNotDisturb,
    /// Idle.
    Idle,
    /// Invisible.
    Invisible,
    /// Offline.
    Offline,
    /// Online.
    Online,
}

/// The presence of a user in a guild.
#[derive(Clone, Debug)]
pub struct Presence {
    /// The user the presence belongs to.
    pub user_id: UserId,
    /// The status the user shows.
    pub status: OnlineStatus,
}

/// A custom emoji of a guild.
#[derive(Clone, Debug)]
pub struct Emoji {
    /// The unique id of the emoji.
    pub id: EmojiId,
    /// The name of the emoji.
    pub name: String,
    /// Whether the emoji is animated.
    pub animated: bool,
    /// Whether an integration manages the emoji.
    pub managed: bool,
    /// Whether the emoji must be wrapped in colons to be used.
    pub require_colons: bool,
    /// The roles allowed to use the emoji; empty means everyone.
    pub roles: Vec<RoleId>,
}

/// The voice state of a user.
#[derive(Clone, Debug)]
pub struct VoiceState {
    /// The user the state belongs to.
    pub user_id: UserId,
    /// The voice channel the user is in, if any.
    pub channel_id: Option<ChannelId>,
    /// Whether the user is deafened by the guild.
    pub deaf: bool,
    /// Whether the user is muted by the guild.
    pub mute: bool,
    /// Whether the user deafened themselves.
    pub self_deaf: bool,
    /// Whether the user muted themselves.
    pub self_mute: bool,
    /// The id of the voice session.
    pub session_id: String,
}

/// A live stage of a stage channel.
#[derive(Clone, Debug)]
pub struct StageInstance {
    /// The id of the stage instance.
    pub id: u64,
    /// The guild of the stage channel.
    pub guild_id: GuildId,
    /// The stage channel.
    pub channel_id: ChannelId,
    /// The topic of the stage.
    pub topic: String,
}

} // verus!
