//! Snowflake identifiers.

use vstd::prelude::*;

verus! {

/// The id of a guild.
#[derive(Clone, Copy, Debug, PartialEq, Eq, Structural, Hash)]
pub struct GuildId(pub u64);

/// The id of a user.
#[derive(Clone, Copy, Debug, PartialEq, Eq, Structural, Hash)]
pub struct UserId(pub u64);

/// The id of a role.
#[derive(Clone, Copy, Debug, PartialEq, Eq, Structural, Hash)]
pub struct RoleId(pub u64);

/// The id of a channel.
#[derive(Clone, Copy, Debug, PartialEq, Eq, Structural, Hash)]
pub struct ChannelId(pub u64);

/// The id of a custom emoji.
#[derive(Clone, Copy, Debug, PartialEq, Eq, Structural, Hash)]
pub struct EmojiId(pub u64);

/// The id of an application.
#[derive(Clone, Copy, Debug, PartialEq, Eq, Structural, Hash)]
pub struct ApplicationId(pub u64);

} // verus!
