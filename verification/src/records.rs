//! Smaller records about guilds: bans, widgets, prunes, summaries and statuses.

use vstd::prelude::*;

use crate::id::{ChannelId, GuildId, UserId};
use crate::levels::{DefaultMessageNotificationLevel, MfaLevel, Region, VerificationLevel};
use crate::model::{Emoji, Role, User};
use crate::permissions::Permissions;
use crate::guild::Guild;

verus! {

/// A representation of a banning of a user.
#[derive(Clone, Debug)]
pub struct Ban {
    /// The reason given for this ban.
    pub reason: Option<String>,
    /// The user that was banned.
    pub user: User,
}

/// A guild as the REST API returns it, without the gateway-only data.
#[derive(Clone, Debug)]
pub struct PartialGuild {
    /// The unique id of the guild.
    pub id: GuildId,
    /// Id of the AFK voice channel.
    pub afk_channel_id: Option<ChannelId>,
    /// Seconds of inactivity before a user is moved to the AFK channel.
    pub afk_timeout: u64,
    /// Default message notification level.
    pub default_message_notifications: DefaultMessageNotificationLevel,
    /// The guild's custom emojis.
    pub emojis: Vec<Emoji>,
    /// The guild features.
    pub features: Vec<String>,
    /// The hash of the guild icon.
    pub icon: Option<String>,
    /// The multi-factor authentication level for moderators.
    pub mfa_level: MfaLevel,
    /// The name of the guild.
    pub name: String,
    /// The id of the owner.
    pub owner_id: UserId,
    /// The voice region.
    pub region: String,
    /// The guild's roles.
    pub roles: Vec<Role>,
    /// The hash of the splash image.
    pub splash: Option<String>,
    /// The verification level.
    pub verification_level: VerificationLevel,
}

/// A container for guilds.
///
/// This is used to differentiate whether a guild itself can be used or whether a guild
/// needs to be retrieved from the cache.
#[derive(Clone, Debug)]
pub enum GuildContainer {
    /// A guild which can have its contents directly searched.
    Guild(PartialGuild),
    /// A guild's id, which can be used to search the cache for a guild.
    Id(GuildId),
}

impl From<PartialGuild> for GuildContainer {
    fn from(guild: PartialGuild) -> (r: GuildContainer) {
        GuildContainer::Guild(guild)
    }
}

impl vstd::std_specs::convert::FromSpecImpl<PartialGuild> for GuildContainer {
    open spec fn obeys_from_spec() -> bool {
        true
    }

    open spec fn from_spec(guild: PartialGuild) -> GuildContainer {
        GuildContainer::Guild(guild)
    }
}

impl From<GuildId> for GuildContainer {
    fn from(guild_id: GuildId) -> (r: GuildContainer) {
        GuildContainer::Id(guild_id)
    }
}

impl vstd::std_specs::convert::FromSpecImpl<GuildId> for GuildContainer {
    open spec fn obeys_from_spec() -> bool {
        true
    }

    open spec fn from_spec(guild_id: GuildId) -> GuildContainer {
        GuildContainer::Id(guild_id)
    }
}

impl From<u64> for GuildContainer {
    fn from(id: u64) -> (r: GuildContainer) {
        GuildContainer::Id(GuildId(id))
    }
}

impl vstd::std_specs::convert::FromSpecImpl<u64> for GuildContainer {
    open spec fn obeys_from_spec() -> bool {
        true
    }

    open spec fn from_spec(id: u64) -> GuildContainer {
        GuildContainer::Id(GuildId(id))
    }
}

/// A guild embed; renamed to [`GuildWidget`].
#[derive(Clone, Copy, Debug, PartialEq, Eq, Structural)]
pub struct GuildEmbed {
    /// Whether the embed is enabled.
    pub enabled: bool,
    /// The widget channel id.
    pub channel_id: Option<ChannelId>,
}

/// A guild widget.
#[derive(Clone, Copy, Debug, PartialEq, Eq, Structural)]
pub struct GuildWidget {
    /// Whether the widget is enabled.
    pub enabled: bool,
    /// The widget channel id.
    pub channel_id: Option<ChannelId>,
}

/// Representation of the number of members that would be pruned by a guild prune
/// operation.
#[derive(Clone, Copy, Debug, PartialEq, Eq, Structural)]
pub struct GuildPrune {
    /// The number of members that would be pruned by the operation.
    pub pruned: u64,
}

/// Basic information about a guild.
#[derive(Clone, Debug)]
pub struct GuildInfo {
    /// The unique Id of the guild.
    pub id: GuildId,
    /// The hash of the icon of the guild.
    pub icon: Option<String>,
    /// The name of the guild.
    pub name: String,
    /// Indicator of whether the current user is the owner.
    pub owner: bool,
    /// The permissions that the current user has.
    pub permissions: Permissions,
}

/// The guild an invite leads to.
#[derive(Clone, Debug)]
pub struct InviteGuild {
    /// The unique id of the guild.
    pub id: GuildId,
    /// The hash of the guild icon.
    pub icon: Option<String>,
    /// The name of the guild.
    pub name: String,
    /// The hash of the splash image.
    pub splash: Option<String>,
    /// The description of the guild.
    pub description: Option<String>,
    /// The guild features.
    pub features: Vec<String>,
    /// The verification level.
    pub verification_level: VerificationLevel,
    /// The vanity url code, if any.
    pub vanity_url_code: Option<String>,
}

/// Data for an unavailable guild.
#[derive(Clone, Copy, Debug, PartialEq, Eq, Structural)]
pub struct GuildUnavailable {
    /// The Id of the guild that may be unavailable.
    pub id: GuildId,
    /// Indicator of whether the guild is unavailable.
    pub unavailable: bool,
}

/// The state a guild is sent in.
#[derive(Clone, Debug)]
pub enum GuildStatus {
    /// A guild with only the REST data.
    OnlinePartialGuild(PartialGuild),
    /// A guild with all of its data.
    OnlineGuild(Guild),
    /// An unavailable guild.
    Offline(GuildUnavailable),
}

impl GuildStatus {
    /// Retrieves the Id of the inner guild.
    pub fn id(&self) -> (r: GuildId)
        ensures
            r == match self {
                GuildStatus::Offline(offline) => offline.id,
                GuildStatus::OnlineGuild(guild) => guild.id,
                GuildStatus::OnlinePartialGuild(partial_guild) => partial_guild.id,
            },
    {
        match self {
            GuildStatus::Offline(offline) => offline.id,
            GuildStatus::OnlineGuild(guild) => guild.id,
            GuildStatus::OnlinePartialGuild(partial_guild) => partial_guild.id,
        }
    }
}

/// The name Discord gives each voice region.
pub open spec fn region_name(region: Region) -> Seq<char> {
    match region {
        Region::Amsterdam => "amsterdam"@,
        Region::Brazil => "brazil"@,
        Region::EuCentral => "eu-central"@,
        Region::EuWest => "eu-west"@,
        Region::Frankfurt => "frankfurt"@,
        Region::HongKong => "hongkong"@,
        Region::Japan => "japan"@,
        Region::London => "london"@,
        Region::Russia => "russia"@,
        Region::Singapore => "singapore"@,
        Region::Sydney => "sydney"@,
        Region::UsCentral => "us-central"@,
        Region::UsEast => "us-east"@,
        Region::UsSouth => "us-south"@,
        Region::UsWest => "us-west"@,
        Region::VipAmsterdam => "vip-amsterdam"@,
        Region::VipUsEast => "vip-us-east"@,
        Region::VipUsWest => "vip-us-west"@,
    }
}

impl Region {
    /// The name Discord gives the region.
    pub fn name(&self) -> (r: &'static str)
        ensures
            r@ == region_name(*self),
    {
        match self {
            Region::Amsterdam => "amsterdam",
            Region::Brazil => "brazil",
            Region::EuCentral => "eu-central",
            Region::EuWest => "eu-west",
            Region::Frankfurt => "frankfurt",
            Region::HongKong => "hongkong",
            Region::Japan => "japan",
            Region::London => "london",
            Region::Russia => "russia",
            Region::Singapore => "singapore",
            Region::Sydney => "sydney",
            Region::UsCentral => "us-central",
            Region::UsEast => "us-east",
            Region::UsSouth => "us-south",
            Region::UsWest => "us-west",
            Region::VipAmsterdam => "vip-amsterdam",
            Region::VipUsEast => "vip-us-east",
            Region::VipUsWest => "vip-us-west",
        }
    }
}

/// No two regions share a name.
pub proof fn lemma_region_names_distinct(a: Region, b: Region)
    ensures
        a != b ==> region_name(a) != region_name(b),
{
    reveal_strlit("amsterdam");
    reveal_strlit("brazil");
    reveal_strlit("eu-central");
    reveal_strlit("eu-west");
    reveal_strlit("frankfurt");
    reveal_strlit("hongkong");
    reveal_strlit("japan");
    reveal_strlit("london");
    reveal_strlit("russia");
    reveal_strlit("singapore");
    reveal_strlit("sydney");
    reveal_strlit("us-central");
    reveal_strlit("us-east");
    reveal_strlit("us-south");
    reveal_strlit("us-west");
    reveal_strlit("vip-amsterdam");
    reveal_strlit("vip-us-east");
    reveal_strlit("vip-us-west");
    if a != b && region_name(a) == region_name(b) {
        assert(region_name(a).len() == region_name(b).len());
        assert(region_name(a)[0] == region_name(b)[0]);
        assert(region_name(a)[1] == region_name(b)[1]);
        assert(region_name(a)[3] == region_name(b)[3]);
        assert(region_name(a)[4] == region_name(b)[4]);
        assert(region_name(a)[5] == region_name(b)[5]);
        assert(region_name(a)[7] == region_name(b)[7]);
    }
}

} // verus!
