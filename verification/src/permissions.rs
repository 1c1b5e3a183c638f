//! A set of permission flags, held as the bits of a `u64`.

use vstd::prelude::*;

verus! {

/// Every bit that names a known permission: bits 0 through 40.
pub const ALL_BITS: u64 = 0x1ff_ffff_ffff;

/// A set of permissions; bit `n` set means the permission with flag `1 << n` is granted.
#[derive(Clone, Copy, Debug, PartialEq, Eq, Structural, Hash)]
pub struct Permissions {
    bits: u64,
}

impl View for Permissions {
    type V = u64;

    open spec fn view(&self) -> u64 {
        self.spec_bits()
    }
}

/// `a` holds every flag of `b`.
pub open spec fn bits_contain(a: u64, b: u64) -> bool {
    a & b == b
}

/// The permissions that only make sense in voice channels.
pub const VOICE_PERMISSIONS: u64 = Permissions::CONNECT | Permissions::SPEAK | Permissions::MUTE_MEMBERS
    | Permissions::DEAFEN_MEMBERS | Permissions::MOVE_MEMBERS | Permissions::USE_VAD
    | Permissions::STREAM;

/// The permissions that are of no use without [`Permissions::SEND_MESSAGES`].
pub const MESSAGING_PERMISSIONS: u64 = Permissions::SEND_TTS_MESSAGES
    | Permissions::MENTION_EVERYONE | Permissions::EMBED_LINKS | Permissions::ATTACH_FILES;

/// The permissions that are of no use without [`Permissions::READ_MESSAGES`].
pub const ACTION_PERMISSIONS: u64 = Permissions::KICK_MEMBERS | Permissions::BAN_MEMBERS
    | Permissions::ADMINISTRATOR | Permissions::MANAGE_GUILD | Permissions::CHANGE_NICKNAME
    | Permissions::MANAGE_NICKNAMES;

/// The known flags that are not in `a`.
pub open spec fn bits_complement(a: u64) -> u64 {
    !a & ALL_BITS
}

impl Permissions {
    pub closed spec fn spec_bits(&self) -> u64 {
        self.bits
    }

    /// Create invites.
    pub const CREATE_INVITE: u64 = 1u64 << 0u64;
    /// Kick members.
    pub const KICK_MEMBERS: u64 = 1u64 << 1u64;
    /// Ban members.
    pub const BAN_MEMBERS: u64 = 1u64 << 2u64;
    /// Every permission, bypassing channel overwrites.
    pub const ADMINISTRATOR: u64 = 1u64 << 3u64;
    /// Manage channels.
    pub const MANAGE_CHANNELS: u64 = 1u64 << 4u64;
    /// Manage the guild.
    pub const MANAGE_GUILD: u64 = 1u64 << 5u64;
    /// Add reactions.
    pub const ADD_REACTIONS: u64 = 1u64 << 6u64;
    /// View the audit log.
    pub const VIEW_AUDIT_LOG: u64 = 1u64 << 7u64;
    /// Priority speaker in voice channels.
    pub const PRIORITY_SPEAKER: u64 = 1u64 << 8u64;
    /// Stream in voice channels.
    pub const STREAM: u64 = 1u64 << 9u64;
    /// Read messages (view a channel).
    pub const READ_MESSAGES: u64 = 1u64 << 10u64;
    /// Send messages.
    pub const SEND_MESSAGES: u64 = 1u64 << 11u64;
    /// Send text-to-speech messages.
    pub const SEND_TTS_MESSAGES: u64 = 1u64 << 12u64;
    /// Manage messages.
    pub const MANAGE_MESSAGES: u64 = 1u64 << 13u64;
    /// Embed links.
    pub const EMBED_LINKS: u64 = 1u64 << 14u64;
    /// Attach files.
    pub const ATTACH_FILES: u64 = 1u64 << 15u64;
    /// Read the message history.
    pub const READ_MESSAGE_HISTORY: u64 = 1u64 << 16u64;
    /// Mention everyone.
    pub const MENTION_EVERYONE: u64 = 1u64 << 17u64;
    /// Use emojis of other guilds.
    pub const USE_EXTERNAL_EMOJIS: u64 = 1u64 << 18u64;
    /// View guild insights.
    pub const VIEW_GUILD_INSIGHTS: u64 = 1u64 << 19u64;
    /// Connect to voice channels.
    pub const CONNECT: u64 = 1u64 << 20u64;
    /// Speak in voice channels.
    pub const SPEAK: u64 = 1u64 << 21u64;
    /// Mute members.
    pub const MUTE_MEMBERS: u64 = 1u64 << 22u64;
    /// Deafen members.
    pub const DEAFEN_MEMBERS: u64 = 1u64 << 23u64;
    /// Move members between voice channels.
    pub const MOVE_MEMBERS: u64 = 1u64 << 24u64;
    /// Use voice activity detection.
    pub const USE_VAD: u64 = 1u64 << 25u64;
    /// Change one's own nickname.
    pub const CHANGE_NICKNAME: u64 = 1u64 << 26u64;
    /// Change other members' nicknames.
    pub const MANAGE_NICKNAMES: u64 = 1u64 << 27u64;
    /// Manage roles.
    pub const MANAGE_ROLES: u64 = 1u64 << 28u64;
    /// Manage webhooks.
    pub const MANAGE_WEBHOOKS: u64 = 1u64 << 29u64;
    /// Manage emojis.
    pub const MANAGE_EMOJIS: u64 = 1u64 << 30u64;
    /// Use slash commands.
    pub const USE_SLASH_COMMANDS: u64 = 1u64 << 31u64;
    /// Request to speak in stage channels.
    pub const REQUEST_TO_SPEAK: u64 = 1u64 << 32u64;
    /// Manage events.
    pub const MANAGE_EVENTS: u64 = 1u64 << 33u64;
    /// Manage threads.
    pub const MANAGE_THREADS: u64 = 1u64 << 34u64;
    /// Create public threads.
    pub const USE_PUBLIC_THREADS: u64 = 1u64 << 35u64;
    /// Create private threads.
    pub const USE_PRIVATE_THREADS: u64 = 1u64 << 36u64;
    /// Use stickers of other guilds.
    pub const USE_EXTERNAL_STICKERS: u64 = 1u64 << 37u64;
    /// Send messages in threads.
    pub const SEND_MESSAGES_IN_THREADS: u64 = 1u64 << 38u64;
    /// Start embedded activities.
    pub const START_EMBEDDED_ACTIVITIES: u64 = 1u64 << 39u64;
    /// Time members out.
    pub const MODERATE_MEMBERS: u64 = 1u64 << 40u64;

    /// The set with no permission.
    pub fn empty() -> (r: Permissions)
        ensures
            r@ == 0,
    {
        Permissions { bits: 0 }
    }

    /// The set of every known permission.
    pub fn all() -> (r: Permissions)
        ensures
            r@ == ALL_BITS,
    {
        Permissions { bits: ALL_BITS }
    }

    /// The raw bits of the set.
    pub fn bits(&self) -> (r: u64)
        ensures
            r == self@,
    {
        self.bits
    }

    /// The set whose bits are `bits`, if every one of them names a known permission.
    pub fn from_bits(bits: u64) -> (r: Option<Permissions>)
        ensures
            r.is_some() == (bits & !ALL_BITS == 0),
            r matches Some(p) ==> p@ == bits,
    {
        if bits & !ALL_BITS == 0 {
            Some(Permissions { bits })
        } else {
            None
        }
    }

    /// The set whose bits are exactly `bits`; used with the flag constants above.
    pub fn from_flags(bits: u64) -> (r: Permissions)
        requires
            bits & ALL_BITS == bits,
        ensures
            r@ == bits,
    {
        Permissions { bits }
    }

    /// Keeps the known permissions among `bits`, dropping unknown bits.
    pub fn from_bits_truncate(bits: u64) -> (r: Permissions)
        ensures
            r@ == bits & ALL_BITS,
    {
        Permissions { bits: bits & ALL_BITS }
    }

    /// Whether every permission of `other` is in `self`.
    pub fn contains(&self, other: Permissions) -> (r: bool)
        ensures
            r == bits_contain(self@, other@),
    {
        self.bits & other.bits == other.bits
    }

    /// Whether the set is empty.
    pub fn is_empty(&self) -> (r: bool)
        ensures
            r == (self@ == 0),
    {
        self.bits == 0
    }

    /// The permissions in either set.
    pub fn union(self, other: Permissions) -> (r: Permissions)
        ensures
            r@ == self@ | other@,
    {
        Permissions { bits: self.bits | other.bits }
    }

    /// The permissions in both sets.
    pub fn intersection(self, other: Permissions) -> (r: Permissions)
        ensures
            r@ == self@ & other@,
    {
        Permissions { bits: self.bits & other.bits }
    }

    /// The known permissions that are not in `self`.
    pub fn complement(self) -> (r: Permissions)
        ensures
            r@ == bits_complement(self@),
    {
        Permissions { bits: !self.bits & ALL_BITS }
    }

    /// Adds every permission of `other`.
    pub fn insert(&mut self, other: Permissions)
        ensures
            final(self)@ == old(self)@ | other@,
    {
        self.bits = self.bits | other.bits;
    }

    /// Takes every permission of `other` away.
    pub fn remove(&mut self, other: Permissions)
        ensures
            final(self)@ == old(self)@ & !other@,
    {
        self.bits = self.bits & !other.bits;
    }

    /// Whether the set holds [`Self::READ_MESSAGES`].
    pub fn read_messages(&self) -> (r: bool)
        ensures
            r == bits_contain(self@, Self::READ_MESSAGES),
    {
        self.bits & Self::READ_MESSAGES == Self::READ_MESSAGES
    }

    /// Whether the set holds [`Self::ADMINISTRATOR`].
    pub fn administrator(&self) -> (r: bool)
        ensures
            r == bits_contain(self@, Self::ADMINISTRATOR),
    {
        self.bits & Self::ADMINISTRATOR == Self::ADMINISTRATOR
    }
}

} // verus!
