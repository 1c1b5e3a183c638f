//! The welcome screen of a community guild.

use vstd::prelude::*;

use crate::id::{ChannelId, EmojiId};
use crate::payload::MissingField;

verus! {

/// Information relating to a guild's welcome screen.
#[derive(Clone, Debug)]
pub struct GuildWelcomeScreen {
    /// The server description shown in the welcome screen.
    pub description: Option<String>,
    /// The channels shown in the welcome screen; Discord allows up to 5.
    pub welcome_channels: Vec<GuildWelcomeChannel>,
}

/// A channel shown in the [`GuildWelcomeScreen`].
#[derive(Clone, Debug)]
pub struct GuildWelcomeChannel {
    /// The channel id.
    pub channel_id: ChannelId,
    /// The description shown for the channel.
    pub description: String,
    /// The emoji shown, if there is one.
    pub emoji: Option<GuildWelcomeScreenEmoji>,
}

/// A [`GuildWelcomeScreen`] emoji.
#[derive(Clone, Debug)]
pub enum GuildWelcomeScreenEmoji {
    /// A custom emoji.
    Custom(EmojiId),
    /// A unicode emoji.
    Unicode(String),
}

/// The emoji described by the `emoji_id` and `emoji_name` fields of a welcome channel:
/// a name makes a unicode emoji, else an id makes a custom one.
pub open spec fn emoji_from_fields(
    emoji_id: Option<EmojiId>,
    emoji_name: Option<String>,
) -> Option<GuildWelcomeScreenEmoji> {
    match emoji_name {
        Some(name) => Some(GuildWelcomeScreenEmoji::Unicode(name)),
        None => match emoji_id {
            Some(id) => Some(GuildWelcomeScreenEmoji::Custom(id)),
            None => None,
        },
    }
}

/// The `emoji_id` and `emoji_name` fields that describe an emoji; the unused one is null.
pub open spec fn emoji_fields(emoji: Option<GuildWelcomeScreenEmoji>) -> (
    Option<EmojiId>,
    Option<String>,
) {
    match emoji {
        Some(GuildWelcomeScreenEmoji::Custom(id)) => (Some(id), None),
        Some(GuildWelcomeScreenEmoji::Unicode(name)) => (None, Some(name)),
        None => (None, None),
    }
}

impl GuildWelcomeChannel {
    /// Builds a welcome channel from the fields of its payload, each `None` where the
    /// payload lacks the key; `emoji_id` and `emoji_name` hold `None` where the field is
    /// null.
    ///
    /// Fails with the first missing field of `channel_id`, `description`, `emoji_id`
    /// and `emoji_name`, in that order.
    pub fn from_fields(
        channel_id: Option<ChannelId>,
        description: Option<String>,
        emoji_id: Option<Option<EmojiId>>,
        emoji_name: Option<Option<String>>,
    ) -> (r: Result<GuildWelcomeChannel, MissingField>)
        ensures
            channel_id.is_none() ==> r == Err::<GuildWelcomeChannel, MissingField>(
                MissingField::ChannelId,
            ),
            channel_id.is_some() && description.is_none() ==> r == Err::<
                GuildWelcomeChannel,
                MissingField,
            >(MissingField::Description),
            channel_id.is_some() && description.is_some() && emoji_id.is_none() ==> r == Err::<
                GuildWelcomeChannel,
                MissingField,
            >(MissingField::EmojiId),
            channel_id.is_some() && description.is_some() && emoji_id.is_some()
                && emoji_name.is_none() ==> r == Err::<GuildWelcomeChannel, MissingField>(
                MissingField::EmojiName,
            ),
            channel_id.is_some() && description.is_some() && emoji_id.is_some()
                && emoji_name.is_some() ==> r is Ok,
            r matches Ok(c) ==> {
                &&& channel_id == Some(c.channel_id)
                &&& description == Some(c.description)
                &&& emoji_id.is_some() && emoji_name.is_some()
                &&& c.emoji == emoji_from_fields(emoji_id.unwrap(), emoji_name.unwrap())
            },
    {
        let channel_id = match channel_id {
            Some(id) => id,
            None => return Err(MissingField::ChannelId),
        };
        let description = match description {
            Some(d) => d,
            None => return Err(MissingField::Description),
        };
        let emoji_id = match emoji_id {
            Some(id) => id,
            None => return Err(MissingField::EmojiId),
        };
        let emoji_name = match emoji_name {
            Some(name) => name,
            None => return Err(MissingField::EmojiName),
        };
        let mut emoji = None;
        if let Some(id) = emoji_id {
            emoji = Some(GuildWelcomeScreenEmoji::Custom(id));
        }
        if let Some(name) = emoji_name {
            emoji = Some(GuildWelcomeScreenEmoji::Unicode(name));
        }
        Ok(GuildWelcomeChannel { channel_id, description, emoji })
    }

    /// The `emoji_id` and `emoji_name` wire fields of the channel's emoji.
    pub fn emoji_fields(&self) -> (r: (Option<EmojiId>, Option<String>))
        ensures
            r == emoji_fields(self.emoji),
    {
        match &self.emoji {
            Some(GuildWelcomeScreenEmoji::Custom(id)) => (Some(*id), None),
            Some(GuildWelcomeScreenEmoji::Unicode(name)) => (None, Some(name.clone())),
            None => (None, None),
        }
    }
}

/// Writing a welcome channel's emoji to its fields and reading them back gives the same
/// emoji.
pub proof fn lemma_welcome_emoji_roundtrip(emoji: Option<GuildWelcomeScreenEmoji>)
    ensures
        emoji_from_fields(emoji_fields(emoji).0, emoji_fields(emoji).1) == emoji,
{
}

} // verus!
