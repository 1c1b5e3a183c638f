//! Image URLs on Discord's CDN.

use vstd::prelude::*;

use crate::guild::Guild;
use crate::id::GuildId;
use crate::records::{GuildInfo, InviteGuild};
use crate::text::{decimal, decimal_string, starts_with, starts_with_bytes, utf8};

verus! {

/// The URL of a guild icon: WEBP, or GIF for an animated icon (hash starting with `a_`).
pub open spec fn icon_url_of(id: GuildId, icon: Seq<char>) -> Seq<char> {
    "https://cdn.discordapp.com/icons/"@ + decimal(id.0 as nat) + "/"@ + icon + "."@ + if starts_with_bytes(
        utf8(icon),
        utf8("a_"@),
    ) {
        "gif"@
    } else {
        "webp"@
    }
}

/// The URL of a guild banner.
pub open spec fn banner_url_of(id: GuildId, banner: Seq<char>) -> Seq<char> {
    "https://cdn.discordapp.com/banners/"@ + decimal(id.0 as nat) + "/"@ + banner
        + ".webp?size=1024"@
}

/// The URL of a guild splash image.
pub open spec fn splash_url_of(id: GuildId, splash: Seq<char>) -> Seq<char> {
    "https://cdn.discordapp.com/splashes/"@ + decimal(id.0 as nat) + "/"@ + splash
        + ".webp?size=4096"@
}

/// The URL of the icon with hash `icon` of the guild `id`.
fn icon_url_for(id: GuildId, icon: &str) -> (r: String)
    ensures
        r@ == icon_url_of(id, icon@),
{
    let mut url = String::from_str("https://cdn.discordapp.com/icons/");
    url.append(decimal_string(id.0).as_str());
    url.append("/");
    url.append(icon);
    url.append(".");
    if starts_with(icon, "a_") {
        url.append("gif");
    } else {
        url.append("webp");
    }
    url
}

/// The URL of the splash image with hash `splash` of the guild `id`.
fn splash_url_for(id: GuildId, splash: &str) -> (r: String)
    ensures
        r@ == splash_url_of(id, splash@),
{
    let mut url = String::from_str("https://cdn.discordapp.com/splashes/");
    url.append(decimal_string(id.0).as_str());
    url.append("/");
    url.append(splash);
    url.append(".webp?size=4096");
    url
}

impl Guild {
    /// Returns the formatted URL of the guild's banner image, if one exists.
    pub fn banner_url(&self) -> (r: Option<String>)
        ensures
            match self.banner {
                Some(banner) => r matches Some(url) && url@ == banner_url_of(self.id, banner@),
                None => r.is_none(),
            },
    {
        match &self.banner {
            Some(banner) => {
                let mut url = String::from_str("https://cdn.discordapp.com/banners/");
                url.append(decimal_string(self.id.0).as_str());
                url.append("/");
                url.append(banner.as_str());
                url.append(".webp?size=1024");
                Some(url)
            },
            None => None,
        }
    }

    /// Returns the formatted URL of the guild's icon, if one exists: a WEBP image URL,
    /// or GIF if the guild has a GIF icon.
    pub fn icon_url(&self) -> (r: Option<String>)
        ensures
            match self.icon {
                Some(icon) => r matches Some(url) && url@ == icon_url_of(self.id, icon@),
                None => r.is_none(),
            },
    {
        match &self.icon {
            Some(icon) => Some(icon_url_for(self.id, icon.as_str())),
            None => None,
        }
    }

    /// Returns the formatted URL of the guild's splash image, if one exists.
    pub fn splash_url(&self) -> (r: Option<String>)
        ensures
            match self.splash {
                Some(splash) => r matches Some(url) && url@ == splash_url_of(self.id, splash@),
                None => r.is_none(),
            },
    {
        match &self.splash {
            Some(splash) => Some(splash_url_for(self.id, splash.as_str())),
            None => None,
        }
    }
}

impl GuildInfo {
    /// Returns the formatted URL of the guild's icon, if the guild has an icon: a WEBP
    /// image URL, or GIF if the guild has a GIF icon.
    pub fn icon_url(&self) -> (r: Option<String>)
        ensures
            match self.icon {
                Some(icon) => r matches Some(url) && url@ == icon_url_of(self.id, icon@),
                None => r.is_none(),
            },
    {
        match &self.icon {
            Some(icon) => Some(icon_url_for(self.id, icon.as_str())),
            None => None,
        }
    }
}

impl InviteGuild {
    /// Returns the formatted URL of the guild's splash image, if one exists.
    pub fn splash_url(&self) -> (r: Option<String>)
        ensures
            match self.splash {
                Some(splash) => r matches Some(url) && url@ == splash_url_of(self.id, splash@),
                None => r.is_none(),
            },
    {
        match &self.splash {
            Some(splash) => Some(splash_url_for(self.id, splash.as_str())),
            None => None,
        }
    }
}

} // verus!
