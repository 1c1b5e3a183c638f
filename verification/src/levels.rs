//! Settings of a guild that Discord sends as numbers, and voice regions.

use vstd::prelude::*;

verus! {

/// Default message notification level for a guild.
#[derive(Clone, Copy, Debug, PartialEq, Eq, Structural, Hash)]
pub enum DefaultMessageNotificationLevel {
    /// Receive notifications for everything.
    All,
    /// Receive only mentions.
    Mentions,
    /// Unknown notification level.
    Unknown,
}

/// Setting used to filter explicit messages from members.
#[derive(Clone, Copy, Debug, PartialEq, Eq, Structural, Hash)]
pub enum ExplicitContentFilter {
    /// Don't scan any messages.
    Off,
    /// Scan messages from members without a role.
    WithoutRole,
    /// Scan messages sent by all members.
    All,
    /// Unknown content filter.
    Unknown,
}

/// Multi-Factor Authentication level for guild moderators.
#[derive(Clone, Copy, Debug, PartialEq, Eq, Structural, Hash)]
pub enum MfaLevel {
    /// MFA is disabled.
    Off,
    /// MFA is enabled.
    Elevated,
    /// Unknown MFA level.
    Unknown,
}

/// The level to set as criteria prior to a user being able to send messages in a guild.
#[derive(Clone, Copy, Debug, PartialEq, Eq, Structural, Hash)]
pub enum VerificationLevel {
    /// Does not require any verification.
    Off,
    /// Must have a verified email on the user's Discord account.
    Low,
    /// Must also be a registered user on Discord for longer than 5 minutes.
    Medium,
    /// Must also be a member of the guild for longer than 10 minutes.
    High,
    /// Must have a verified phone on the user's Discord account.
    Higher,
    /// Unknown verification level.
    Unknown,
}

/// The guild NSFW level.
#[derive(Clone, Copy, Debug, PartialEq, Eq, Structural, Hash)]
pub enum NsfwLevel {
    /// The NSFW level is not specified.
    Default,
    /// The guild is considered as explicit.
    Explicit,
    /// The guild is considered as safe.
    Safe,
    /// The guild is age restricted.
    AgeRestricted,
    /// Unknown NSFW level.
    Unknown,
}

/// The boosting level of a guild.
#[derive(Clone, Copy, Debug, PartialEq, Eq, Structural, Hash)]
pub enum PremiumTier {
    /// No boosting level.
    Tier0,
    /// The first boosting level.
    Tier1,
    /// The second boosting level.
    Tier2,
    /// The third boosting level.
    Tier3,
    /// Unknown boosting level.
    Unknown,
}

impl Default for PremiumTier {
    /// A guild without boosts.
    fn default() -> (r: PremiumTier)
        ensures
            r == PremiumTier::Tier0,
    {
        PremiumTier::Tier0
    }
}

/// The name of a region that a voice server can be located in.
#[derive(Clone, Copy, Debug, PartialEq, Eq, Structural, Hash)]
pub enum Region {
    Amsterdam,
    Brazil,
    EuCentral,
    EuWest,
    Frankfurt,
    HongKong,
    Japan,
    London,
    Russia,
    Singapore,
    Sydney,
    UsCentral,
    UsEast,
    UsSouth,
    UsWest,
    VipAmsterdam,
    VipUsEast,
    VipUsWest,
}

/// The number that stands for an unknown setting.
pub const UNKNOWN_NUM: u64 = 0xffff_ffff_ffff_ffff;

/// The number Discord uses for each DefaultMessageNotificationLevel value.
pub open spec fn default_message_notification_level_num(level: DefaultMessageNotificationLevel) -> u64 {
    match level {
            DefaultMessageNotificationLevel::All => 0,
            DefaultMessageNotificationLevel::Mentions => 1,
            DefaultMessageNotificationLevel::Unknown => UNKNOWN_NUM,
        }
}

/// The DefaultMessageNotificationLevel value a number stands for; numbers without a meaning give `Unknown`.
pub open spec fn default_message_notification_level_from_num(n: u64) -> DefaultMessageNotificationLevel {
    match n {
            0 => DefaultMessageNotificationLevel::All,
            1 => DefaultMessageNotificationLevel::Mentions,
            _ => DefaultMessageNotificationLevel::Unknown,
        }
}

impl DefaultMessageNotificationLevel {
    /// The number Discord uses for this value.
    pub fn num(&self) -> (r: u64)
        ensures
            r == default_message_notification_level_num(*self),
    {
        match self {
            DefaultMessageNotificationLevel::All => 0,
            DefaultMessageNotificationLevel::Mentions => 1,
            DefaultMessageNotificationLevel::Unknown => UNKNOWN_NUM,
        }
    }

    /// The value a number stands for; `Unknown` for any other number.
    pub fn from_num(n: u64) -> (r: DefaultMessageNotificationLevel)
        ensures
            r == default_message_notification_level_from_num(n),
    {
        match n {
            0 => DefaultMessageNotificationLevel::All,
            1 => DefaultMessageNotificationLevel::Mentions,
            _ => DefaultMessageNotificationLevel::Unknown,
        }
    }
}

/// Reading back the number of a value gives the value.
pub proof fn lemma_default_message_notification_level_num_roundtrip(level: DefaultMessageNotificationLevel)
    ensures
        default_message_notification_level_from_num(default_message_notification_level_num(level)) == level,
{
}

/// The number Discord uses for each ExplicitContentFilter value.
pub open spec fn explicit_content_filter_num(level: ExplicitContentFilter) -> u64 {
    match level {
            ExplicitContentFilter::Off => 0,
            ExplicitContentFilter::WithoutRole => 1,
            ExplicitContentFilter::All => 2,
            ExplicitContentFilter::Unknown => UNKNOWN_NUM,
        }
}

/// The ExplicitContentFilter value a number stands for; numbers without a meaning give `Unknown`.
pub open spec fn explicit_content_filter_from_num(n: u64) -> ExplicitContentFilter {
    match n {
            0 => ExplicitContentFilter::Off,
            1 => ExplicitContentFilter::WithoutRole,
            2 => ExplicitContentFilter::All,
            _ => ExplicitContentFilter::Unknown,
        }
}

impl ExplicitContentFilter {
    /// The number Discord uses for this value.
    pub fn num(&self) -> (r: u64)
        ensures
            r == explicit_content_filter_num(*self),
    {
        match self {
            ExplicitContentFilter::Off => 0,
            ExplicitContentFilter::WithoutRole => 1,
            ExplicitContentFilter::All => 2,
            ExplicitContentFilter::Unknown => UNKNOWN_NUM,
        }
    }

    /// The value a number stands for; `Unknown` for any other number.
    pub fn from_num(n: u64) -> (r: ExplicitContentFilter)
        ensures
            r == explicit_content_filter_from_num(n),
    {
        match n {
            0 => ExplicitContentFilter::Off,
            1 => ExplicitContentFilter::WithoutRole,
            2 => ExplicitContentFilter::All,
            _ => ExplicitContentFilter::Unknown,
        }
    }
}

/// Reading back the number of a value gives the value.
pub proof fn lemma_explicit_content_filter_num_roundtrip(level: ExplicitContentFilter)
    ensures
        explicit_content_filter_from_num(explicit_content_filter_num(level)) == level,
{
}

/// The number Discord uses for each MfaLevel value.
pub open spec fn mfa_level_num(level: MfaLevel) -> u64 {
    match level {
            MfaLevel::Off => 0,
            MfaLevel::Elevated => 1,
            MfaLevel::Unknown => UNKNOWN_NUM,
        }
}

/// The MfaLevel value a number stands for; numbers without a meaning give `Unknown`.
pub open spec fn mfa_level_from_num(n: u64) -> MfaLevel {
    match n {
            0 => MfaLevel::Off,
            1 => MfaLevel::Elevated,
            _ => MfaLevel::Unknown,
        }
}

impl MfaLevel {
    /// The number Discord uses for this value.
    pub fn num(&self) -> (r: u64)
        ensures
            r == mfa_level_num(*self),
    {
        match self {
            MfaLevel::Off => 0,
            MfaLevel::Elevated => 1,
            MfaLevel::Unknown => UNKNOWN_NUM,
        }
    }

    /// The value a number stands for; `Unknown` for any other number.
    pub fn from_num(n: u64) -> (r: MfaLevel)
        ensures
            r == mfa_level_from_num(n),
    {
        match n {
            0 => MfaLevel::Off,
            1 => MfaLevel::Elevated,
            _ => MfaLevel::Unknown,
        }
    }
}

/// Reading back the number of a value gives the value.
pub proof fn lemma_mfa_level_num_roundtrip(level: MfaLevel)
    ensures
        mfa_level_from_num(mfa_level_num(level)) == level,
{
}

/// The number Discord uses for each VerificationLevel value.
pub open spec fn verification_level_num(level: VerificationLevel) -> u64 {
    match level {
            VerificationLevel::Off => 0,
            VerificationLevel::Low => 1,
            VerificationLevel::Medium => 2,
            VerificationLevel::High => 3,
            VerificationLevel::Higher => 4,
            VerificationLevel::Unknown => UNKNOWN_NUM,
        }
}

/// The VerificationLevel value a number stands for; numbers without a meaning give `Unknown`.
pub open spec fn verification_level_from_num(n: u64) -> VerificationLevel {
    match n {
            0 => VerificationLevel::Off,
            1 => VerificationLevel::Low,
            2 => VerificationLevel::Medium,
            3 => VerificationLevel::High,
            4 => VerificationLevel::Higher,
            _ => VerificationLevel::Unknown,
        }
}

impl VerificationLevel {
    /// The number Discord uses for this value.
    pub fn num(&self) -> (r: u64)
        ensures
            r == verification_level_num(*self),
    {
        match self {
            VerificationLevel::Off => 0,
            VerificationLevel::Low => 1,
            VerificationLevel::Medium => 2,
            VerificationLevel::High => 3,
            VerificationLevel::Higher => 4,
            VerificationLevel::Unknown => UNKNOWN_NUM,
        }
    }

    /// The value a number stands for; `Unknown` for any other number.
    pub fn from_num(n: u64) -> (r: VerificationLevel)
        ensures
            r == verification_level_from_num(n),
    {
        match n {
            0 => VerificationLevel::Off,
            1 => VerificationLevel::Low,
            2 => VerificationLevel::Medium,
            3 => VerificationLevel::High,
            4 => VerificationLevel::Higher,
            _ => VerificationLevel::Unknown,
        }
    }
}

/// Reading back the number of a value gives the value.
pub proof fn lemma_verification_level_num_roundtrip(level: VerificationLevel)
    ensures
        verification_level_from_num(verification_level_num(level)) == level,
{
}

/// The number Discord uses for each NsfwLevel value.
pub open spec fn nsfw_level_num(level: NsfwLevel) -> u64 {
    match level {
            NsfwLevel::Default => 0,
            NsfwLevel::Explicit => 1,
            NsfwLevel::Safe => 2,
            NsfwLevel::AgeRestricted => 3,
            NsfwLevel::Unknown => UNKNOWN_NUM,
        }
}

/// The NsfwLevel value a number stands for; numbers without a meaning give `Unknown`.
pub open spec fn nsfw_level_from_num(n: u64) -> NsfwLevel {
    match n {
            0 => NsfwLevel::Default,
            1 => NsfwLevel::Explicit,
            2 => NsfwLevel::Safe,
            3 => NsfwLevel::AgeRestricted,
            _ => NsfwLevel::Unknown,
        }
}

impl NsfwLevel {
    /// The number Discord uses for this value.
    pub fn num(&self) -> (r: u64)
        ensures
            r == nsfw_level_num(*self),
    {
        match self {
            NsfwLevel::Default => 0,
            NsfwLevel::Explicit => 1,
            NsfwLevel::Safe => 2,
            NsfwLevel::AgeRestricted => 3,
            NsfwLevel::Unknown => UNKNOWN_NUM,
        }
    }

    /// The value a number stands for; `Unknown` for any other number.
    pub fn from_num(n: u64) -> (r: NsfwLevel)
        ensures
            r == nsfw_level_from_num(n),
    {
        match n {
            0 => NsfwLevel::Default,
            1 => NsfwLevel::Explicit,
            2 => NsfwLevel::Safe,
            3 => NsfwLevel::AgeRestricted,
            _ => NsfwLevel::Unknown,
        }
    }
}

/// Reading back the number of a value gives the value.
pub proof fn lemma_nsfw_level_num_roundtrip(level: NsfwLevel)
    ensures
        nsfw_level_from_num(nsfw_level_num(level)) == level,
{
}

/// The number Discord uses for each PremiumTier value.
pub open spec fn premium_tier_num(level: PremiumTier) -> u64 {
    match level {
            PremiumTier::Tier0 => 0,
            PremiumTier::Tier1 => 1,
            PremiumTier::Tier2 => 2,
            PremiumTier::Tier3 => 3,
            PremiumTier::Unknown => UNKNOWN_NUM,
        }
}

/// The PremiumTier value a number stands for; numbers without a meaning give `Unknown`.
pub open spec fn premium_tier_from_num(n: u64) -> PremiumTier {
    match n {
            0 => PremiumTier::Tier0,
            1 => PremiumTier::Tier1,
            2 => PremiumTier::Tier2,
            3 => PremiumTier::Tier3,
            _ => PremiumTier::Unknown,
        }
}

impl PremiumTier {
    /// The number Discord uses for this value.
    pub fn num(&self) -> (r: u64)
        ensures
            r == premium_tier_num(*self),
    {
        match self {
            PremiumTier::Tier0 => 0,
            PremiumTier::Tier1 => 1,
            PremiumTier::Tier2 => 2,
            PremiumTier::Tier3 => 3,
            PremiumTier::Unknown => UNKNOWN_NUM,
        }
    }

    /// The value a number stands for; `Unknown` for any other number.
    pub fn from_num(n: u64) -> (r: PremiumTier)
        ensures
            r == premium_tier_from_num(n),
    {
        match n {
            0 => PremiumTier::Tier0,
            1 => PremiumTier::Tier1,
            2 => PremiumTier::Tier2,
            3 => PremiumTier::Tier3,
            _ => PremiumTier::Unknown,
        }
    }
}

/// Reading back the number of a value gives the value.
pub proof fn lemma_premium_tier_num_roundtrip(level: PremiumTier)
    ensures
        premium_tier_from_num(premium_tier_num(level)) == level,
{
}

} // verus!
