//! Errors of the guild model.

use vstd::prelude::*;

use crate::permissions::Permissions;

verus! {

/// An error found by checking model data, before any request is made.
#[derive(Clone, Copy, Debug, PartialEq, Eq, Structural)]
pub enum ModelError {
    /// The number of days of messages to delete on a ban is over the maximum of 7.
    DeleteMessageDaysAmount(u8),
    /// The member to act on ranks at or above the current user.
    Hierarchy,
    /// The current user lacks the given permissions.
    InvalidPermissions(Permissions),
    /// A role that the computation needs is missing from the guild.
    RoleNotFound,
    /// The current user is not the user the action needs, such as the guild owner.
    InvalidUser,
    /// The role or channel belongs to another guild.
    WrongGuild,
}

/// An error of an operation on a guild.
#[derive(Clone, Debug)]
pub enum Error {
    /// A check on the model data failed.
    Model(ModelError),
    /// A text is longer than its limit; holds the text and the limit.
    ExceededLimit(String, u32),
}

} // verus!
