//! Message settings sent along with interaction responses.

use vstd::prelude::*;

use crate::id::Id;

verus! {

/// Kind of mention that may be parsed from message content.
#[derive(Clone, Copy, Debug, PartialEq, Eq, Hash, Structural)]
pub enum ParseTypes {
    /// `@everyone` and `@here`.
    Everyone,
    /// Role mentions.
    Roles,
    /// User mentions.
    Users,
}

/// Which mentions of a message notify their targets.
#[derive(Clone, Debug, PartialEq, Eq, Hash)]
pub struct AllowedMentions {
    /// Kinds of mentions parsed from the content.
    pub parse: Vec<ParseTypes>,
    /// Users that may be mentioned.
    pub users: Vec<Id>,
    /// Roles that may be mentioned.
    pub roles: Vec<Id>,
    /// Whether the author of a replied-to message is mentioned.
    pub replied_user: bool,
}

/// Flags of a message, as a bit set.
#[derive(Clone, Copy, Debug, PartialEq, Eq, Hash, Structural)]
pub struct MessageFlags {
    /// The bits of the set.
    pub bits: u64,
}

} // verus!
