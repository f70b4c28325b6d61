//! Users and guild members.

use vstd::prelude::*;

use crate::datetime::Timestamp;
use crate::id::Id;

verus! {

/// Premium subscription of a user.
#[derive(Clone, Copy, Debug, PartialEq, Eq, Hash, Structural)]
pub enum PremiumType {
    NoPremium,
    NitroClassic,
    Nitro,
}

/// A Discord user.
#[derive(Clone, Debug, PartialEq, Eq, Hash)]
pub struct User {
    pub accent_color: Option<u32>,
    pub avatar: Option<String>,
    pub banner: Option<String>,
    pub bot: bool,
    pub discriminator: u16,
    pub email: Option<String>,
    /// Flags of the account, as a bit set.
    pub flags: Option<u64>,
    pub id: Id,
    pub locale: Option<String>,
    pub mfa_enabled: Option<bool>,
    pub name: String,
    pub premium_type: Option<PremiumType>,
    /// Public flags of the account, as a bit set.
    pub public_flags: Option<u64>,
    pub system: Option<bool>,
    pub verified: Option<bool>,
}

/// A member of a guild, as sent with an interaction.
#[derive(Clone, Debug, PartialEq, Eq, Hash)]
pub struct PartialMember {
    pub avatar: Option<String>,
    pub communication_disabled_until: Option<Timestamp>,
    pub deaf: bool,
    pub joined_at: Timestamp,
    pub mute: bool,
    pub nick: Option<String>,
    /// Permissions of the member in the channel, as a bit set.
    pub permissions: Option<u64>,
    pub premium_since: Option<Timestamp>,
    pub roles: Vec<Id>,
    /// The user, absent in some payloads.
    pub user: Option<User>,
}

} // verus!
