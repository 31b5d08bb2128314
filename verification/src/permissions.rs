//! Named permission tiers. A permission level is a 4-bit number compared
//! ordinally; these are the named points of that range, any other value is
//! a custom tier.

use vstd::prelude::*;

verus! {

/// Can only ask for permission to join.
pub const GUEST: u8 = 0;

/// Can send and retrieve messages.
pub const REGULAR: u8 = 1;

/// Can send and retrieve messages, and can send files.
pub const PREMIUM: u8 = 2;

/// Can additionally ban, mute, or kick users.
pub const MODERATOR: u8 = 8;

/// Can do anything.
pub const ADMIN: u8 = 15;

} // verus!
