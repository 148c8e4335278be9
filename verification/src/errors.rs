//! The failure reasons the guard can surface.
use vstd::prelude::*;

verus! {

/// Every operation of the guard either commits fully or fails with exactly
/// one of these reasons; nothing is retried internally.
#[derive(Clone, Copy, Debug, PartialEq, Eq, Structural)]
pub enum SubscriptionError {
    /// A subscription record already exists for this owner.
    AlreadyExists,
    /// The payer cannot cover the fixed renewal fee.
    InsufficientFunds,
    /// The subscription's expiry has passed; the transfer is denied.
    SubscriptionExpired,
    /// The raw invocation payload is unrecognized or malformed.
    InvalidInvocation,
}

} // verus!
