//! The two fixed configuration values of the guard.
//!
//! Both are process-wide constants for the life of a deployment: every
//! renewal moves exactly `SUBSCRIPTION_FEE` native-currency units and
//! extends the expiry by exactly `SUBSCRIPTION_DURATION` seconds.
use vstd::prelude::*;

verus! {

/// Fixed fee, in native-currency units, that one renewal costs.
pub const SUBSCRIPTION_FEE: u64 = 10_000_000;

/// Fixed length, in seconds, of the access window bought by one renewal
/// (30 days).
pub const SUBSCRIPTION_DURATION: i64 = 2_592_000;

} // verus!
