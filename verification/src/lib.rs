//! A time-limited, pay-to-renew access-control guard enforced at the moment
//! a token is transferred.
//!
//! A holder keeps a per-owner subscription record whose expiry timestamp
//! decides, against the current time, whether a governed transfer is
//! allowed. Paying a fixed fee extends an active window or restarts an
//! expired one. The external token-transfer runtime discovers the record
//! through a published descriptor list at a deterministic address and
//! invokes the guard through an opaque payload that is decoded and
//! dispatched here.
pub mod address;
pub mod authorization;
pub mod config;
pub mod dispatch;
pub mod errors;
pub mod record;
pub mod registration;
pub mod renewal;
