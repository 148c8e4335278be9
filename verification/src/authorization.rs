//! The transfer authorization checker: the synchronous guard evaluated on
//! every governed transfer.
use vstd::prelude::*;

use crate::errors::SubscriptionError;
use crate::record::SubscriptionAccount;

verus! {

/// The decision rule: a transfer at time `now` is allowed
/// exactly when `now` lies strictly before the record's expiry. A transfer
/// at the exact expiry instant is denied.
pub open spec fn authorized(record: SubscriptionAccount, now: i64) -> bool {
    now < record.expiry_timestamp
}

/// The accounts the external runtime resolves and attaches to a hook
/// invocation.
pub struct TransferHook {
    /// The sender whose transfer is being checked.
    pub owner: [u8; 32],
    /// The sender's subscription record, resolved by the runtime from the
    /// published descriptor list.
    pub subscription_account: SubscriptionAccount,
}

/// Decides whether the in-flight transfer of `amount` may proceed at time
/// `now`. The check is binary: the amount plays no part in the decision.
///
/// A denial makes the whole transfer fail; the surrounding runtime
/// guarantees all-or-nothing semantics for the transfer plus this check.
pub fn transfer_hook(ctx: &TransferHook, _amount: u64, now: i64) -> (r: Result<
    (),
    SubscriptionError,
>)
    requires
        ctx.subscription_account.owner@ == ctx.owner@,
    ensures
        r is Ok <==> authorized(ctx.subscription_account, now),
        r matches Err(e) ==> e == SubscriptionError::SubscriptionExpired,
{
    if now < ctx.subscription_account.expiry_timestamp {
        Ok(())
    } else {
        Err(SubscriptionError::SubscriptionExpired)
    }
}

/// A record that was initialized but never paid for denies every transfer:
/// its expiry is `0`, and any realistic clock reading is at least `0`.
pub proof fn lemma_fresh_record_denies(record: SubscriptionAccount, now: i64)
    requires
        crate::record::never_activated(record),
        now >= 0,
    ensures
        !authorized(record, now),
{
}

/// Denial is monotonic in time: once a record denies at some instant, it
/// denies at every later instant, absent an intervening renewal — the
/// stored expiry alone decides, and renewals never decrease it.
pub proof fn lemma_denial_is_monotonic(record: SubscriptionAccount, now1: i64, now2: i64)
    requires
        now1 <= now2,
        !authorized(record, now1),
    ensures
        !authorized(record, now2),
{
}

} // verus!
