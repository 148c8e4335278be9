//! The renewal processor: moves the fixed fee from the holder to a
//! treasury and extends or restarts the record's expiry.
use vstd::prelude::*;

use crate::config::SUBSCRIPTION_DURATION;
use crate::config::SUBSCRIPTION_FEE;
use crate::errors::SubscriptionError;
use crate::record::SubscriptionAccount;

verus! {

/// The expiry a renewal at time `now` produces from the stored `expiry`:
/// an active, unexpired subscription is extended from its current expiry
/// (renewals stack), while an expired or never-activated one restarts the
/// window from the current time.
pub open spec fn renewed_expiry(expiry: int, now: int) -> int {
    if expiry > now {
        expiry + SUBSCRIPTION_DURATION
    } else {
        now + SUBSCRIPTION_DURATION
    }
}

/// The accounts taking part in a renewal.
pub struct PaySubscription {
    /// The holder paying for the renewal.
    pub payer: [u8; 32],
    /// The payer's native-currency balance.
    pub payer_lamports: u64,
    /// The treasury's native-currency balance.
    pub treasury_lamports: u64,
    /// The payer's subscription record.
    pub subscription_account: SubscriptionAccount,
}

/// Renews `ctx.subscription_account` at time `now`: first moves the fixed
/// fee from the payer to the treasury — failing atomically, with nothing
/// changed, if the payer cannot cover it — then extends or restarts the
/// expiry window.
///
/// That the record is the payer's own is enforced by the record's
/// deterministic address, mirrored here by the `owner` precondition. The
/// expiry and clock bounds keep the new expiry representable.
pub fn pay_subscription(ctx: &mut PaySubscription, now: i64) -> (r: Result<
    (),
    SubscriptionError,
>)
    requires
        old(ctx).subscription_account.owner@ == old(ctx).payer@,
        old(ctx).subscription_account.expiry_timestamp <= i64::MAX - SUBSCRIPTION_DURATION,
        now <= i64::MAX - SUBSCRIPTION_DURATION,
        old(ctx).treasury_lamports <= u64::MAX - SUBSCRIPTION_FEE,
    ensures
        r is Ok <==> old(ctx).payer_lamports >= SUBSCRIPTION_FEE,
        r matches Err(e) ==> e == SubscriptionError::InsufficientFunds && *final(ctx) == *old(ctx),
        r is Ok ==> final(ctx).payer_lamports == old(ctx).payer_lamports - SUBSCRIPTION_FEE
            && final(ctx).treasury_lamports == old(ctx).treasury_lamports + SUBSCRIPTION_FEE
            && final(ctx).payer@ == old(ctx).payer@ && final(ctx).subscription_account.owner@
            == old(ctx).subscription_account.owner@
            && final(ctx).subscription_account.expiry_timestamp == renewed_expiry(
            old(ctx).subscription_account.expiry_timestamp as int,
            now as int,
        ),
        r is Ok ==> final(ctx).subscription_account.expiry_timestamp > now
            && final(ctx).subscription_account.expiry_timestamp >= old(
            ctx,
        ).subscription_account.expiry_timestamp + SUBSCRIPTION_DURATION,
{
    if ctx.payer_lamports < SUBSCRIPTION_FEE {
        return Err(SubscriptionError::InsufficientFunds);
    }
    ctx.payer_lamports = ctx.payer_lamports - SUBSCRIPTION_FEE;
    ctx.treasury_lamports = ctx.treasury_lamports + SUBSCRIPTION_FEE;
    let current_expiry = ctx.subscription_account.expiry_timestamp;
    ctx.subscription_account.expiry_timestamp = if current_expiry > now {
        current_expiry + SUBSCRIPTION_DURATION
    } else {
        now + SUBSCRIPTION_DURATION
    };
    Ok(())
}

/// A renewal always strictly increases the stored expiry — from zero it
/// sets it — by at least one full duration, and always leaves the
/// subscription active: the new expiry lies strictly after both the old
/// expiry and the renewal instant.
pub proof fn lemma_renewal_never_decreases(expiry: int, now: int)
    ensures
        renewed_expiry(expiry, now) >= expiry + SUBSCRIPTION_DURATION,
        renewed_expiry(expiry, now) > expiry,
        renewed_expiry(expiry, now) > now,
{
}

/// Renewals stack: two renewals performed while the subscription is still
/// active yield exactly the original expiry plus two full durations — the
/// renewal instants play no part.
pub proof fn lemma_renewals_stack(expiry: int, now1: int, now2: int)
    requires
        expiry > now1,
        now2 < expiry + SUBSCRIPTION_DURATION,
    ensures
        renewed_expiry(renewed_expiry(expiry, now1), now2) == expiry + 2 * SUBSCRIPTION_DURATION,
{
}

/// A renewal performed at or past the stored expiry restarts the window
/// from the renewal instant, discarding the stale prior value.
pub proof fn lemma_renewal_restarts(expiry: int, now: int)
    requires
        now >= expiry,
    ensures
        renewed_expiry(expiry, now) == now + SUBSCRIPTION_DURATION,
{
}

} // verus!
