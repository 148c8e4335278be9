//! The boundary that translates the external runtime's generic invocation
//! payload into this system's specific operation.
//!
//! The runtime invokes hooks through a single fixed entry point with
//! opaque payload bytes; this module is the only place that interprets
//! them. Exactly one instruction tag is recognized — the execute tag,
//! carrying a transfer amount — and everything else is rejected: a closed
//! allow-list, not a default-permit dispatcher.
use vstd::bytes::spec_u64_from_le_bytes;
use vstd::prelude::*;

use crate::authorization::authorized;
use crate::authorization::transfer_hook;
use crate::authorization::TransferHook;
use crate::errors::SubscriptionError;
use spl_transfer_hook_interface::instruction::TransferHookInstruction;

verus! {

/// The eight-byte tag that opens an execute payload: the leading bytes of
/// the hash the transfer-hook interface derives its execute instruction
/// tag from.
pub open spec fn execute_discriminator() -> Seq<u8> {
    seq![105u8, 37u8, 101u8, 197u8, 75u8, 251u8, 102u8, 26u8]
}

/// True of payloads the dispatcher recognizes: the execute tag followed by
/// at least eight more bytes, which hold the transfer amount.
pub open spec fn is_execute_payload(data: Seq<u8>) -> bool {
    data.len() >= 16 && data.subrange(0, 8) == execute_discriminator()
}

/// The transfer amount an execute payload carries, little-endian.
pub open spec fn execute_amount(data: Seq<u8>) -> u64 {
    spec_u64_from_le_bytes(data.subrange(8, 16))
}

/// Relies on `TransferHookInstruction::unpack` of
/// `spl_transfer_hook_interface`: a payload decodes to the `Execute`
/// variant exactly when it opens with the execute discriminator and keeps
/// at least eight further bytes, read as the little-endian amount; any
/// trailing bytes are ignored. A payload with any other tag, or one cut
/// short, decodes to another variant or to an error.
#[verifier::external_body]
fn unpack_execute_amount(data: &[u8]) -> (r: Option<u64>)
    ensures
        r is Some <==> is_execute_payload(data@),
        r matches Some(amount) ==> amount == execute_amount(data@),
{
    match TransferHookInstruction::unpack(data) {
        Ok(TransferHookInstruction::Execute { amount }) => Some(amount),
        Ok(TransferHookInstruction::InitializeExtraAccountMetaList { .. }) => None,
        Ok(TransferHookInstruction::UpdateExtraAccountMetaList { .. }) => None,
        Err(_) => None,
    }
}

/// Receives the raw invocation bytes the external runtime hands to the
/// fixed entry point. A recognized execute payload is routed, with its
/// amount, to the authorization checker over the same account list; every
/// other payload fails with `InvalidInvocation` and is never routed
/// further.
pub fn fallback(ctx: &TransferHook, instruction_data: &[u8], now: i64) -> (r: Result<
    (),
    SubscriptionError,
>)
    requires
        ctx.subscription_account.owner@ == ctx.owner@,
    ensures
        is_execute_payload(instruction_data@) ==> (r is Ok <==> authorized(
            ctx.subscription_account,
            now,
        )),
        is_execute_payload(instruction_data@) ==> (r matches Err(e) ==> e
            == SubscriptionError::SubscriptionExpired),
        !is_execute_payload(instruction_data@) ==> r == Err::<(), SubscriptionError>(
            SubscriptionError::InvalidInvocation,
        ),
{
    match unpack_execute_amount(instruction_data) {
        Some(amount) => transfer_hook(ctx, amount, now),
        None => Err(SubscriptionError::InvalidInvocation),
    }
}

} // verus!
