//! The subscription record: the sole persistent entity of the guard.
//!
//! One record exists per holder, at a storage address derived
//! deterministically from the holder's identity, and tracks when that
//! holder's paid access window ends.
use vstd::bytes::lemma_auto_spec_u64_to_from_le_bytes;
use vstd::bytes::spec_u64_from_le_bytes;
use vstd::bytes::spec_u64_to_le_bytes;
use vstd::bytes::u64_from_le_bytes;
use vstd::bytes::u64_to_le_bytes;
use vstd::prelude::*;
use vstd::slice::slice_subrange;

use crate::errors::SubscriptionError;

verus! {

/// Per-holder subscription state.
///
/// `expiry_timestamp` is in seconds since the epoch; `0` means the record
/// was created but never paid for.
#[derive(Clone, Copy, Debug)]
pub struct SubscriptionAccount {
    /// Identity of the holder this record governs; immutable after creation.
    pub owner: [u8; 32],
    /// End of the paid access window, seconds since the epoch; `0` means
    /// never activated.
    pub expiry_timestamp: i64,
}

/// True of a record that was created but never paid for.
pub open spec fn never_activated(record: SubscriptionAccount) -> bool {
    record.expiry_timestamp == 0
}

/// The accounts taking part in creating a subscription record.
pub struct InitializeSubscription {
    /// The holder the new record will govern.
    pub owner: [u8; 32],
}

/// Creates the subscription record for `ctx.owner`, never activated.
///
/// Storage allocation is the surrounding ledger's job; it reports through
/// `already_allocated` whether a record already sits at the owner's
/// deterministic address, and that report — not an explicit identity
/// comparison here — makes re-initialization fail.
pub fn initialize_subscription(
    ctx: &InitializeSubscription,
    already_allocated: bool,
) -> (r: Result<SubscriptionAccount, SubscriptionError>)
    ensures
        r is Ok <==> !already_allocated,
        r matches Ok(record) ==> record.owner@ == ctx.owner@ && record.expiry_timestamp == 0,
        r matches Err(e) ==> e == SubscriptionError::AlreadyExists,
{
    if already_allocated {
        return Err(SubscriptionError::AlreadyExists);
    }
    Ok(SubscriptionAccount { owner: ctx.owner, expiry_timestamp: 0 })
}

/// The fixed 40-byte persisted payload of a record: the owner's 32-byte
/// identity followed by the expiry timestamp, eight bytes, little-endian,
/// two's complement. Storage-header overhead is the ledger's, not part of
/// the payload.
pub open spec fn record_bytes(record: SubscriptionAccount) -> Seq<u8> {
    record.owner@ + spec_u64_to_le_bytes(record.expiry_timestamp as u64)
}

/// Serializes a record into its persisted payload.
pub fn record_to_bytes(record: &SubscriptionAccount) -> (v: Vec<u8>)
    ensures
        v@ == record_bytes(*record),
        v@.len() == 40,
{
    let mut v: Vec<u8> = Vec::new();
    let mut i: usize = 0;
    while i < 32
        invariant
            i <= 32,
            v@ =~= record.owner@.subrange(0, i as int),
        decreases 32 - i,
    {
        v.push(record.owner[i]);
        i += 1;
    }
    proof {
        assert(record.owner@.subrange(0, 32) =~= record.owner@);
        lemma_auto_spec_u64_to_from_le_bytes();
    }
    let mut tail = u64_to_le_bytes(record.expiry_timestamp as u64);
    v.append(&mut tail);
    v
}

/// Deserializes a persisted payload; `None` exactly when the payload is
/// not 40 bytes long.
pub fn record_from_bytes(data: &[u8]) -> (r: Option<SubscriptionAccount>)
    ensures
        r is Some <==> data@.len() == 40,
        r matches Some(record) ==> record.owner@ == data@.subrange(0, 32)
            && record.expiry_timestamp == spec_u64_from_le_bytes(data@.subrange(32, 40)) as i64,
{
    if data.len() != 40 {
        return None;
    }
    let mut owner: [u8; 32] = [0;32];
    let mut i: usize = 0;
    while i < 32
        invariant
            i <= 32,
            data@.len() == 40,
            forall|j: int| 0 <= j < i ==> owner@[j] == data@[j],
        decreases 32 - i,
    {
        owner[i] = data[i];
        i += 1;
    }
    let expiry_raw = u64_from_le_bytes(slice_subrange(data, 32, 40));
    let record = SubscriptionAccount { owner, expiry_timestamp: expiry_raw as i64 };
    proof {
        assert(record.owner@ =~= data@.subrange(0, 32));
    }
    Some(record)
}

/// Serialization round-trips: the payload written for a record reads back
/// as the same owner and the same expiry.
pub proof fn lemma_record_codec_round_trip(record: SubscriptionAccount)
    ensures
        record_bytes(record).len() == 40,
        record_bytes(record).subrange(0, 32) == record.owner@,
        spec_u64_from_le_bytes(record_bytes(record).subrange(32, 40)) as i64
            == record.expiry_timestamp,
{
    lemma_auto_spec_u64_to_from_le_bytes();
    let x = record.expiry_timestamp;
    assert((x as u64) as i64 == x) by (bit_vector);
    assert(record_bytes(record).subrange(0, 32) =~= record.owner@);
    assert(record_bytes(record).subrange(32, 40) =~= spec_u64_to_le_bytes(
        record.expiry_timestamp as u64,
    ));
}

/// Nothing in a payload is lost on reading: a record that carries exactly
/// what a 40-byte payload stores writes back that very payload.
pub proof fn lemma_record_payload_determined(record: SubscriptionAccount, data: Seq<u8>)
    requires
        data.len() == 40,
        record.owner@ == data.subrange(0, 32),
        record.expiry_timestamp == spec_u64_from_le_bytes(data.subrange(32, 40)) as i64,
    ensures
        record_bytes(record) == data,
{
    lemma_auto_spec_u64_to_from_le_bytes();
    let y = spec_u64_from_le_bytes(data.subrange(32, 40));
    assert((y as i64) as u64 == y) by (bit_vector);
    assert(record_bytes(record) =~= data);
}

} // verus!
