//! Hook registration: publishing the descriptor list.
//!
//! Once per deployment, the guard publishes which extra accounts the
//! external runtime must resolve and attach before invoking the checker —
//! here exactly one: the sender's subscription record, located by the
//! fixed namespace tag plus the sender's identity. The list is written in
//! the tag-length-value account layout the transfer-hook interface
//! prescribes, so the runtime can read it back without this program's
//! help.
use vstd::bytes::spec_u32_to_le_bytes;
use vstd::prelude::*;

use crate::address::subscription_seed;
use crate::address::subscription_seed_bytes;
use crate::dispatch::execute_discriminator;
use crate::errors::SubscriptionError;
use spl_tlv_account_resolution::account::ExtraAccountMeta;
use spl_tlv_account_resolution::seeds::Seed;
use spl_tlv_account_resolution::state::ExtraAccountMetaList;
use spl_transfer_hook_interface::instruction::ExecuteInstruction;

verus! {

#[verifier::external_type_specification]
pub struct ExBool(solana_zero_copy::unaligned::Bool);

#[verifier::external_type_specification]
pub struct ExExtraAccountMeta(ExtraAccountMeta);

/// The byte a descriptor stores for a flag.
pub open spec fn bool_byte(b: bool) -> u8 {
    if b {
        1u8
    } else {
        0u8
    }
}

/// The 32-byte seed configuration of a descriptor built from a literal
/// seed and an account-key seed: each configuration opens with its kind
/// tag, the literal carries its length and bytes, and the rest of the
/// field is zero-filled.
pub open spec fn seed_config_bytes(lit: Seq<u8>, account_index: u8) -> Seq<u8>
    recommends
        lit.len() <= 28,
{
    seq![1u8, lit.len() as u8] + lit + seq![3u8, account_index] + Seq::new(
        (28 - lit.len()) as nat,
        |i: int| 0u8,
    )
}

/// The 35 raw bytes of one descriptor: its kind, its 32-byte address
/// configuration, and its two flags.
pub open spec fn meta_bytes(m: ExtraAccountMeta) -> Seq<u8> {
    seq![m.discriminator] + m.address_config@ + seq![m.is_signer.0, m.is_writable.0]
}

/// The raw bytes of a run of descriptors, in order.
pub open spec fn metas_bytes(metas: Seq<ExtraAccountMeta>) -> Seq<u8>
    decreases metas.len(),
{
    if metas.len() == 0 {
        Seq::empty()
    } else {
        meta_bytes(metas[0]) + metas_bytes(metas.drop_first())
    }
}

/// The full account data of an initialized descriptor list: the execute
/// type tag, the value length and the descriptor count — both
/// little-endian — then the descriptors' bytes.
pub open spec fn meta_list_data_bytes(metas: Seq<ExtraAccountMeta>) -> Seq<u8> {
    execute_discriminator() + spec_u32_to_le_bytes((4 + 35 * metas.len()) as u32)
        + spec_u32_to_le_bytes(metas.len() as u32) + metas_bytes(metas)
}

/// The account data this deployment publishes: a list of exactly one
/// descriptor — the sender's subscription record at the fixed namespace
/// tag plus the key of the account at invocation index 3, the sender —
/// neither a signer nor writable.
pub open spec fn published_meta_list_data() -> Seq<u8> {
    execute_discriminator() + spec_u32_to_le_bytes(39u32) + spec_u32_to_le_bytes(1u32) + seq![1u8]
        + seed_config_bytes(subscription_seed(), 3u8) + seq![0u8, 0u8]
}

/// Relies on `ExtraAccountMeta::new_with_seeds` of
/// `spl_tlv_account_resolution`, called with one literal seed and one
/// account-key seed: the descriptor's kind is 1 (a derived address of the
/// executing program) and its address configuration packs the two seed
/// configurations. With a literal of at most 28 bytes they fit the
/// 32-byte field, the sole failure the source shows.
#[verifier::external_body]
fn new_seed_meta(lit: &Vec<u8>, account_index: u8, signer: bool, writable: bool) -> (r:
    ExtraAccountMeta)
    requires
        lit@.len() <= 28,
    ensures
        r.discriminator == 1,
        r.address_config@ == seed_config_bytes(lit@, account_index),
        r.is_signer.0 == bool_byte(signer),
        r.is_writable.0 == bool_byte(writable),
{
    let seeds = [
        Seed::Literal { bytes: lit.clone() },
        Seed::AccountKey { index: account_index },
    ];
    ExtraAccountMeta::new_with_seeds(&seeds, signer, writable).unwrap()
}

/// Relies on `ExtraAccountMetaList::size_of` of
/// `spl_tlv_account_resolution`: an initialized list of `n` descriptors
/// takes a fixed 16-byte header plus 35 bytes per descriptor. The bound
/// on `n` keeps the source's checked arithmetic from failing.
#[verifier::external_body]
fn meta_list_size(n: usize) -> (r: usize)
    requires
        n <= 1000,
    ensures
        r == 16 + 35 * n,
{
    ExtraAccountMetaList::size_of(n).unwrap()
}

/// Relies on `ExtraAccountMetaList::init` of `spl_tlv_account_resolution`
/// with the execute instruction as the list's type tag: on a zero-filled
/// buffer sized exactly for the descriptors, it writes the type tag, the
/// value length, the descriptor count and the descriptors' raw bytes, in
/// order. The requirements rule out the failures the source shows — a
/// buffer too small or already holding a list, or a count overflowing the
/// length field.
#[verifier::external_body]
fn init_meta_list(data: &mut Vec<u8>, metas: &Vec<ExtraAccountMeta>)
    requires
        old(data)@.len() == 16 + 35 * metas@.len(),
        forall|i: int| 0 <= i < old(data)@.len() ==> old(data)@[i] == 0u8,
        metas@.len() <= 1000,
    ensures
        final(data)@ == meta_list_data_bytes(metas@),
{
    ExtraAccountMetaList::init::<ExecuteInstruction>(data.as_mut_slice(), metas.as_slice())
        .unwrap();
}

/// The accounts taking part in publishing the descriptor list.
pub struct InitializeExtraAccountMetaList {
    /// The governed token this deployment's list is published for.
    pub mint: [u8; 32],
    /// The data of the account at the list's deterministic address;
    /// empty while unallocated.
    pub meta_list_data: Vec<u8>,
}

/// Publishes the descriptor list for this deployment: writes into the
/// (freshly allocated, still empty) account exactly one descriptor,
/// telling the external runtime to resolve the sender's subscription
/// record and attach it, read-only and unsigned, to every future hook
/// invocation on this mint. Re-registration over an already-written
/// account fails and changes nothing.
pub fn initialize_extra_account_meta_list(ctx: &mut InitializeExtraAccountMetaList) -> (r: Result<
    (),
    SubscriptionError,
>)
    ensures
        r is Ok <==> old(ctx).meta_list_data@.len() == 0,
        r is Ok ==> final(ctx).meta_list_data@ == published_meta_list_data(),
        r matches Err(e) ==> e == SubscriptionError::AlreadyExists && final(ctx).meta_list_data@
            == old(ctx).meta_list_data@,
        final(ctx).mint@ == old(ctx).mint@,
{
    if ctx.meta_list_data.len() != 0 {
        return Err(SubscriptionError::AlreadyExists);
    }
    let tag = subscription_seed_bytes();
    let meta = new_seed_meta(&tag, 3, false, false);
    let mut metas: Vec<ExtraAccountMeta> = Vec::new();
    metas.push(meta);
    let size = meta_list_size(metas.len());
    let mut buffer: Vec<u8> = Vec::new();
    while buffer.len() < size
        invariant
            size == 51,
            buffer@.len() <= 51,
            forall|i: int| 0 <= i < buffer@.len() ==> buffer@[i] == 0u8,
        decreases size - buffer.len(),
    {
        buffer.push(0u8);
    }
    init_meta_list(&mut buffer, &metas);
    proof {
        assert(metas@ =~= seq![meta]);
        let tail = metas@.drop_first();
        assert(tail =~= Seq::<ExtraAccountMeta>::empty());
        assert(metas_bytes(tail) == Seq::<u8>::empty());
        assert(metas@[0] == meta);
        assert(metas_bytes(metas@) =~= meta_bytes(meta));
        assert(buffer@ =~= published_meta_list_data());
    }
    ctx.meta_list_data = buffer;
    Ok(())
}

} // verus!
