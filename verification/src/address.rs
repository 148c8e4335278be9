//! Deterministic, lookup-free addressing.
//!
//! Storage locations are computed purely from a fixed namespace tag plus
//! an identity, so any party can locate a subscription record or the
//! descriptor list without a directory service: a content-addressing
//! scheme, not a foreign-key relationship.
use vstd::prelude::*;

use solana_program::pubkey::Pubkey;

verus! {

/// The namespace tag under which a holder's subscription record lives:
/// the bytes of `subscription`.
pub open spec fn subscription_seed() -> Seq<u8> {
    seq![115u8, 117u8, 98u8, 115u8, 99u8, 114u8, 105u8, 112u8, 116u8, 105u8, 111u8, 110u8]
}

/// The namespace tag under which a mint's descriptor list lives: the
/// bytes of `extra-account-metas`.
pub open spec fn meta_list_seed() -> Seq<u8> {
    seq![
        101u8,
        120u8,
        116u8,
        114u8,
        97u8,
        45u8,
        97u8,
        99u8,
        99u8,
        111u8,
        117u8,
        110u8,
        116u8,
        45u8,
        109u8,
        101u8,
        116u8,
        97u8,
        115u8,
    ]
}

/// The subscription-record namespace tag as bytes.
pub fn subscription_seed_bytes() -> (v: Vec<u8>)
    ensures
        v@ == subscription_seed(),
{
    let v: Vec<u8> = vec![115, 117, 98, 115, 99, 114, 105, 112, 116, 105, 111, 110];
    proof {
        assert(v@ =~= subscription_seed());
    }
    v
}

/// The descriptor-list namespace tag as bytes.
pub fn meta_list_seed_bytes() -> (v: Vec<u8>)
    ensures
        v@ == meta_list_seed(),
{
    let v: Vec<u8> = vec![
        101,
        120,
        116,
        114,
        97,
        45,
        97,
        99,
        99,
        111,
        117,
        110,
        116,
        45,
        109,
        101,
        116,
        97,
        115,
    ];
    proof {
        assert(v@ =~= meta_list_seed());
    }
    v
}

/// The storage address that the ledger's derivation assigns to a tag, an
/// identity, and a deploying program: a pure function of those inputs,
/// the same for every party that computes it.
pub uninterp spec fn pda_of(seeds: Seq<Seq<u8>>, program_id: Seq<u8>) -> Seq<u8>;

/// Whether the ledger's derivation yields an address for a tag, an
/// identity, and a deploying program. Like the address itself this is a
/// pure function of those inputs: it fails only for the statistically
/// improbable inputs where no bump seed yields a valid address, or where
/// the seeds break the derivation's limits, and it fails for them every
/// time.
pub uninterp spec fn pda_found(seeds: Seq<Seq<u8>>, program_id: Seq<u8>) -> bool;

/// Relies on `Pubkey::try_find_program_address` of `solana_program`: both
/// the derived address and whether one is found depend on the seeds and
/// the program identity alone, so every party computes the same outcome.
#[verifier::external_body]
fn find_derived_address(tag: &Vec<u8>, id: &[u8; 32], program_id: &[u8; 32]) -> (r: Option<
    [u8; 32],
>)
    ensures
        r is Some <==> pda_found(seq![tag@, id@], program_id@),
        r matches Some(address) ==> address@ == pda_of(seq![tag@, id@], program_id@),
{
    let program = Pubkey::new_from_array(*program_id);
    match Pubkey::try_find_program_address(&[tag.as_slice(), id.as_slice()], &program) {
        Some((address, _bump)) => Some(address.to_bytes()),
        None => None,
    }
}

/// The deterministic address of `owner`'s subscription record under the
/// deployment `program_id`: at most one record can exist per owner, and
/// any party can compute where it lives.
pub fn subscription_address(owner: &[u8; 32], program_id: &[u8; 32]) -> (r: Option<[u8; 32]>)
    ensures
        r is Some <==> pda_found(seq![subscription_seed(), owner@], program_id@),
        r matches Some(address) ==> address@ == pda_of(
            seq![subscription_seed(), owner@],
            program_id@,
        ),
{
    let tag = subscription_seed_bytes();
    find_derived_address(&tag, owner, program_id)
}

/// The deterministic address of the descriptor list governing `mint`
/// under the deployment `program_id`.
pub fn meta_list_address(mint: &[u8; 32], program_id: &[u8; 32]) -> (r: Option<[u8; 32]>)
    ensures
        r is Some <==> pda_found(seq![meta_list_seed(), mint@], program_id@),
        r matches Some(address) ==> address@ == pda_of(seq![meta_list_seed(), mint@], program_id@),
{
    let tag = meta_list_seed_bytes();
    find_derived_address(&tag, mint, program_id)
}

} // verus!
