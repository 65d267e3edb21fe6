//! Addresses of ledger cells, and the addresses derived from seeds.

use crate::wire::bytes_eq;
use solana_curve25519::edwards::{validate_edwards, PodEdwardsPoint};
use vstd::prelude::*;

verus! {

/// The address of a ledger cell, or the identity of a program.
pub type Pubkey = [u8; 32];

/// The identity of the ledger's system program, which owns every cell that no
/// program has taken: 32 zero bytes. An authority of this value stands for
/// "any validator".
pub open spec fn system_id() -> Seq<u8> {
    Seq::new(32, |i: int| 0u8)
}

/// The identity of the ledger's system program.
pub fn system_program_id() -> (id: Pubkey)
    ensures
        id@ == system_id(),
{
    let id: Pubkey = [0u8; 32];
    assert(id@ =~= system_id());
    id
}

/// Whether two addresses are the same.
pub fn pubkey_eq(a: &Pubkey, b: &Pubkey) -> (same: bool)
    ensures
        same == (a@ == b@),
{
    bytes_eq(a.as_slice(), b.as_slice())
}

/// The seeds held in `seeds`, each as the sequence of its bytes.
pub open spec fn seed_views(seeds: Seq<Vec<u8>>) -> Seq<Seq<u8>> {
    Seq::new(seeds.len(), |i: int| seeds[i]@)
}

/// The address, with its bump seed, that the ledger derives for a program
/// from a list of seeds; `None` where it derives none.
pub uninterp spec fn derived_address(seeds: Seq<Seq<u8>>, program_id: Seq<u8>) -> Option<
    (Seq<u8>, u8),
>;

/// Whether 32 bytes are the compressed form of a point on the Ed25519 curve.
pub uninterp spec fn on_curve(key: Seq<u8>) -> bool;

/// `Pubkey::try_find_program_address` of `solana_program`: the first address
/// off the curve among the hashes of the seeds, a bump seed counting down
/// from 255, and the program's identity, together with that bump seed. It
/// gives `None` where no bump seed leads to such an address, or a seed is
/// longer than the ledger allows. The result depends on the arguments alone.
#[verifier::external_body]
pub fn find_program_address(seeds: &Vec<Vec<u8>>, program_id: &Pubkey) -> (found: Option<
    (Pubkey, u8),
>)
    ensures
        match found {
            Some((address, bump)) => derived_address(seed_views(seeds@), program_id@) == Some(
                (address@, bump),
            ),
            None => derived_address(seed_views(seeds@), program_id@) is None,
        },
{
    let parts: Vec<&[u8]> = seeds.iter().map(|seed| seed.as_slice()).collect();
    let program = solana_program::pubkey::Pubkey::new_from_array(*program_id);
    solana_program::pubkey::Pubkey::try_find_program_address(&parts, &program).map(
        |(address, bump)| (address.to_bytes(), bump),
    )
}

/// `validate_edwards` of `solana_curve25519`: whether the key decompresses to
/// a point on the Ed25519 curve. An address that does is held by a key pair;
/// a derived address never does.
#[verifier::external_body]
pub fn is_on_curve(key: &Pubkey) -> (on: bool)
    ensures
        on == on_curve(key@),
{
    validate_edwards(&PodEdwardsPoint(*key))
}

/// Whether the key is a point on the Ed25519 curve. Under the ledger's
/// runtime this is one call to the runtime; elsewhere it is `is_on_curve`.
pub fn is_on_curve_fast(key: &Pubkey) -> (on: bool)
    ensures
        on == on_curve(key@),
{
    is_on_curve(key)
}

} // verus!
