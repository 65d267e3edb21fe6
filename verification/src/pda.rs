//! The addresses of the cells that the program manages.
//!
//! Each is derived from a tag that names the kind of cell and, but for the
//! protocol's fee vault, from one address: the delegated account's, the
//! validator's, or the owning program's.

use crate::pubkey::{derived_address, find_program_address, Pubkey};
use crate::wire::copy_bytes;
use vstd::prelude::*;

verus! {

/// The kinds of cell that have a derived address.
#[derive(Debug, Clone, Copy, PartialEq, Eq, Structural)]
pub enum CellKind {
    /// The record of a delegation.
    DelegationRecord,
    /// The metadata of a delegation.
    DelegationMetadata,
    /// The pending new state of a delegated account.
    CommitState,
    /// The record of a pending commit.
    CommitRecord,
    /// The buffer that holds the state while the account is handed back.
    UndelegateBuffer,
    /// The buffer that holds the state while the account is delegated.
    DelegateBuffer,
    /// The vault that collects a validator's fees.
    ValidatorFeesVault,
    /// The configuration of an owning program.
    ProgramConfig,
    /// The vault that collects the protocol's fees.
    ProtocolFeesVault,
}

/// The tag that the addresses of the cells of a kind are derived from.
pub open spec fn tag_of(kind: CellKind) -> Seq<u8> {
    match kind {
        // "delegation"
        CellKind::DelegationRecord => seq![100u8, 101, 108, 101, 103, 97, 116, 105, 111, 110],
        // "delegation-metadata"
        CellKind::DelegationMetadata => seq![100u8, 101, 108, 101, 103, 97, 116, 105, 111, 110, 45, 109, 101, 116, 97, 100, 97, 116, 97],
        // "state-diff"
        CellKind::CommitState => seq![115u8, 116, 97, 116, 101, 45, 100, 105, 102, 102],
        // "commit-state-record"
        CellKind::CommitRecord => seq![99u8, 111, 109, 109, 105, 116, 45, 115, 116, 97, 116, 101, 45, 114, 101, 99, 111, 114, 100],
        // "undelegate-buffer"
        CellKind::UndelegateBuffer => seq![117u8, 110, 100, 101, 108, 101, 103, 97, 116, 101, 45, 98, 117, 102, 102, 101, 114],
        // "buffer"
        CellKind::DelegateBuffer => seq![98u8, 117, 102, 102, 101, 114],
        // "v-fees-vault"
        CellKind::ValidatorFeesVault => seq![118u8, 45, 102, 101, 101, 115, 45, 118, 97, 117, 108, 116],
        // "p-conf"
        CellKind::ProgramConfig => seq![112u8, 45, 99, 111, 110, 102],
        // "fees-vault"
        CellKind::ProtocolFeesVault => seq![102u8, 101, 101, 115, 45, 118, 97, 117, 108, 116],
    }
}

/// The tag that the addresses of the cells of a kind are derived from.
pub fn tag(kind: CellKind) -> (t: Vec<u8>)
    ensures
        t@ == tag_of(kind),
{
    let t: Vec<u8> = match kind {
        CellKind::DelegationRecord => vec![100, 101, 108, 101, 103, 97, 116, 105, 111, 110],
        CellKind::DelegationMetadata => vec![100, 101, 108, 101, 103, 97, 116, 105, 111, 110, 45, 109, 101, 116, 97, 100, 97, 116, 97],
        CellKind::CommitState => vec![115, 116, 97, 116, 101, 45, 100, 105, 102, 102],
        CellKind::CommitRecord => vec![99, 111, 109, 109, 105, 116, 45, 115, 116, 97, 116, 101, 45, 114, 101, 99, 111, 114, 100],
        CellKind::UndelegateBuffer => vec![117, 110, 100, 101, 108, 101, 103, 97, 116, 101, 45, 98, 117, 102, 102, 101, 114],
        CellKind::DelegateBuffer => vec![98, 117, 102, 102, 101, 114],
        CellKind::ValidatorFeesVault => vec![118, 45, 102, 101, 101, 115, 45, 118, 97, 117, 108, 116],
        CellKind::ProgramConfig => vec![112, 45, 99, 111, 110, 102],
        CellKind::ProtocolFeesVault => vec![102, 101, 101, 115, 45, 118, 97, 117, 108, 116],
    };
    assert(t@ =~= tag_of(kind));
    t
}

/// The seeds of the cell of a kind that belongs to `key`.
pub open spec fn seeds_of(kind: CellKind, key: Seq<u8>) -> Seq<Seq<u8>> {
    if kind == CellKind::ProtocolFeesVault {
        seq![tag_of(kind)]
    } else {
        seq![tag_of(kind), key]
    }
}

/// The address, with its bump seed, of the cell of a kind that belongs to
/// `key`, under the program `program_id`.
pub open spec fn cell_address_of(kind: CellKind, key: Seq<u8>, program_id: Seq<u8>) -> Option<
    (Seq<u8>, u8),
> {
    derived_address(seeds_of(kind, key), program_id)
}

/// The seeds of the cell of a kind that belongs to `key`.
pub fn seeds(kind: CellKind, key: &Pubkey) -> (s: Vec<Vec<u8>>)
    ensures
        crate::pubkey::seed_views(s@) == seeds_of(kind, key@),
{
    let mut s: Vec<Vec<u8>> = Vec::new();
    s.push(tag(kind));
    if kind != CellKind::ProtocolFeesVault {
        s.push(copy_bytes(key.as_slice()));
    }
    assert(crate::pubkey::seed_views(s@) =~= seeds_of(kind, key@));
    s
}

/// Derives the address, with its bump seed, of the cell of a kind that
/// belongs to `key`, under the program `program_id`.
pub fn cell_address(kind: CellKind, key: &Pubkey, program_id: &Pubkey) -> (found: Option<
    (Pubkey, u8),
>)
    ensures
        match found {
            Some((address, bump)) => cell_address_of(kind, key@, program_id@) == Some(
                (address@, bump),
            ),
            None => cell_address_of(kind, key@, program_id@) is None,
        },
{
    let s = seeds(kind, key);
    find_program_address(&s, program_id)
}

} // verus!
