//! Reading a record back from its bytes gives the record.

use crate::seeds::{seeds_bytes, seeds_encodable};
use crate::seeds_laws::lemma_seeds_read_back;
use crate::state::{
    commit_record_bytes, commit_record_of, delegation_metadata_bytes, delegation_metadata_of,
    delegation_record_bytes, delegation_record_of, flag_byte, CommitRecordView,
    DelegationMetadataView, DelegationRecordView,
};
use crate::wire::{le_u32, le_u64, u32_le, u64_le};
use vstd::prelude::*;

verus! {

/// Four bytes that are the little-endian form of `x` read back as `x`.
pub proof fn lemma_reads_u32(s: Seq<u8>, at: int, x: nat)
    requires
        x <= u32::MAX,
        0 <= at,
        at + 4 <= s.len(),
        s.subrange(at, at + 4) == u32_le(x),
    ensures
        le_u32(s, at) == x,
{
    let t = s.subrange(at, at + 4);
    assert(t[0] == s[at] && t[1] == s[at + 1] && t[2] == s[at + 2] && t[3] == s[at + 3]);
}

/// Eight bytes that are the little-endian form of `x` read back as `x`.
pub proof fn lemma_reads_u64(s: Seq<u8>, at: int, x: nat)
    requires
        x <= u64::MAX,
        0 <= at,
        at + 8 <= s.len(),
        s.subrange(at, at + 8) == u64_le(x),
    ensures
        le_u64(s, at) == x,
{
    let t = s.subrange(at, at + 8);
    let lo = u32_le(x % 4294967296);
    let hi = u32_le(x / 4294967296);
    assert(t[0] == s[at] && t[1] == s[at + 1] && t[2] == s[at + 2] && t[3] == s[at + 3]);
    assert(t[4] == s[at + 4] && t[5] == s[at + 5] && t[6] == s[at + 6] && t[7] == s[at + 7]);
    assert(t[0] == lo[0] && t[1] == lo[1] && t[2] == lo[2] && t[3] == lo[3]);
    assert(t[4] == hi[0] && t[5] == hi[1] && t[6] == hi[2] && t[7] == hi[3]);
    assert(s.subrange(at, at + 4) =~= lo);
    assert(s.subrange(at + 4, at + 8) =~= hi);
    lemma_reads_u32(s, at, x % 4294967296);
    lemma_reads_u32(s, at + 4, x / 4294967296);
}

/// A delegation record is read back from its bytes.
pub proof fn law_delegation_record_round_trip(r: DelegationRecordView)
    requires
        r.authority.len() == 32,
        r.owner.len() == 32,
    ensures
        delegation_record_bytes(r).len() == 96,
        delegation_record_of(delegation_record_bytes(r)) == Some(r),
{
    reveal(delegation_record_of);
    reveal(delegation_record_bytes);
    let data = delegation_record_bytes(r);
    assert(data.subrange(0, 8) =~= u64_le(100));
    assert(data.subrange(8, 40) =~= r.authority);
    assert(data.subrange(40, 72) =~= r.owner);
    assert(data.subrange(72, 80) =~= u64_le(r.delegation_slot as nat));
    assert(data.subrange(80, 88) =~= u64_le(r.lamports as nat));
    assert(data.subrange(88, 96) =~= u64_le(r.commit_frequency_ms as nat));
    lemma_reads_u64(data, 0, 100);
    lemma_reads_u64(data, 72, r.delegation_slot as nat);
    lemma_reads_u64(data, 80, r.lamports as nat);
    lemma_reads_u64(data, 88, r.commit_frequency_ms as nat);
}

/// A commit record is read back from its bytes.
pub proof fn law_commit_record_round_trip(r: CommitRecordView)
    requires
        r.identity.len() == 32,
        r.account.len() == 32,
    ensures
        commit_record_bytes(r).len() == 88,
        commit_record_of(commit_record_bytes(r)) == Some(r),
{
    reveal(commit_record_of);
    reveal(commit_record_bytes);
    let data = commit_record_bytes(r);
    assert(data.subrange(0, 8) =~= u64_le(101));
    assert(data.subrange(8, 40) =~= r.identity);
    assert(data.subrange(40, 72) =~= r.account);
    assert(data.subrange(72, 80) =~= u64_le(r.nonce as nat));
    assert(data.subrange(80, 88) =~= u64_le(r.lamports as nat));
    lemma_reads_u64(data, 0, 101);
    lemma_reads_u64(data, 72, r.nonce as nat);
    lemma_reads_u64(data, 80, r.lamports as nat);
}

/// Delegation metadata is read back from its bytes.
pub proof fn law_delegation_metadata_round_trip(m: DelegationMetadataView)
    requires
        seeds_encodable(m.seeds),
        m.rent_payer.len() == 32,
    ensures
        delegation_metadata_of(delegation_metadata_bytes(m)) == Some(m),
{
    reveal(delegation_metadata_of);
    reveal(delegation_metadata_bytes);
    let data = delegation_metadata_bytes(m);
    let all = seeds_bytes(m.seeds);
    let n = m.seeds.len();
    assert(data.len() == 21 + all.len() + 32);
    assert(data.subrange(0, 8) =~= u64_le(102));
    assert(data.subrange(8, 16) =~= u64_le(m.last_update_nonce as nat));
    assert(data[16] == flag_byte(m.is_undelegatable));
    assert(data.subrange(17, 21) =~= u32_le(n));
    lemma_reads_u64(data, 0, 102);
    lemma_reads_u64(data, 8, m.last_update_nonce as nat);
    lemma_reads_u32(data, 17, n);
    assert(data.subrange(21, 21 + all.len() as int) =~= all);
    lemma_seeds_read_back(data, 21, m.seeds, n);
    assert(m.seeds.take(n as int) =~= m.seeds);
    let got = delegation_metadata_of(data)->Some_0;
    assert(got.seeds =~= m.seeds);
    assert(got.rent_payer =~= m.rent_payer);
}

} // verus!
