//! The records that the program keeps in its cells, and their bytes.
//!
//! Every record starts with 8 bytes that name its kind. Integers are
//! little-endian, a flag is one byte that is 0 or 1, and a list is its 32-bit
//! element count followed by its elements.

use crate::error::ProgramError;
use crate::pubkey::{pubkey_eq, seed_views, Pubkey};
use crate::seeds::{
    push_seeds, read_seeds, seed_end, seeds_bytes, seeds_encodable, seeds_fit, seeds_in,
};
use crate::wire::{
    le_u32, le_u64, push_bytes, push_u32, push_u64, read_u32, read_u64, u32_le, u64_le,
};
use vstd::prelude::*;

verus! {

pub const DELEGATION_RECORD_DISCRIMINATOR: u64 = 100;

pub const COMMIT_RECORD_DISCRIMINATOR: u64 = 101;

pub const DELEGATION_METADATA_DISCRIMINATOR: u64 = 102;

pub const PROGRAM_CONFIG_DISCRIMINATOR: u64 = 103;

pub const DELEGATION_RECORD_SIZE: usize = 96;

pub const COMMIT_RECORD_SIZE: usize = 88;

/// Reads the address that starts at `at`.
pub(crate) fn read_key(data: &[u8], at: usize) -> (key: Pubkey)
    requires
        at + 32 <= data@.len(),
    ensures
        key@ == data@.subrange(at as int, at + 32),
{
    let len = data.len();
    let mut key: Pubkey = [0u8; 32];
    let mut i: usize = 0;
    while i < 32
        invariant
            i <= 32,
            len == data@.len(),
            at + 32 <= data@.len(),
            forall|k: int| 0 <= k < i ==> key@[k] == data@[at + k],
        decreases 32 - i,
    {
        key[i] = data[at + i];
        i += 1;
    }
    assert(key@ =~= data@.subrange(at as int, at + 32));
    key
}

/// What the program knows of a delegated account for as long as it is
/// delegated.
#[derive(Debug, Clone, Copy)]
pub struct DelegationRecord {
    /// The validator that may commit, or the system program's identity where
    /// any validator may.
    pub authority: Pubkey,
    /// The program that the account is handed back to.
    pub owner: Pubkey,
    /// The slot at which the account was delegated.
    pub delegation_slot: u64,
    /// The account's balance as of the delegation or the last finalized
    /// commit.
    pub lamports: u64,
    /// How often the validator is meant to commit. Not enforced here.
    pub commit_frequency_ms: u64,
}

/// A delegation record as a mathematical value.
pub struct DelegationRecordView {
    pub authority: Seq<u8>,
    pub owner: Seq<u8>,
    pub delegation_slot: u64,
    pub lamports: u64,
    pub commit_frequency_ms: u64,
}

impl View for DelegationRecord {
    type V = DelegationRecordView;

    open spec fn view(&self) -> DelegationRecordView {
        DelegationRecordView {
            authority: self.authority@,
            owner: self.owner@,
            delegation_slot: self.delegation_slot,
            lamports: self.lamports,
            commit_frequency_ms: self.commit_frequency_ms,
        }
    }
}

/// The delegation record that a cell's bytes hold, if they hold one.
#[verifier::opaque]
pub open spec fn delegation_record_of(data: Seq<u8>) -> Option<DelegationRecordView> {
    if data.len() == 96 && le_u64(data, 0) == 100 {
        Some(
            DelegationRecordView {
                authority: data.subrange(8, 40),
                owner: data.subrange(40, 72),
                delegation_slot: le_u64(data, 72) as u64,
                lamports: le_u64(data, 80) as u64,
                commit_frequency_ms: le_u64(data, 88) as u64,
            },
        )
    } else {
        None
    }
}

/// The bytes of a delegation record.
#[verifier::opaque]
pub open spec fn delegation_record_bytes(r: DelegationRecordView) -> Seq<u8> {
    u64_le(100) + r.authority + r.owner + u64_le(r.delegation_slot as nat) + u64_le(
        r.lamports as nat,
    ) + u64_le(r.commit_frequency_ms as nat)
}

impl DelegationRecord {
    /// The length of a delegation record's bytes.
    pub fn size_with_discriminator() -> (n: usize)
        ensures
            n == 96,
    {
        DELEGATION_RECORD_SIZE
    }

    /// Reads a delegation record.
    pub fn try_from_bytes_with_discriminator(data: &[u8]) -> (r: Result<
        DelegationRecord,
        ProgramError,
    >)
        ensures
            match r {
                Ok(record) => delegation_record_of(data@) == Some(record@),
                Err(e) => delegation_record_of(data@) is None && e
                    == ProgramError::InvalidAccountData,
            },
    {
        reveal(delegation_record_of);
        if data.len() != DELEGATION_RECORD_SIZE {
            return Err(ProgramError::InvalidAccountData);
        }
        if read_u64(data, 0) != DELEGATION_RECORD_DISCRIMINATOR {
            return Err(ProgramError::InvalidAccountData);
        }
        Ok(
            DelegationRecord {
                authority: read_key(data, 8),
                owner: read_key(data, 40),
                delegation_slot: read_u64(data, 72),
                lamports: read_u64(data, 80),
                commit_frequency_ms: read_u64(data, 88),
            },
        )
    }

    /// Writes the record.
    pub fn to_bytes_with_discriminator(&self) -> (out: Vec<u8>)
        ensures
            out@ == delegation_record_bytes(self@),
            out@.len() == 96,
    {
        reveal(delegation_record_bytes);
        let mut out: Vec<u8> = Vec::new();
        push_u64(&mut out, DELEGATION_RECORD_DISCRIMINATOR);
        push_bytes(&mut out, self.authority.as_slice());
        push_bytes(&mut out, self.owner.as_slice());
        push_u64(&mut out, self.delegation_slot);
        push_u64(&mut out, self.lamports);
        push_u64(&mut out, self.commit_frequency_ms);
        out
    }
}

/// What a validator has committed and not yet finalized.
#[derive(Debug, Clone, Copy)]
pub struct CommitRecord {
    /// The validator that committed.
    pub identity: Pubkey,
    /// The delegated account that the commit is for.
    pub account: Pubkey,
    /// The commit's place in the sequence of commits.
    pub nonce: u64,
    /// The balance that the account is declared to have.
    pub lamports: u64,
}

/// A commit record as a mathematical value.
pub struct CommitRecordView {
    pub identity: Seq<u8>,
    pub account: Seq<u8>,
    pub nonce: u64,
    pub lamports: u64,
}

impl View for CommitRecord {
    type V = CommitRecordView;

    open spec fn view(&self) -> CommitRecordView {
        CommitRecordView {
            identity: self.identity@,
            account: self.account@,
            nonce: self.nonce,
            lamports: self.lamports,
        }
    }
}

/// The commit record that a cell's bytes hold, if they hold one.
#[verifier::opaque]
pub open spec fn commit_record_of(data: Seq<u8>) -> Option<CommitRecordView> {
    if data.len() == 88 && le_u64(data, 0) == 101 {
        Some(
            CommitRecordView {
                identity: data.subrange(8, 40),
                account: data.subrange(40, 72),
                nonce: le_u64(data, 72) as u64,
                lamports: le_u64(data, 80) as u64,
            },
        )
    } else {
        None
    }
}

/// The bytes of a commit record.
#[verifier::opaque]
pub open spec fn commit_record_bytes(r: CommitRecordView) -> Seq<u8> {
    u64_le(101) + r.identity + r.account + u64_le(r.nonce as nat) + u64_le(r.lamports as nat)
}

impl CommitRecord {
    /// The length of a commit record's bytes.
    pub fn size_with_discriminator() -> (n: usize)
        ensures
            n == 88,
    {
        COMMIT_RECORD_SIZE
    }

    /// Reads a commit record.
    pub fn try_from_bytes_with_discriminator(data: &[u8]) -> (r: Result<
        CommitRecord,
        ProgramError,
    >)
        ensures
            match r {
                Ok(record) => commit_record_of(data@) == Some(record@),
                Err(e) => commit_record_of(data@) is None && e == ProgramError::InvalidAccountData,
            },
    {
        reveal(commit_record_of);
        if data.len() != COMMIT_RECORD_SIZE {
            return Err(ProgramError::InvalidAccountData);
        }
        if read_u64(data, 0) != COMMIT_RECORD_DISCRIMINATOR {
            return Err(ProgramError::InvalidAccountData);
        }
        Ok(
            CommitRecord {
                identity: read_key(data, 8),
                account: read_key(data, 40),
                nonce: read_u64(data, 72),
                lamports: read_u64(data, 80),
            },
        )
    }

    /// Writes the record.
    pub fn to_bytes_with_discriminator(&self) -> (out: Vec<u8>)
        ensures
            out@ == commit_record_bytes(self@),
            out@.len() == 88,
    {
        reveal(commit_record_bytes);
        let mut out: Vec<u8> = Vec::new();
        push_u64(&mut out, COMMIT_RECORD_DISCRIMINATOR);
        push_bytes(&mut out, self.identity.as_slice());
        push_bytes(&mut out, self.account.as_slice());
        push_u64(&mut out, self.nonce);
        push_u64(&mut out, self.lamports);
        out
    }
}

/// What the program knows of how a delegated account came to it, and how far
/// its commits have got.
#[derive(Debug)]
pub struct DelegationMetadata {
    /// The nonce of the last finalized commit; 0 before the first.
    pub last_update_nonce: u64,
    /// Whether the account may be handed back. Once set, no commit is taken.
    pub is_undelegatable: bool,
    /// The seeds that the owning program derived the account's address from.
    pub seeds: Vec<Vec<u8>>,
    /// Who paid for the cells of the delegation, and gets their balance back.
    pub rent_payer: Pubkey,
}

/// Delegation metadata as a mathematical value.
pub struct DelegationMetadataView {
    pub last_update_nonce: u64,
    pub is_undelegatable: bool,
    pub seeds: Seq<Seq<u8>>,
    pub rent_payer: Seq<u8>,
}

impl View for DelegationMetadata {
    type V = DelegationMetadataView;

    open spec fn view(&self) -> DelegationMetadataView {
        DelegationMetadataView {
            last_update_nonce: self.last_update_nonce,
            is_undelegatable: self.is_undelegatable,
            seeds: seed_views(self.seeds@),
            rent_payer: self.rent_payer@,
        }
    }
}

/// The delegation metadata that a cell's bytes hold, if they hold any.
#[verifier::opaque]
pub open spec fn delegation_metadata_of(data: Seq<u8>) -> Option<DelegationMetadataView> {
    if data.len() >= 21 && le_u64(data, 0) == 102 && data[16] <= 1 && seeds_fit(
        data,
        21,
        le_u32(data, 17),
    ) && seed_end(data, 21, le_u32(data, 17)) + 32 == data.len() {
        Some(
            DelegationMetadataView {
                last_update_nonce: le_u64(data, 8) as u64,
                is_undelegatable: data[16] == 1,
                seeds: seeds_in(data, 21, le_u32(data, 17)),
                rent_payer: data.subrange(data.len() - 32, data.len() as int),
            },
        )
    } else {
        None
    }
}

/// The flag as a byte.
pub open spec fn flag_byte(flag: bool) -> u8 {
    if flag {
        1
    } else {
        0
    }
}

/// The bytes of delegation metadata.
#[verifier::opaque]
pub open spec fn delegation_metadata_bytes(m: DelegationMetadataView) -> Seq<u8> {
    u64_le(102) + u64_le(m.last_update_nonce as nat) + seq![flag_byte(m.is_undelegatable)]
        + u32_le(m.seeds.len()) + seeds_bytes(m.seeds) + m.rent_payer
}

impl DelegationMetadata {
    /// Reads delegation metadata.
    pub fn try_from_bytes_with_discriminator(data: &[u8]) -> (r: Result<
        DelegationMetadata,
        ProgramError,
    >)
        ensures
            match r {
                Ok(metadata) => delegation_metadata_of(data@) == Some(metadata@),
                Err(e) => delegation_metadata_of(data@) is None && e
                    == ProgramError::InvalidAccountData,
            },
    {
        reveal(delegation_metadata_of);
        let len = data.len();
        if len < 21 {
            return Err(ProgramError::InvalidAccountData);
        }
        if read_u64(data, 0) != DELEGATION_METADATA_DISCRIMINATOR {
            return Err(ProgramError::InvalidAccountData);
        }
        let last_update_nonce = read_u64(data, 8);
        let flag = data[16];
        if flag > 1 {
            return Err(ProgramError::InvalidAccountData);
        }
        let count = read_u32(data, 17);
        let (seeds, at) = match read_seeds(data, 21, count) {
            Some(found) => found,
            None => {
                return Err(ProgramError::InvalidAccountData);
            },
        };
        if len - at != 32 {
            return Err(ProgramError::InvalidAccountData);
        }
        let rent_payer = read_key(data, at);
        Ok(DelegationMetadata { last_update_nonce, is_undelegatable: flag == 1, seeds, rent_payer })
    }

    /// Writes the metadata; fails where there are more seeds, or a seed has
    /// more bytes, than 32 bits can count.
    pub fn to_bytes_with_discriminator(&self) -> (r: Result<Vec<u8>, ProgramError>)
        ensures
            match r {
                Ok(out) => seeds_encodable(self@.seeds) && out@ == delegation_metadata_bytes(
                    self@,
                ),
                Err(e) => !seeds_encodable(self@.seeds) && e == ProgramError::InvalidAccountData,
            },
    {
        reveal(delegation_metadata_bytes);
        let count = self.seeds.len();
        if count > u32::MAX as usize {
            return Err(ProgramError::InvalidAccountData);
        }
        let mut out: Vec<u8> = Vec::new();
        push_u64(&mut out, DELEGATION_METADATA_DISCRIMINATOR);
        push_u64(&mut out, self.last_update_nonce);
        out.push(if self.is_undelegatable { 1 } else { 0 });
        push_u32(&mut out, count as u32);
        if !push_seeds(&mut out, &self.seeds) {
            return Err(ProgramError::InvalidAccountData);
        }
        push_bytes(&mut out, self.rent_payer.as_slice());
        Ok(out)
    }
}

/// The validators that an owning program's configuration lists, if the bytes
/// hold a configuration.
#[verifier::opaque]
pub open spec fn approved_validators_of(data: Seq<u8>) -> Option<Seq<Seq<u8>>> {
    if data.len() >= 12 && le_u64(data, 0) == 103 && data.len() == 12 + 32 * le_u32(data, 8) {
        Some(Seq::new(le_u32(data, 8), |k: int| data.subrange(12 + 32 * k, 44 + 32 * k)))
    } else {
        None
    }
}

/// Says whether the configuration in `data` lists `validator`.
pub fn program_config_approves(data: &[u8], validator: &Pubkey) -> (r: Result<bool, ProgramError>)
    ensures
        match r {
            Ok(listed) => approved_validators_of(data@) matches Some(list) && listed
                == list.contains(validator@),
            Err(e) => approved_validators_of(data@) is None && e
                == ProgramError::InvalidAccountData,
        },
{
    reveal(approved_validators_of);
    let len = data.len();
    if len < 12 {
        return Err(ProgramError::InvalidAccountData);
    }
    if read_u64(data, 0) != PROGRAM_CONFIG_DISCRIMINATOR {
        return Err(ProgramError::InvalidAccountData);
    }
    let count = read_u32(data, 8);
    if (len - 12) as u64 != 32 * (count as u64) {
        return Err(ProgramError::InvalidAccountData);
    }
    let ghost list = approved_validators_of(data@)->Some_0;
    let mut k: usize = 0;
    while k < count as usize
        invariant
            k <= count,
            len == data@.len(),
            len == 12 + 32 * count,
            approved_validators_of(data@) == Some(list),
            list.len() == count,
            forall|j: int| 0 <= j < k ==> list[j] != validator@,
        decreases count - k,
    {
        let entry = read_key(data, 12 + 32 * k);
        proof {
            reveal(approved_validators_of);
            assert(entry@ == list[k as int]);
        }
        if pubkey_eq(&entry, validator) {
            return Ok(true);
        }
        k += 1;
    }
    Ok(false)
}

} // verus!
