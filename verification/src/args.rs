//! The arguments of the instructions, and their bytes.
//!
//! Integers are little-endian, a flag is one byte that is 0 or 1, a list is
//! its 32-bit element count followed by its elements, and an optional value
//! is one byte that is 0 or 1, followed by the value where it is 1. Bytes
//! beyond the arguments are not accepted.

use crate::error::ProgramError;
use crate::pubkey::{seed_views, Pubkey};
use crate::seeds::{read_seeds, seed_end, seeds_fit, seeds_in};
use crate::state::{flag_byte, read_key};
use crate::wire::{copy_bytes, le_u32, le_u64, push_bytes, push_u64, read_u32, read_u64, u64_le};
use vstd::prelude::*;
use vstd::slice::slice_subrange;

verus! {

/// The length of the arguments of a commit that travel without its state:
/// the nonce, the balance and the flag.
pub const SIZE_COMMIT_DIFF_ARGS_WITHOUT_DIFF: usize = 17;

/// The arguments of a commit that carries the new state.
#[derive(Debug)]
pub struct CommitStateArgs {
    /// The commit's place in the sequence of commits: one more than the last.
    pub nonce: u64,
    /// The balance that the account holds in the validator's domain.
    pub lamports: u64,
    /// Whether the account may be handed back once the commit is finalized.
    pub allow_undelegation: bool,
    /// The account's new state.
    pub data: Vec<u8>,
}

/// The arguments of a commit that carries the new state, as a mathematical
/// value.
pub struct CommitStateArgsView {
    pub nonce: u64,
    pub lamports: u64,
    pub allow_undelegation: bool,
    pub data: Seq<u8>,
}

impl View for CommitStateArgs {
    type V = CommitStateArgsView;

    open spec fn view(&self) -> CommitStateArgsView {
        CommitStateArgsView {
            nonce: self.nonce,
            lamports: self.lamports,
            allow_undelegation: self.allow_undelegation,
            data: self.data@,
        }
    }
}

/// The arguments that the bytes hold, if they hold those of a commit with its
/// state.
pub open spec fn commit_state_args_of(bytes: Seq<u8>) -> Option<CommitStateArgsView> {
    if bytes.len() >= 21 && bytes[16] <= 1 && 21 + le_u32(bytes, 17) == bytes.len() {
        Some(
            CommitStateArgsView {
                nonce: le_u64(bytes, 0) as u64,
                lamports: le_u64(bytes, 8) as u64,
                allow_undelegation: bytes[16] == 1,
                data: bytes.subrange(21, bytes.len() as int),
            },
        )
    } else {
        None
    }
}

impl CommitStateArgs {
    /// Reads the arguments of a commit that carries the new state.
    pub fn try_from_slice(bytes: &[u8]) -> (r: Result<CommitStateArgs, ProgramError>)
        ensures
            match r {
                Ok(args) => commit_state_args_of(bytes@) == Some(args@),
                Err(e) => commit_state_args_of(bytes@) is None && e == ProgramError::BorshIoError,
            },
    {
        let len = bytes.len();
        if len < 21 {
            return Err(ProgramError::BorshIoError);
        }
        let flag = bytes[16];
        if flag > 1 {
            return Err(ProgramError::BorshIoError);
        }
        let data_len = read_u32(bytes, 17) as usize;
        if len - 21 != data_len {
            return Err(ProgramError::BorshIoError);
        }
        Ok(
            CommitStateArgs {
                nonce: read_u64(bytes, 0),
                lamports: read_u64(bytes, 8),
                allow_undelegation: flag == 1,
                data: copy_bytes(slice_subrange(bytes, 21, len)),
            },
        )
    }
}

/// The arguments of a commit whose state lies in a buffer account.
#[derive(Debug, Clone, Copy, PartialEq, Eq, Structural)]
pub struct CommitStateFromBufferArgs {
    /// The commit's place in the sequence of commits: one more than the last.
    pub nonce: u64,
    /// The balance that the account holds in the validator's domain.
    pub lamports: u64,
    /// Whether the account may be handed back once the commit is finalized.
    pub allow_undelegation: bool,
}

/// The arguments of a commit that travel behind its diff.
#[derive(Debug, Clone, Copy, PartialEq, Eq, Structural)]
pub struct CommitDiffArgsWithoutDiff {
    /// The commit's place in the sequence of commits: one more than the last.
    pub nonce: u64,
    /// The balance that the account holds in the validator's domain.
    pub lamports: u64,
    /// Whether the account may be handed back once the commit is finalized.
    pub allow_undelegation: bool,
}

/// The nonce, the balance and the flag that 17 bytes hold, if they hold them.
pub open spec fn commit_tail_of(bytes: Seq<u8>) -> Option<(u64, u64, bool)> {
    if bytes.len() == 17 && bytes[16] <= 1 {
        Some((le_u64(bytes, 0) as u64, le_u64(bytes, 8) as u64, bytes[16] == 1))
    } else {
        None
    }
}

/// The 17 bytes of a nonce, a balance and a flag.
pub open spec fn commit_tail_bytes(nonce: u64, lamports: u64, allow_undelegation: bool) -> Seq<
    u8,
> {
    u64_le(nonce as nat) + u64_le(lamports as nat) + seq![flag_byte(allow_undelegation)]
}

/// Reads a nonce, a balance and a flag.
fn read_commit_tail(bytes: &[u8]) -> (r: Option<(u64, u64, bool)>)
    ensures
        r == commit_tail_of(bytes@),
{
    if bytes.len() != SIZE_COMMIT_DIFF_ARGS_WITHOUT_DIFF {
        return None;
    }
    let flag = bytes[16];
    if flag > 1 {
        return None;
    }
    Some((read_u64(bytes, 0), read_u64(bytes, 8), flag == 1))
}

impl CommitStateFromBufferArgs {
    /// Reads the arguments of a commit whose state lies in a buffer account.
    pub fn try_from_slice(bytes: &[u8]) -> (r: Result<CommitStateFromBufferArgs, ProgramError>)
        ensures
            match r {
                Ok(args) => commit_tail_of(bytes@) == Some(
                    (args.nonce, args.lamports, args.allow_undelegation),
                ),
                Err(e) => commit_tail_of(bytes@) is None && e == ProgramError::BorshIoError,
            },
    {
        match read_commit_tail(bytes) {
            Some((nonce, lamports, allow_undelegation)) => Ok(
                CommitStateFromBufferArgs { nonce, lamports, allow_undelegation },
            ),
            None => Err(ProgramError::BorshIoError),
        }
    }
}

impl CommitDiffArgsWithoutDiff {
    /// Reads the arguments of a commit that travel behind its diff.
    pub fn try_from_slice(bytes: &[u8]) -> (r: Result<CommitDiffArgsWithoutDiff, ProgramError>)
        ensures
            match r {
                Ok(args) => commit_tail_of(bytes@) == Some(
                    (args.nonce, args.lamports, args.allow_undelegation),
                ),
                Err(e) => commit_tail_of(bytes@) is None && e == ProgramError::BorshIoError,
            },
    {
        match read_commit_tail(bytes) {
            Some((nonce, lamports, allow_undelegation)) => Ok(
                CommitDiffArgsWithoutDiff { nonce, lamports, allow_undelegation },
            ),
            None => Err(ProgramError::BorshIoError),
        }
    }
}

/// The arguments of a commit that carries a diff against the account's
/// present state. The diff comes first in the bytes and has no length in
/// front: the other arguments take the last 17 bytes.
#[derive(Debug)]
pub struct CommitDiffArgs {
    /// The encoded diff.
    pub diff: Vec<u8>,
    /// The commit's place in the sequence of commits: one more than the last.
    pub nonce: u64,
    /// The balance that the account holds in the validator's domain.
    pub lamports: u64,
    /// Whether the account may be handed back once the commit is finalized.
    pub allow_undelegation: bool,
}

impl CommitDiffArgs {
    /// Writes the arguments: the diff, then the nonce, the balance and the
    /// flag.
    pub fn to_bytes(&self) -> (out: Vec<u8>)
        ensures
            out@ == self.diff@ + commit_tail_bytes(
                self.nonce,
                self.lamports,
                self.allow_undelegation,
            ),
    {
        let mut out: Vec<u8> = Vec::new();
        push_bytes(&mut out, self.diff.as_slice());
        push_u64(&mut out, self.nonce);
        push_u64(&mut out, self.lamports);
        out.push(if self.allow_undelegation { 1 } else { 0 });
        assert(out@ =~= self.diff@ + commit_tail_bytes(
            self.nonce,
            self.lamports,
            self.allow_undelegation,
        ));
        out
    }
}

/// The arguments of a call that the program passes on to another program.
#[derive(Debug)]
pub struct CallHandlerArgs {
    /// Which of the caller's escrow accounts pays.
    pub escrow_index: u8,
    /// The instruction data that is passed on as it is.
    pub instruction_data: Vec<u8>,
}

/// The arguments that the bytes hold, if they hold those of a passed-on call:
/// the escrow index and the instruction data.
pub open spec fn call_handler_args_of(bytes: Seq<u8>) -> Option<(u8, Seq<u8>)> {
    if bytes.len() >= 5 && 5 + le_u32(bytes, 1) == bytes.len() {
        Some((bytes[0], bytes.subrange(5, bytes.len() as int)))
    } else {
        None
    }
}

impl CallHandlerArgs {
    /// Reads the arguments of a passed-on call.
    pub fn try_from_slice(bytes: &[u8]) -> (r: Result<CallHandlerArgs, ProgramError>)
        ensures
            match r {
                Ok(args) => call_handler_args_of(bytes@) == Some(
                    (args.escrow_index, args.instruction_data@),
                ),
                Err(e) => call_handler_args_of(bytes@) is None && e == ProgramError::BorshIoError,
            },
    {
        let len = bytes.len();
        if len < 5 {
            return Err(ProgramError::BorshIoError);
        }
        let data_len = read_u32(bytes, 1) as usize;
        if len - 5 != data_len {
            return Err(ProgramError::BorshIoError);
        }
        Ok(
            CallHandlerArgs {
                escrow_index: bytes[0],
                instruction_data: copy_bytes(slice_subrange(bytes, 5, len)),
            },
        )
    }
}

/// The arguments of a delegation.
#[derive(Debug)]
pub struct DelegateArgs {
    /// How often the validator is meant to commit.
    pub commit_frequency_ms: u32,
    /// The seeds that the owning program derived the account's address from.
    pub seeds: Vec<Vec<u8>>,
    /// The validator that may commit, if the choice is not left open.
    pub validator: Option<Pubkey>,
}

/// The arguments of a delegation as a mathematical value.
pub struct DelegateArgsView {
    pub commit_frequency_ms: u32,
    pub seeds: Seq<Seq<u8>>,
    pub validator: Option<Seq<u8>>,
}

impl View for DelegateArgs {
    type V = DelegateArgsView;

    open spec fn view(&self) -> DelegateArgsView {
        DelegateArgsView {
            commit_frequency_ms: self.commit_frequency_ms,
            seeds: seed_views(self.seeds@),
            validator: match self.validator {
                Some(key) => Some(key@),
                None => None,
            },
        }
    }
}

/// The arguments that the bytes hold, if they hold those of a delegation.
pub open spec fn delegate_args_of(bytes: Seq<u8>) -> Option<DelegateArgsView> {
    let count = le_u32(bytes, 4);
    let end = seed_end(bytes, 8, count);
    if bytes.len() >= 8 && seeds_fit(bytes, 8, count) && end < bytes.len() && (bytes[end] == 0
        && end + 1 == bytes.len() || bytes[end] == 1 && end + 33 == bytes.len()) {
        Some(
            DelegateArgsView {
                commit_frequency_ms: le_u32(bytes, 0) as u32,
                seeds: seeds_in(bytes, 8, count),
                validator: if bytes[end] == 1 {
                    Some(bytes.subrange(end + 1, end + 33))
                } else {
                    None
                },
            },
        )
    } else {
        None
    }
}

impl DelegateArgs {
    /// Reads the arguments of a delegation.
    pub fn try_from_slice(bytes: &[u8]) -> (r: Result<DelegateArgs, ProgramError>)
        ensures
            match r {
                Ok(args) => delegate_args_of(bytes@) == Some(args@),
                Err(e) => delegate_args_of(bytes@) is None && e
                    == ProgramError::InvalidInstructionData,
            },
    {
        let len = bytes.len();
        if len < 8 {
            return Err(ProgramError::InvalidInstructionData);
        }
        let commit_frequency_ms = read_u32(bytes, 0);
        let count = read_u32(bytes, 4);
        let (seeds, end) = match read_seeds(bytes, 8, count) {
            Some(found) => found,
            None => {
                return Err(ProgramError::InvalidInstructionData);
            },
        };
        if end >= len {
            return Err(ProgramError::InvalidInstructionData);
        }
        let tag = bytes[end];
        if tag == 0 && len - end == 1 {
            Ok(DelegateArgs { commit_frequency_ms, seeds, validator: None })
        } else if tag == 1 && len - end == 33 {
            let key = read_key(bytes, end + 1);
            Ok(DelegateArgs { commit_frequency_ms, seeds, validator: Some(key) })
        } else {
            Err(ProgramError::InvalidInstructionData)
        }
    }
}

} // verus!
