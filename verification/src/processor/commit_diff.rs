//! Committing a new state as a diff against the account's present state.

use crate::account::{views, Account, AccountView, Rent};
use crate::args::{commit_tail_of, CommitDiffArgsWithoutDiff, SIZE_COMMIT_DIFF_ARGS_WITHOUT_DIFF};
use crate::diff::algorithm::{applied_copy, apply_diff_copy};
use crate::diff::types::{align_offset_of, parse_failure, DiffSet};
use crate::error::ProgramError;
use crate::processor::commit_state::{
    commit_accounts_into_list, commit_accounts_list, commit_accounts_of, commit_outcome,
    process_commit_state_internal, take_commit_accounts, CommitPayload,
};
use crate::pubkey::Pubkey;
use vstd::prelude::*;
use vstd::slice::slice_subrange;

verus! {

/// The accounts after a commit that carries a diff, or why it is refused.
/// `aligned` says whether the diff starts on a 4-byte boundary in memory.
///
/// The last 17 bytes of the data are the nonce, the balance and the flag;
/// what stands before them is the diff. The new state is what the diff makes
/// of the bytes that the delegated account holds.
pub open spec fn commit_diff_outcome(
    program_id: Seq<u8>,
    rent: Rent,
    accounts: Seq<AccountView>,
    data: Seq<u8>,
    aligned: bool,
) -> Result<Seq<AccountView>, ProgramError> {
    let diff = data.subrange(0, data.len() - 17);
    let tail = data.subrange(data.len() - 17, data.len() as int);
    if accounts.len() != 9 {
        Err(ProgramError::NotEnoughAccountKeys)
    } else if data.len() < 17 {
        Err(ProgramError::InvalidInstructionData)
    } else if commit_tail_of(tail) is None {
        Err(ProgramError::BorshIoError)
    } else if parse_failure(diff, aligned) is Some {
        Err(parse_failure(diff, aligned)->Some_0)
    } else {
        match applied_copy(accounts[1].data, diff) {
            Err(e) => Err(e),
            Ok(changed) => match commit_outcome(
                program_id,
                rent,
                commit_accounts_of(accounts),
                CommitPayload {
                    state: changed,
                    lamports: commit_tail_of(tail)->Some_0.1,
                    nonce: commit_tail_of(tail)->Some_0.0,
                    allow_undelegation: commit_tail_of(tail)->Some_0.2,
                },
            ) {
                Err(e) => Err(e),
                Ok(after) => Ok(commit_accounts_list(after, accounts[8])),
            },
        }
    }
}

/// Commits a new state of a delegated account, given as a diff whose first
/// byte lies `align_offset` bytes before a 4-byte boundary in memory.
pub fn process_commit_diff_with_offset(
    program_id: &Pubkey,
    accounts: &[Account],
    data: &[u8],
    rent: &Rent,
    align_offset: usize,
) -> (r: Result<Vec<Account>, ProgramError>)
    ensures
        match r {
            Ok(after) => commit_diff_outcome(
                program_id@,
                *rent,
                views(accounts@),
                data@,
                align_offset == 0,
            ) == Ok::<Seq<AccountView>, ProgramError>(views(after@)),
            Err(e) => commit_diff_outcome(
                program_id@,
                *rent,
                views(accounts@),
                data@,
                align_offset == 0,
            ) == Err::<Seq<AccountView>, ProgramError>(e),
        },
{
    if accounts.len() != 9 {
        return Err(ProgramError::NotEnoughAccountKeys);
    }
    if data.len() < SIZE_COMMIT_DIFF_ARGS_WITHOUT_DIFF {
        return Err(ProgramError::InvalidInstructionData);
    }
    let split = data.len() - SIZE_COMMIT_DIFF_ARGS_WITHOUT_DIFF;
    let diff = slice_subrange(data, 0, split);
    let tail = slice_subrange(data, split, data.len());
    let args = CommitDiffArgsWithoutDiff::try_from_slice(tail)?;
    let diffset = DiffSet::try_new_with_offset(diff, align_offset)?;
    let changed = apply_diff_copy(accounts[1].data.as_slice(), &diffset)?;
    let taken = take_commit_accounts(accounts);
    let after = process_commit_state_internal(
        program_id,
        rent,
        taken,
        changed.as_slice(),
        args.lamports,
        args.nonce,
        args.allow_undelegation,
    )?;
    Ok(commit_accounts_into_list(after, accounts[8].duplicate()))
}

/// Commits a new state of a delegated account, given as a diff against the
/// state that the account holds.
///
/// The accounts are those of a commit that carries the state. The diff is
/// refused where it does not start on a 4-byte boundary in memory, which
/// depends on where the instruction's data lies.
pub fn process_commit_diff(
    program_id: &Pubkey,
    accounts: &[Account],
    data: &[u8],
    rent: &Rent,
) -> (r: Result<Vec<Account>, ProgramError>)
    ensures
        match r {
            Ok(after) => commit_diff_outcome(program_id@, *rent, views(accounts@), data@, true)
                == Ok::<Seq<AccountView>, ProgramError>(views(after@)),
            Err(e) => commit_diff_outcome(program_id@, *rent, views(accounts@), data@, true)
                == Err::<Seq<AccountView>, ProgramError>(e) || commit_diff_outcome(
                program_id@,
                *rent,
                views(accounts@),
                data@,
                false,
            ) == Err::<Seq<AccountView>, ProgramError>(e),
        },
{
    let align_offset = if data.len() < SIZE_COMMIT_DIFF_ARGS_WITHOUT_DIFF {
        0
    } else {
        align_offset_of(slice_subrange(data, 0, data.len() - SIZE_COMMIT_DIFF_ARGS_WITHOUT_DIFF))
    };
    process_commit_diff_with_offset(program_id, accounts, data, rent, align_offset)
}

} // verus!
