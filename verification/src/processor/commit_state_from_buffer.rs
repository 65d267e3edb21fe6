//! Committing a new state that lies in a buffer account.

use crate::account::{views, Account, AccountView, Rent};
use crate::args::{commit_tail_of, CommitStateFromBufferArgs};
use crate::error::ProgramError;
use crate::processor::commit_state::{
    commit_outcome, process_commit_state_internal, CommitAccounts, CommitAccountsView,
    CommitPayload,
};
use crate::pubkey::Pubkey;
use vstd::prelude::*;

verus! {

/// The accounts of a commit, taken from a list that holds the state buffer in
/// the seventh position.
pub open spec fn buffered_commit_accounts_of(list: Seq<AccountView>) -> CommitAccountsView {
    CommitAccountsView {
        validator: list[0],
        delegated_account: list[1],
        commit_state_account: list[2],
        commit_record_account: list[3],
        delegation_record_account: list[4],
        delegation_metadata_account: list[5],
        validator_fees_vault: list[7],
        program_config_account: list[8],
    }
}

/// The accounts of a commit as a list, with the state buffer in the seventh
/// position and the system program's account in the last.
pub open spec fn buffered_commit_accounts_list(
    a: CommitAccountsView,
    state_buffer: AccountView,
    system_program: AccountView,
) -> Seq<AccountView> {
    seq![
        a.validator,
        a.delegated_account,
        a.commit_state_account,
        a.commit_record_account,
        a.delegation_record_account,
        a.delegation_metadata_account,
        state_buffer,
        a.validator_fees_vault,
        a.program_config_account,
        system_program,
    ]
}

/// The accounts after a commit whose state lies in a buffer account, or why
/// it is refused.
pub open spec fn commit_state_from_buffer_outcome(
    program_id: Seq<u8>,
    rent: Rent,
    accounts: Seq<AccountView>,
    data: Seq<u8>,
) -> Result<Seq<AccountView>, ProgramError> {
    match commit_tail_of(data) {
        None => Err(ProgramError::BorshIoError),
        Some((nonce, lamports, allow_undelegation)) => if accounts.len() != 10 {
            Err(ProgramError::NotEnoughAccountKeys)
        } else {
            match commit_outcome(
                program_id,
                rent,
                buffered_commit_accounts_of(accounts),
                CommitPayload { state: accounts[6].data, lamports, nonce, allow_undelegation },
            ) {
                Err(e) => Err(e),
                Ok(after) => Ok(buffered_commit_accounts_list(after, accounts[6], accounts[9])),
            }
        },
    }
}

/// Commits a new state of a delegated account, which lies in a buffer
/// account.
///
/// The accounts are, in this order: the validator, the delegated account, the
/// commit-state cell, the commit record, the delegation record, the
/// delegation metadata, the state buffer, the validator's fee vault, the
/// owning program's configuration, and the system program.
pub fn process_commit_state_from_buffer(
    program_id: &Pubkey,
    accounts: &[Account],
    data: &[u8],
    rent: &Rent,
) -> (r: Result<Vec<Account>, ProgramError>)
    ensures
        match r {
            Ok(after) => commit_state_from_buffer_outcome(
                program_id@,
                *rent,
                views(accounts@),
                data@,
            ) == Ok::<Seq<AccountView>, ProgramError>(views(after@)),
            Err(e) => commit_state_from_buffer_outcome(
                program_id@,
                *rent,
                views(accounts@),
                data@,
            ) == Err::<Seq<AccountView>, ProgramError>(e),
        },
{
    let args = CommitStateFromBufferArgs::try_from_slice(data)?;
    if accounts.len() != 10 {
        return Err(ProgramError::NotEnoughAccountKeys);
    }
    let taken = CommitAccounts {
        validator: accounts[0].duplicate(),
        delegated_account: accounts[1].duplicate(),
        commit_state_account: accounts[2].duplicate(),
        commit_record_account: accounts[3].duplicate(),
        delegation_record_account: accounts[4].duplicate(),
        delegation_metadata_account: accounts[5].duplicate(),
        validator_fees_vault: accounts[7].duplicate(),
        program_config_account: accounts[8].duplicate(),
    };
    let after = process_commit_state_internal(
        program_id,
        rent,
        taken,
        accounts[6].data.as_slice(),
        args.lamports,
        args.nonce,
        args.allow_undelegation,
    )?;
    let mut list: Vec<Account> = Vec::new();
    list.push(after.validator);
    list.push(after.delegated_account);
    list.push(after.commit_state_account);
    list.push(after.commit_record_account);
    list.push(after.delegation_record_account);
    list.push(after.delegation_metadata_account);
    list.push(accounts[6].duplicate());
    list.push(after.validator_fees_vault);
    list.push(after.program_config_account);
    list.push(accounts[9].duplicate());
    assert(views(list@) =~= buffered_commit_accounts_list(
        after@,
        accounts@[6]@,
        accounts@[9]@,
    ));
    Ok(list)
}

} // verus!
