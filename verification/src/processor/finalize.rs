//! Finalizing a commit: the committed state and balance reach the delegated
//! account, and the cells of the commit are closed.

use crate::account::{views, with_data, Account, AccountView};
use crate::error::{custom, DlpError, ProgramError};
use crate::pda::CellKind;
use crate::processor::cells::{close_pda, close_pda_outcome};
use crate::processor::checks::{
    and_then, delegation_metadata_check, delegation_record_check, initialized_cell_check,
    is_uninitialized_account, owned_pda_check, program_check, protocol_fees_vault_check,
    require_initialized_commit_record, require_initialized_commit_state,
    require_initialized_delegation_metadata, require_initialized_delegation_record,
    require_initialized_protocol_fees_vault, require_initialized_validator_fees_vault,
    require_owned_pda, require_program, require_signer, signer_check, uninitialized,
    validator_fees_vault_check,
};
use crate::pubkey::{pubkey_eq, system_id, system_program_id, Pubkey};
use crate::seeds::seeds_encodable;
use crate::state::{
    commit_record_of, delegation_metadata_bytes, delegation_metadata_of, delegation_record_bytes,
    delegation_record_of, CommitRecord, DelegationMetadata, DelegationMetadataView,
    DelegationRecord, DelegationRecordView,
};
use crate::wire::copy_bytes;
use vstd::prelude::*;

verus! {

/// The accounts of a finalization.
pub struct FinalizeAccounts {
    /// The validator that committed. It signs, and gets back what the cells
    /// of the commit hold.
    pub validator: Account,
    /// The delegated account.
    pub delegated_account: Account,
    /// The cell that holds the committed state.
    pub commit_state_account: Account,
    /// The cell that holds the commit record.
    pub commit_record_account: Account,
    /// The delegation record of the account.
    pub delegation_record_account: Account,
    /// The delegation metadata of the account.
    pub delegation_metadata_account: Account,
    /// The validator's fee vault.
    pub validator_fees_vault: Account,
    /// The system program.
    pub system_program: Account,
    /// The protocol's fee vault.
    pub fees_vault: Account,
}

/// The accounts of a finalization as mathematical values.
pub struct FinalizeAccountsView {
    pub validator: AccountView,
    pub delegated_account: AccountView,
    pub commit_state_account: AccountView,
    pub commit_record_account: AccountView,
    pub delegation_record_account: AccountView,
    pub delegation_metadata_account: AccountView,
    pub validator_fees_vault: AccountView,
    pub system_program: AccountView,
    pub fees_vault: AccountView,
}

impl View for FinalizeAccounts {
    type V = FinalizeAccountsView;

    open spec fn view(&self) -> FinalizeAccountsView {
        FinalizeAccountsView {
            validator: self.validator@,
            delegated_account: self.delegated_account@,
            commit_state_account: self.commit_state_account@,
            commit_record_account: self.commit_record_account@,
            delegation_record_account: self.delegation_record_account@,
            delegation_metadata_account: self.delegation_metadata_account@,
            validator_fees_vault: self.validator_fees_vault@,
            system_program: self.system_program@,
            fees_vault: self.fees_vault@,
        }
    }
}

/// The first reason for which a finalization is refused on account of the
/// accounts that every finalization needs, if there is one.
#[verifier::opaque]
pub open spec fn finalize_entry_check(program_id: Seq<u8>, a: FinalizeAccountsView) -> Result<
    (),
    ProgramError,
> {
    and_then(
        signer_check(a.validator),
        and_then(
            owned_pda_check(a.delegated_account, program_id),
            and_then(
                delegation_record_check(
                    a.delegation_record_account,
                    a.delegated_account,
                    program_id,
                    true,
                ),
                and_then(
                    delegation_metadata_check(
                        a.delegation_metadata_account,
                        a.delegated_account,
                        program_id,
                        true,
                    ),
                    and_then(
                        validator_fees_vault_check(
                            a.validator,
                            a.validator_fees_vault,
                            program_id,
                            true,
                        ),
                        and_then(
                            protocol_fees_vault_check(a.fees_vault, program_id, false),
                            program_check(a.system_program, system_id()),
                        ),
                    ),
                ),
            ),
        ),
    )
}

/// Whether the commit-state cell exists, as the finalization checks it.
pub open spec fn commit_state_check(program_id: Seq<u8>, a: FinalizeAccountsView) -> Result<
    (),
    ProgramError,
> {
    initialized_cell_check(
        a.commit_state_account,
        CellKind::CommitState,
        a.delegated_account.key,
        program_id,
        true,
    )
}

/// Whether the commit record exists, as the finalization checks it.
pub open spec fn commit_record_check(program_id: Seq<u8>, a: FinalizeAccountsView) -> Result<
    (),
    ProgramError,
> {
    initialized_cell_check(
        a.commit_record_account,
        CellKind::CommitRecord,
        a.delegated_account.key,
        program_id,
        true,
    )
}

/// There is nothing to finalize: neither cell of a commit exists, both lie at
/// their derived addresses, and both may be changed.
pub open spec fn nothing_to_finalize(program_id: Seq<u8>, a: FinalizeAccountsView) -> bool {
    &&& commit_state_check(program_id, a) == Err::<(), ProgramError>(
        ProgramError::InvalidAccountOwner,
    )
    &&& commit_record_check(program_id, a) == Err::<(), ProgramError>(
        ProgramError::InvalidAccountOwner,
    )
    &&& uninitialized(a.commit_state_account)
    &&& uninitialized(a.commit_record_account)
}

/// The first reason for which a commit cannot be finalized on account of its
/// cells and records, if there is one: a cell of the commit that does not
/// exist, a record that cannot be read, or a commit record that is for
/// another account or by another validator.
#[verifier::opaque]
pub open spec fn finalize_records_check(program_id: Seq<u8>, a: FinalizeAccountsView) -> Result<
    (),
    ProgramError,
> {
    let commit = commit_record_of(a.commit_record_account.data);
    and_then(
        commit_state_check(program_id, a),
        and_then(
            commit_record_check(program_id, a),
            if delegation_metadata_of(a.delegation_metadata_account.data) is None {
                Err(ProgramError::InvalidAccountData)
            } else if delegation_record_of(a.delegation_record_account.data) is None {
                Err(ProgramError::InvalidAccountData)
            } else if commit is None {
                Err(ProgramError::InvalidAccountData)
            } else if commit->Some_0.account != a.delegated_account.key {
                Err(custom(DlpError::InvalidDelegatedAccount))
            } else if commit->Some_0.identity != a.validator.key {
                Err(custom(DlpError::InvalidReimbursementAccount))
            } else {
                Ok(())
            },
        ),
    )
}

/// The delegated account, the commit-state cell and the validator's fee
/// vault after the balances were settled, or why they cannot be.
///
/// Where the balance on record is above the declared one, the delegated
/// account passes the difference to the validator's fee vault. Where the
/// declared balance is above the one on record, the commit-state cell, which
/// holds the validator's collateral, passes the difference to the delegated
/// account. Where they are equal, nothing moves.
pub open spec fn settle_outcome(
    delegated: AccountView,
    commit_state: AccountView,
    vault: AccountView,
    recorded: u64,
    declared: u64,
) -> Result<(AccountView, AccountView, AccountView), ProgramError> {
    if recorded > declared {
        if delegated.lamports < recorded - declared || vault.lamports + (recorded - declared)
            > u64::MAX {
            Err(custom(DlpError::Overflow))
        } else {
            Ok(
                (
                    AccountView {
                        lamports: (delegated.lamports - (recorded - declared)) as u64,
                        ..delegated
                    },
                    commit_state,
                    AccountView {
                        lamports: (vault.lamports + (recorded - declared)) as u64,
                        ..vault
                    },
                ),
            )
        }
    } else if recorded < declared {
        if commit_state.lamports < declared - recorded || delegated.lamports + (declared
            - recorded) > u64::MAX {
            Err(custom(DlpError::Overflow))
        } else {
            Ok(
                (
                    AccountView {
                        lamports: (delegated.lamports + (declared - recorded)) as u64,
                        ..delegated
                    },
                    AccountView {
                        lamports: (commit_state.lamports - (declared - recorded)) as u64,
                        ..commit_state
                    },
                    vault,
                ),
            )
        }
    } else {
        Ok((delegated, commit_state, vault))
    }
}

/// Settles the balance of the delegated account with the balance that the
/// commit declares.
pub fn settle_lamports_balance(
    delegated_account: Account,
    commit_state_account: Account,
    validator_fees_vault: Account,
    delegation_record_lamports: u64,
    commit_record_lamports: u64,
) -> (r: Result<(Account, Account, Account), ProgramError>)
    ensures
        match r {
            Ok((delegated, commit_state, vault)) => settle_outcome(
                delegated_account@,
                commit_state_account@,
                validator_fees_vault@,
                delegation_record_lamports,
                commit_record_lamports,
            ) == Ok::<(AccountView, AccountView, AccountView), ProgramError>(
                (delegated@, commit_state@, vault@),
            ),
            Err(e) => settle_outcome(
                delegated_account@,
                commit_state_account@,
                validator_fees_vault@,
                delegation_record_lamports,
                commit_record_lamports,
            ) == Err::<(AccountView, AccountView, AccountView), ProgramError>(e),
        },
{
    let mut delegated = delegated_account;
    let mut commit_state = commit_state_account;
    let mut vault = validator_fees_vault;
    if delegation_record_lamports > commit_record_lamports {
        let amount = delegation_record_lamports - commit_record_lamports;
        if delegated.lamports < amount {
            return Err(ProgramError::from(DlpError::Overflow));
        }
        match vault.lamports.checked_add(amount) {
            Some(sum) => {
                vault.lamports = sum;
            },
            None => {
                return Err(ProgramError::from(DlpError::Overflow));
            },
        }
        delegated.lamports = delegated.lamports - amount;
    } else if delegation_record_lamports < commit_record_lamports {
        let amount = commit_record_lamports - delegation_record_lamports;
        if commit_state.lamports < amount {
            return Err(ProgramError::from(DlpError::Overflow));
        }
        match delegated.lamports.checked_add(amount) {
            Some(sum) => {
                delegated.lamports = sum;
            },
            None => {
                return Err(ProgramError::from(DlpError::Overflow));
            },
        }
        commit_state.lamports = commit_state.lamports - amount;
    }
    Ok((delegated, commit_state, vault))
}

/// The two cells of the commit and the validator after the cells were
/// closed, or why they cannot be.
pub open spec fn commit_cells_closed(
    commit_state: AccountView,
    commit_record: AccountView,
    validator: AccountView,
) -> Result<(AccountView, AccountView, AccountView), ProgramError> {
    match close_pda_outcome(commit_state, validator) {
        Err(e) => Err(e),
        Ok((state_cell, receiver)) => match close_pda_outcome(commit_record, receiver) {
            Err(e) => Err(e),
            Ok((record_cell, receiver)) => Ok((state_cell, record_cell, receiver)),
        },
    }
}

/// Closes the two cells of the commit, to the validator's benefit.
fn close_commit_cells(commit_state: Account, commit_record: Account, validator: Account) -> (r:
    Result<(Account, Account, Account), ProgramError>)
    ensures
        match r {
            Ok((state_cell, record_cell, receiver)) => commit_cells_closed(
                commit_state@,
                commit_record@,
                validator@,
            ) == Ok::<(AccountView, AccountView, AccountView), ProgramError>(
                (state_cell@, record_cell@, receiver@),
            ),
            Err(e) => commit_cells_closed(commit_state@, commit_record@, validator@) == Err::<
                (AccountView, AccountView, AccountView),
                ProgramError,
            >(e),
        },
{
    let mut state_cell = commit_state;
    let mut record_cell = commit_record;
    let mut receiver = validator;
    close_pda(&mut state_cell, &mut receiver)?;
    close_pda(&mut record_cell, &mut receiver)?;
    Ok((state_cell, record_cell, receiver))
}

/// The metadata that a finalization leaves: what was there, with the nonce
/// of the commit as the last one.
pub open spec fn metadata_after_finalize(metadata: Seq<u8>, commit: Seq<u8>)
    -> DelegationMetadataView {
    DelegationMetadataView {
        last_update_nonce: commit_record_of(commit)->Some_0.nonce,
        ..delegation_metadata_of(metadata)->Some_0
    }
}

/// The delegation record that a finalization leaves: what was there, with
/// the balance that the delegated account now holds.
pub open spec fn record_after_finalize(record: Seq<u8>, lamports: u64) -> DelegationRecordView {
    DelegationRecordView { lamports, ..delegation_record_of(record)->Some_0 }
}

/// The accounts after a commit that passed the checks was finalized, or why
/// the finalization fails: the balances are settled, the records brought up
/// to date, the committed state is copied into the delegated account, and the
/// cells of the commit are closed.
#[verifier::opaque]
pub open spec fn finalize_effect(a: FinalizeAccountsView) -> Result<
    FinalizeAccountsView,
    ProgramError,
> {
    let recorded = delegation_record_of(a.delegation_record_account.data)->Some_0.lamports;
    let declared = commit_record_of(a.commit_record_account.data)->Some_0.lamports;
    let metadata = metadata_after_finalize(
        a.delegation_metadata_account.data,
        a.commit_record_account.data,
    );
    match settle_outcome(
        a.delegated_account,
        a.commit_state_account,
        a.validator_fees_vault,
        recorded,
        declared,
    ) {
        Err(e) => Err(e),
        Ok((delegated, commit_state, vault)) => if !seeds_encodable(metadata.seeds)
            || delegation_metadata_bytes(metadata).len()
            != a.delegation_metadata_account.data.len() {
            Err(ProgramError::InvalidAccountData)
        } else {
            match commit_cells_closed(commit_state, a.commit_record_account, a.validator) {
                Err(e) => Err(e),
                Ok((state_cell, record_cell, receiver)) => Ok(
                    FinalizeAccountsView {
                        validator: receiver,
                        delegated_account: AccountView {
                            data: a.commit_state_account.data,
                            ..delegated
                        },
                        commit_state_account: state_cell,
                        commit_record_account: record_cell,
                        delegation_record_account: AccountView {
                            data: delegation_record_bytes(
                                record_after_finalize(
                                    a.delegation_record_account.data,
                                    delegated.lamports,
                                ),
                            ),
                            ..a.delegation_record_account
                        },
                        delegation_metadata_account: AccountView {
                            data: delegation_metadata_bytes(metadata),
                            ..a.delegation_metadata_account
                        },
                        validator_fees_vault: vault,
                        system_program: a.system_program,
                        fees_vault: a.fees_vault,
                    },
                ),
            }
        },
    }
}

/// The accounts after a finalization, or why it is refused. Where there is
/// nothing to finalize, the accounts stay as they are.
pub open spec fn finalize_outcome(program_id: Seq<u8>, a: FinalizeAccountsView) -> Result<
    FinalizeAccountsView,
    ProgramError,
> {
    match finalize_entry_check(program_id, a) {
        Err(e) => Err(e),
        Ok(()) => if nothing_to_finalize(program_id, a) {
            Ok(a)
        } else {
            match finalize_records_check(program_id, a) {
                Err(e) => Err(e),
                Ok(()) => finalize_effect(a),
            }
        },
    }
}

/// Makes the checks that every finalization needs.
fn finalize_entry(program_id: &Pubkey, accounts: &FinalizeAccounts) -> (r: Result<(), ProgramError>)
    ensures
        r == finalize_entry_check(program_id@, accounts@),
{
    reveal(finalize_entry_check);
    require_signer(&accounts.validator, "validator")?;
    require_owned_pda(&accounts.delegated_account, program_id, "delegated account")?;
    require_initialized_delegation_record(
        &accounts.delegated_account,
        &accounts.delegation_record_account,
        program_id,
        true,
    )?;
    require_initialized_delegation_metadata(
        &accounts.delegated_account,
        &accounts.delegation_metadata_account,
        program_id,
        true,
    )?;
    require_initialized_validator_fees_vault(
        &accounts.validator,
        &accounts.validator_fees_vault,
        program_id,
        true,
    )?;
    require_initialized_protocol_fees_vault(&accounts.fees_vault, program_id, false)?;
    let system = system_program_id();
    require_program(&accounts.system_program, &system, "system program")
}

/// What a finalization reads from the records once they passed the checks.
pub struct FinalizeRecords {
    pub metadata: DelegationMetadata,
    pub record: DelegationRecord,
    pub commit: CommitRecord,
}

/// Says whether there is a commit to finalize, and reads the records if
/// there is.
fn finalize_records(program_id: &Pubkey, accounts: &FinalizeAccounts) -> (r: Result<
    Option<FinalizeRecords>,
    ProgramError,
>)
    ensures
        match r {
            Ok(None) => nothing_to_finalize(program_id@, accounts@),
            Ok(Some(records)) => {
                &&& !nothing_to_finalize(program_id@, accounts@)
                &&& finalize_records_check(program_id@, accounts@) is Ok
                &&& delegation_metadata_of(accounts@.delegation_metadata_account.data) == Some(
                    records.metadata@,
                )
                &&& delegation_record_of(accounts@.delegation_record_account.data) == Some(
                    records.record@,
                )
                &&& commit_record_of(accounts@.commit_record_account.data) == Some(
                    records.commit@,
                )
            },
            Err(e) => !nothing_to_finalize(program_id@, accounts@) && finalize_records_check(
                program_id@,
                accounts@,
            ) == Err::<(), ProgramError>(e),
        },
{
    reveal(finalize_records_check);
    let require_cs = require_initialized_commit_state(
        &accounts.delegated_account,
        &accounts.commit_state_account,
        program_id,
        true,
    );
    let require_cr = require_initialized_commit_record(
        &accounts.delegated_account,
        &accounts.commit_record_account,
        program_id,
        true,
    );
    // Finalizations come in batches, so one that finds nothing to finalize
    // passes without a failure.
    let state_missing = match require_cs {
        Err(ProgramError::InvalidAccountOwner) => true,
        _ => false,
    };
    let record_missing = match require_cr {
        Err(ProgramError::InvalidAccountOwner) => true,
        _ => false,
    };
    if state_missing && record_missing {
        if is_uninitialized_account(&accounts.commit_state_account) && is_uninitialized_account(
            &accounts.commit_record_account,
        ) {
            return Ok(None);
        }
    }
    require_cs?;
    require_cr?;
    let metadata = DelegationMetadata::try_from_bytes_with_discriminator(
        accounts.delegation_metadata_account.data.as_slice(),
    )?;
    let record = DelegationRecord::try_from_bytes_with_discriminator(
        accounts.delegation_record_account.data.as_slice(),
    )?;
    let commit = CommitRecord::try_from_bytes_with_discriminator(
        accounts.commit_record_account.data.as_slice(),
    )?;
    if !pubkey_eq(&commit.account, &accounts.delegated_account.key) {
        return Err(ProgramError::from(DlpError::InvalidDelegatedAccount));
    }
    if !pubkey_eq(&commit.identity, &accounts.validator.key) {
        return Err(ProgramError::from(DlpError::InvalidReimbursementAccount));
    }
    Ok(Some(FinalizeRecords { metadata, record, commit }))
}

/// Makes the changes of a finalization.
fn finalize_apply(accounts: FinalizeAccounts, records: FinalizeRecords) -> (r: Result<
    FinalizeAccounts,
    ProgramError,
>)
    requires
        delegation_metadata_of(accounts@.delegation_metadata_account.data) == Some(
            records.metadata@,
        ),
        delegation_record_of(accounts@.delegation_record_account.data) == Some(records.record@),
        commit_record_of(accounts@.commit_record_account.data) == Some(records.commit@),
    ensures
        match r {
            Ok(after) => finalize_effect(accounts@) == Ok::<FinalizeAccountsView, ProgramError>(
                after@,
            ),
            Err(e) => finalize_effect(accounts@) == Err::<FinalizeAccountsView, ProgramError>(e),
        },
{
    reveal(finalize_effect);
    let state = copy_bytes(accounts.commit_state_account.data.as_slice());
    let (delegated, commit_state, vault) = settle_lamports_balance(
        accounts.delegated_account,
        accounts.commit_state_account,
        accounts.validator_fees_vault,
        records.record.lamports,
        records.commit.lamports,
    )?;
    let metadata = DelegationMetadata {
        last_update_nonce: records.commit.nonce,
        is_undelegatable: records.metadata.is_undelegatable,
        seeds: records.metadata.seeds,
        rent_payer: records.metadata.rent_payer,
    };
    let metadata_bytes = metadata.to_bytes_with_discriminator()?;
    if metadata_bytes.len() != accounts.delegation_metadata_account.data.len() {
        return Err(ProgramError::InvalidAccountData);
    }
    let record = DelegationRecord {
        authority: records.record.authority,
        owner: records.record.owner,
        delegation_slot: records.record.delegation_slot,
        lamports: delegated.lamports,
        commit_frequency_ms: records.record.commit_frequency_ms,
    };
    let (state_cell, record_cell, receiver) = close_commit_cells(
        commit_state,
        accounts.commit_record_account,
        accounts.validator,
    )?;
    Ok(
        FinalizeAccounts {
            validator: receiver,
            delegated_account: with_data(delegated, state),
            commit_state_account: state_cell,
            commit_record_account: record_cell,
            delegation_record_account: with_data(
                accounts.delegation_record_account,
                record.to_bytes_with_discriminator(),
            ),
            delegation_metadata_account: with_data(
                accounts.delegation_metadata_account,
                metadata_bytes,
            ),
            validator_fees_vault: vault,
            system_program: accounts.system_program,
            fees_vault: accounts.fees_vault,
        },
    )
}

/// Finalizes the pending commit of a delegated account, if there is one.
pub fn finalize(program_id: &Pubkey, accounts: FinalizeAccounts) -> (r: Result<
    FinalizeAccounts,
    ProgramError,
>)
    ensures
        match r {
            Ok(after) => finalize_outcome(program_id@, accounts@) == Ok::<
                FinalizeAccountsView,
                ProgramError,
            >(after@),
            Err(e) => finalize_outcome(program_id@, accounts@) == Err::<
                FinalizeAccountsView,
                ProgramError,
            >(e),
        },
{
    finalize_entry(program_id, &accounts)?;
    match finalize_records(program_id, &accounts)? {
        None => Ok(accounts),
        Some(records) => finalize_apply(accounts, records),
    }
}

/// The accounts of a finalization, taken from the list.
pub open spec fn finalize_accounts_of(list: Seq<AccountView>) -> FinalizeAccountsView {
    FinalizeAccountsView {
        validator: list[0],
        delegated_account: list[1],
        commit_state_account: list[2],
        commit_record_account: list[3],
        delegation_record_account: list[4],
        delegation_metadata_account: list[5],
        validator_fees_vault: list[6],
        system_program: list[7],
        fees_vault: list[8],
    }
}

/// The accounts of a finalization as a list.
pub open spec fn finalize_accounts_list(a: FinalizeAccountsView) -> Seq<AccountView> {
    seq![
        a.validator,
        a.delegated_account,
        a.commit_state_account,
        a.commit_record_account,
        a.delegation_record_account,
        a.delegation_metadata_account,
        a.validator_fees_vault,
        a.system_program,
        a.fees_vault,
    ]
}

/// The accounts after a finalization, or why it is refused.
pub open spec fn process_finalize_outcome(program_id: Seq<u8>, accounts: Seq<AccountView>)
    -> Result<Seq<AccountView>, ProgramError> {
    if accounts.len() != 9 {
        Err(ProgramError::NotEnoughAccountKeys)
    } else {
        match finalize_outcome(program_id, finalize_accounts_of(accounts)) {
            Err(e) => Err(e),
            Ok(after) => Ok(finalize_accounts_list(after)),
        }
    }
}

/// Finalizes the pending commit of a delegated account.
///
/// The accounts are, in this order: the validator, the delegated account, the
/// commit-state cell, the commit record, the delegation record, the
/// delegation metadata, the validator's fee vault, the system program, and
/// the protocol's fee vault.
///
/// The commit is finalized where the validator signed and is the one that
/// committed, the account is delegated, both fee vaults exist, and both
/// cells of the commit exist.
/// Then the balance of the account is settled with the declared one, the
/// nonce of the commit becomes the last one, the delegation record takes the
/// account's new balance, the committed state becomes the account's, and the
/// cells of the commit are closed, the validator getting what they hold.
/// Where neither cell of a commit exists, nothing is changed and the call
/// succeeds.
pub fn process_finalize(program_id: &Pubkey, accounts: &[Account], _data: &[u8]) -> (r: Result<
    Vec<Account>,
    ProgramError,
>)
    ensures
        match r {
            Ok(after) => process_finalize_outcome(program_id@, views(accounts@)) == Ok::<
                Seq<AccountView>,
                ProgramError,
            >(views(after@)),
            Err(e) => process_finalize_outcome(program_id@, views(accounts@)) == Err::<
                Seq<AccountView>,
                ProgramError,
            >(e),
        },
{
    if accounts.len() != 9 {
        return Err(ProgramError::NotEnoughAccountKeys);
    }
    let taken = FinalizeAccounts {
        validator: accounts[0].duplicate(),
        delegated_account: accounts[1].duplicate(),
        commit_state_account: accounts[2].duplicate(),
        commit_record_account: accounts[3].duplicate(),
        delegation_record_account: accounts[4].duplicate(),
        delegation_metadata_account: accounts[5].duplicate(),
        validator_fees_vault: accounts[6].duplicate(),
        system_program: accounts[7].duplicate(),
        fees_vault: accounts[8].duplicate(),
    };
    let after = finalize(program_id, taken)?;
    let mut list: Vec<Account> = Vec::new();
    list.push(after.validator);
    list.push(after.delegated_account);
    list.push(after.commit_state_account);
    list.push(after.commit_record_account);
    list.push(after.delegation_record_account);
    list.push(after.delegation_metadata_account);
    list.push(after.validator_fees_vault);
    list.push(after.system_program);
    list.push(after.fees_vault);
    assert(views(list@) =~= finalize_accounts_list(after@));
    Ok(list)
}

} // verus!
