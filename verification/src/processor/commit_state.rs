//! Committing a new state of a delegated account.
//!
//! A commit does not touch the delegated account. It puts the new state into
//! a cell of its own and notes in a commit record who committed what; the
//! state reaches the account when the commit is finalized.

use crate::account::{views, with_data, Account, AccountView, Rent};
use crate::args::{commit_state_args_of, CommitStateArgs};
use crate::error::{custom, DlpError, ProgramError};
use crate::pda::CellKind;
use crate::processor::cells::{create_pda, create_pda_outcome};
use crate::processor::checks::{
    and_then, delegation_metadata_check, delegation_record_check, no_commit_record_check,
    no_commit_state_check, owned_pda_check, program_config_check,
    require_initialized_delegation_metadata, require_initialized_delegation_record,
    require_initialized_validator_fees_vault, require_owned_pda, require_program_config,
    require_signer, require_uninitialized_cell, signer_check, validator_fees_vault_check,
    RequireUninitializedAccountCtx,
};
use crate::pubkey::{pubkey_eq, system_id, system_program_id, Pubkey};
use crate::seeds::seeds_encodable;
use crate::state::{
    approved_validators_of, commit_record_bytes, delegation_metadata_bytes, delegation_metadata_of,
    delegation_record_of, program_config_approves, CommitRecord, CommitRecordView,
    DelegationMetadata, DelegationMetadataView, DelegationRecord,
};
use crate::wire::copy_bytes;
use vstd::prelude::*;

verus! {

/// The accounts of a commit.
pub struct CommitAccounts {
    /// The validator that commits. It signs, and pays for the new cells.
    pub validator: Account,
    /// The delegated account.
    pub delegated_account: Account,
    /// The cell that takes the new state.
    pub commit_state_account: Account,
    /// The cell that takes the commit record.
    pub commit_record_account: Account,
    /// The delegation record of the account.
    pub delegation_record_account: Account,
    /// The delegation metadata of the account.
    pub delegation_metadata_account: Account,
    /// The validator's fee vault.
    pub validator_fees_vault: Account,
    /// The configuration of the owning program, if it has one.
    pub program_config_account: Account,
}

/// The accounts of a commit as mathematical values.
pub struct CommitAccountsView {
    pub validator: AccountView,
    pub delegated_account: AccountView,
    pub commit_state_account: AccountView,
    pub commit_record_account: AccountView,
    pub delegation_record_account: AccountView,
    pub delegation_metadata_account: AccountView,
    pub validator_fees_vault: AccountView,
    pub program_config_account: AccountView,
}

impl View for CommitAccounts {
    type V = CommitAccountsView;

    open spec fn view(&self) -> CommitAccountsView {
        CommitAccountsView {
            validator: self.validator@,
            delegated_account: self.delegated_account@,
            commit_state_account: self.commit_state_account@,
            commit_record_account: self.commit_record_account@,
            delegation_record_account: self.delegation_record_account@,
            delegation_metadata_account: self.delegation_metadata_account@,
            validator_fees_vault: self.validator_fees_vault@,
            program_config_account: self.program_config_account@,
        }
    }
}

/// What a commit carries besides its accounts.
pub struct CommitPayload {
    /// The account's new state.
    pub state: Seq<u8>,
    /// The balance that the account is declared to have.
    pub lamports: u64,
    /// The commit's place in the sequence of commits.
    pub nonce: u64,
    /// Whether the account may be handed back after this commit.
    pub allow_undelegation: bool,
}

/// The first reason for which a commit is refused before anything is
/// changed, if there is one: an account that is not what it has to be,
/// metadata that cannot be read, a nonce that is not the next one, or an
/// account that is marked for being handed back already.
pub open spec fn commit_entry_check(
    program_id: Seq<u8>,
    a: CommitAccountsView,
    nonce: u64,
) -> Result<(), ProgramError> {
    let metadata = delegation_metadata_of(a.delegation_metadata_account.data);
    and_then(
        owned_pda_check(a.delegated_account, program_id),
        and_then(
            signer_check(a.validator),
            and_then(
                delegation_record_check(
                    a.delegation_record_account,
                    a.delegated_account,
                    program_id,
                    false,
                ),
                and_then(
                    delegation_metadata_check(
                        a.delegation_metadata_account,
                        a.delegated_account,
                        program_id,
                        true,
                    ),
                    and_then(
                        validator_fees_vault_check(
                            a.validator,
                            a.validator_fees_vault,
                            program_id,
                            false,
                        ),
                        if metadata is None {
                            Err(ProgramError::InvalidAccountData)
                        } else if nonce != metadata->Some_0.last_update_nonce + 1 {
                            Err(custom(DlpError::NonceOutOfOrder))
                        } else if metadata->Some_0.is_undelegatable {
                            Err(custom(DlpError::AlreadyUndelegated))
                        } else {
                            Ok(())
                        },
                    ),
                ),
            ),
        ),
    )
}

/// The metadata that a commit leaves: what was there, with the mark for
/// being handed back set as the commit says.
pub open spec fn metadata_after_commit(data: Seq<u8>, allow_undelegation: bool)
    -> DelegationMetadataView {
    DelegationMetadataView {
        is_undelegatable: allow_undelegation,
        ..delegation_metadata_of(data)->Some_0
    }
}

/// The first reason for which a commit that passed the entry check is
/// refused on account of the delegation record, if there is one: a record
/// that cannot be read, a validator that is not the authority, or a delegated
/// account that holds less than the record says.
pub open spec fn commit_authority_check(a: CommitAccountsView) -> Result<(), ProgramError> {
    let record = delegation_record_of(a.delegation_record_account.data);
    if record is None {
        Err(ProgramError::InvalidAccountData)
    } else if record->Some_0.authority != a.validator.key && record->Some_0.authority
        != system_id() {
        Err(custom(DlpError::InvalidAuthority))
    } else if a.delegated_account.lamports < record->Some_0.lamports {
        Err(custom(DlpError::InvalidDelegatedState))
    } else {
        Ok(())
    }
}

/// What the validator deposits as collateral: the part of the declared
/// balance that is above the balance on record.
pub open spec fn collateral(declared: u64, recorded: u64) -> u64 {
    if declared > recorded {
        (declared - recorded) as u64
    } else {
        0
    }
}

/// The validator is among those that the owning program's configuration
/// lists, where it has a configuration; or why the commit is refused.
pub open spec fn commit_allow_list_check(program_id: Seq<u8>, a: CommitAccountsView) -> Result<
    (),
    ProgramError,
> {
    let record = delegation_record_of(a.delegation_record_account.data)->Some_0;
    let has_config = program_config_check(a.program_config_account, record.owner, program_id, false);
    let list = approved_validators_of(a.program_config_account.data);
    match has_config {
        Err(e) => Err(e),
        Ok(false) => Ok(()),
        Ok(true) => if list is None {
            Err(ProgramError::InvalidAccountData)
        } else if !list->Some_0.contains(a.validator.key) {
            Err(custom(DlpError::InvalidWhitelistProgramConfig))
        } else {
            Ok(())
        },
    }
}

/// The first reason for which a commit is refused, short of what creating
/// the two cells may fail on; `Ok` where there is none.
#[verifier::opaque]
pub open spec fn commit_admission(program_id: Seq<u8>, a: CommitAccountsView, payload: CommitPayload)
    -> Result<(), ProgramError> {
    let metadata = metadata_after_commit(a.delegation_metadata_account.data, payload.allow_undelegation);
    let record = delegation_record_of(a.delegation_record_account.data)->Some_0;
    let extra = collateral(payload.lamports, record.lamports);
    and_then(
        commit_entry_check(program_id, a, payload.nonce),
        if !seeds_encodable(metadata.seeds) || delegation_metadata_bytes(metadata).len()
            != a.delegation_metadata_account.data.len() {
            Err(ProgramError::InvalidAccountData)
        } else if commit_authority_check(a) is Err {
            commit_authority_check(a)
        } else if a.validator.lamports < extra {
            Err(ProgramError::InsufficientFunds)
        } else if a.commit_state_account.lamports + extra > u64::MAX {
            Err(ProgramError::ArithmeticOverflow)
        } else {
            and_then(
                commit_allow_list_check(program_id, a),
                and_then(
                    no_commit_state_check(
                        a.commit_state_account,
                        a.delegated_account,
                        program_id,
                        true,
                    ),
                    no_commit_record_check(
                        a.commit_record_account,
                        a.delegated_account,
                        program_id,
                        true,
                    ),
                ),
            )
        },
    )
}

/// The commit-state cell, the commit record and the validator after the two
/// cells were created at the validator's cost, or why one is not created.
pub open spec fn commit_cells_created(
    program_id: Seq<u8>,
    rent: Rent,
    state: AccountView,
    record: AccountView,
    validator: AccountView,
    state_len: nat,
) -> Result<(AccountView, AccountView, AccountView), ProgramError> {
    match create_pda_outcome(state, validator, program_id, state_len, rent) {
        Err(e) => Err(e),
        Ok((state_cell, payer)) => match create_pda_outcome(record, payer, program_id, 88, rent) {
            Err(e) => Err(e),
            Ok((record_cell, payer)) => Ok((state_cell, record_cell, payer)),
        },
    }
}

/// The accounts after an admitted commit has made its changes, or why
/// creating one of the two cells fails: the validator deposits the
/// collateral, the commit-state cell and the commit record are created and
/// filled, and the metadata is written anew.
#[verifier::opaque]
pub open spec fn commit_effect(
    program_id: Seq<u8>,
    rent: Rent,
    a: CommitAccountsView,
    payload: CommitPayload,
) -> Result<CommitAccountsView, ProgramError> {
    let metadata = metadata_after_commit(a.delegation_metadata_account.data, payload.allow_undelegation);
    let record = delegation_record_of(a.delegation_record_account.data)->Some_0;
    let extra = collateral(payload.lamports, record.lamports);
    match commit_cells_created(
        program_id,
        rent,
        AccountView {
            lamports: (a.commit_state_account.lamports + extra) as u64,
            ..a.commit_state_account
        },
        a.commit_record_account,
        AccountView { lamports: (a.validator.lamports - extra) as u64, ..a.validator },
        payload.state.len(),
    ) {
        Err(e) => Err(e),
        Ok((state_cell, record_cell, payer)) => Ok(
            CommitAccountsView {
                validator: payer,
                delegated_account: a.delegated_account,
                commit_state_account: AccountView { data: payload.state, ..state_cell },
                commit_record_account: AccountView {
                    data: commit_record_bytes(
                        CommitRecordView {
                            identity: a.validator.key,
                            account: a.delegated_account.key,
                            nonce: payload.nonce,
                            lamports: payload.lamports,
                        },
                    ),
                    ..record_cell
                },
                delegation_record_account: a.delegation_record_account,
                delegation_metadata_account: AccountView {
                    data: delegation_metadata_bytes(metadata),
                    ..a.delegation_metadata_account
                },
                validator_fees_vault: a.validator_fees_vault,
                program_config_account: a.program_config_account,
            },
        ),
    }
}

/// The accounts after a commit, or why it is refused.
pub open spec fn commit_outcome(
    program_id: Seq<u8>,
    rent: Rent,
    a: CommitAccountsView,
    payload: CommitPayload,
) -> Result<CommitAccountsView, ProgramError> {
    match commit_admission(program_id, a, payload) {
        Err(e) => Err(e),
        Ok(()) => commit_effect(program_id, rent, a, payload),
    }
}

/// Makes the entry check of a commit, and reads the delegation metadata.
fn commit_entry(program_id: &Pubkey, accounts: &CommitAccounts, nonce: u64) -> (r: Result<
    DelegationMetadata,
    ProgramError,
>)
    ensures
        match r {
            Ok(metadata) => commit_entry_check(program_id@, accounts@, nonce) is Ok
                && delegation_metadata_of(accounts@.delegation_metadata_account.data) == Some(
                metadata@,
            ),
            Err(e) => commit_entry_check(program_id@, accounts@, nonce) == Err::<
                (),
                ProgramError,
            >(e),
        },
{
    require_owned_pda(&accounts.delegated_account, program_id, "delegated account")?;
    require_signer(&accounts.validator, "validator account")?;
    require_initialized_delegation_record(
        &accounts.delegated_account,
        &accounts.delegation_record_account,
        program_id,
        false,
    )?;
    require_initialized_delegation_metadata(
        &accounts.delegated_account,
        &accounts.delegation_metadata_account,
        program_id,
        true,
    )?;
    require_initialized_validator_fees_vault(
        &accounts.validator,
        &accounts.validator_fees_vault,
        program_id,
        false,
    )?;
    let delegation_metadata = DelegationMetadata::try_from_bytes_with_discriminator(
        accounts.delegation_metadata_account.data.as_slice(),
    )?;
    // Commits are taken in sequence only.
    if delegation_metadata.last_update_nonce == u64::MAX || nonce
        != delegation_metadata.last_update_nonce + 1 {
        return Err(ProgramError::from(DlpError::NonceOutOfOrder));
    }
    // Once the account is marked for being handed back, no commit is taken.
    if delegation_metadata.is_undelegatable {
        return Err(ProgramError::from(DlpError::AlreadyUndelegated));
    }
    Ok(delegation_metadata)
}

/// Reads the delegation record and checks the validator against it.
fn commit_authority(accounts: &CommitAccounts) -> (r: Result<DelegationRecord, ProgramError>)
    ensures
        match r {
            Ok(record) => commit_authority_check(accounts@) is Ok && delegation_record_of(
                accounts@.delegation_record_account.data,
            ) == Some(record@),
            Err(e) => commit_authority_check(accounts@) == Err::<(), ProgramError>(e),
        },
{
    let delegation_record = DelegationRecord::try_from_bytes_with_discriminator(
        accounts.delegation_record_account.data.as_slice(),
    )?;
    let any_validator = system_program_id();
    if !pubkey_eq(&delegation_record.authority, &accounts.validator.key) && !pubkey_eq(
        &delegation_record.authority,
        &any_validator,
    ) {
        return Err(ProgramError::from(DlpError::InvalidAuthority));
    }
    // The balance on record is never above what the account holds.
    if accounts.delegated_account.lamports < delegation_record.lamports {
        return Err(ProgramError::from(DlpError::InvalidDelegatedState));
    }
    Ok(delegation_record)
}

/// Checks the validator against the owning program's configuration.
fn commit_allow_list(program_id: &Pubkey, accounts: &CommitAccounts, owner: &Pubkey) -> (r: Result<
    (),
    ProgramError,
>)
    requires
        delegation_record_of(accounts@.delegation_record_account.data) is Some,
        delegation_record_of(accounts@.delegation_record_account.data)->Some_0.owner == owner@,
    ensures
        r == commit_allow_list_check(program_id@, accounts@),
{
    let has_program_config = require_program_config(
        &accounts.program_config_account,
        owner,
        program_id,
        false,
    )?;
    if has_program_config {
        let listed = program_config_approves(
            accounts.program_config_account.data.as_slice(),
            &accounts.validator.key,
        )?;
        if !listed {
            return Err(ProgramError::from(DlpError::InvalidWhitelistProgramConfig));
        }
    }
    Ok(())
}

/// Makes all the checks of a commit. Gives the bytes of the metadata as the
/// commit leaves it, and the collateral that the validator deposits.
fn commit_admit(
    program_id: &Pubkey,
    accounts: &CommitAccounts,
    commit_record_lamports: u64,
    commit_record_nonce: u64,
    allow_undelegation: bool,
    Ghost(payload): Ghost<CommitPayload>,
) -> (r: Result<(Vec<u8>, u64), ProgramError>)
    requires
        payload.lamports == commit_record_lamports,
        payload.nonce == commit_record_nonce,
        payload.allow_undelegation == allow_undelegation,
    ensures
        match r {
            Ok((metadata_bytes, extra)) => {
                &&& commit_admission(program_id@, accounts@, payload) is Ok
                &&& metadata_bytes@ == delegation_metadata_bytes(
                    metadata_after_commit(
                        accounts@.delegation_metadata_account.data,
                        allow_undelegation,
                    ),
                )
                &&& extra == collateral(
                    commit_record_lamports,
                    delegation_record_of(accounts@.delegation_record_account.data)->Some_0.lamports,
                )
                &&& extra <= accounts@.validator.lamports
                &&& accounts@.commit_state_account.lamports + extra <= u64::MAX
            },
            Err(e) => commit_admission(program_id@, accounts@, payload) == Err::<
                (),
                ProgramError,
            >(e),
        },
{
    reveal(commit_admission);
    let mut delegation_metadata = commit_entry(program_id, accounts, commit_record_nonce)?;
    delegation_metadata.is_undelegatable = allow_undelegation;
    assert(delegation_metadata@ == metadata_after_commit(
        accounts@.delegation_metadata_account.data,
        allow_undelegation,
    ));
    let metadata_bytes = delegation_metadata.to_bytes_with_discriminator()?;
    if metadata_bytes.len() != accounts.delegation_metadata_account.data.len() {
        return Err(ProgramError::InvalidAccountData);
    }
    let delegation_record = commit_authority(accounts)?;
    // Where the declared balance is above the balance on record, the
    // validator deposits the difference, so that it is at hand when the
    // commit is finalized.
    let extra_lamports: u64 = if commit_record_lamports > delegation_record.lamports {
        commit_record_lamports - delegation_record.lamports
    } else {
        0
    };
    if accounts.validator.lamports < extra_lamports {
        return Err(ProgramError::InsufficientFunds);
    }
    if accounts.commit_state_account.lamports.checked_add(extra_lamports).is_none() {
        return Err(ProgramError::ArithmeticOverflow);
    }
    commit_allow_list(program_id, accounts, &delegation_record.owner)?;
    require_uninitialized_cell(
        &accounts.commit_state_account,
        CellKind::CommitState,
        &accounts.delegated_account.key,
        program_id,
        true,
        RequireUninitializedAccountCtx::CommitStateAccount,
    )?;
    require_uninitialized_cell(
        &accounts.commit_record_account,
        CellKind::CommitRecord,
        &accounts.delegated_account.key,
        program_id,
        true,
        RequireUninitializedAccountCtx::CommitRecord,
    )?;
    Ok((metadata_bytes, extra_lamports))
}

/// Commits a new state of a delegated account.
///
/// The commit is taken where the account is delegated, the validator signed
/// and is the authority of the delegation (or the delegation leaves the
/// authority open), the nonce is one more than that of the last finalized
/// commit, the account is not marked for being handed back, the validator is
/// listed by the owning program's configuration where there is one, and no
/// commit is pending. Then the state goes into the commit-state cell and the
/// commit record is written, both cells being created at the validator's
/// cost; the mark for being handed back is set as the commit says; and where
/// the declared balance is above the balance on record, the validator
/// deposits the difference in the commit-state cell.
pub fn process_commit_state_internal(
    program_id: &Pubkey,
    rent: &Rent,
    accounts: CommitAccounts,
    commit_state_bytes: &[u8],
    commit_record_lamports: u64,
    commit_record_nonce: u64,
    allow_undelegation: bool,
) -> (r: Result<CommitAccounts, ProgramError>)
    ensures
        match r {
            Ok(after) => commit_outcome(
                program_id@,
                *rent,
                accounts@,
                CommitPayload {
                    state: commit_state_bytes@,
                    lamports: commit_record_lamports,
                    nonce: commit_record_nonce,
                    allow_undelegation,
                },
            ) == Ok::<CommitAccountsView, ProgramError>(after@),
            Err(e) => commit_outcome(
                program_id@,
                *rent,
                accounts@,
                CommitPayload {
                    state: commit_state_bytes@,
                    lamports: commit_record_lamports,
                    nonce: commit_record_nonce,
                    allow_undelegation,
                },
            ) == Err::<CommitAccountsView, ProgramError>(e),
        },
{
    let ghost payload = CommitPayload {
        state: commit_state_bytes@,
        lamports: commit_record_lamports,
        nonce: commit_record_nonce,
        allow_undelegation,
    };
    let (metadata_bytes, extra_lamports) = commit_admit(
        program_id,
        &accounts,
        commit_record_lamports,
        commit_record_nonce,
        allow_undelegation,
        Ghost(payload),
    )?;
    commit_apply(
        program_id,
        rent,
        accounts,
        commit_state_bytes,
        metadata_bytes,
        extra_lamports,
        commit_record_lamports,
        commit_record_nonce,
        Ghost(payload),
    )
}

/// Makes the changes of an admitted commit.
fn commit_apply(
    program_id: &Pubkey,
    rent: &Rent,
    accounts: CommitAccounts,
    commit_state_bytes: &[u8],
    metadata_bytes: Vec<u8>,
    extra_lamports: u64,
    commit_record_lamports: u64,
    commit_record_nonce: u64,
    Ghost(payload): Ghost<CommitPayload>,
) -> (r: Result<CommitAccounts, ProgramError>)
    requires
        payload.state == commit_state_bytes@,
        payload.lamports == commit_record_lamports,
        payload.nonce == commit_record_nonce,
        metadata_bytes@ == delegation_metadata_bytes(
            metadata_after_commit(
                accounts@.delegation_metadata_account.data,
                payload.allow_undelegation,
            ),
        ),
        extra_lamports == collateral(
            commit_record_lamports,
            delegation_record_of(accounts@.delegation_record_account.data)->Some_0.lamports,
        ),
        extra_lamports <= accounts@.validator.lamports,
        accounts@.commit_state_account.lamports + extra_lamports <= u64::MAX,
    ensures
        match r {
            Ok(after) => commit_effect(program_id@, *rent, accounts@, payload) == Ok::<
                CommitAccountsView,
                ProgramError,
            >(after@),
            Err(e) => commit_effect(program_id@, *rent, accounts@, payload) == Err::<
                CommitAccountsView,
                ProgramError,
            >(e),
        },
{
    reveal(commit_effect);
    let mut validator = accounts.validator;
    let mut commit_state_account = accounts.commit_state_account;
    let identity = validator.key;
    let account = accounts.delegated_account.key;
    validator.lamports = validator.lamports - extra_lamports;
    commit_state_account.lamports = commit_state_account.lamports + extra_lamports;
    let (state_cell, record_cell, payer) = create_commit_cells(
        program_id,
        rent,
        commit_state_account,
        accounts.commit_record_account,
        validator,
        commit_state_bytes.len(),
    )?;
    let commit_record = CommitRecord {
        identity,
        account,
        nonce: commit_record_nonce,
        lamports: commit_record_lamports,
    };
    Ok(
        CommitAccounts {
            validator: payer,
            delegated_account: accounts.delegated_account,
            commit_state_account: with_data(state_cell, copy_bytes(commit_state_bytes)),
            commit_record_account: with_data(
                record_cell,
                commit_record.to_bytes_with_discriminator(),
            ),
            delegation_record_account: accounts.delegation_record_account,
            delegation_metadata_account: with_data(
                accounts.delegation_metadata_account,
                metadata_bytes,
            ),
            validator_fees_vault: accounts.validator_fees_vault,
            program_config_account: accounts.program_config_account,
        },
    )
}

/// Creates the commit-state cell and the commit record.
fn create_commit_cells(
    program_id: &Pubkey,
    rent: &Rent,
    state: Account,
    record: Account,
    validator: Account,
    state_len: usize,
) -> (r: Result<(Account, Account, Account), ProgramError>)
    ensures
        match r {
            Ok((state_cell, record_cell, payer)) => commit_cells_created(
                program_id@,
                *rent,
                state@,
                record@,
                validator@,
                state_len as nat,
            ) == Ok::<(AccountView, AccountView, AccountView), ProgramError>(
                (state_cell@, record_cell@, payer@),
            ),
            Err(e) => commit_cells_created(
                program_id@,
                *rent,
                state@,
                record@,
                validator@,
                state_len as nat,
            ) == Err::<(AccountView, AccountView, AccountView), ProgramError>(e),
        },
{
    let mut state_cell = state;
    let mut record_cell = record;
    let mut payer = validator;
    create_pda(&mut state_cell, program_id, state_len, &mut payer, rent)?;
    create_pda(
        &mut record_cell,
        program_id,
        CommitRecord::size_with_discriminator(),
        &mut payer,
        rent,
    )?;
    Ok((state_cell, record_cell, payer))
}

/// The accounts of a commit, taken from the first eight positions of the
/// list.
pub open spec fn commit_accounts_of(list: Seq<AccountView>) -> CommitAccountsView {
    CommitAccountsView {
        validator: list[0],
        delegated_account: list[1],
        commit_state_account: list[2],
        commit_record_account: list[3],
        delegation_record_account: list[4],
        delegation_metadata_account: list[5],
        validator_fees_vault: list[6],
        program_config_account: list[7],
    }
}

/// The accounts of a commit as a list, with the system program's account in
/// the last position.
pub open spec fn commit_accounts_list(a: CommitAccountsView, system_program: AccountView) -> Seq<
    AccountView,
> {
    seq![
        a.validator,
        a.delegated_account,
        a.commit_state_account,
        a.commit_record_account,
        a.delegation_record_account,
        a.delegation_metadata_account,
        a.validator_fees_vault,
        a.program_config_account,
        system_program,
    ]
}

/// Copies the accounts of a commit out of the list.
pub(crate) fn take_commit_accounts(accounts: &[Account]) -> (taken: CommitAccounts)
    requires
        accounts@.len() >= 8,
    ensures
        taken@ == commit_accounts_of(views(accounts@)),
{
    CommitAccounts {
        validator: accounts[0].duplicate(),
        delegated_account: accounts[1].duplicate(),
        commit_state_account: accounts[2].duplicate(),
        commit_record_account: accounts[3].duplicate(),
        delegation_record_account: accounts[4].duplicate(),
        delegation_metadata_account: accounts[5].duplicate(),
        validator_fees_vault: accounts[6].duplicate(),
        program_config_account: accounts[7].duplicate(),
    }
}

/// Puts the accounts of a commit into a list, with the system program's
/// account behind them.
pub(crate) fn commit_accounts_into_list(after: CommitAccounts, system_program: Account) -> (list: Vec<
    Account,
>)
    ensures
        views(list@) == commit_accounts_list(after@, system_program@),
{
    let mut list: Vec<Account> = Vec::new();
    list.push(after.validator);
    list.push(after.delegated_account);
    list.push(after.commit_state_account);
    list.push(after.commit_record_account);
    list.push(after.delegation_record_account);
    list.push(after.delegation_metadata_account);
    list.push(after.validator_fees_vault);
    list.push(after.program_config_account);
    list.push(system_program);
    assert(views(list@) =~= commit_accounts_list(after@, system_program@));
    list
}

/// The accounts after a commit that carries the new state, or why it is
/// refused.
pub open spec fn commit_state_outcome(
    program_id: Seq<u8>,
    rent: Rent,
    accounts: Seq<AccountView>,
    data: Seq<u8>,
) -> Result<Seq<AccountView>, ProgramError> {
    match commit_state_args_of(data) {
        None => Err(ProgramError::BorshIoError),
        Some(args) => if accounts.len() != 9 {
            Err(ProgramError::NotEnoughAccountKeys)
        } else {
            match commit_outcome(
                program_id,
                rent,
                commit_accounts_of(accounts),
                CommitPayload {
                    state: args.data,
                    lamports: args.lamports,
                    nonce: args.nonce,
                    allow_undelegation: args.allow_undelegation,
                },
            ) {
                Err(e) => Err(e),
                Ok(after) => Ok(commit_accounts_list(after, accounts[8])),
            }
        },
    }
}

/// Commits a new state of a delegated account, which the instruction carries
/// in its data.
///
/// The accounts are, in this order: the validator, the delegated account, the
/// commit-state cell, the commit record, the delegation record, the
/// delegation metadata, the validator's fee vault, the owning program's
/// configuration, and the system program.
pub fn process_commit_state(
    program_id: &Pubkey,
    accounts: &[Account],
    data: &[u8],
    rent: &Rent,
) -> (r: Result<Vec<Account>, ProgramError>)
    ensures
        match r {
            Ok(after) => commit_state_outcome(program_id@, *rent, views(accounts@), data@)
                == Ok::<Seq<AccountView>, ProgramError>(views(after@)),
            Err(e) => commit_state_outcome(program_id@, *rent, views(accounts@), data@) == Err::<
                Seq<AccountView>,
                ProgramError,
            >(e),
        },
{
    let args = CommitStateArgs::try_from_slice(data)?;
    if accounts.len() != 9 {
        return Err(ProgramError::NotEnoughAccountKeys);
    }
    let taken = take_commit_accounts(accounts);
    let after = process_commit_state_internal(
        program_id,
        rent,
        taken,
        args.data.as_slice(),
        args.lamports,
        args.nonce,
        args.allow_undelegation,
    )?;
    Ok(commit_accounts_into_list(after, accounts[8].duplicate()))
}

} // verus!
