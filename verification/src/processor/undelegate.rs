//! Handing a delegated account back to the program that owns it.
//!
//! An account without bytes is handed back at once. For one with bytes, the
//! owning program has to take them back itself: the program parks the bytes
//! in a buffer, closes the account, and asks for the owning program to be
//! called; when that call is through, it checks what the owning program
//! made of it and finishes.

use crate::account::minimum_balance_of;
use crate::account::{views, with_data, Account, AccountView, Rent};
use crate::error::{custom, DlpError, ProgramError};
use crate::pda::CellKind;
use crate::processor::cells::{
    close_pda, close_pda_outcome, close_pda_with_fees, close_pda_with_fees_outcome, create_pda,
    create_pda_outcome,
};
use crate::processor::checks::{
    and_then, delegation_metadata_check, delegation_record_check, no_commit_record_check,
    no_commit_state_check, owned_pda_check, protocol_fees_vault_check,
    require_initialized_delegation_metadata, require_initialized_delegation_record,
    require_initialized_protocol_fees_vault, require_initialized_validator_fees_vault,
    require_owned_pda, require_signer, require_uninitialized_cell, signer_check,
    uninitialized_cell_check, validator_fees_vault_check, RequireUninitializedAccountCtx,
};
use crate::pubkey::{pubkey_eq, seed_views, Pubkey};
use crate::seeds::{push_seeds, seeds_bytes, seeds_encodable};
use crate::state::{
    delegation_metadata_of, delegation_record_of, DelegationMetadata, DelegationRecord,
};
use crate::wire::{bytes_eq, copy_bytes, push_u32, u32_le};
use vstd::prelude::*;

verus! {

/// The percentage of the balance of a closed delegation cell that goes to the
/// fee vaults.
pub const RENT_FEES_PERCENTAGE: u8 = 10;

/// The 8 bytes that start the data of the call by which the owning program
/// takes an account back.
pub open spec fn external_undelegate_discriminator() -> Seq<u8> {
    seq![196u8, 28, 41, 206, 48, 37, 51, 167]
}

/// The accounts of an undelegation.
pub struct UndelegateAccounts {
    /// The validator that asks for the account to be handed back. It signs.
    pub validator: Account,
    /// The delegated account.
    pub delegated_account: Account,
    /// The program that the account is handed back to.
    pub owner_program: Account,
    /// The buffer that holds the account's bytes for the hand-back.
    pub undelegate_buffer_account: Account,
    /// The commit-state cell, which must not exist.
    pub commit_state_account: Account,
    /// The commit record, which must not exist.
    pub commit_record_account: Account,
    /// The delegation record of the account.
    pub delegation_record_account: Account,
    /// The delegation metadata of the account.
    pub delegation_metadata_account: Account,
    /// Who paid for the cells of the delegation.
    pub rent_reimbursement: Account,
    /// The protocol's fee vault.
    pub fees_vault: Account,
    /// The validator's fee vault.
    pub validator_fees_vault: Account,
    /// The system program.
    pub system_program: Account,
}

/// The accounts of an undelegation as mathematical values.
pub struct UndelegateAccountsView {
    pub validator: AccountView,
    pub delegated_account: AccountView,
    pub owner_program: AccountView,
    pub undelegate_buffer_account: AccountView,
    pub commit_state_account: AccountView,
    pub commit_record_account: AccountView,
    pub delegation_record_account: AccountView,
    pub delegation_metadata_account: AccountView,
    pub rent_reimbursement: AccountView,
    pub fees_vault: AccountView,
    pub validator_fees_vault: AccountView,
    pub system_program: AccountView,
}

impl View for UndelegateAccounts {
    type V = UndelegateAccountsView;

    open spec fn view(&self) -> UndelegateAccountsView {
        UndelegateAccountsView {
            validator: self.validator@,
            delegated_account: self.delegated_account@,
            owner_program: self.owner_program@,
            undelegate_buffer_account: self.undelegate_buffer_account@,
            commit_state_account: self.commit_state_account@,
            commit_record_account: self.commit_record_account@,
            delegation_record_account: self.delegation_record_account@,
            delegation_metadata_account: self.delegation_metadata_account@,
            rent_reimbursement: self.rent_reimbursement@,
            fees_vault: self.fees_vault@,
            validator_fees_vault: self.validator_fees_vault@,
            system_program: self.system_program@,
        }
    }
}

/// What the program remembers while the owning program is called.
#[derive(Debug, Clone, Copy, PartialEq, Eq, Structural)]
pub struct PendingHandback {
    /// What the delegated account held before it was closed.
    pub delegated_lamports_before_close: u64,
    /// What the validator held just before the owning program was called.
    pub validator_lamports_before_cpi: u64,
}

/// How far an undelegation has got.
pub struct UndelegateProgress {
    /// The accounts as they stand.
    pub accounts: UndelegateAccounts,
    /// The data of the call to the owning program that has to be made before
    /// the undelegation can finish, and what to remember meanwhile; `None`
    /// where the undelegation is finished.
    pub handback: Option<(Vec<u8>, PendingHandback)>,
}

/// The first reason for which an undelegation is refused on account of its
/// accounts, if there is one: the validator did not sign, the account is not
/// delegated, a fee vault is missing, or a commit is pending.
#[verifier::opaque]
pub open spec fn undelegate_entry_check(program_id: Seq<u8>, a: UndelegateAccountsView) -> Result<
    (),
    ProgramError,
> {
    and_then(
        signer_check(a.validator),
        and_then(
            owned_pda_check(a.delegated_account, program_id),
            and_then(
                delegation_record_check(
                    a.delegation_record_account,
                    a.delegated_account,
                    program_id,
                    true,
                ),
                and_then(
                    delegation_metadata_check(
                        a.delegation_metadata_account,
                        a.delegated_account,
                        program_id,
                        true,
                    ),
                    and_then(
                        protocol_fees_vault_check(a.fees_vault, program_id, true),
                        and_then(
                            validator_fees_vault_check(
                                a.validator,
                                a.validator_fees_vault,
                                program_id,
                                true,
                            ),
                            and_then(
                                no_commit_state_check(
                                    a.commit_state_account,
                                    a.delegated_account,
                                    program_id,
                                    false,
                                ),
                                no_commit_record_check(
                                    a.commit_record_account,
                                    a.delegated_account,
                                    program_id,
                                    false,
                                ),
                            ),
                        ),
                    ),
                ),
            ),
        ),
    )
}

/// The first reason for which an undelegation is refused on account of the
/// records, if there is one: a record that cannot be read, an owning program
/// that is not the one on record, an account that is not marked for being
/// handed back, or a payer that is not the one on record.
#[verifier::opaque]
pub open spec fn undelegate_records_check(a: UndelegateAccountsView) -> Result<(), ProgramError> {
    let record = delegation_record_of(a.delegation_record_account.data);
    let metadata = delegation_metadata_of(a.delegation_metadata_account.data);
    if record is None {
        Err(ProgramError::InvalidAccountData)
    } else if record->Some_0.owner != a.owner_program.key {
        Err(ProgramError::InvalidAccountOwner)
    } else if metadata is None {
        Err(ProgramError::InvalidAccountData)
    } else if !metadata->Some_0.is_undelegatable {
        Err(custom(DlpError::NotUndelegatable))
    } else if metadata->Some_0.rent_payer != a.rent_reimbursement.key {
        Err(custom(DlpError::InvalidReimbursementAddressForDelegationRent))
    } else {
        Ok(())
    }
}

/// The delegation record, the metadata, the payer and the two fee vaults
/// after the cells of the delegation were closed, or why they cannot be.
/// Each cell is closed with fees: the validator's fee vault is the first fee
/// account and the protocol's the second, and the payer gets the rest.
pub open spec fn cleanup_outcome(
    record: AccountView,
    metadata: AccountView,
    reimbursement: AccountView,
    fees_vault: AccountView,
    validator_fees_vault: AccountView,
) -> Result<(AccountView, AccountView, AccountView, AccountView, AccountView), ProgramError> {
    match close_pda_with_fees_outcome(
        record,
        reimbursement,
        seq![validator_fees_vault, fees_vault],
        10,
    ) {
        Err(e) => Err(e),
        Ok((record_cell, receiver, vaults)) => match close_pda_with_fees_outcome(
            metadata,
            receiver,
            vaults,
            10,
        ) {
            Err(e) => Err(e),
            Ok((metadata_cell, receiver, vaults)) => Ok(
                (record_cell, metadata_cell, receiver, vaults[1], vaults[0]),
            ),
        },
    }
}

/// Closes the cells of the delegation, with fees.
pub fn process_delegation_cleanup(
    delegation_record_account: Account,
    delegation_metadata_account: Account,
    rent_reimbursement: Account,
    fees_vault: Account,
    validator_fees_vault: Account,
) -> (r: Result<(Account, Account, Account, Account, Account), ProgramError>)
    ensures
        match r {
            Ok((record, metadata, receiver, fees, validator_fees)) => cleanup_outcome(
                delegation_record_account@,
                delegation_metadata_account@,
                rent_reimbursement@,
                fees_vault@,
                validator_fees_vault@,
            ) == Ok::<
                (AccountView, AccountView, AccountView, AccountView, AccountView),
                ProgramError,
            >((record@, metadata@, receiver@, fees@, validator_fees@)),
            Err(e) => cleanup_outcome(
                delegation_record_account@,
                delegation_metadata_account@,
                rent_reimbursement@,
                fees_vault@,
                validator_fees_vault@,
            ) == Err::<
                (AccountView, AccountView, AccountView, AccountView, AccountView),
                ProgramError,
            >(e),
        },
{
    let mut record = delegation_record_account;
    let mut metadata = delegation_metadata_account;
    let mut receiver = rent_reimbursement;
    let mut vaults: Vec<Account> = Vec::new();
    vaults.push(validator_fees_vault);
    vaults.push(fees_vault);
    assert(views(vaults@) =~= seq![validator_fees_vault@, fees_vault@]);
    close_pda_with_fees(&mut record, &mut receiver, &mut vaults, RENT_FEES_PERCENTAGE)?;
    close_pda_with_fees(&mut metadata, &mut receiver, &mut vaults, RENT_FEES_PERCENTAGE)?;
    assert(views(vaults@).len() == 2);
    assert(views(vaults@)[0] == vaults@[0]@ && views(vaults@)[1] == vaults@[1]@);
    let fees = vaults[1].duplicate();
    let validator_fees = vaults[0].duplicate();
    Ok((record, metadata, receiver, fees, validator_fees))
}

/// The accounts after the cells of the delegation were closed, or why they
/// cannot be.
pub open spec fn cleaned_up(a: UndelegateAccountsView) -> Result<
    UndelegateAccountsView,
    ProgramError,
> {
    match cleanup_outcome(
        a.delegation_record_account,
        a.delegation_metadata_account,
        a.rent_reimbursement,
        a.fees_vault,
        a.validator_fees_vault,
    ) {
        Err(e) => Err(e),
        Ok((record, metadata, receiver, fees, validator_fees)) => Ok(
            UndelegateAccountsView {
                delegation_record_account: record,
                delegation_metadata_account: metadata,
                rent_reimbursement: receiver,
                fees_vault: fees,
                validator_fees_vault: validator_fees,
                ..a
            },
        ),
    }
}

/// Closes the cells of the delegation among the accounts.
fn clean_up(accounts: UndelegateAccounts) -> (r: Result<UndelegateAccounts, ProgramError>)
    ensures
        match r {
            Ok(after) => cleaned_up(accounts@) == Ok::<UndelegateAccountsView, ProgramError>(
                after@,
            ),
            Err(e) => cleaned_up(accounts@) == Err::<UndelegateAccountsView, ProgramError>(e),
        },
{
    let (record, metadata, receiver, fees, validator_fees) = process_delegation_cleanup(
        accounts.delegation_record_account,
        accounts.delegation_metadata_account,
        accounts.rent_reimbursement,
        accounts.fees_vault,
        accounts.validator_fees_vault,
    )?;
    Ok(
        UndelegateAccounts {
            validator: accounts.validator,
            delegated_account: accounts.delegated_account,
            owner_program: accounts.owner_program,
            undelegate_buffer_account: accounts.undelegate_buffer_account,
            commit_state_account: accounts.commit_state_account,
            commit_record_account: accounts.commit_record_account,
            delegation_record_account: record,
            delegation_metadata_account: metadata,
            rent_reimbursement: receiver,
            fees_vault: fees,
            validator_fees_vault: validator_fees,
            system_program: accounts.system_program,
        },
    )
}

/// The data of the call by which the owning program takes the account back:
/// the 8 bytes that name the call, then the seeds of the account's address.
pub open spec fn handback_data(seeds: Seq<Seq<u8>>) -> Seq<u8> {
    external_undelegate_discriminator() + u32_le(seeds.len()) + seeds_bytes(seeds)
}

/// The buffer, the delegated account and the validator after the account's
/// bytes were parked in the buffer and the account was closed, or why that
/// fails. The buffer is created at the validator's cost, and the validator
/// gets what the account held.
pub open spec fn parked(
    program_id: Seq<u8>,
    rent: Rent,
    buffer: AccountView,
    delegated: AccountView,
    validator: AccountView,
) -> Result<(AccountView, AccountView, AccountView), ProgramError> {
    match create_pda_outcome(buffer, validator, program_id, delegated.data.len(), rent) {
        Err(e) => Err(e),
        Ok((buffer_cell, payer)) => match close_pda_outcome(delegated, payer) {
            Err(e) => Err(e),
            Ok((closed_account, receiver)) => Ok(
                (AccountView { data: delegated.data, ..buffer_cell }, closed_account, receiver),
            ),
        },
    }
}

/// Parks the bytes of the delegated account in the buffer and closes the
/// account.
fn park(
    program_id: &Pubkey,
    rent: &Rent,
    buffer: Account,
    delegated: Account,
    validator: Account,
) -> (r: Result<(Account, Account, Account), ProgramError>)
    ensures
        match r {
            Ok((buffer_cell, closed_account, receiver)) => parked(
                program_id@,
                *rent,
                buffer@,
                delegated@,
                validator@,
            ) == Ok::<(AccountView, AccountView, AccountView), ProgramError>(
                (buffer_cell@, closed_account@, receiver@),
            ),
            Err(e) => parked(program_id@, *rent, buffer@, delegated@, validator@) == Err::<
                (AccountView, AccountView, AccountView),
                ProgramError,
            >(e),
        },
{
    let mut buffer_cell = buffer;
    let mut closed_account = delegated;
    let mut receiver = validator;
    let bytes = copy_bytes(closed_account.data.as_slice());
    create_pda(&mut buffer_cell, program_id, bytes.len(), &mut receiver, rent)?;
    close_pda(&mut closed_account, &mut receiver)?;
    Ok((with_data(buffer_cell, bytes), closed_account, receiver))
}

/// What an undelegation that passed the checks does before the owning
/// program is called, or why it fails.
///
/// An account without bytes is given to the owning program, and the cells of
/// the delegation are closed: the undelegation is finished. For an account
/// with bytes, the buffer must not exist yet; the bytes are parked in it, the
/// account is closed, and the call to the owning program is asked for.
#[verifier::opaque]
pub open spec fn undelegate_effect(program_id: Seq<u8>, rent: Rent, a: UndelegateAccountsView)
    -> Result<(UndelegateAccountsView, Option<(Seq<u8>, PendingHandback)>), ProgramError> {
    let seeds = delegation_metadata_of(a.delegation_metadata_account.data)->Some_0.seeds;
    let buffer_check = uninitialized_cell_check(
        a.undelegate_buffer_account,
        CellKind::UndelegateBuffer,
        a.delegated_account.key,
        program_id,
        true,
        RequireUninitializedAccountCtx::UndelegateBuffer,
    );
    if a.delegated_account.data.len() == 0 {
        match cleaned_up(
            UndelegateAccountsView {
                delegated_account: AccountView {
                    owner: a.owner_program.key,
                    ..a.delegated_account
                },
                ..a
            },
        ) {
            Err(e) => Err(e),
            Ok(after) => Ok((after, None)),
        }
    } else if buffer_check is Err {
        Err(buffer_check->Err_0)
    } else if !seeds_encodable(seeds) {
        Err(ProgramError::BorshIoError)
    } else {
        match parked(
            program_id,
            rent,
            a.undelegate_buffer_account,
            a.delegated_account,
            a.validator,
        ) {
            Err(e) => Err(e),
            Ok((buffer_cell, closed_account, receiver)) => Ok(
                (
                    UndelegateAccountsView {
                        validator: receiver,
                        delegated_account: closed_account,
                        undelegate_buffer_account: buffer_cell,
                        ..a
                    },
                    Some(
                        (
                            handback_data(seeds),
                            PendingHandback {
                                delegated_lamports_before_close: a.delegated_account.lamports,
                                validator_lamports_before_cpi: receiver.lamports,
                            },
                        ),
                    ),
                ),
            ),
        }
    }
}

/// What an undelegation does before the owning program is called, or why it
/// is refused.
pub open spec fn undelegate_outcome(program_id: Seq<u8>, rent: Rent, a: UndelegateAccountsView)
    -> Result<(UndelegateAccountsView, Option<(Seq<u8>, PendingHandback)>), ProgramError> {
    match and_then(undelegate_entry_check(program_id, a), undelegate_records_check(a)) {
        Err(e) => Err(e),
        Ok(()) => undelegate_effect(program_id, rent, a),
    }
}

/// The progress of an undelegation as a mathematical value.
pub open spec fn progress_view(p: UndelegateProgress) -> (
    UndelegateAccountsView,
    Option<(Seq<u8>, PendingHandback)>,
) {
    (
        p.accounts@,
        match p.handback {
            Some((data, pending)) => Some((data@, pending)),
            None => None,
        },
    )
}

/// Makes the checks of an undelegation on its accounts.
fn undelegate_entry(program_id: &Pubkey, accounts: &UndelegateAccounts) -> (r: Result<
    (),
    ProgramError,
>)
    ensures
        r == undelegate_entry_check(program_id@, accounts@),
{
    reveal(undelegate_entry_check);
    require_signer(&accounts.validator, "validator")?;
    require_owned_pda(&accounts.delegated_account, program_id, "delegated account")?;
    require_initialized_delegation_record(
        &accounts.delegated_account,
        &accounts.delegation_record_account,
        program_id,
        true,
    )?;
    require_initialized_delegation_metadata(
        &accounts.delegated_account,
        &accounts.delegation_metadata_account,
        program_id,
        true,
    )?;
    require_initialized_protocol_fees_vault(&accounts.fees_vault, program_id, true)?;
    require_initialized_validator_fees_vault(
        &accounts.validator,
        &accounts.validator_fees_vault,
        program_id,
        true,
    )?;
    // Whatever was committed has to be finalized first.
    require_uninitialized_cell(
        &accounts.commit_state_account,
        CellKind::CommitState,
        &accounts.delegated_account.key,
        program_id,
        false,
        RequireUninitializedAccountCtx::CommitStateAccount,
    )?;
    require_uninitialized_cell(
        &accounts.commit_record_account,
        CellKind::CommitRecord,
        &accounts.delegated_account.key,
        program_id,
        false,
        RequireUninitializedAccountCtx::CommitRecord,
    )?;
    Ok(())
}

/// Makes the checks of an undelegation on the records, and gives the seeds of
/// the account's address.
fn undelegate_records(accounts: &UndelegateAccounts) -> (r: Result<Vec<Vec<u8>>, ProgramError>)
    ensures
        match r {
            Ok(seeds) => undelegate_records_check(accounts@) is Ok && delegation_metadata_of(
                accounts@.delegation_metadata_account.data,
            ) is Some && delegation_metadata_of(
                accounts@.delegation_metadata_account.data,
            )->Some_0.seeds == seed_views(seeds@),
            Err(e) => undelegate_records_check(accounts@) == Err::<(), ProgramError>(e),
        },
{
    reveal(undelegate_records_check);
    let delegation_record = DelegationRecord::try_from_bytes_with_discriminator(
        accounts.delegation_record_account.data.as_slice(),
    )?;
    if !pubkey_eq(&delegation_record.owner, &accounts.owner_program.key) {
        return Err(ProgramError::InvalidAccountOwner);
    }
    let delegation_metadata = DelegationMetadata::try_from_bytes_with_discriminator(
        accounts.delegation_metadata_account.data.as_slice(),
    )?;
    if !delegation_metadata.is_undelegatable {
        return Err(ProgramError::from(DlpError::NotUndelegatable));
    }
    if !pubkey_eq(&delegation_metadata.rent_payer, &accounts.rent_reimbursement.key) {
        return Err(ProgramError::from(DlpError::InvalidReimbursementAddressForDelegationRent));
    }
    Ok(delegation_metadata.seeds)
}

/// An account of the call to the owning program: its position among the
/// accounts of the undelegation, and how the call may use it.
#[derive(Debug, Clone, Copy, PartialEq, Eq, Structural)]
pub struct HandbackAccount {
    pub position: usize,
    pub is_writable: bool,
    pub is_signer: bool,
}

/// The accounts of the call to the owning program, in order: the delegated
/// account, which the owning program creates anew; the buffer with the
/// account's bytes, which signs; the validator, which pays and signs; and the
/// system program.
pub open spec fn handback_accounts_spec() -> Seq<HandbackAccount> {
    seq![
        HandbackAccount { position: 1, is_writable: true, is_signer: false },
        HandbackAccount { position: 3, is_writable: true, is_signer: true },
        HandbackAccount { position: 0, is_writable: true, is_signer: true },
        HandbackAccount { position: 11, is_writable: false, is_signer: false },
    ]
}

/// The accounts of the call to the owning program, in order. The program
/// called is the one in position 2.
pub fn handback_accounts() -> (accounts: Vec<HandbackAccount>)
    ensures
        accounts@ == handback_accounts_spec(),
{
    let accounts = vec![
        HandbackAccount { position: 1, is_writable: true, is_signer: false },
        HandbackAccount { position: 3, is_writable: true, is_signer: true },
        HandbackAccount { position: 0, is_writable: true, is_signer: true },
        HandbackAccount { position: 11, is_writable: false, is_signer: false },
    ];
    assert(accounts@ =~= handback_accounts_spec());
    accounts
}

/// Writes the data of the call by which the owning program takes the account
/// back.
pub fn handback_instruction_data(seeds: &Vec<Vec<u8>>) -> (r: Result<Vec<u8>, ProgramError>)
    ensures
        match r {
            Ok(data) => seeds_encodable(seed_views(seeds@)) && data@ == handback_data(
                seed_views(seeds@),
            ),
            Err(e) => !seeds_encodable(seed_views(seeds@)) && e == ProgramError::BorshIoError,
        },
{
    if seeds.len() > u32::MAX as usize {
        return Err(ProgramError::BorshIoError);
    }
    let mut data: Vec<u8> = vec![196, 28, 41, 206, 48, 37, 51, 167];
    assert(data@ =~= external_undelegate_discriminator());
    push_u32(&mut data, seeds.len() as u32);
    if !push_seeds(&mut data, seeds) {
        return Err(ProgramError::BorshIoError);
    }
    Ok(data)
}

/// Makes the changes of an undelegation up to the call of the owning
/// program.
fn undelegate_apply(
    program_id: &Pubkey,
    rent: &Rent,
    accounts: UndelegateAccounts,
    seeds: Vec<Vec<u8>>,
) -> (r: Result<UndelegateProgress, ProgramError>)
    requires
        delegation_metadata_of(accounts@.delegation_metadata_account.data)->Some_0.seeds
            == seed_views(seeds@),
    ensures
        match r {
            Ok(progress) => undelegate_effect(program_id@, *rent, accounts@) == Ok::<
                (UndelegateAccountsView, Option<(Seq<u8>, PendingHandback)>),
                ProgramError,
            >(progress_view(progress)),
            Err(e) => undelegate_effect(program_id@, *rent, accounts@) == Err::<
                (UndelegateAccountsView, Option<(Seq<u8>, PendingHandback)>),
                ProgramError,
            >(e),
        },
{
    reveal(undelegate_effect);
    // Where the account holds no bytes, there is nothing for the owning
    // program to take back: the account is simply given to it.
    if accounts.delegated_account.data.len() == 0 {
        let mut delegated_account = accounts.delegated_account;
        delegated_account.owner = accounts.owner_program.key;
        let after = clean_up(
            UndelegateAccounts {
                validator: accounts.validator,
                delegated_account,
                owner_program: accounts.owner_program,
                undelegate_buffer_account: accounts.undelegate_buffer_account,
                commit_state_account: accounts.commit_state_account,
                commit_record_account: accounts.commit_record_account,
                delegation_record_account: accounts.delegation_record_account,
                delegation_metadata_account: accounts.delegation_metadata_account,
                rent_reimbursement: accounts.rent_reimbursement,
                fees_vault: accounts.fees_vault,
                validator_fees_vault: accounts.validator_fees_vault,
                system_program: accounts.system_program,
            },
        )?;
        return Ok(UndelegateProgress { accounts: after, handback: None });
    }
    require_uninitialized_cell(
        &accounts.undelegate_buffer_account,
        CellKind::UndelegateBuffer,
        &accounts.delegated_account.key,
        program_id,
        true,
        RequireUninitializedAccountCtx::UndelegateBuffer,
    )?;
    let data = handback_instruction_data(&seeds)?;
    let delegated_lamports_before_close = accounts.delegated_account.lamports;
    let (buffer_cell, closed_account, receiver) = park(
        program_id,
        rent,
        accounts.undelegate_buffer_account,
        accounts.delegated_account,
        accounts.validator,
    )?;
    let pending = PendingHandback {
        delegated_lamports_before_close,
        validator_lamports_before_cpi: receiver.lamports,
    };
    Ok(
        UndelegateProgress {
            accounts: UndelegateAccounts {
                validator: receiver,
                delegated_account: closed_account,
                owner_program: accounts.owner_program,
                undelegate_buffer_account: buffer_cell,
                commit_state_account: accounts.commit_state_account,
                commit_record_account: accounts.commit_record_account,
                delegation_record_account: accounts.delegation_record_account,
                delegation_metadata_account: accounts.delegation_metadata_account,
                rent_reimbursement: accounts.rent_reimbursement,
                fees_vault: accounts.fees_vault,
                validator_fees_vault: accounts.validator_fees_vault,
                system_program: accounts.system_program,
            },
            handback: Some((data, pending)),
        },
    )
}

/// Starts an undelegation, and finishes it where the account holds no bytes.
pub fn undelegate(program_id: &Pubkey, rent: &Rent, accounts: UndelegateAccounts) -> (r: Result<
    UndelegateProgress,
    ProgramError,
>)
    ensures
        match r {
            Ok(progress) => undelegate_outcome(program_id@, *rent, accounts@) == Ok::<
                (UndelegateAccountsView, Option<(Seq<u8>, PendingHandback)>),
                ProgramError,
            >(progress_view(progress)),
            Err(e) => undelegate_outcome(program_id@, *rent, accounts@) == Err::<
                (UndelegateAccountsView, Option<(Seq<u8>, PendingHandback)>),
                ProgramError,
            >(e),
        },
{
    undelegate_entry(program_id, &accounts)?;
    let seeds = undelegate_records(&accounts)?;
    undelegate_apply(program_id, rent, accounts, seeds)
}

/// The validator and the delegated account after the validator gave the
/// account back what it held above its rent, or why the hand-back is not
/// accepted.
///
/// The owning program must have created the account anew at the validator's
/// cost, with exactly the balance that keeps it exempt from rent, and with
/// the bytes that the buffer holds.
#[verifier::opaque]
pub open spec fn handback_settled(
    rent: Rent,
    validator: AccountView,
    delegated: AccountView,
    buffer: AccountView,
    pending: PendingHandback,
) -> Result<(AccountView, AccountView), ProgramError> {
    let min = minimum_balance_of(rent.lamports_per_byte, delegated.data.len());
    let extra = pending.delegated_lamports_before_close - min;
    if min > u64::MAX {
        Err(ProgramError::ArithmeticOverflow)
    } else if validator.lamports + min > u64::MAX {
        Err(custom(DlpError::Overflow))
    } else if pending.validator_lamports_before_cpi != validator.lamports + min {
        Err(custom(DlpError::InvalidValidatorBalanceAfterCPI))
    } else if delegated.data != buffer.data {
        Err(custom(DlpError::InvalidAccountDataAfterCPI))
    } else if extra < 0 {
        Err(custom(DlpError::Overflow))
    } else if validator.lamports < extra {
        Err(ProgramError::InsufficientFunds)
    } else if delegated.lamports + extra > u64::MAX {
        Err(ProgramError::ArithmeticOverflow)
    } else {
        Ok(
            (
                AccountView { lamports: (validator.lamports - extra) as u64, ..validator },
                AccountView { lamports: (delegated.lamports + extra) as u64, ..delegated },
            ),
        )
    }
}

/// Checks what the owning program made of the hand-back, and gives the
/// account back what it held above its rent.
fn settle_handback(
    rent: &Rent,
    validator: Account,
    delegated: Account,
    buffer: &Account,
    pending: PendingHandback,
) -> (r: Result<(Account, Account), ProgramError>)
    ensures
        match r {
            Ok((payer, account)) => handback_settled(
                *rent,
                validator@,
                delegated@,
                buffer@,
                pending,
            ) == Ok::<(AccountView, AccountView), ProgramError>((payer@, account@)),
            Err(e) => handback_settled(*rent, validator@, delegated@, buffer@, pending) == Err::<
                (AccountView, AccountView),
                ProgramError,
            >(e),
        },
{
    reveal(handback_settled);
    let mut payer = validator;
    let mut account = delegated;
    let min = match rent.minimum_balance(account.data.len()) {
        Some(min) => min,
        None => {
            return Err(ProgramError::ArithmeticOverflow);
        },
    };
    // The validator must have paid the rent of the account, and no more.
    match payer.lamports.checked_add(min) {
        None => {
            return Err(ProgramError::from(DlpError::Overflow));
        },
        Some(sum) => {
            if pending.validator_lamports_before_cpi != sum {
                return Err(ProgramError::from(DlpError::InvalidValidatorBalanceAfterCPI));
            }
        },
    }
    // The owning program must have put the state back as it was.
    if !bytes_eq(account.data.as_slice(), buffer.data.as_slice()) {
        return Err(ProgramError::from(DlpError::InvalidAccountDataAfterCPI));
    }
    if pending.delegated_lamports_before_close < min {
        return Err(ProgramError::from(DlpError::Overflow));
    }
    let extra = pending.delegated_lamports_before_close - min;
    if payer.lamports < extra {
        return Err(ProgramError::InsufficientFunds);
    }
    match account.lamports.checked_add(extra) {
        None => {
            return Err(ProgramError::ArithmeticOverflow);
        },
        Some(sum) => {
            account.lamports = sum;
        },
    }
    payer.lamports = payer.lamports - extra;
    Ok((payer, account))
}

/// The accounts after an undelegation was finished behind the call to the
/// owning program, or why it fails: the hand-back is checked and settled,
/// the buffer is closed to the validator's benefit, and the cells of the
/// delegation are closed.
pub open spec fn undelegate_finish_outcome(
    rent: Rent,
    a: UndelegateAccountsView,
    pending: PendingHandback,
) -> Result<UndelegateAccountsView, ProgramError> {
    match handback_settled(
        rent,
        a.validator,
        a.delegated_account,
        a.undelegate_buffer_account,
        pending,
    ) {
        Err(e) => Err(e),
        Ok((payer, account)) => match close_pda_outcome(a.undelegate_buffer_account, payer) {
            Err(e) => Err(e),
            Ok((buffer_cell, receiver)) => cleaned_up(
                UndelegateAccountsView {
                    validator: receiver,
                    delegated_account: account,
                    undelegate_buffer_account: buffer_cell,
                    ..a
                },
            ),
        },
    }
}

/// Finishes an undelegation once the owning program was called. The accounts
/// are handed in as that call left them.
pub fn undelegate_finish(rent: &Rent, accounts: UndelegateAccounts, pending: PendingHandback) -> (r:
    Result<UndelegateAccounts, ProgramError>)
    ensures
        match r {
            Ok(after) => undelegate_finish_outcome(*rent, accounts@, pending) == Ok::<
                UndelegateAccountsView,
                ProgramError,
            >(after@),
            Err(e) => undelegate_finish_outcome(*rent, accounts@, pending) == Err::<
                UndelegateAccountsView,
                ProgramError,
            >(e),
        },
{
    let (payer, account) = settle_handback(
        rent,
        accounts.validator,
        accounts.delegated_account,
        &accounts.undelegate_buffer_account,
        pending,
    )?;
    let mut buffer_cell = accounts.undelegate_buffer_account;
    let mut receiver = payer;
    close_pda(&mut buffer_cell, &mut receiver)?;
    clean_up(
        UndelegateAccounts {
            validator: receiver,
            delegated_account: account,
            owner_program: accounts.owner_program,
            undelegate_buffer_account: buffer_cell,
            commit_state_account: accounts.commit_state_account,
            commit_record_account: accounts.commit_record_account,
            delegation_record_account: accounts.delegation_record_account,
            delegation_metadata_account: accounts.delegation_metadata_account,
            rent_reimbursement: accounts.rent_reimbursement,
            fees_vault: accounts.fees_vault,
            validator_fees_vault: accounts.validator_fees_vault,
            system_program: accounts.system_program,
        },
    )
}

/// The accounts of an undelegation, taken from the list.
pub open spec fn undelegate_accounts_of(list: Seq<AccountView>) -> UndelegateAccountsView {
    UndelegateAccountsView {
        validator: list[0],
        delegated_account: list[1],
        owner_program: list[2],
        undelegate_buffer_account: list[3],
        commit_state_account: list[4],
        commit_record_account: list[5],
        delegation_record_account: list[6],
        delegation_metadata_account: list[7],
        rent_reimbursement: list[8],
        fees_vault: list[9],
        validator_fees_vault: list[10],
        system_program: list[11],
    }
}

/// The accounts of an undelegation as a list.
pub open spec fn undelegate_accounts_list(a: UndelegateAccountsView) -> Seq<AccountView> {
    seq![
        a.validator,
        a.delegated_account,
        a.owner_program,
        a.undelegate_buffer_account,
        a.commit_state_account,
        a.commit_record_account,
        a.delegation_record_account,
        a.delegation_metadata_account,
        a.rent_reimbursement,
        a.fees_vault,
        a.validator_fees_vault,
        a.system_program,
    ]
}

/// Copies the accounts of an undelegation out of the list.
fn take_undelegate_accounts(accounts: &[Account]) -> (taken: UndelegateAccounts)
    requires
        accounts@.len() == 12,
    ensures
        taken@ == undelegate_accounts_of(views(accounts@)),
{
    UndelegateAccounts {
        validator: accounts[0].duplicate(),
        delegated_account: accounts[1].duplicate(),
        owner_program: accounts[2].duplicate(),
        undelegate_buffer_account: accounts[3].duplicate(),
        commit_state_account: accounts[4].duplicate(),
        commit_record_account: accounts[5].duplicate(),
        delegation_record_account: accounts[6].duplicate(),
        delegation_metadata_account: accounts[7].duplicate(),
        rent_reimbursement: accounts[8].duplicate(),
        fees_vault: accounts[9].duplicate(),
        validator_fees_vault: accounts[10].duplicate(),
        system_program: accounts[11].duplicate(),
    }
}

/// Puts the accounts of an undelegation into a list.
fn undelegate_accounts_into_list(after: UndelegateAccounts) -> (list: Vec<Account>)
    ensures
        views(list@) == undelegate_accounts_list(after@),
{
    let mut list: Vec<Account> = Vec::new();
    list.push(after.validator);
    list.push(after.delegated_account);
    list.push(after.owner_program);
    list.push(after.undelegate_buffer_account);
    list.push(after.commit_state_account);
    list.push(after.commit_record_account);
    list.push(after.delegation_record_account);
    list.push(after.delegation_metadata_account);
    list.push(after.rent_reimbursement);
    list.push(after.fees_vault);
    list.push(after.validator_fees_vault);
    list.push(after.system_program);
    assert(views(list@) =~= undelegate_accounts_list(after@));
    list
}

/// What is to be done once the first part of an undelegation is through.
pub enum UndelegateStep {
    /// The undelegation is finished; these are the accounts after it.
    Done { accounts: Vec<Account> },
    /// The owning program has to be called with this data, on the accounts
    /// that `handback_accounts` lists; then the undelegation is finished by
    /// `process_undelegate_after_handback`.
    Handback { accounts: Vec<Account>, instruction_data: Vec<u8>, pending: PendingHandback },
}

/// A step of an undelegation as a mathematical value: the accounts, and what
/// the call to the owning program needs where one has to be made.
pub open spec fn step_view(step: UndelegateStep) -> (
    Seq<AccountView>,
    Option<(Seq<u8>, PendingHandback)>,
) {
    match step {
        UndelegateStep::Done { accounts } => (views(accounts@), None),
        UndelegateStep::Handback { accounts, instruction_data, pending } => (
            views(accounts@),
            Some((instruction_data@, pending)),
        ),
    }
}

/// What the first part of an undelegation gives, or why the undelegation is
/// refused.
pub open spec fn process_undelegate_outcome(
    program_id: Seq<u8>,
    rent: Rent,
    accounts: Seq<AccountView>,
) -> Result<(Seq<AccountView>, Option<(Seq<u8>, PendingHandback)>), ProgramError> {
    if accounts.len() != 12 {
        Err(ProgramError::NotEnoughAccountKeys)
    } else {
        match undelegate_outcome(program_id, rent, undelegate_accounts_of(accounts)) {
            Err(e) => Err(e),
            Ok((after, handback)) => Ok((undelegate_accounts_list(after), handback)),
        }
    }
}

/// Hands a delegated account back to the program that owns it, as far as
/// that can be done without calling the owning program.
///
/// The accounts are, in this order: the validator, the delegated account, the
/// owning program, the undelegate buffer, the commit-state cell, the commit
/// record, the delegation record, the delegation metadata, the account that
/// paid for the delegation, the protocol's fee vault, the validator's fee
/// vault, and the system program.
///
/// The undelegation is taken where the validator signed, the account is
/// delegated and marked for being handed back, no commit is pending, and the
/// owning program and the payer are those on record. An account without
/// bytes is given to the owning program at once. For one with bytes, the
/// bytes are parked in the buffer and the account is closed; the owning
/// program then has to be called to create the account anew.
pub fn process_undelegate(
    program_id: &Pubkey,
    accounts: &[Account],
    _data: &[u8],
    rent: &Rent,
) -> (r: Result<UndelegateStep, ProgramError>)
    ensures
        match r {
            Ok(step) => process_undelegate_outcome(program_id@, *rent, views(accounts@)) == Ok::<
                (Seq<AccountView>, Option<(Seq<u8>, PendingHandback)>),
                ProgramError,
            >(step_view(step)),
            Err(e) => process_undelegate_outcome(program_id@, *rent, views(accounts@)) == Err::<
                (Seq<AccountView>, Option<(Seq<u8>, PendingHandback)>),
                ProgramError,
            >(e),
        },
{
    if accounts.len() != 12 {
        return Err(ProgramError::NotEnoughAccountKeys);
    }
    let taken = take_undelegate_accounts(accounts);
    let progress = undelegate(program_id, rent, taken)?;
    let list = undelegate_accounts_into_list(progress.accounts);
    match progress.handback {
        None => Ok(UndelegateStep::Done { accounts: list }),
        Some((instruction_data, pending)) => Ok(
            UndelegateStep::Handback { accounts: list, instruction_data, pending },
        ),
    }
}

/// The accounts after an undelegation was finished behind the call to the
/// owning program, or why it fails.
pub open spec fn process_undelegate_after_handback_outcome(
    rent: Rent,
    accounts: Seq<AccountView>,
    pending: PendingHandback,
) -> Result<Seq<AccountView>, ProgramError> {
    if accounts.len() != 12 {
        Err(ProgramError::NotEnoughAccountKeys)
    } else {
        match undelegate_finish_outcome(rent, undelegate_accounts_of(accounts), pending) {
            Err(e) => Err(e),
            Ok(after) => Ok(undelegate_accounts_list(after)),
        }
    }
}

/// Finishes an undelegation once the owning program was called: checks that
/// the validator paid exactly the rent of the account created anew and that
/// the account holds the bytes of the buffer, gives the account what it held
/// above its rent, closes the buffer, and closes the cells of the delegation
/// with fees. The accounts are handed in as the call left them, in the order
/// of `process_undelegate`.
pub fn process_undelegate_after_handback(
    accounts: &[Account],
    pending: PendingHandback,
    rent: &Rent,
) -> (r: Result<Vec<Account>, ProgramError>)
    ensures
        match r {
            Ok(after) => process_undelegate_after_handback_outcome(
                *rent,
                views(accounts@),
                pending,
            ) == Ok::<Seq<AccountView>, ProgramError>(views(after@)),
            Err(e) => process_undelegate_after_handback_outcome(*rent, views(accounts@), pending)
                == Err::<Seq<AccountView>, ProgramError>(e),
        },
{
    if accounts.len() != 12 {
        return Err(ProgramError::NotEnoughAccountKeys);
    }
    let taken = take_undelegate_accounts(accounts);
    let after = undelegate_finish(rent, taken, pending)?;
    Ok(undelegate_accounts_into_list(after))
}

} // verus!
