//! Delegating an account: the program takes note of who owns it and who paid,
//! and from then on takes commits for it.

use crate::account::{views, with_data, Account, AccountView, Rent};
use crate::args::{delegate_args_of, DelegateArgs, DelegateArgsView};
use crate::error::{custom, DlpError, ProgramError};
use crate::pda::{cell_address, cell_address_of, CellKind};
use crate::processor::cells::{create_pda, create_pda_outcome};
use crate::processor::checks::{
    and_then, owned_pda_check, passes, pda_check, require_owned_pda, require_pda_at, require_signer,
    require_uninitialized_cell, signer_check, uninitialized_cell_check,
    RequireUninitializedAccountCtx,
};
use crate::pubkey::{
    derived_address, find_program_address, is_on_curve, on_curve, pubkey_eq, seed_views, system_id,
    system_program_id, Pubkey,
};
use crate::seeds::seeds_encodable;
use crate::state::{
    delegation_metadata_bytes, delegation_record_bytes, DelegationMetadata, DelegationMetadataView,
    DelegationRecord, DelegationRecordView,
};
use crate::wire::copy_bytes;
use vstd::prelude::*;

verus! {

/// What a delegation takes from the ledger and from the program's
/// configuration.
pub struct DelegateEnv {
    /// The ledger's rent schedule.
    pub rent: Rent,
    /// The ledger's present slot.
    pub slot: u64,
    /// The validator that a delegation names where its arguments name none.
    pub default_validator: Pubkey,
}

/// The accounts of a delegation.
pub struct DelegateAccounts {
    /// Who pays for the cells of the delegation. It signs.
    pub payer: Account,
    /// The account that is delegated. It signs, which the owning program
    /// vouches for.
    pub delegated_account: Account,
    /// The program that owned the account until now.
    pub owner_program: Account,
    /// The buffer in which the owning program left the account's bytes.
    pub delegate_buffer_account: Account,
    /// The cell that takes the delegation record.
    pub delegation_record_account: Account,
    /// The cell that takes the delegation metadata.
    pub delegation_metadata_account: Account,
    /// The system program.
    pub system_program: Account,
}

/// The accounts of a delegation as mathematical values.
pub struct DelegateAccountsView {
    pub payer: AccountView,
    pub delegated_account: AccountView,
    pub owner_program: AccountView,
    pub delegate_buffer_account: AccountView,
    pub delegation_record_account: AccountView,
    pub delegation_metadata_account: AccountView,
    pub system_program: AccountView,
}

impl View for DelegateAccounts {
    type V = DelegateAccountsView;

    open spec fn view(&self) -> DelegateAccountsView {
        DelegateAccountsView {
            payer: self.payer@,
            delegated_account: self.delegated_account@,
            owner_program: self.owner_program@,
            delegate_buffer_account: self.delegate_buffer_account@,
            delegation_record_account: self.delegation_record_account@,
            delegation_metadata_account: self.delegation_metadata_account@,
            system_program: self.system_program@,
        }
    }
}

/// The first reason for which a delegation is refused on account of its
/// accounts, if there is one: the account is not the program's yet, the payer
/// or the account did not sign, the buffer is not the owning program's
/// buffer for the account, or a cell of the delegation exists already.
#[verifier::opaque]
pub open spec fn delegate_entry_check(program_id: Seq<u8>, a: DelegateAccountsView) -> Result<
    (),
    ProgramError,
> {
    and_then(
        owned_pda_check(a.delegated_account, program_id),
        and_then(
            signer_check(a.payer),
            and_then(
                signer_check(a.delegated_account),
                and_then(
                    passes(
                        pda_check(
                            a.delegate_buffer_account,
                            cell_address_of(
                                CellKind::DelegateBuffer,
                                a.delegated_account.key,
                                a.owner_program.key,
                            ),
                            true,
                        ),
                    ),
                    and_then(
                        passes(
                            uninitialized_cell_check(
                                a.delegation_record_account,
                                CellKind::DelegationRecord,
                                a.delegated_account.key,
                                program_id,
                                true,
                                RequireUninitializedAccountCtx::DelegationRecord,
                            ),
                        ),
                        passes(
                            uninitialized_cell_check(
                                a.delegation_metadata_account,
                                CellKind::DelegationMetadata,
                                a.delegated_account.key,
                                program_id,
                                true,
                                RequireUninitializedAccountCtx::DelegationMetadata,
                            ),
                        ),
                    ),
                ),
            ),
        ),
    )
}

/// The program under which a derived address of the delegated account was
/// derived: the owning program, or this program where the system program
/// owned the account.
pub open spec fn deriving_program(program_id: Seq<u8>, owner_program: Seq<u8>) -> Seq<u8> {
    if owner_program == system_id() {
        program_id
    } else {
        owner_program
    }
}

/// The seeds are those of the delegated account, where its address is a
/// derived one; or why the delegation is refused. An address on the curve is
/// held by a key pair and has no seeds to check. For a derived address there
/// must be one to four seeds, and they must lead to the address.
#[verifier::opaque]
pub open spec fn delegate_seeds_check(
    program_id: Seq<u8>,
    a: DelegateAccountsView,
    seeds: Seq<Seq<u8>>,
) -> Result<(), ProgramError> {
    let derived = derived_address(seeds, deriving_program(program_id, a.owner_program.key));
    if on_curve(a.delegated_account.key) {
        Ok(())
    } else if seeds.len() < 1 || seeds.len() > 4 {
        Err(custom(DlpError::TooManySeeds))
    } else if derived is None || derived->Some_0.0 != a.delegated_account.key {
        Err(ProgramError::InvalidSeeds)
    } else {
        Ok(())
    }
}

/// The record of a delegation that is just made.
pub open spec fn new_delegation_record(
    a: DelegateAccountsView,
    args: DelegateArgsView,
    slot: u64,
    default_validator: Seq<u8>,
) -> DelegationRecordView {
    DelegationRecordView {
        authority: match args.validator {
            Some(validator) => validator,
            None => default_validator,
        },
        owner: a.owner_program.key,
        delegation_slot: slot,
        lamports: a.delegated_account.lamports,
        commit_frequency_ms: args.commit_frequency_ms as u64,
    }
}

/// The metadata of a delegation that is just made: no commit yet, not to be
/// handed back yet.
pub open spec fn new_delegation_metadata(a: DelegateAccountsView, args: DelegateArgsView)
    -> DelegationMetadataView {
    DelegationMetadataView {
        last_update_nonce: 0,
        is_undelegatable: false,
        seeds: args.seeds,
        rent_payer: a.payer.key,
    }
}

/// The two cells of the delegation and the payer after the cells were
/// created, or why one is not created.
pub open spec fn delegation_cells_created(
    program_id: Seq<u8>,
    rent: Rent,
    record: AccountView,
    metadata: AccountView,
    payer: AccountView,
    metadata_len: nat,
) -> Result<(AccountView, AccountView, AccountView), ProgramError> {
    match create_pda_outcome(record, payer, program_id, 96, rent) {
        Err(e) => Err(e),
        Ok((record_cell, payer)) => match create_pda_outcome(
            metadata,
            payer,
            program_id,
            metadata_len,
            rent,
        ) {
            Err(e) => Err(e),
            Ok((metadata_cell, payer)) => Ok((record_cell, metadata_cell, payer)),
        },
    }
}

/// The accounts after a delegation that passed the checks has made its
/// changes, or why it fails: the two cells of the delegation are created at
/// the payer's cost and filled, and the bytes that the buffer holds, if it
/// holds any, become the account's.
#[verifier::opaque]
pub open spec fn delegate_effect(
    program_id: Seq<u8>,
    rent: Rent,
    slot: u64,
    default_validator: Seq<u8>,
    a: DelegateAccountsView,
    args: DelegateArgsView,
) -> Result<DelegateAccountsView, ProgramError> {
    let metadata = new_delegation_metadata(a, args);
    if !seeds_encodable(metadata.seeds) {
        Err(ProgramError::InvalidAccountData)
    } else {
        match delegation_cells_created(
            program_id,
            rent,
            a.delegation_record_account,
            a.delegation_metadata_account,
            a.payer,
            delegation_metadata_bytes(metadata).len(),
        ) {
            Err(e) => Err(e),
            Ok((record_cell, metadata_cell, payer)) => if a.delegate_buffer_account.data.len()
                != 0 && a.delegate_buffer_account.data.len() != a.delegated_account.data.len() {
                Err(ProgramError::InvalidAccountData)
            } else {
                Ok(
                    DelegateAccountsView {
                        payer,
                        delegated_account: if a.delegate_buffer_account.data.len() != 0 {
                            AccountView {
                                data: a.delegate_buffer_account.data,
                                ..a.delegated_account
                            }
                        } else {
                            a.delegated_account
                        },
                        owner_program: a.owner_program,
                        delegate_buffer_account: a.delegate_buffer_account,
                        delegation_record_account: AccountView {
                            data: delegation_record_bytes(
                                new_delegation_record(a, args, slot, default_validator),
                            ),
                            ..record_cell
                        },
                        delegation_metadata_account: AccountView {
                            data: delegation_metadata_bytes(metadata),
                            ..metadata_cell
                        },
                        system_program: a.system_program,
                    },
                )
            },
        }
    }
}

/// The accounts after a delegation, or why it is refused.
pub open spec fn delegate_outcome(
    program_id: Seq<u8>,
    rent: Rent,
    slot: u64,
    default_validator: Seq<u8>,
    a: DelegateAccountsView,
    data: Seq<u8>,
) -> Result<DelegateAccountsView, ProgramError> {
    match delegate_entry_check(program_id, a) {
        Err(e) => Err(e),
        Ok(()) => match delegate_args_of(data) {
            None => Err(ProgramError::InvalidInstructionData),
            Some(args) => match delegate_seeds_check(program_id, a, args.seeds) {
                Err(e) => Err(e),
                Ok(()) => delegate_effect(program_id, rent, slot, default_validator, a, args),
            },
        },
    }
}

/// Makes the checks of a delegation on its accounts.
fn delegate_entry(program_id: &Pubkey, accounts: &DelegateAccounts) -> (r: Result<(), ProgramError>)
    ensures
        r == delegate_entry_check(program_id@, accounts@),
{
    reveal(delegate_entry_check);
    require_owned_pda(&accounts.delegated_account, program_id, "delegated account")?;
    // That both signed shows that the owning program makes the call.
    require_signer(&accounts.payer, "payer")?;
    require_signer(&accounts.delegated_account, "delegated account")?;
    let buffer = cell_address(
        CellKind::DelegateBuffer,
        &accounts.delegated_account.key,
        &accounts.owner_program.key,
    );
    require_pda_at(&accounts.delegate_buffer_account, buffer, true)?;
    require_uninitialized_cell(
        &accounts.delegation_record_account,
        CellKind::DelegationRecord,
        &accounts.delegated_account.key,
        program_id,
        true,
        RequireUninitializedAccountCtx::DelegationRecord,
    )?;
    require_uninitialized_cell(
        &accounts.delegation_metadata_account,
        CellKind::DelegationMetadata,
        &accounts.delegated_account.key,
        program_id,
        true,
        RequireUninitializedAccountCtx::DelegationMetadata,
    )?;
    Ok(())
}

/// Checks the seeds against the address of the delegated account.
fn delegate_seeds(program_id: &Pubkey, accounts: &DelegateAccounts, seeds: &Vec<Vec<u8>>) -> (r:
    Result<(), ProgramError>)
    ensures
        r == delegate_seeds_check(program_id@, accounts@, seed_views(seeds@)),
{
    reveal(delegate_seeds_check);
    if is_on_curve(&accounts.delegated_account.key) {
        return Ok(());
    }
    // An account that the system program owned is an escrow account, whose
    // address is derived under this program.
    let system = system_program_id();
    let program = if pubkey_eq(&accounts.owner_program.key, &system) {
        *program_id
    } else {
        accounts.owner_program.key
    };
    if seeds.len() < 1 || seeds.len() > 4 {
        return Err(ProgramError::from(DlpError::TooManySeeds));
    }
    match find_program_address(seeds, &program) {
        None => Err(ProgramError::InvalidSeeds),
        Some((derived, _)) => {
            if !pubkey_eq(&derived, &accounts.delegated_account.key) {
                return Err(ProgramError::InvalidSeeds);
            }
            Ok(())
        },
    }
}

/// Creates the two cells of a delegation.
fn create_delegation_cells(
    program_id: &Pubkey,
    rent: &Rent,
    record: Account,
    metadata: Account,
    payer: Account,
    metadata_len: usize,
) -> (r: Result<(Account, Account, Account), ProgramError>)
    ensures
        match r {
            Ok((record_cell, metadata_cell, paid)) => delegation_cells_created(
                program_id@,
                *rent,
                record@,
                metadata@,
                payer@,
                metadata_len as nat,
            ) == Ok::<(AccountView, AccountView, AccountView), ProgramError>(
                (record_cell@, metadata_cell@, paid@),
            ),
            Err(e) => delegation_cells_created(
                program_id@,
                *rent,
                record@,
                metadata@,
                payer@,
                metadata_len as nat,
            ) == Err::<(AccountView, AccountView, AccountView), ProgramError>(e),
        },
{
    let mut record_cell = record;
    let mut metadata_cell = metadata;
    let mut paid = payer;
    create_pda(
        &mut record_cell,
        program_id,
        DelegationRecord::size_with_discriminator(),
        &mut paid,
        rent,
    )?;
    create_pda(&mut metadata_cell, program_id, metadata_len, &mut paid, rent)?;
    Ok((record_cell, metadata_cell, paid))
}

/// Makes the changes of a delegation.
fn delegate_apply(
    program_id: &Pubkey,
    env: &DelegateEnv,
    accounts: DelegateAccounts,
    args: DelegateArgs,
) -> (r: Result<DelegateAccounts, ProgramError>)
    ensures
        match r {
            Ok(after) => delegate_effect(
                program_id@,
                env.rent,
                env.slot,
                env.default_validator@,
                accounts@,
                args@,
            ) == Ok::<DelegateAccountsView, ProgramError>(after@),
            Err(e) => delegate_effect(
                program_id@,
                env.rent,
                env.slot,
                env.default_validator@,
                accounts@,
                args@,
            ) == Err::<DelegateAccountsView, ProgramError>(e),
        },
{
    reveal(delegate_effect);
    let delegation_record = DelegationRecord {
        owner: accounts.owner_program.key,
        authority: match args.validator {
            Some(validator) => validator,
            None => env.default_validator,
        },
        commit_frequency_ms: args.commit_frequency_ms as u64,
        delegation_slot: env.slot,
        lamports: accounts.delegated_account.lamports,
    };
    let delegation_metadata = DelegationMetadata {
        seeds: args.seeds,
        last_update_nonce: 0,
        is_undelegatable: false,
        rent_payer: accounts.payer.key,
    };
    let metadata_bytes = delegation_metadata.to_bytes_with_discriminator()?;
    let (record_cell, metadata_cell, payer) = create_delegation_cells(
        program_id,
        &env.rent,
        accounts.delegation_record_account,
        accounts.delegation_metadata_account,
        accounts.payer,
        metadata_bytes.len(),
    )?;
    // What the owning program left in the buffer becomes the account's.
    let buffer_len = accounts.delegate_buffer_account.data.len();
    if buffer_len != 0 && buffer_len != accounts.delegated_account.data.len() {
        return Err(ProgramError::InvalidAccountData);
    }
    let delegated_account = if buffer_len != 0 {
        let bytes = copy_bytes(accounts.delegate_buffer_account.data.as_slice());
        with_data(accounts.delegated_account, bytes)
    } else {
        accounts.delegated_account
    };
    Ok(
        DelegateAccounts {
            payer,
            delegated_account,
            owner_program: accounts.owner_program,
            delegate_buffer_account: accounts.delegate_buffer_account,
            delegation_record_account: with_data(
                record_cell,
                delegation_record.to_bytes_with_discriminator(),
            ),
            delegation_metadata_account: with_data(metadata_cell, metadata_bytes),
            system_program: accounts.system_program,
        },
    )
}

/// Delegates an account.
pub fn delegate(
    program_id: &Pubkey,
    env: &DelegateEnv,
    accounts: DelegateAccounts,
    data: &[u8],
) -> (r: Result<DelegateAccounts, ProgramError>)
    ensures
        match r {
            Ok(after) => delegate_outcome(
                program_id@,
                env.rent,
                env.slot,
                env.default_validator@,
                accounts@,
                data@,
            ) == Ok::<DelegateAccountsView, ProgramError>(after@),
            Err(e) => delegate_outcome(
                program_id@,
                env.rent,
                env.slot,
                env.default_validator@,
                accounts@,
                data@,
            ) == Err::<DelegateAccountsView, ProgramError>(e),
        },
{
    delegate_entry(program_id, &accounts)?;
    let args = DelegateArgs::try_from_slice(data)?;
    delegate_seeds(program_id, &accounts, &args.seeds)?;
    delegate_apply(program_id, env, accounts, args)
}

/// The accounts of a delegation, taken from the list.
pub open spec fn delegate_accounts_of(list: Seq<AccountView>) -> DelegateAccountsView {
    DelegateAccountsView {
        payer: list[0],
        delegated_account: list[1],
        owner_program: list[2],
        delegate_buffer_account: list[3],
        delegation_record_account: list[4],
        delegation_metadata_account: list[5],
        system_program: list[6],
    }
}

/// The accounts of a delegation as a list.
pub open spec fn delegate_accounts_list(a: DelegateAccountsView) -> Seq<AccountView> {
    seq![
        a.payer,
        a.delegated_account,
        a.owner_program,
        a.delegate_buffer_account,
        a.delegation_record_account,
        a.delegation_metadata_account,
        a.system_program,
    ]
}

/// The accounts after a delegation, or why it is refused.
pub open spec fn process_delegate_outcome(
    program_id: Seq<u8>,
    rent: Rent,
    slot: u64,
    default_validator: Seq<u8>,
    accounts: Seq<AccountView>,
    data: Seq<u8>,
) -> Result<Seq<AccountView>, ProgramError> {
    if accounts.len() != 7 {
        Err(ProgramError::NotEnoughAccountKeys)
    } else {
        match delegate_outcome(
            program_id,
            rent,
            slot,
            default_validator,
            delegate_accounts_of(accounts),
            data,
        ) {
            Err(e) => Err(e),
            Ok(after) => Ok(delegate_accounts_list(after)),
        }
    }
}

/// Delegates an account to the program.
///
/// The accounts are, in this order: the payer, the account that is
/// delegated, the program that owned it, the buffer with the account's
/// bytes, the delegation record, the delegation metadata, and the system
/// program.
///
/// The owning program has handed the account to this program beforehand, and
/// makes the call with the payer's and the account's signatures. The
/// delegation is taken where neither cell of a delegation exists yet for the
/// account and, for an account at a derived address, the seeds given lead to
/// that address. Then the delegation record notes the owning program, the
/// authority, the slot and the account's balance; the metadata notes the
/// seeds and the payer, with the nonce at 0 and no mark for being handed
/// back; and the bytes in the buffer, if there are any, become the
/// account's.
pub fn process_delegate(
    program_id: &Pubkey,
    accounts: &[Account],
    data: &[u8],
    env: &DelegateEnv,
) -> (r: Result<Vec<Account>, ProgramError>)
    ensures
        match r {
            Ok(after) => process_delegate_outcome(
                program_id@,
                env.rent,
                env.slot,
                env.default_validator@,
                views(accounts@),
                data@,
            ) == Ok::<Seq<AccountView>, ProgramError>(views(after@)),
            Err(e) => process_delegate_outcome(
                program_id@,
                env.rent,
                env.slot,
                env.default_validator@,
                views(accounts@),
                data@,
            ) == Err::<Seq<AccountView>, ProgramError>(e),
        },
{
    if accounts.len() != 7 {
        return Err(ProgramError::NotEnoughAccountKeys);
    }
    let taken = DelegateAccounts {
        payer: accounts[0].duplicate(),
        delegated_account: accounts[1].duplicate(),
        owner_program: accounts[2].duplicate(),
        delegate_buffer_account: accounts[3].duplicate(),
        delegation_record_account: accounts[4].duplicate(),
        delegation_metadata_account: accounts[5].duplicate(),
        system_program: accounts[6].duplicate(),
    };
    let after = delegate(program_id, env, taken, data)?;
    let mut list: Vec<Account> = Vec::new();
    list.push(after.payer);
    list.push(after.delegated_account);
    list.push(after.owner_program);
    list.push(after.delegate_buffer_account);
    list.push(after.delegation_record_account);
    list.push(after.delegation_metadata_account);
    list.push(after.system_program);
    assert(views(list@) =~= delegate_accounts_list(after@));
    Ok(list)
}

} // verus!
