//! The checks that an instruction makes on its accounts before it acts.

use crate::account::{Account, AccountView};
use crate::error::{custom, DlpError, ProgramError};
use crate::pda::{cell_address, cell_address_of, CellKind};
use crate::pubkey::{
    derived_address, find_program_address, pubkey_eq, seed_views, system_id, system_program_id,
    Pubkey,
};
use vstd::prelude::*;

verus! {

/// A derived address, with its bump seed, as a mathematical value.
pub open spec fn address_view(derived: Option<(Pubkey, u8)>) -> Option<(Seq<u8>, u8)> {
    match derived {
        Some((address, bump)) => Some((address@, bump)),
        None => None,
    }
}

/// Which cell a check for a cell that must not exist yet is about: it
/// decides the failures that the check reports.
#[derive(Debug, Clone, Copy, PartialEq, Eq, Structural)]
pub enum RequireUninitializedAccountCtx {
    CommitStateAccount,
    CommitRecord,
    DelegationRecord,
    DelegationMetadata,
    UndelegateBuffer,
}

impl RequireUninitializedAccountCtx {
    /// The failure for an address that is not the derived one.
    pub open spec fn invalid_seeds_spec(self) -> ProgramError {
        custom(
            match self {
                RequireUninitializedAccountCtx::CommitStateAccount => {
                    DlpError::CommitStateInvalidSeeds
                },
                RequireUninitializedAccountCtx::CommitRecord => DlpError::CommitRecordInvalidSeeds,
                RequireUninitializedAccountCtx::DelegationRecord => {
                    DlpError::DelegationRecordInvalidSeeds
                },
                RequireUninitializedAccountCtx::DelegationMetadata => {
                    DlpError::DelegationMetadataInvalidSeeds
                },
                RequireUninitializedAccountCtx::UndelegateBuffer => {
                    DlpError::UndelegateBufferInvalidSeeds
                },
            },
        )
    }

    /// The failure for a cell that the system program does not own.
    pub open spec fn invalid_account_owner_spec(self) -> ProgramError {
        custom(
            match self {
                RequireUninitializedAccountCtx::CommitStateAccount => {
                    DlpError::CommitStateInvalidAccountOwner
                },
                RequireUninitializedAccountCtx::CommitRecord => {
                    DlpError::CommitRecordInvalidAccountOwner
                },
                RequireUninitializedAccountCtx::DelegationRecord => {
                    DlpError::DelegationRecordInvalidAccountOwner
                },
                RequireUninitializedAccountCtx::DelegationMetadata => {
                    DlpError::DelegationMetadataInvalidAccountOwner
                },
                RequireUninitializedAccountCtx::UndelegateBuffer => {
                    DlpError::UndelegateBufferInvalidAccountOwner
                },
            },
        )
    }

    /// The failure for a cell that holds bytes already.
    pub open spec fn account_already_initialized_spec(self) -> ProgramError {
        custom(
            match self {
                RequireUninitializedAccountCtx::CommitStateAccount => {
                    DlpError::CommitStateAlreadyInitialized
                },
                RequireUninitializedAccountCtx::CommitRecord => {
                    DlpError::CommitRecordAlreadyInitialized
                },
                RequireUninitializedAccountCtx::DelegationRecord => {
                    DlpError::DelegationRecordAlreadyInitialized
                },
                RequireUninitializedAccountCtx::DelegationMetadata => {
                    DlpError::DelegationMetadataAlreadyInitialized
                },
                RequireUninitializedAccountCtx::UndelegateBuffer => {
                    DlpError::UndelegateBufferAlreadyInitialized
                },
            },
        )
    }

    /// The failure for a cell that may not be changed.
    pub open spec fn immutable_spec(self) -> ProgramError {
        custom(
            match self {
                RequireUninitializedAccountCtx::CommitStateAccount => {
                    DlpError::CommitStateImmutable
                },
                RequireUninitializedAccountCtx::CommitRecord => DlpError::CommitRecordImmutable,
                RequireUninitializedAccountCtx::DelegationRecord => {
                    DlpError::DelegationRecordImmutable
                },
                RequireUninitializedAccountCtx::DelegationMetadata => {
                    DlpError::DelegationMetadataImmutable
                },
                RequireUninitializedAccountCtx::UndelegateBuffer => {
                    DlpError::UndelegateBufferImmutable
                },
            },
        )
    }

    /// The name of the cell.
    pub open spec fn label_spec(self) -> Seq<char> {
        match self {
            RequireUninitializedAccountCtx::CommitStateAccount => "commit state account"@,
            RequireUninitializedAccountCtx::CommitRecord => "commit record"@,
            RequireUninitializedAccountCtx::DelegationRecord => "delegation record"@,
            RequireUninitializedAccountCtx::DelegationMetadata => "delegation metadata"@,
            RequireUninitializedAccountCtx::UndelegateBuffer => "undelegate buffer"@,
        }
    }

    /// The name of the cell.
    pub fn label(&self) -> (l: &'static str)
        ensures
            l@ == self.label_spec(),
    {
        match self {
            RequireUninitializedAccountCtx::CommitStateAccount => "commit state account",
            RequireUninitializedAccountCtx::CommitRecord => "commit record",
            RequireUninitializedAccountCtx::DelegationRecord => "delegation record",
            RequireUninitializedAccountCtx::DelegationMetadata => "delegation metadata",
            RequireUninitializedAccountCtx::UndelegateBuffer => "undelegate buffer",
        }
    }

    /// The failure for an address that is not the derived one.
    pub fn invalid_seeds(&self) -> (e: ProgramError)
        ensures
            e == self.invalid_seeds_spec(),
    {
        ProgramError::from(
            match self {
                RequireUninitializedAccountCtx::CommitStateAccount => {
                    DlpError::CommitStateInvalidSeeds
                },
                RequireUninitializedAccountCtx::CommitRecord => DlpError::CommitRecordInvalidSeeds,
                RequireUninitializedAccountCtx::DelegationRecord => {
                    DlpError::DelegationRecordInvalidSeeds
                },
                RequireUninitializedAccountCtx::DelegationMetadata => {
                    DlpError::DelegationMetadataInvalidSeeds
                },
                RequireUninitializedAccountCtx::UndelegateBuffer => {
                    DlpError::UndelegateBufferInvalidSeeds
                },
            },
        )
    }

    /// The failure for a cell that the system program does not own.
    pub fn invalid_account_owner(&self) -> (e: ProgramError)
        ensures
            e == self.invalid_account_owner_spec(),
    {
        ProgramError::from(
            match self {
                RequireUninitializedAccountCtx::CommitStateAccount => {
                    DlpError::CommitStateInvalidAccountOwner
                },
                RequireUninitializedAccountCtx::CommitRecord => {
                    DlpError::CommitRecordInvalidAccountOwner
                },
                RequireUninitializedAccountCtx::DelegationRecord => {
                    DlpError::DelegationRecordInvalidAccountOwner
                },
                RequireUninitializedAccountCtx::DelegationMetadata => {
                    DlpError::DelegationMetadataInvalidAccountOwner
                },
                RequireUninitializedAccountCtx::UndelegateBuffer => {
                    DlpError::UndelegateBufferInvalidAccountOwner
                },
            },
        )
    }

    /// The failure for a cell that holds bytes already.
    pub fn account_already_initialized(&self) -> (e: ProgramError)
        ensures
            e == self.account_already_initialized_spec(),
    {
        ProgramError::from(
            match self {
                RequireUninitializedAccountCtx::CommitStateAccount => {
                    DlpError::CommitStateAlreadyInitialized
                },
                RequireUninitializedAccountCtx::CommitRecord => {
                    DlpError::CommitRecordAlreadyInitialized
                },
                RequireUninitializedAccountCtx::DelegationRecord => {
                    DlpError::DelegationRecordAlreadyInitialized
                },
                RequireUninitializedAccountCtx::DelegationMetadata => {
                    DlpError::DelegationMetadataAlreadyInitialized
                },
                RequireUninitializedAccountCtx::UndelegateBuffer => {
                    DlpError::UndelegateBufferAlreadyInitialized
                },
            },
        )
    }

    /// The failure for a cell that may not be changed.
    pub fn immutable(&self) -> (e: ProgramError)
        ensures
            e == self.immutable_spec(),
    {
        ProgramError::from(
            match self {
                RequireUninitializedAccountCtx::CommitStateAccount => {
                    DlpError::CommitStateImmutable
                },
                RequireUninitializedAccountCtx::CommitRecord => DlpError::CommitRecordImmutable,
                RequireUninitializedAccountCtx::DelegationRecord => {
                    DlpError::DelegationRecordImmutable
                },
                RequireUninitializedAccountCtx::DelegationMetadata => {
                    DlpError::DelegationMetadataImmutable
                },
                RequireUninitializedAccountCtx::UndelegateBuffer => {
                    DlpError::UndelegateBufferImmutable
                },
            },
        )
    }
}

/// The cell is owned by `owner`, or the check fails.
pub open spec fn owned_pda_check(info: AccountView, owner: Seq<u8>) -> Result<(), ProgramError> {
    if info.owner != owner {
        Err(ProgramError::InvalidAccountOwner)
    } else {
        Ok(())
    }
}

/// Fails where the cell is not owned by `owner`.
pub fn require_owned_pda(info: &Account, owner: &Pubkey, _label: &str) -> (r: Result<
    (),
    ProgramError,
>)
    ensures
        r == owned_pda_check(info@, owner@),
{
    if !pubkey_eq(&info.owner, owner) {
        return Err(ProgramError::InvalidAccountOwner);
    }
    Ok(())
}

/// The account signed, or the check fails.
pub open spec fn signer_check(info: AccountView) -> Result<(), ProgramError> {
    if !info.is_signer {
        Err(ProgramError::MissingRequiredSignature)
    } else {
        Ok(())
    }
}

/// Fails where the account did not sign.
pub fn require_signer(info: &Account, _label: &str) -> (r: Result<(), ProgramError>)
    ensures
        r == signer_check(info@),
{
    if !info.is_signer {
        return Err(ProgramError::MissingRequiredSignature);
    }
    Ok(())
}

/// The cell lies at the derived address and may be changed where that is
/// asked: the check gives the bump seed, or fails.
pub open spec fn pda_check(info: AccountView, derived: Option<(Seq<u8>, u8)>, is_writable: bool)
    -> Result<u8, ProgramError> {
    match derived {
        None => Err(ProgramError::InvalidSeeds),
        Some((address, bump)) => if info.key != address {
            Err(ProgramError::InvalidSeeds)
        } else if is_writable && !info.is_writable {
            Err(ProgramError::Immutable)
        } else {
            Ok(bump)
        },
    }
}

/// Fails where the cell does not lie at the address `derived`, or may not be
/// changed though it has to.
pub fn require_pda_at(info: &Account, derived: Option<(Pubkey, u8)>, is_writable: bool) -> (r:
    Result<u8, ProgramError>)
    ensures
        r == pda_check(info@, address_view(derived), is_writable),
{
    match derived {
        None => Err(ProgramError::InvalidSeeds),
        Some((address, bump)) => {
            if !pubkey_eq(&info.key, &address) {
                return Err(ProgramError::InvalidSeeds);
            }
            if is_writable && !info.is_writable {
                return Err(ProgramError::Immutable);
            }
            Ok(bump)
        },
    }
}

/// Fails where the cell does not lie at the address derived from the seeds,
/// or may not be changed though it has to.
pub fn require_pda(
    info: &Account,
    seeds: &Vec<Vec<u8>>,
    program_id: &Pubkey,
    is_writable: bool,
    _label: &str,
) -> (r: Result<u8, ProgramError>)
    ensures
        r == pda_check(info@, derived_address(seed_views(seeds@), program_id@), is_writable),
{
    let derived = find_program_address(seeds, program_id);
    require_pda_at(info, derived, is_writable)
}

/// The cell does not exist yet: the system program owns it, and it holds no
/// bytes.
pub open spec fn uninitialized(info: AccountView) -> bool {
    info.owner == system_id() && info.data.len() == 0
}

/// Says whether the cell does not exist yet.
pub fn is_uninitialized_account(info: &Account) -> (r: bool)
    ensures
        r == uninitialized(info@),
{
    let system = system_program_id();
    pubkey_eq(&info.owner, &system) && info.data.len() == 0
}

/// The cell does not exist yet, and may be changed where that is asked; or
/// the check fails.
pub open spec fn uninitialized_account_check(
    info: AccountView,
    is_writable: bool,
    ctx: RequireUninitializedAccountCtx,
) -> Result<(), ProgramError> {
    if info.owner != system_id() {
        Err(ctx.invalid_account_owner_spec())
    } else if info.data.len() != 0 {
        Err(ctx.account_already_initialized_spec())
    } else if is_writable && !info.is_writable {
        Err(ctx.immutable_spec())
    } else {
        Ok(())
    }
}

/// Fails where the cell exists already, or may not be changed though it has
/// to.
pub fn require_uninitialized_account(
    info: &Account,
    is_writable: bool,
    ctx: RequireUninitializedAccountCtx,
) -> (r: Result<(), ProgramError>)
    ensures
        r == uninitialized_account_check(info@, is_writable, ctx),
{
    let system = system_program_id();
    if !pubkey_eq(&info.owner, &system) {
        return Err(ctx.invalid_account_owner());
    }
    if info.data.len() != 0 {
        return Err(ctx.account_already_initialized());
    }
    if is_writable && !info.is_writable {
        return Err(ctx.immutable());
    }
    Ok(())
}

/// The cell lies at the derived address and does not exist yet: the check
/// gives the bump seed, or fails.
pub open spec fn uninitialized_pda_check(
    info: AccountView,
    derived: Option<(Seq<u8>, u8)>,
    is_writable: bool,
    ctx: RequireUninitializedAccountCtx,
) -> Result<u8, ProgramError> {
    match derived {
        None => Err(ctx.invalid_seeds_spec()),
        Some((address, bump)) => if info.key != address {
            Err(ctx.invalid_seeds_spec())
        } else {
            match uninitialized_account_check(info, is_writable, ctx) {
                Err(e) => Err(e),
                Ok(()) => Ok(bump),
            }
        },
    }
}

/// Fails where the cell does not lie at the address `derived`, or exists
/// already, or may not be changed though it has to.
pub fn require_uninitialized_pda_at(
    info: &Account,
    derived: Option<(Pubkey, u8)>,
    is_writable: bool,
    ctx: RequireUninitializedAccountCtx,
) -> (r: Result<u8, ProgramError>)
    ensures
        r == uninitialized_pda_check(info@, address_view(derived), is_writable, ctx),
{
    match derived {
        None => Err(ctx.invalid_seeds()),
        Some((address, bump)) => {
            if !pubkey_eq(&info.key, &address) {
                return Err(ctx.invalid_seeds());
            }
            match require_uninitialized_account(info, is_writable, ctx) {
                Err(e) => Err(e),
                Ok(()) => Ok(bump),
            }
        },
    }
}

/// Fails where the cell does not lie at the address derived from the seeds,
/// or exists already, or may not be changed though it has to.
pub fn require_uninitialized_pda(
    info: &Account,
    seeds: &Vec<Vec<u8>>,
    program_id: &Pubkey,
    is_writable: bool,
    ctx: RequireUninitializedAccountCtx,
) -> (r: Result<u8, ProgramError>)
    ensures
        r == uninitialized_pda_check(
            info@,
            derived_address(seed_views(seeds@), program_id@),
            is_writable,
            ctx,
        ),
{
    let derived = find_program_address(seeds, program_id);
    require_uninitialized_pda_at(info, derived, is_writable, ctx)
}

/// The cell lies at the derived address, is owned by the program, and may be
/// changed where that is asked: the check gives the bump seed, or fails.
pub open spec fn initialized_pda_check(
    info: AccountView,
    derived: Option<(Seq<u8>, u8)>,
    program_id: Seq<u8>,
    is_writable: bool,
) -> Result<u8, ProgramError> {
    match derived {
        None => Err(ProgramError::InvalidSeeds),
        Some((address, bump)) => if info.key != address {
            Err(ProgramError::InvalidSeeds)
        } else if info.owner != program_id {
            Err(ProgramError::InvalidAccountOwner)
        } else if is_writable && !info.is_writable {
            Err(ProgramError::Immutable)
        } else {
            Ok(bump)
        },
    }
}

/// Fails where the cell does not lie at the address `derived`, or is not
/// owned by the program, or may not be changed though it has to.
pub fn require_initialized_pda_at(
    info: &Account,
    derived: Option<(Pubkey, u8)>,
    program_id: &Pubkey,
    is_writable: bool,
) -> (r: Result<u8, ProgramError>)
    ensures
        r == initialized_pda_check(info@, address_view(derived), program_id@, is_writable),
{
    match derived {
        None => Err(ProgramError::InvalidSeeds),
        Some((address, bump)) => {
            if !pubkey_eq(&info.key, &address) {
                return Err(ProgramError::InvalidSeeds);
            }
            if !pubkey_eq(&info.owner, program_id) {
                return Err(ProgramError::InvalidAccountOwner);
            }
            if is_writable && !info.is_writable {
                return Err(ProgramError::Immutable);
            }
            Ok(bump)
        },
    }
}

/// Fails where the cell does not lie at the address derived from the seeds,
/// or is not owned by the program, or may not be changed though it has to.
pub fn require_initialized_pda(
    info: &Account,
    seeds: &Vec<Vec<u8>>,
    program_id: &Pubkey,
    is_writable: bool,
    _label: &str,
) -> (r: Result<u8, ProgramError>)
    ensures
        r == initialized_pda_check(
            info@,
            derived_address(seed_views(seeds@), program_id@),
            program_id@,
            is_writable,
        ),
{
    let derived = find_program_address(seeds, program_id);
    require_initialized_pda_at(info, derived, program_id, is_writable)
}

/// The account is the program `key`, or the check fails.
pub open spec fn program_check(info: AccountView, key: Seq<u8>) -> Result<(), ProgramError> {
    if info.key != key {
        Err(ProgramError::IncorrectProgramId)
    } else if !info.executable {
        Err(ProgramError::InvalidAccountData)
    } else {
        Ok(())
    }
}

/// Fails where the account does not lie at `key`, or holds no program.
pub fn require_program(info: &Account, key: &Pubkey, _label: &str) -> (r: Result<
    (),
    ProgramError,
>)
    ensures
        r == program_check(info@, key@),
{
    if !pubkey_eq(&info.key, key) {
        return Err(ProgramError::IncorrectProgramId);
    }
    if !info.executable {
        return Err(ProgramError::InvalidAccountData);
    }
    Ok(())
}

/// The cell of a kind that belongs to `key` exists: it lies at its derived
/// address, is owned by the program, and may be changed where that is asked.
pub open spec fn initialized_cell_check(
    info: AccountView,
    kind: CellKind,
    key: Seq<u8>,
    program_id: Seq<u8>,
    is_writable: bool,
) -> Result<(), ProgramError> {
    match initialized_pda_check(info, cell_address_of(kind, key, program_id), program_id, is_writable) {
        Ok(_) => Ok(()),
        Err(e) => Err(e),
    }
}

/// Fails where the cell of a kind that belongs to `key` does not lie at its
/// derived address, or is not owned by the program, or may not be changed
/// though it has to.
pub fn require_initialized_cell(
    info: &Account,
    kind: CellKind,
    key: &Pubkey,
    program_id: &Pubkey,
    is_writable: bool,
) -> (r: Result<(), ProgramError>)
    ensures
        r == initialized_cell_check(info@, kind, key@, program_id@, is_writable),
{
    let derived = cell_address(kind, key, program_id);
    match require_initialized_pda_at(info, derived, program_id, is_writable) {
        Ok(_) => Ok(()),
        Err(e) => Err(e),
    }
}

/// Fails where the protocol's fee vault does not exist.
pub fn require_initialized_protocol_fees_vault(
    fees_vault: &Account,
    program_id: &Pubkey,
    is_writable: bool,
) -> (r: Result<(), ProgramError>)
    ensures
        r == initialized_cell_check(
            fees_vault@,
            CellKind::ProtocolFeesVault,
            program_id@,
            program_id@,
            is_writable,
        ),
{
    require_initialized_cell(
        fees_vault,
        CellKind::ProtocolFeesVault,
        program_id,
        program_id,
        is_writable,
    )
}

/// The validator's fee vault exists: the account lies at the address derived
/// for the validator, or the validator is not taken as an authority; and the
/// cell is owned by the program and may be changed where that is asked.
pub open spec fn validator_fees_vault_check(
    validator: AccountView,
    vault: AccountView,
    program_id: Seq<u8>,
    is_writable: bool,
) -> Result<(), ProgramError> {
    let derived = cell_address_of(CellKind::ValidatorFeesVault, validator.key, program_id);
    if derived is None || vault.key != derived->Some_0.0 {
        Err(custom(DlpError::InvalidAuthority))
    } else {
        initialized_cell_check(
            vault,
            CellKind::ValidatorFeesVault,
            validator.key,
            program_id,
            is_writable,
        )
    }
}

/// Fails where the validator's fee vault does not exist, or the account is
/// not the validator's vault.
pub fn require_initialized_validator_fees_vault(
    validator: &Account,
    validator_fees_vault: &Account,
    program_id: &Pubkey,
    is_writable: bool,
) -> (r: Result<(), ProgramError>)
    ensures
        r == validator_fees_vault_check(
            validator@,
            validator_fees_vault@,
            program_id@,
            is_writable,
        ),
{
    let derived = cell_address(CellKind::ValidatorFeesVault, &validator.key, program_id);
    match derived {
        None => {
            return Err(ProgramError::from(DlpError::InvalidAuthority));
        },
        Some((address, _)) => {
            if !pubkey_eq(&validator_fees_vault.key, &address) {
                return Err(ProgramError::from(DlpError::InvalidAuthority));
            }
        },
    }
    match require_initialized_pda_at(validator_fees_vault, derived, program_id, is_writable) {
        Ok(_) => Ok(()),
        Err(e) => Err(e),
    }
}

/// Whether the owning program has a configuration: the account lies at the
/// address derived for the program, or the check fails; the configuration
/// exists where the system program does not own the cell.
pub open spec fn program_config_check(
    program_config: AccountView,
    program: Seq<u8>,
    program_id: Seq<u8>,
    is_writable: bool,
) -> Result<bool, ProgramError> {
    let derived = cell_address_of(CellKind::ProgramConfig, program, program_id);
    if derived is None || program_config.key != derived->Some_0.0 {
        Err(custom(DlpError::InvalidAuthority))
    } else {
        match pda_check(program_config, derived, is_writable) {
            Err(e) => Err(e),
            Ok(_) => Ok(program_config.owner != system_id()),
        }
    }
}

/// Says whether the owning program has a configuration; fails where the
/// account is not the cell that would hold it.
pub fn require_program_config(
    program_config: &Account,
    program: &Pubkey,
    program_id: &Pubkey,
    is_writable: bool,
) -> (r: Result<bool, ProgramError>)
    ensures
        r == program_config_check(program_config@, program@, program_id@, is_writable),
{
    let derived = cell_address(CellKind::ProgramConfig, program, program_id);
    match derived {
        None => {
            return Err(ProgramError::from(DlpError::InvalidAuthority));
        },
        Some((address, _)) => {
            if !pubkey_eq(&program_config.key, &address) {
                return Err(ProgramError::from(DlpError::InvalidAuthority));
            }
        },
    }
    match require_pda_at(program_config, derived, is_writable) {
        Err(e) => Err(e),
        Ok(_) => {
            let system = system_program_id();
            Ok(!pubkey_eq(&program_config.owner, &system))
        },
    }
}

/// Fails where the delegation record of the delegated account does not exist.
pub fn require_initialized_delegation_record(
    delegated_account: &Account,
    delegation_record: &Account,
    program_id: &Pubkey,
    is_writable: bool,
) -> (r: Result<(), ProgramError>)
    ensures
        r == initialized_cell_check(
            delegation_record@,
            CellKind::DelegationRecord,
            delegated_account@.key,
            program_id@,
            is_writable,
        ),
{
    require_initialized_cell(
        delegation_record,
        CellKind::DelegationRecord,
        &delegated_account.key,
        program_id,
        is_writable,
    )
}

/// Fails where the delegation metadata of the delegated account does not
/// exist.
pub fn require_initialized_delegation_metadata(
    delegated_account: &Account,
    delegation_metadata: &Account,
    program_id: &Pubkey,
    is_writable: bool,
) -> (r: Result<(), ProgramError>)
    ensures
        r == initialized_cell_check(
            delegation_metadata@,
            CellKind::DelegationMetadata,
            delegated_account@.key,
            program_id@,
            is_writable,
        ),
{
    require_initialized_cell(
        delegation_metadata,
        CellKind::DelegationMetadata,
        &delegated_account.key,
        program_id,
        is_writable,
    )
}

/// Fails where the commit state of the delegated account does not exist.
pub fn require_initialized_commit_state(
    delegated_account: &Account,
    commit_state: &Account,
    program_id: &Pubkey,
    is_writable: bool,
) -> (r: Result<(), ProgramError>)
    ensures
        r == initialized_cell_check(
            commit_state@,
            CellKind::CommitState,
            delegated_account@.key,
            program_id@,
            is_writable,
        ),
{
    require_initialized_cell(
        commit_state,
        CellKind::CommitState,
        &delegated_account.key,
        program_id,
        is_writable,
    )
}

/// Fails where the commit record of the delegated account does not exist.
pub fn require_initialized_commit_record(
    delegated_account: &Account,
    commit_record: &Account,
    program_id: &Pubkey,
    is_writable: bool,
) -> (r: Result<(), ProgramError>)
    ensures
        r == initialized_cell_check(
            commit_record@,
            CellKind::CommitRecord,
            delegated_account@.key,
            program_id@,
            is_writable,
        ),
{
    require_initialized_cell(
        commit_record,
        CellKind::CommitRecord,
        &delegated_account.key,
        program_id,
        is_writable,
    )
}

/// The cell of a kind that belongs to `key` does not exist yet: the check
/// gives the bump seed of its address, or fails.
pub open spec fn uninitialized_cell_check(
    info: AccountView,
    kind: CellKind,
    key: Seq<u8>,
    program_id: Seq<u8>,
    is_writable: bool,
    ctx: RequireUninitializedAccountCtx,
) -> Result<u8, ProgramError> {
    uninitialized_pda_check(info, cell_address_of(kind, key, program_id), is_writable, ctx)
}

/// Fails where the cell of a kind that belongs to `key` does not lie at its
/// derived address, or exists already, or may not be changed though it has
/// to.
pub fn require_uninitialized_cell(
    info: &Account,
    kind: CellKind,
    key: &Pubkey,
    program_id: &Pubkey,
    is_writable: bool,
    ctx: RequireUninitializedAccountCtx,
) -> (r: Result<u8, ProgramError>)
    ensures
        r == uninitialized_cell_check(info@, kind, key@, program_id@, is_writable, ctx),
{
    let derived = cell_address(kind, key, program_id);
    require_uninitialized_pda_at(info, derived, is_writable, ctx)
}

/// The first result where it is a failure, else the second: what two checks
/// give that are made one after the other.
pub open spec fn and_then(first: Result<(), ProgramError>, second: Result<(), ProgramError>)
    -> Result<(), ProgramError> {
    if first is Err {
        first
    } else {
        second
    }
}

/// The check without what it gives on success.
pub open spec fn passes(check: Result<u8, ProgramError>) -> Result<(), ProgramError> {
    match check {
        Ok(_) => Ok(()),
        Err(e) => Err(e),
    }
}

/// The delegation record of the delegated account exists.
pub open spec fn delegation_record_check(
    record: AccountView,
    delegated: AccountView,
    program_id: Seq<u8>,
    is_writable: bool,
) -> Result<(), ProgramError> {
    initialized_cell_check(
        record,
        CellKind::DelegationRecord,
        delegated.key,
        program_id,
        is_writable,
    )
}

/// The delegation metadata of the delegated account exists.
pub open spec fn delegation_metadata_check(
    metadata: AccountView,
    delegated: AccountView,
    program_id: Seq<u8>,
    is_writable: bool,
) -> Result<(), ProgramError> {
    initialized_cell_check(
        metadata,
        CellKind::DelegationMetadata,
        delegated.key,
        program_id,
        is_writable,
    )
}

/// The protocol's fee vault exists.
pub open spec fn protocol_fees_vault_check(
    fees_vault: AccountView,
    program_id: Seq<u8>,
    is_writable: bool,
) -> Result<(), ProgramError> {
    initialized_cell_check(
        fees_vault,
        CellKind::ProtocolFeesVault,
        program_id,
        program_id,
        is_writable,
    )
}

/// The commit-state cell of the delegated account does not exist yet.
pub open spec fn no_commit_state_check(
    commit_state: AccountView,
    delegated: AccountView,
    program_id: Seq<u8>,
    is_writable: bool,
) -> Result<(), ProgramError> {
    passes(
        uninitialized_cell_check(
            commit_state,
            CellKind::CommitState,
            delegated.key,
            program_id,
            is_writable,
            RequireUninitializedAccountCtx::CommitStateAccount,
        ),
    )
}

/// The commit record of the delegated account does not exist yet.
pub open spec fn no_commit_record_check(
    commit_record: AccountView,
    delegated: AccountView,
    program_id: Seq<u8>,
    is_writable: bool,
) -> Result<(), ProgramError> {
    passes(
        uninitialized_cell_check(
            commit_record,
            CellKind::CommitRecord,
            delegated.key,
            program_id,
            is_writable,
            RequireUninitializedAccountCtx::CommitRecord,
        ),
    )
}

} // verus!
