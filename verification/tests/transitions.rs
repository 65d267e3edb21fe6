use dlp::account::{Account, Rent};
use dlp::error::{DlpError, ProgramError};
use dlp::pda::{cell_address, CellKind};
use dlp::processor::cells::{close_pda, close_pda_with_fees, create_pda};
use dlp::processor::checks::{
    is_uninitialized_account, require_initialized_pda, require_owned_pda, require_pda,
    require_program, require_signer, require_uninitialized_account, require_uninitialized_pda,
    RequireUninitializedAccountCtx,
};
use dlp::processor::commit_diff::{process_commit_diff, process_commit_diff_with_offset};
use dlp::processor::commit_state::process_commit_state;
use dlp::processor::commit_state_from_buffer::process_commit_state_from_buffer;
use dlp::processor::delegate::{process_delegate, DelegateEnv};
use dlp::processor::finalize::{process_finalize, settle_lamports_balance};
use dlp::processor::undelegate::{
    handback_instruction_data, process_undelegate, process_undelegate_after_handback,
    PendingHandback, UndelegateStep,
};
use dlp::pubkey::{
    find_program_address, is_on_curve, is_on_curve_fast, pubkey_eq, system_program_id, Pubkey,
};
use dlp::state::{CommitRecord, DelegationMetadata, DelegationRecord};

const PROGRAM: Pubkey = [7; 32];
const OWNER_PROGRAM: Pubkey = [9; 32];
const PAYER: Pubkey = [1; 32];
const VALIDATOR: Pubkey = [2; 32];
const DEFAULT_VALIDATOR: Pubkey = VALIDATOR;
const SYSTEM: Pubkey = [0; 32];
const RENT: Rent = Rent { lamports_per_byte: 10 };

fn rent_for(len: u64) -> u64 {
    (128 + len) * 10
}

fn custom(e: DlpError) -> ProgramError {
    ProgramError::from(e)
}

fn env() -> DelegateEnv {
    DelegateEnv { rent: RENT, slot: 42, default_validator: DEFAULT_VALIDATOR }
}

fn address(kind: CellKind, key: &Pubkey, program: &Pubkey) -> Pubkey {
    cell_address(kind, key, program).unwrap().0
}

fn delegated_key() -> Pubkey {
    find_program_address(&vec![b"test-pda".to_vec()], &OWNER_PROGRAM).unwrap().0
}

fn cell(key: Pubkey, owner: Pubkey, lamports: u64, data: Vec<u8>) -> Account {
    Account { key, owner, lamports, data, is_signer: false, is_writable: true, executable: false }
}

fn signer(key: Pubkey, lamports: u64) -> Account {
    Account {
        key,
        owner: SYSTEM,
        lamports,
        data: vec![],
        is_signer: true,
        is_writable: true,
        executable: false,
    }
}

fn system_program() -> Account {
    Account {
        key: SYSTEM,
        owner: [5; 32],
        lamports: 1,
        data: vec![],
        is_signer: false,
        is_writable: false,
        executable: true,
    }
}

fn owner_program() -> Account {
    Account {
        key: OWNER_PROGRAM,
        owner: [5; 32],
        lamports: 1,
        data: vec![],
        is_signer: false,
        is_writable: false,
        executable: true,
    }
}

fn same(a: &Account, b: &Account) -> bool {
    a.key == b.key
        && a.owner == b.owner
        && a.lamports == b.lamports
        && a.data == b.data
        && a.is_signer == b.is_signer
        && a.is_writable == b.is_writable
        && a.executable == b.executable
}

fn total(accounts: &[Account]) -> u128 {
    accounts.iter().map(|a| a.lamports as u128).sum()
}

fn delegate_args(seeds: Vec<Vec<u8>>, validator: Option<Pubkey>) -> Vec<u8> {
    borsh::to_vec(&(1000u32, seeds, validator)).unwrap()
}

fn delegate_accounts(state: Vec<u8>, buffered: Vec<u8>) -> Vec<Account> {
    let key = delegated_key();
    let mut delegated = cell(key, PROGRAM, 5_000, state);
    delegated.is_signer = true;
    vec![
        signer(PAYER, 1_000_000),
        delegated,
        owner_program(),
        cell(address(CellKind::DelegateBuffer, &key, &OWNER_PROGRAM), OWNER_PROGRAM, 900, buffered),
        cell(address(CellKind::DelegationRecord, &key, &PROGRAM), SYSTEM, 0, vec![]),
        cell(address(CellKind::DelegationMetadata, &key, &PROGRAM), SYSTEM, 0, vec![]),
        system_program(),
    ]
}

/// The accounts after a delegation: payer, delegated account, owning
/// program, buffer, delegation record, delegation metadata, system program.
fn delegated(validator: Option<Pubkey>) -> Vec<Account> {
    process_delegate(
        &PROGRAM,
        &delegate_accounts(vec![1, 2, 3, 4], vec![5, 6, 7, 8]),
        &delegate_args(vec![b"test-pda".to_vec()], validator),
        &env(),
    )
    .unwrap()
}

/// The accounts of a commit for what `delegated` gives: validator, delegated
/// account, commit state, commit record, delegation record, delegation
/// metadata, validator fee vault, program configuration, system program.
fn commit_accounts(after_delegate: &[Account]) -> Vec<Account> {
    let key = delegated_key();
    let mut delegated_account = after_delegate[1].duplicate();
    delegated_account.is_signer = false;
    vec![
        signer(VALIDATOR, 500_000),
        delegated_account,
        cell(address(CellKind::CommitState, &key, &PROGRAM), SYSTEM, 0, vec![]),
        cell(address(CellKind::CommitRecord, &key, &PROGRAM), SYSTEM, 0, vec![]),
        after_delegate[4].duplicate(),
        after_delegate[5].duplicate(),
        cell(address(CellKind::ValidatorFeesVault, &VALIDATOR, &PROGRAM), PROGRAM, 3_000, vec![]),
        cell(address(CellKind::ProgramConfig, &OWNER_PROGRAM, &PROGRAM), SYSTEM, 0, vec![]),
        system_program(),
    ]
}

fn commit_args(nonce: u64, lamports: u64, allow_undelegation: bool, data: Vec<u8>) -> Vec<u8> {
    borsh::to_vec(&(nonce, lamports, allow_undelegation, data)).unwrap()
}

/// The accounts of a finalization for what a commit gives: validator,
/// delegated account, commit state, commit record, delegation record,
/// delegation metadata, validator fee vault, system program, protocol fee
/// vault.
fn finalize_accounts(after_commit: &[Account]) -> Vec<Account> {
    let mut accounts: Vec<Account> = after_commit[..7].iter().map(|a| a.duplicate()).collect();
    accounts.push(system_program());
    accounts.push(cell(address(CellKind::ProtocolFeesVault, &PROGRAM, &PROGRAM), PROGRAM, 11, vec![]));
    accounts
}

/// The accounts of the next commit for what a finalization gives.
fn next_commit_accounts(after_finalize: &[Account]) -> Vec<Account> {
    let mut accounts: Vec<Account> = after_finalize[..7].iter().map(|a| a.duplicate()).collect();
    accounts.push(cell(
        address(CellKind::ProgramConfig, &OWNER_PROGRAM, &PROGRAM),
        SYSTEM,
        0,
        vec![],
    ));
    accounts.push(system_program());
    accounts
}

/// The accounts of an undelegation for what a finalization gives: validator,
/// delegated account, owning program, undelegate buffer, commit state, commit
/// record, delegation record, delegation metadata, payer of the delegation,
/// protocol fee vault, validator fee vault, system program.
fn undelegate_accounts(after_finalize: &[Account]) -> Vec<Account> {
    let key = delegated_key();
    vec![
        after_finalize[0].duplicate(),
        after_finalize[1].duplicate(),
        owner_program(),
        cell(address(CellKind::UndelegateBuffer, &key, &PROGRAM), SYSTEM, 0, vec![]),
        after_finalize[2].duplicate(),
        after_finalize[3].duplicate(),
        after_finalize[4].duplicate(),
        after_finalize[5].duplicate(),
        cell(PAYER, SYSTEM, 70, vec![]),
        cell(address(CellKind::ProtocolFeesVault, &PROGRAM, &PROGRAM), PROGRAM, 11, vec![]),
        after_finalize[6].duplicate(),
        system_program(),
    ]
}

fn committed_and_finalized(allow_undelegation: bool, state: Vec<u8>) -> Vec<Account> {
    let after_delegate = delegated(None);
    let after_commit = process_commit_state(
        &PROGRAM,
        &commit_accounts(&after_delegate),
        &commit_args(1, 5_000, allow_undelegation, state),
        &RENT,
    )
    .unwrap();
    process_finalize(&PROGRAM, &finalize_accounts(&after_commit), &[]).unwrap()
}

#[test]
fn derived_addresses_are_those_of_the_ledger() {
    let key = delegated_key();
    let expected = solana_program::pubkey::Pubkey::find_program_address(
        &[b"test-pda"],
        &solana_program::pubkey::Pubkey::new_from_array(OWNER_PROGRAM),
    );
    assert_eq!(key, expected.0.to_bytes());
    let (record, bump) = cell_address(CellKind::DelegationRecord, &key, &PROGRAM).unwrap();
    let expected = solana_program::pubkey::Pubkey::find_program_address(
        &[b"delegation", &key],
        &solana_program::pubkey::Pubkey::new_from_array(PROGRAM),
    );
    assert_eq!(record, expected.0.to_bytes());
    assert_eq!(bump, expected.1);
    assert_ne!(record, key);
    let (vault, _) = cell_address(CellKind::ProtocolFeesVault, &key, &PROGRAM).unwrap();
    let expected = solana_program::pubkey::Pubkey::find_program_address(
        &[b"fees-vault"],
        &solana_program::pubkey::Pubkey::new_from_array(PROGRAM),
    );
    assert_eq!(vault, expected.0.to_bytes());
    assert_eq!(find_program_address(&vec![vec![0u8; 33]], &PROGRAM), None);
    assert!(!is_on_curve(&key));
    assert!(!is_on_curve_fast(&record));
    let on_curve: Pubkey = [
        0x58, 0x66, 0x66, 0x66, 0x66, 0x66, 0x66, 0x66, 0x66, 0x66, 0x66, 0x66, 0x66, 0x66, 0x66,
        0x66, 0x66, 0x66, 0x66, 0x66, 0x66, 0x66, 0x66, 0x66, 0x66, 0x66, 0x66, 0x66, 0x66, 0x66,
        0x66, 0x66,
    ];
    assert!(is_on_curve(&on_curve));
    assert!(is_on_curve_fast(&on_curve));
    assert!(pubkey_eq(&SYSTEM, &system_program_id()));
    assert!(!pubkey_eq(&key, &record));
}

#[test]
fn account_checks() {
    let key = delegated_key();
    let record = address(CellKind::DelegationRecord, &key, &PROGRAM);
    let seeds = vec![b"delegation".to_vec(), key.to_vec()];
    let mut account = cell(record, PROGRAM, 5, vec![1]);
    assert_eq!(require_owned_pda(&account, &PROGRAM, "record"), Ok(()));
    assert_eq!(
        require_owned_pda(&account, &SYSTEM, "record"),
        Err(ProgramError::InvalidAccountOwner)
    );
    assert_eq!(require_signer(&account, "record"), Err(ProgramError::MissingRequiredSignature));
    assert_eq!(require_signer(&signer(PAYER, 1), "payer"), Ok(()));
    let bump = cell_address(CellKind::DelegationRecord, &key, &PROGRAM).unwrap().1;
    assert_eq!(require_pda(&account, &seeds, &PROGRAM, true, "record"), Ok(bump));
    assert_eq!(require_initialized_pda(&account, &seeds, &PROGRAM, true, "record"), Ok(bump));
    assert_eq!(
        require_pda(&account, &seeds, &OWNER_PROGRAM, true, "record"),
        Err(ProgramError::InvalidSeeds)
    );
    assert_eq!(
        require_uninitialized_pda(
            &account,
            &seeds,
            &PROGRAM,
            true,
            RequireUninitializedAccountCtx::DelegationRecord
        ),
        Err(custom(DlpError::DelegationRecordInvalidAccountOwner))
    );
    assert_eq!(
        require_uninitialized_pda(
            &account,
            &vec![b"other".to_vec()],
            &PROGRAM,
            true,
            RequireUninitializedAccountCtx::CommitRecord
        ),
        Err(custom(DlpError::CommitRecordInvalidSeeds))
    );
    account.is_writable = false;
    assert_eq!(require_pda(&account, &seeds, &PROGRAM, true, "record"), Err(ProgramError::Immutable));
    assert_eq!(require_pda(&account, &seeds, &PROGRAM, false, "record"), Ok(bump));
    assert_eq!(
        require_initialized_pda(&account, &seeds, &PROGRAM, true, "record"),
        Err(ProgramError::Immutable)
    );
    account.owner = SYSTEM;
    assert_eq!(
        require_initialized_pda(&account, &seeds, &PROGRAM, false, "record"),
        Err(ProgramError::InvalidAccountOwner)
    );
    assert!(!is_uninitialized_account(&account));
    assert_eq!(
        require_uninitialized_account(&account, false, RequireUninitializedAccountCtx::CommitStateAccount),
        Err(custom(DlpError::CommitStateAlreadyInitialized))
    );
    account.data = vec![];
    assert!(is_uninitialized_account(&account));
    assert_eq!(
        require_uninitialized_account(&account, true, RequireUninitializedAccountCtx::UndelegateBuffer),
        Err(custom(DlpError::UndelegateBufferImmutable))
    );
    assert_eq!(
        require_uninitialized_account(&account, false, RequireUninitializedAccountCtx::UndelegateBuffer),
        Ok(())
    );
    assert_eq!(
        require_uninitialized_pda(
            &account,
            &seeds,
            &PROGRAM,
            false,
            RequireUninitializedAccountCtx::DelegationRecord
        ),
        Ok(bump)
    );
    assert_eq!(require_program(&system_program(), &SYSTEM, "system"), Ok(()));
    assert_eq!(
        require_program(&system_program(), &PROGRAM, "system"),
        Err(ProgramError::IncorrectProgramId)
    );
    assert_eq!(
        require_program(&signer(SYSTEM, 1), &SYSTEM, "system"),
        Err(ProgramError::InvalidAccountData)
    );
    assert_eq!(RequireUninitializedAccountCtx::CommitRecord.label(), "commit record");
}

#[test]
fn rent_is_charged_by_the_byte() {
    assert_eq!(RENT.minimum_balance(0), Some(1_280));
    assert_eq!(RENT.minimum_balance(96), Some(2_240));
    assert_eq!(Rent { lamports_per_byte: 6_960 }.minimum_balance(100), Some(1_586_880));
    assert_eq!(Rent { lamports_per_byte: u64::MAX }.minimum_balance(0), None);
    assert_eq!(Rent { lamports_per_byte: 0 }.minimum_balance(usize::MAX), Some(0));
}

#[test]
fn cells_are_created_at_the_payers_cost() {
    let mut target = cell([8; 32], SYSTEM, 0, vec![]);
    let mut payer = signer(PAYER, 10_000);
    assert_eq!(create_pda(&mut target, &PROGRAM, 5, &mut payer, &RENT), Ok(()));
    assert_eq!(target.lamports, 1_330);
    assert_eq!(target.data, vec![0; 5]);
    assert_eq!(target.owner, PROGRAM);
    assert_eq!(payer.lamports, 10_000 - 1_330);

    // What the cell holds already counts towards its rent.
    let mut target = cell([8; 32], SYSTEM, 1_000, vec![]);
    let mut payer = signer(PAYER, 10_000);
    assert_eq!(create_pda(&mut target, &PROGRAM, 5, &mut payer, &RENT), Ok(()));
    assert_eq!(target.lamports, 1_330);
    assert_eq!(payer.lamports, 10_000 - 330);

    let mut target = cell([8; 32], SYSTEM, 2_000, vec![]);
    let mut payer = signer(PAYER, 0);
    assert_eq!(create_pda(&mut target, &PROGRAM, 5, &mut payer, &RENT), Ok(()));
    assert_eq!(target.lamports, 2_000);
    assert_eq!(payer.lamports, 0);
}

#[test]
fn cells_are_not_created_twice_nor_without_funds() {
    let mut target = cell([8; 32], PROGRAM, 0, vec![]);
    let mut payer = signer(PAYER, 10_000);
    assert_eq!(
        create_pda(&mut target, &PROGRAM, 5, &mut payer, &RENT),
        Err(ProgramError::AccountAlreadyInitialized)
    );
    let mut target = cell([8; 32], SYSTEM, 0, vec![1]);
    assert_eq!(
        create_pda(&mut target, &PROGRAM, 5, &mut payer, &RENT),
        Err(ProgramError::AccountAlreadyInitialized)
    );
    let mut target = cell([8; 32], SYSTEM, 0, vec![]);
    let mut poor = signer(PAYER, 1_329);
    assert_eq!(
        create_pda(&mut target, &PROGRAM, 5, &mut poor, &RENT),
        Err(ProgramError::InsufficientFunds)
    );
    assert_eq!(poor.lamports, 1_329);
    assert_eq!(target.lamports, 0);
    assert_eq!(
        create_pda(&mut target, &PROGRAM, 5, &mut payer, &Rent { lamports_per_byte: u64::MAX }),
        Err(ProgramError::ArithmeticOverflow)
    );
}

#[test]
fn a_closed_cell_goes_back_to_the_system_program() {
    let mut target = cell([8; 32], PROGRAM, 700, vec![1, 2, 3]);
    let mut destination = signer(PAYER, 50);
    assert_eq!(close_pda(&mut target, &mut destination), Ok(()));
    assert_eq!(target.lamports, 0);
    assert_eq!(target.owner, SYSTEM);
    assert!(target.data.is_empty());
    assert_eq!(destination.lamports, 750);
    let mut target = cell([8; 32], PROGRAM, 700, vec![1, 2, 3]);
    let mut full = signer(PAYER, u64::MAX - 699);
    assert_eq!(close_pda(&mut target, &mut full), Err(ProgramError::ArithmeticOverflow));
    assert_eq!(target.lamports, 700);
    assert_eq!(target.data, vec![1, 2, 3]);
}

#[test]
fn fees_of_a_closed_cell_are_tiered() {
    let mut target = cell([8; 32], PROGRAM, 1_000, vec![1, 2, 3]);
    let mut destination = signer(PAYER, 5);
    let mut vaults = vec![cell([10; 32], PROGRAM, 1, vec![]), cell([11; 32], PROGRAM, 2, vec![])];
    assert_eq!(close_pda_with_fees(&mut target, &mut destination, &mut vaults, 10), Ok(()));
    // 10% of 1000 is 100; 10% of that is 10, which the first vault passes on.
    assert_eq!(vaults[0].lamports, 1 + 90);
    assert_eq!(vaults[1].lamports, 2 + 10);
    assert_eq!(destination.lamports, 5 + 900);
    assert_eq!(target.lamports, 0);
    assert_eq!(target.owner, SYSTEM);
    assert!(target.data.is_empty());

    let mut target = cell([8; 32], PROGRAM, 999, vec![]);
    let mut destination = signer(PAYER, 0);
    let mut vaults = vec![
        cell([10; 32], PROGRAM, 0, vec![]),
        cell([11; 32], PROGRAM, 0, vec![]),
        cell([12; 32], PROGRAM, 0, vec![]),
    ];
    assert_eq!(close_pda_with_fees(&mut target, &mut destination, &mut vaults, 50), Ok(()));
    // The tiers are 499, 249 and 124.
    assert_eq!(vaults[0].lamports, 250);
    assert_eq!(vaults[1].lamports, 125);
    assert_eq!(vaults[2].lamports, 124);
    assert_eq!(destination.lamports, 500);

    let mut target = cell([8; 32], PROGRAM, 1_000, vec![]);
    let mut destination = signer(PAYER, 0);
    let mut one = vec![cell([10; 32], PROGRAM, 0, vec![])];
    assert_eq!(close_pda_with_fees(&mut target, &mut destination, &mut one, 100), Ok(()));
    assert_eq!(one[0].lamports, 1_000);
    assert_eq!(destination.lamports, 0);
}

#[test]
fn fees_are_refused_without_a_vault_or_beyond_a_hundred_percent() {
    let mut target = cell([8; 32], PROGRAM, 1_000, vec![1]);
    let mut destination = signer(PAYER, 5);
    let mut none: Vec<Account> = vec![];
    assert_eq!(
        close_pda_with_fees(&mut target, &mut destination, &mut none, 10),
        Err(ProgramError::InvalidArgument)
    );
    let mut vaults = vec![cell([10; 32], PROGRAM, 1, vec![])];
    assert_eq!(
        close_pda_with_fees(&mut target, &mut destination, &mut vaults, 101),
        Err(ProgramError::InvalidArgument)
    );
    let mut rich = cell([8; 32], PROGRAM, u64::MAX, vec![1]);
    assert_eq!(
        close_pda_with_fees(&mut rich, &mut destination, &mut vaults, 10),
        Err(ProgramError::InsufficientFunds)
    );
    let mut full = vec![cell([10; 32], PROGRAM, u64::MAX, vec![])];
    assert_eq!(
        close_pda_with_fees(&mut target, &mut destination, &mut full, 10),
        Err(ProgramError::InsufficientFunds)
    );
    let mut full_destination = signer(PAYER, u64::MAX);
    assert_eq!(
        close_pda_with_fees(&mut target, &mut full_destination, &mut vaults, 10),
        Err(ProgramError::InsufficientFunds)
    );
    assert_eq!(target.lamports, 1_000);
    assert_eq!(vaults[0].lamports, 1);
    assert_eq!(destination.lamports, 5);
}

#[test]
fn delegate_writes_the_record_and_the_metadata() {
    let before = delegate_accounts(vec![1, 2, 3, 4], vec![5, 6, 7, 8]);
    let after = delegated(None);
    assert_eq!(after.len(), 7);
    let record = DelegationRecord::try_from_bytes_with_discriminator(&after[4].data).unwrap();
    assert_eq!(record.owner, OWNER_PROGRAM);
    assert_eq!(record.authority, DEFAULT_VALIDATOR);
    assert_eq!(record.commit_frequency_ms, 1000);
    assert_eq!(record.delegation_slot, 42);
    assert_eq!(record.lamports, 5_000);
    let metadata = DelegationMetadata::try_from_bytes_with_discriminator(&after[5].data).unwrap();
    assert_eq!(metadata.last_update_nonce, 0);
    assert!(!metadata.is_undelegatable);
    assert_eq!(metadata.seeds, vec![b"test-pda".to_vec()]);
    assert_eq!(metadata.rent_payer, PAYER);
    assert_eq!(after[4].owner, PROGRAM);
    assert_eq!(after[5].owner, PROGRAM);
    assert_eq!(after[4].lamports, rent_for(96));
    assert_eq!(after[5].lamports, rent_for(after[5].data.len() as u64));
    assert_eq!(after[5].data.len(), 8 + 8 + 1 + 4 + 4 + 8 + 32);
    assert_eq!(after[0].lamports, 1_000_000 - after[4].lamports - after[5].lamports);
    // The bytes in the buffer become the account's.
    assert_eq!(after[1].data, vec![5, 6, 7, 8]);
    assert_eq!(after[1].lamports, 5_000);
    assert!(same(&after[2], &before[2]));
    assert!(same(&after[3], &before[3]));
    assert!(same(&after[6], &before[6]));
    assert_eq!(total(&after), total(&before));
}

#[test]
fn delegate_takes_the_named_validator_and_leaves_the_bytes_without_a_buffer() {
    let after = process_delegate(
        &PROGRAM,
        &delegate_accounts(vec![1, 2, 3, 4], vec![]),
        &delegate_args(vec![b"test-pda".to_vec()], Some(VALIDATOR)),
        &env(),
    )
    .unwrap();
    let record = DelegationRecord::try_from_bytes_with_discriminator(&after[4].data).unwrap();
    assert_eq!(record.authority, VALIDATOR);
    assert_eq!(after[1].data, vec![1, 2, 3, 4]);
}

#[test]
fn delegate_refusals() {
    let args = delegate_args(vec![b"test-pda".to_vec()], None);
    let good = || delegate_accounts(vec![1, 2, 3, 4], vec![5, 6, 7, 8]);
    let run = |accounts: &[Account], data: &[u8]| process_delegate(&PROGRAM, accounts, data, &env()).err();

    assert_eq!(run(&good()[..6], &args), Some(ProgramError::NotEnoughAccountKeys));
    let mut accounts = good();
    accounts.push(system_program());
    assert_eq!(run(&accounts, &args), Some(ProgramError::NotEnoughAccountKeys));

    let mut accounts = good();
    accounts[1].owner = OWNER_PROGRAM;
    assert_eq!(run(&accounts, &args), Some(ProgramError::InvalidAccountOwner));
    let mut accounts = good();
    accounts[0].is_signer = false;
    assert_eq!(run(&accounts, &args), Some(ProgramError::MissingRequiredSignature));
    let mut accounts = good();
    accounts[1].is_signer = false;
    assert_eq!(run(&accounts, &args), Some(ProgramError::MissingRequiredSignature));
    let mut accounts = good();
    accounts[3].key = [4; 32];
    assert_eq!(run(&accounts, &args), Some(ProgramError::InvalidSeeds));
    let mut accounts = good();
    accounts[3].is_writable = false;
    assert_eq!(run(&accounts, &args), Some(ProgramError::Immutable));
    let mut accounts = good();
    accounts[4].key = [4; 32];
    assert_eq!(run(&accounts, &args), Some(custom(DlpError::DelegationRecordInvalidSeeds)));
    let mut accounts = good();
    accounts[4].data = vec![1];
    assert_eq!(run(&accounts, &args), Some(custom(DlpError::DelegationRecordAlreadyInitialized)));
    let mut accounts = good();
    accounts[4].is_writable = false;
    assert_eq!(run(&accounts, &args), Some(custom(DlpError::DelegationRecordImmutable)));
    let mut accounts = good();
    accounts[4].owner = PROGRAM;
    assert_eq!(run(&accounts, &args), Some(custom(DlpError::DelegationRecordInvalidAccountOwner)));
    let mut accounts = good();
    accounts[5].key = [4; 32];
    assert_eq!(run(&accounts, &args), Some(custom(DlpError::DelegationMetadataInvalidSeeds)));
    let mut accounts = good();
    accounts[5].data = vec![1];
    assert_eq!(
        run(&accounts, &args),
        Some(custom(DlpError::DelegationMetadataAlreadyInitialized))
    );
    let mut accounts = good();
    accounts[5].owner = PROGRAM;
    assert_eq!(run(&accounts, &args), Some(custom(DlpError::DelegationMetadataInvalidAccountOwner)));
    let mut accounts = good();
    accounts[5].is_writable = false;
    assert_eq!(run(&accounts, &args), Some(custom(DlpError::DelegationMetadataImmutable)));

    assert_eq!(run(&good(), &args[..5]), Some(ProgramError::InvalidInstructionData));
    assert_eq!(
        run(&good(), &delegate_args(vec![], None)),
        Some(custom(DlpError::TooManySeeds))
    );
    assert_eq!(
        run(&good(), &delegate_args(vec![vec![1]; 5], None)),
        Some(custom(DlpError::TooManySeeds))
    );
    assert_eq!(
        run(&good(), &delegate_args(vec![b"other".to_vec()], None)),
        Some(ProgramError::InvalidSeeds)
    );
    assert_eq!(
        run(&good(), &delegate_args(vec![vec![1; 33]], None)),
        Some(ProgramError::InvalidSeeds)
    );
    let mut accounts = good();
    accounts[0].lamports = rent_for(96) - 1;
    assert_eq!(run(&accounts, &args), Some(ProgramError::InsufficientFunds));
    let mut accounts = good();
    accounts[3].data = vec![1, 2, 3];
    assert_eq!(run(&accounts, &args), Some(ProgramError::InvalidAccountData));
}

#[test]
fn delegate_checks_no_seeds_for_an_address_on_the_curve() {
    let on_curve: Pubkey = [
        0x58, 0x66, 0x66, 0x66, 0x66, 0x66, 0x66, 0x66, 0x66, 0x66, 0x66, 0x66, 0x66, 0x66, 0x66,
        0x66, 0x66, 0x66, 0x66, 0x66, 0x66, 0x66, 0x66, 0x66, 0x66, 0x66, 0x66, 0x66, 0x66, 0x66,
        0x66, 0x66,
    ];
    let mut delegated_account = cell(on_curve, PROGRAM, 5_000, vec![]);
    delegated_account.is_signer = true;
    let accounts = vec![
        signer(PAYER, 1_000_000),
        delegated_account,
        owner_program(),
        cell(address(CellKind::DelegateBuffer, &on_curve, &OWNER_PROGRAM), OWNER_PROGRAM, 0, vec![]),
        cell(address(CellKind::DelegationRecord, &on_curve, &PROGRAM), SYSTEM, 0, vec![]),
        cell(address(CellKind::DelegationMetadata, &on_curve, &PROGRAM), SYSTEM, 0, vec![]),
        system_program(),
    ];
    let after = process_delegate(&PROGRAM, &accounts, &delegate_args(vec![], None), &env()).unwrap();
    let metadata = DelegationMetadata::try_from_bytes_with_discriminator(&after[5].data).unwrap();
    assert!(metadata.seeds.is_empty());
}

#[test]
fn delegate_derives_an_escrow_account_under_the_program() {
    let key = find_program_address(&vec![b"balance".to_vec()], &PROGRAM).unwrap().0;
    let mut delegated_account = cell(key, PROGRAM, 5_000, vec![]);
    delegated_account.is_signer = true;
    let mut system_owner = system_program();
    system_owner.key = SYSTEM;
    let accounts = vec![
        signer(PAYER, 1_000_000),
        delegated_account,
        system_owner,
        cell(address(CellKind::DelegateBuffer, &key, &SYSTEM), SYSTEM, 0, vec![]),
        cell(address(CellKind::DelegationRecord, &key, &PROGRAM), SYSTEM, 0, vec![]),
        cell(address(CellKind::DelegationMetadata, &key, &PROGRAM), SYSTEM, 0, vec![]),
        system_program(),
    ];
    let args = delegate_args(vec![b"balance".to_vec()], None);
    let after = process_delegate(&PROGRAM, &accounts, &args, &env()).unwrap();
    let record = DelegationRecord::try_from_bytes_with_discriminator(&after[4].data).unwrap();
    assert_eq!(record.owner, SYSTEM);
}

#[test]
fn commit_puts_the_state_and_the_record_into_their_cells() {
    let after_delegate = delegated(None);
    let before = commit_accounts(&after_delegate);
    let after = process_commit_state(
        &PROGRAM,
        &before,
        &commit_args(1, 5_000, false, vec![9, 9, 9, 9, 9, 9]),
        &RENT,
    )
    .unwrap();
    assert_eq!(after.len(), 9);
    assert_eq!(after[2].data, vec![9, 9, 9, 9, 9, 9]);
    assert_eq!(after[2].owner, PROGRAM);
    assert_eq!(after[2].lamports, rent_for(6));
    let record = CommitRecord::try_from_bytes_with_discriminator(&after[3].data).unwrap();
    assert_eq!(record.identity, VALIDATOR);
    assert_eq!(record.account, delegated_key());
    assert_eq!(record.nonce, 1);
    assert_eq!(record.lamports, 5_000);
    assert_eq!(after[3].owner, PROGRAM);
    assert_eq!(after[3].lamports, rent_for(88));
    assert_eq!(after[0].lamports, 500_000 - rent_for(6) - rent_for(88));
    // The delegated account stays as it is until the commit is finalized.
    assert!(same(&after[1], &before[1]));
    assert!(same(&after[4], &before[4]));
    assert!(same(&after[5], &before[5]));
    assert!(same(&after[6], &before[6]));
    assert!(same(&after[7], &before[7]));
    assert!(same(&after[8], &before[8]));
    assert_eq!(total(&after), total(&before));
}

#[test]
fn commit_takes_collateral_for_a_higher_balance() {
    let after_delegate = delegated(None);
    let before = commit_accounts(&after_delegate);
    let after =
        process_commit_state(&PROGRAM, &before, &commit_args(1, 5_300, false, vec![1]), &RENT)
            .unwrap();
    // The 300 that the validator deposits count towards the rent of the cell.
    assert_eq!(after[2].lamports, rent_for(1));
    assert_eq!(after[0].lamports, 500_000 - rent_for(1) - rent_for(88));
    let after = process_commit_state(
        &PROGRAM,
        &before,
        &commit_args(1, 5_000 + 2_000, false, vec![1]),
        &RENT,
    )
    .unwrap();
    // More than the rent stays in the cell as it was deposited.
    assert_eq!(after[2].lamports, 2_000);
    assert_eq!(after[0].lamports, 500_000 - 2_000 - rent_for(88));
    let mut poor = commit_accounts(&after_delegate);
    poor[0].lamports = 1_999;
    assert_eq!(
        process_commit_state(&PROGRAM, &poor, &commit_args(1, 7_000, false, vec![1]), &RENT).err(),
        Some(ProgramError::InsufficientFunds)
    );
}

#[test]
fn commit_out_of_order_is_refused() {
    let after_delegate = delegated(None);
    let accounts = commit_accounts(&after_delegate);
    let after_first =
        process_commit_state(&PROGRAM, &accounts, &commit_args(1, 5_000, false, vec![1]), &RENT)
            .unwrap();
    // The next commit skips a nonce.
    let second =
        process_commit_state(&PROGRAM, &after_first, &commit_args(3, 5_000, false, vec![1]), &RENT);
    assert_eq!(second.err(), Some(ProgramError::from(DlpError::NonceOutOfOrder)));
    assert_eq!(ProgramError::from(DlpError::NonceOutOfOrder), ProgramError::Custom(12));
    for nonce in [0u64, 2, 3, u64::MAX] {
        for allow in [false, true] {
            for lamports in [0u64, 5_000, 9_000] {
                assert_eq!(
                    process_commit_state(
                        &PROGRAM,
                        &accounts,
                        &commit_args(nonce, lamports, allow, vec![1, 2]),
                        &RENT
                    )
                    .err(),
                    Some(ProgramError::Custom(12))
                );
            }
        }
    }
}

#[test]
fn commits_follow_one_another_by_one() {
    let mut accounts = commit_accounts(&delegated(None));
    for nonce in 1..5u64 {
        let state = vec![nonce as u8; nonce as usize];
        let after_commit = process_commit_state(
            &PROGRAM,
            &accounts,
            &commit_args(nonce, 5_000, false, state.clone()),
            &RENT,
        )
        .unwrap();
        // A second commit before the first is finalized finds the cells taken.
        assert_eq!(
            process_commit_state(
                &PROGRAM,
                &after_commit,
                &commit_args(nonce, 5_000, false, state.clone()),
                &RENT
            )
            .err(),
            Some(custom(DlpError::CommitStateInvalidAccountOwner))
        );
        let after_finalize =
            process_finalize(&PROGRAM, &finalize_accounts(&after_commit), &[]).unwrap();
        assert_eq!(after_finalize[1].data, state);
        let metadata =
            DelegationMetadata::try_from_bytes_with_discriminator(&after_finalize[5].data).unwrap();
        assert_eq!(metadata.last_update_nonce, nonce);
        accounts = next_commit_accounts(&after_finalize);
        assert_eq!(
            process_commit_state(
                &PROGRAM,
                &accounts,
                &commit_args(nonce, 5_000, false, state),
                &RENT
            )
            .err(),
            Some(ProgramError::Custom(12))
        );
    }
}

#[test]
fn no_commit_follows_the_mark_for_undelegation() {
    let after_finalize = committed_and_finalized(true, vec![1, 2]);
    let metadata =
        DelegationMetadata::try_from_bytes_with_discriminator(&after_finalize[5].data).unwrap();
    assert!(metadata.is_undelegatable);
    assert_eq!(metadata.last_update_nonce, 1);
    let accounts = next_commit_accounts(&after_finalize);
    for allow in [false, true] {
        assert_eq!(
            process_commit_state(&PROGRAM, &accounts, &commit_args(2, 5_000, allow, vec![3]), &RENT)
                .err(),
            Some(ProgramError::from(DlpError::AlreadyUndelegated))
        );
    }
    assert_eq!(ProgramError::from(DlpError::AlreadyUndelegated), ProgramError::Custom(11));
    assert_eq!(
        process_commit_state(&PROGRAM, &accounts, &commit_args(3, 5_000, false, vec![3]), &RENT)
            .err(),
        Some(ProgramError::Custom(12))
    );
}

#[test]
fn commit_refusals() {
    let after_delegate = delegated(Some(VALIDATOR));
    let good = || commit_accounts(&after_delegate);
    let args = commit_args(1, 5_000, false, vec![1, 2, 3]);
    let run = |accounts: &[Account], data: &[u8]| {
        process_commit_state(&PROGRAM, accounts, data, &RENT).err()
    };
    assert!(process_commit_state(&PROGRAM, &good(), &args, &RENT).is_ok());

    assert_eq!(run(&good(), &args[..10]), Some(ProgramError::BorshIoError));
    assert_eq!(run(&good()[..8], &args), Some(ProgramError::NotEnoughAccountKeys));
    let mut accounts = good();
    accounts[1].owner = OWNER_PROGRAM;
    assert_eq!(run(&accounts, &args), Some(ProgramError::InvalidAccountOwner));
    let mut accounts = good();
    accounts[0].is_signer = false;
    assert_eq!(run(&accounts, &args), Some(ProgramError::MissingRequiredSignature));
    let mut accounts = good();
    accounts[4].key = [4; 32];
    assert_eq!(run(&accounts, &args), Some(ProgramError::InvalidSeeds));
    let mut accounts = good();
    accounts[5].is_writable = false;
    assert_eq!(run(&accounts, &args), Some(ProgramError::Immutable));
    let mut accounts = good();
    accounts[6].key = [4; 32];
    assert_eq!(run(&accounts, &args), Some(custom(DlpError::InvalidAuthority)));
    let mut accounts = good();
    accounts[6].owner = SYSTEM;
    assert_eq!(run(&accounts, &args), Some(ProgramError::InvalidAccountOwner));
    let mut accounts = good();
    accounts[5].data[0] = 0;
    assert_eq!(run(&accounts, &args), Some(ProgramError::InvalidAccountData));
    let mut accounts = good();
    accounts[4].data[0] = 0;
    assert_eq!(run(&accounts, &args), Some(ProgramError::InvalidAccountData));
    let mut accounts = good();
    accounts[1].lamports = 4_999;
    assert_eq!(run(&accounts, &args), Some(custom(DlpError::InvalidDelegatedState)));
    let mut accounts = good();
    accounts[7].key = [4; 32];
    assert_eq!(run(&accounts, &args), Some(custom(DlpError::InvalidAuthority)));
    let mut accounts = good();
    accounts[2].key = [4; 32];
    assert_eq!(run(&accounts, &args), Some(custom(DlpError::CommitStateInvalidSeeds)));
    let mut accounts = good();
    accounts[2].data = vec![1];
    assert_eq!(run(&accounts, &args), Some(custom(DlpError::CommitStateAlreadyInitialized)));
    let mut accounts = good();
    accounts[2].is_writable = false;
    assert_eq!(run(&accounts, &args), Some(custom(DlpError::CommitStateImmutable)));
    let mut accounts = good();
    accounts[3].key = [4; 32];
    assert_eq!(run(&accounts, &args), Some(custom(DlpError::CommitRecordInvalidSeeds)));
    let mut accounts = good();
    accounts[3].owner = PROGRAM;
    assert_eq!(run(&accounts, &args), Some(custom(DlpError::CommitRecordInvalidAccountOwner)));
    let mut accounts = good();
    accounts[3].data = vec![1];
    assert_eq!(run(&accounts, &args), Some(custom(DlpError::CommitRecordAlreadyInitialized)));
    let mut accounts = good();
    accounts[3].is_writable = false;
    assert_eq!(run(&accounts, &args), Some(custom(DlpError::CommitRecordImmutable)));
    let mut accounts = good();
    accounts[0].lamports = rent_for(3) + rent_for(88) - 1;
    assert_eq!(run(&accounts, &args), Some(ProgramError::InsufficientFunds));
}

#[test]
fn commit_is_for_the_authority_or_for_anyone() {
    let args = commit_args(1, 5_000, false, vec![1]);
    let named = delegated(Some(VALIDATOR));
    assert!(process_commit_state(&PROGRAM, &commit_accounts(&named), &args, &RENT).is_ok());
    let other = delegated(Some([6; 32]));
    assert_eq!(
        process_commit_state(&PROGRAM, &commit_accounts(&other), &args, &RENT).err(),
        Some(custom(DlpError::InvalidAuthority))
    );
    let open = delegated(Some(SYSTEM));
    assert!(process_commit_state(&PROGRAM, &commit_accounts(&open), &args, &RENT).is_ok());
    // Where the delegation names no validator, the default one is the authority.
    assert_eq!(
        process_commit_state(&PROGRAM, &commit_accounts(&delegated(None)), &args, &RENT).err(),
        None
    );
    let mut other_validator = commit_accounts(&delegated(None));
    other_validator[0].key = [6; 32];
    other_validator[6].key = address(CellKind::ValidatorFeesVault, &[6; 32], &PROGRAM);
    assert_eq!(
        process_commit_state(&PROGRAM, &other_validator, &args, &RENT).err(),
        Some(custom(DlpError::InvalidAuthority))
    );
}

#[test]
fn commit_asks_the_allow_list_where_there_is_one() {
    let after_delegate = delegated(None);
    let args = commit_args(1, 5_000, false, vec![1]);
    let mut listed = 103u64.to_le_bytes().to_vec();
    listed.extend_from_slice(&2u32.to_le_bytes());
    listed.extend_from_slice(&[6; 32]);
    listed.extend_from_slice(&VALIDATOR);
    let mut accounts = commit_accounts(&after_delegate);
    accounts[7].owner = PROGRAM;
    accounts[7].data = listed;
    assert!(process_commit_state(&PROGRAM, &accounts, &args, &RENT).is_ok());
    let mut unlisted = 103u64.to_le_bytes().to_vec();
    unlisted.extend_from_slice(&1u32.to_le_bytes());
    unlisted.extend_from_slice(&[6; 32]);
    accounts[7].data = unlisted;
    assert_eq!(
        process_commit_state(&PROGRAM, &accounts, &args, &RENT).err(),
        Some(custom(DlpError::InvalidWhitelistProgramConfig))
    );
    accounts[7].data = vec![1, 2, 3];
    assert_eq!(
        process_commit_state(&PROGRAM, &accounts, &args, &RENT).err(),
        Some(ProgramError::InvalidAccountData)
    );
}

#[test]
fn commit_from_a_buffer_takes_the_bytes_of_the_buffer() {
    let after_delegate = delegated(None);
    let mut accounts = commit_accounts(&after_delegate);
    accounts.insert(6, cell([12; 32], OWNER_PROGRAM, 77, vec![4, 4, 4]));
    let data = borsh::to_vec(&(1u64, 5_000u64, true)).unwrap();
    let after = process_commit_state_from_buffer(&PROGRAM, &accounts, &data, &RENT).unwrap();
    assert_eq!(after.len(), 10);
    assert_eq!(after[2].data, vec![4, 4, 4]);
    assert!(same(&after[6], &accounts[6]));
    let record = CommitRecord::try_from_bytes_with_discriminator(&after[3].data).unwrap();
    assert_eq!(record.nonce, 1);
    let metadata = DelegationMetadata::try_from_bytes_with_discriminator(&after[5].data).unwrap();
    assert!(metadata.is_undelegatable);
    assert_eq!(
        process_commit_state_from_buffer(&PROGRAM, &accounts[..9], &data, &RENT).err(),
        Some(ProgramError::NotEnoughAccountKeys)
    );
    assert_eq!(
        process_commit_state_from_buffer(&PROGRAM, &accounts, &data[..16], &RENT).err(),
        Some(ProgramError::BorshIoError)
    );
    let skipped = borsh::to_vec(&(2u64, 5_000u64, true)).unwrap();
    assert_eq!(
        process_commit_state_from_buffer(&PROGRAM, &accounts, &skipped, &RENT).err(),
        Some(ProgramError::Custom(12))
    );
}

#[test]
fn commit_of_a_diff_applies_it_to_the_accounts_bytes() {
    let after_delegate = delegated(None);
    let accounts = commit_accounts(&after_delegate);
    assert_eq!(accounts[1].data, vec![5, 6, 7, 8]);
    let diff = dlp::diff::algorithm::compute_diff(&[5, 6, 7, 8], &[5, 0, 7, 8, 9, 9]);
    let mut data = rkyv::util::AlignedVec::new();
    data.extend_from_slice(&diff);
    data.extend_from_slice(&borsh::to_vec(&(1u64, 5_000u64, false)).unwrap());
    let after = process_commit_diff(&PROGRAM, &accounts, &data, &RENT).unwrap();
    assert_eq!(after[2].data, vec![5, 0, 7, 8, 9, 9]);
    assert_eq!(after[2].lamports, rent_for(6));
    let record = CommitRecord::try_from_bytes_with_discriminator(&after[3].data).unwrap();
    assert_eq!(record.nonce, 1);
    let same_by_offset =
        process_commit_diff_with_offset(&PROGRAM, &accounts, &data, &RENT, 0).unwrap();
    assert_eq!(same_by_offset[2].data, vec![5, 0, 7, 8, 9, 9]);
}

#[test]
fn commit_of_a_diff_refusals() {
    let after_delegate = delegated(None);
    let accounts = commit_accounts(&after_delegate);
    let diff = dlp::diff::algorithm::compute_diff(&[5, 6, 7, 8], &[5, 0, 7, 8, 9, 9]);
    let tail = borsh::to_vec(&(1u64, 5_000u64, false)).unwrap();
    let mut data = rkyv::util::AlignedVec::new();
    data.extend_from_slice(&diff);
    data.extend_from_slice(&tail);
    let run = |accounts: &[Account], data: &[u8]| {
        process_commit_diff(&PROGRAM, accounts, data, &RENT).err()
    };
    assert_eq!(run(&accounts[..8], &data), Some(ProgramError::NotEnoughAccountKeys));
    assert_eq!(run(&accounts, &data[..16]), Some(ProgramError::InvalidInstructionData));
    // No diff at all in front of the other arguments.
    let only_tail = {
        let mut v = rkyv::util::AlignedVec::new();
        v.extend_from_slice(&tail);
        v
    };
    assert_eq!(run(&accounts, &only_tail), Some(ProgramError::Custom(15)));
    // The diff starts one byte behind a boundary.
    let shifted = {
        let mut v = rkyv::util::AlignedVec::new();
        v.extend_from_slice(&[0]);
        v.extend_from_slice(&data);
        v
    };
    assert_eq!(run(&accounts, &shifted[1..]), Some(ProgramError::Custom(16)));
    assert_eq!(
        process_commit_diff_with_offset(&PROGRAM, &accounts, &data, &RENT, 3).err(),
        Some(ProgramError::Custom(16))
    );
    let mut flag = rkyv::util::AlignedVec::new();
    flag.extend_from_slice(&data);
    let last = flag.len() - 1;
    flag[last] = 2;
    assert_eq!(run(&accounts, &flag), Some(ProgramError::BorshIoError));
    // A segment that reaches beyond the changed length.
    let mut bad = rkyv::util::AlignedVec::new();
    bad.extend_from_slice(&4u32.to_le_bytes());
    bad.extend_from_slice(&1u32.to_le_bytes());
    bad.extend_from_slice(&0u32.to_le_bytes());
    bad.extend_from_slice(&3u32.to_le_bytes());
    bad.extend_from_slice(&[1, 2]);
    bad.extend_from_slice(&tail);
    assert_eq!(run(&accounts, &bad), Some(ProgramError::Custom(15)));
    let mut skipped = rkyv::util::AlignedVec::new();
    skipped.extend_from_slice(&diff);
    skipped.extend_from_slice(&borsh::to_vec(&(2u64, 5_000u64, false)).unwrap());
    assert_eq!(run(&accounts, &skipped), Some(ProgramError::Custom(12)));
}

#[test]
fn finalize_brings_the_state_and_the_nonce_to_the_account() {
    let after_delegate = delegated(None);
    let after_commit = process_commit_state(
        &PROGRAM,
        &commit_accounts(&after_delegate),
        &commit_args(1, 5_000, false, vec![9, 9, 9, 9, 9, 9]),
        &RENT,
    )
    .unwrap();
    let before = finalize_accounts(&after_commit);
    let after = process_finalize(&PROGRAM, &before, &[]).unwrap();
    assert_eq!(after.len(), 9);
    assert!(same(&after[7], &before[7]));
    assert!(same(&after[8], &before[8]));
    assert_eq!(after[1].data, vec![9, 9, 9, 9, 9, 9]);
    assert_eq!(after[1].lamports, 5_000);
    assert_eq!(after[1].owner, PROGRAM);
    let metadata = DelegationMetadata::try_from_bytes_with_discriminator(&after[5].data).unwrap();
    assert_eq!(metadata.last_update_nonce, 1);
    assert!(!metadata.is_undelegatable);
    assert_eq!(metadata.rent_payer, PAYER);
    let record = DelegationRecord::try_from_bytes_with_discriminator(&after[4].data).unwrap();
    assert_eq!(record.lamports, 5_000);
    assert_eq!(record.owner, OWNER_PROGRAM);
    // Both cells of the commit are closed, and the validator has its rent back.
    for closed in [&after[2], &after[3]] {
        assert_eq!(closed.lamports, 0);
        assert_eq!(closed.owner, SYSTEM);
        assert!(closed.data.is_empty());
    }
    assert_eq!(after[0].lamports, 500_000);
    assert_eq!(after[6].lamports, 3_000);
    assert_eq!(total(&after), total(&before));
}

#[test]
fn finalize_settles_a_higher_balance_out_of_the_collateral() {
    let after_delegate = delegated(None);
    let after_commit = process_commit_state(
        &PROGRAM,
        &commit_accounts(&after_delegate),
        &commit_args(1, 5_300, false, vec![1]),
        &RENT,
    )
    .unwrap();
    let before = finalize_accounts(&after_commit);
    let after = process_finalize(&PROGRAM, &before, &[]).unwrap();
    assert_eq!(after[1].lamports, 5_300);
    assert_eq!(after[6].lamports, 3_000);
    assert_eq!(after[0].lamports, 500_000 - 300);
    let record = DelegationRecord::try_from_bytes_with_discriminator(&after[4].data).unwrap();
    assert_eq!(record.lamports, 5_300);
    assert_eq!(total(&after), total(&before));
}

#[test]
fn finalize_settles_a_lower_balance_into_the_fee_vault() {
    let after_delegate = delegated(None);
    let after_commit = process_commit_state(
        &PROGRAM,
        &commit_accounts(&after_delegate),
        &commit_args(1, 4_200, false, vec![1]),
        &RENT,
    )
    .unwrap();
    let before = finalize_accounts(&after_commit);
    let after = process_finalize(&PROGRAM, &before, &[]).unwrap();
    assert_eq!(after[1].lamports, 4_200);
    assert_eq!(after[6].lamports, 3_000 + 800);
    assert_eq!(after[0].lamports, 500_000);
    let record = DelegationRecord::try_from_bytes_with_discriminator(&after[4].data).unwrap();
    assert_eq!(record.lamports, 4_200);
    assert_eq!(total(&after), total(&before));
}

#[test]
fn lamports_of_account_cell_and_vault_are_kept_where_the_cell_holds_the_collateral_only() {
    let after_delegate = delegated(None);
    // With rent at nothing, the commit-state cell holds the collateral only.
    let free = Rent { lamports_per_byte: 0 };
    for declared in [4_200u64, 5_000, 5_300] {
        let after_commit = process_commit_state(
            &PROGRAM,
            &commit_accounts(&after_delegate),
            &commit_args(1, declared, false, vec![1]),
            &free,
        )
        .unwrap();
        let three = |a: &[Account]| a[1].lamports + a[2].lamports + a[6].lamports;
        let after = process_finalize(&PROGRAM, &finalize_accounts(&after_commit), &[]).unwrap();
        assert_eq!(three(&after), three(&after_commit));
        assert_eq!(after[1].lamports, declared);
    }
    // With rent, the validator gets the rent of the cell back, so the three
    // hold less by that.
    let after_commit = process_commit_state(
        &PROGRAM,
        &commit_accounts(&after_delegate),
        &commit_args(1, 5_000, false, vec![1]),
        &RENT,
    )
    .unwrap();
    let after = process_finalize(&PROGRAM, &finalize_accounts(&after_commit), &[]).unwrap();
    assert_eq!(
        after[1].lamports + after[2].lamports + after[6].lamports + rent_for(1),
        after_commit[1].lamports + after_commit[2].lamports + after_commit[6].lamports
    );
}

#[test]
fn finalize_without_a_commit_changes_nothing() {
    let after_delegate = delegated(None);
    let before = finalize_accounts(&commit_accounts(&after_delegate));
    let after = process_finalize(&PROGRAM, &before, &[]).unwrap();
    assert_eq!(after.len(), before.len());
    for (a, b) in after.iter().zip(before.iter()) {
        assert!(same(a, b));
    }
    // A finalization that follows a finalization finds nothing to do either.
    let done = committed_and_finalized(false, vec![1]);
    assert_eq!(done.len(), 9);
    let again = process_finalize(&PROGRAM, &done, &[]).unwrap();
    for (a, b) in again.iter().zip(done.iter()) {
        assert!(same(a, b));
    }
}

#[test]
fn finalize_refusals() {
    let after_delegate = delegated(None);
    let after_commit = process_commit_state(
        &PROGRAM,
        &commit_accounts(&after_delegate),
        &commit_args(1, 5_000, false, vec![1, 2]),
        &RENT,
    )
    .unwrap();
    let good = || finalize_accounts(&after_commit);
    let run = |accounts: &[Account]| process_finalize(&PROGRAM, accounts, &[]).err();
    assert!(process_finalize(&PROGRAM, &good(), &[]).is_ok());
    assert_eq!(run(&good()[..8]), Some(ProgramError::NotEnoughAccountKeys));
    let mut accounts = good();
    accounts[8].owner = SYSTEM;
    assert_eq!(run(&accounts), Some(ProgramError::InvalidAccountOwner));
    let mut accounts = good();
    accounts[8].key = [4; 32];
    assert_eq!(run(&accounts), Some(ProgramError::InvalidSeeds));
    let mut accounts = good();
    accounts[0].is_signer = false;
    assert_eq!(run(&accounts), Some(ProgramError::MissingRequiredSignature));
    let mut accounts = good();
    accounts[1].owner = SYSTEM;
    assert_eq!(run(&accounts), Some(ProgramError::InvalidAccountOwner));
    let mut accounts = good();
    accounts[4].is_writable = false;
    assert_eq!(run(&accounts), Some(ProgramError::Immutable));
    let mut accounts = good();
    accounts[5].key = [4; 32];
    assert_eq!(run(&accounts), Some(ProgramError::InvalidSeeds));
    let mut accounts = good();
    accounts[6].key = [4; 32];
    assert_eq!(run(&accounts), Some(custom(DlpError::InvalidAuthority)));
    let mut accounts = good();
    accounts[7].key = [4; 32];
    assert_eq!(run(&accounts), Some(ProgramError::IncorrectProgramId));
    let mut accounts = good();
    accounts[7].executable = false;
    assert_eq!(run(&accounts), Some(ProgramError::InvalidAccountData));
    // One cell of the commit without the other.
    let mut accounts = good();
    accounts[3] = cell(accounts[3].key, SYSTEM, 0, vec![]);
    assert_eq!(run(&accounts), Some(ProgramError::InvalidAccountOwner));
    let mut accounts = good();
    accounts[2] = cell(accounts[2].key, SYSTEM, 0, vec![]);
    assert_eq!(run(&accounts), Some(ProgramError::InvalidAccountOwner));
    let mut accounts = good();
    accounts[2].key = [4; 32];
    assert_eq!(run(&accounts), Some(ProgramError::InvalidSeeds));
    let mut accounts = good();
    accounts[3].data[0] = 0;
    assert_eq!(run(&accounts), Some(ProgramError::InvalidAccountData));
    // A commit record for another account, or by another validator.
    let mut accounts = good();
    accounts[3].data =
        CommitRecord { identity: VALIDATOR, account: [4; 32], nonce: 1, lamports: 5_000 }
            .to_bytes_with_discriminator();
    assert_eq!(run(&accounts), Some(custom(DlpError::InvalidDelegatedAccount)));
    let mut accounts = good();
    accounts[3].data =
        CommitRecord { identity: [4; 32], account: delegated_key(), nonce: 1, lamports: 5_000 }
            .to_bytes_with_discriminator();
    assert_eq!(run(&accounts), Some(custom(DlpError::InvalidReimbursementAccount)));
    // A declared balance that the cell holds no collateral for.
    let mut accounts = good();
    accounts[3].data = CommitRecord {
        identity: VALIDATOR,
        account: delegated_key(),
        nonce: 1,
        lamports: 5_000 + rent_for(2) + 1,
    }
    .to_bytes_with_discriminator();
    assert_eq!(run(&accounts), Some(custom(DlpError::Overflow)));
    let mut accounts = good();
    accounts[0].lamports = u64::MAX;
    assert_eq!(run(&accounts), Some(ProgramError::ArithmeticOverflow));
}

#[test]
fn settling_moves_the_difference() {
    let delegated_account = || cell([1; 32], PROGRAM, 100, vec![]);
    let commit_state = || cell([2; 32], PROGRAM, 30, vec![]);
    let vault = || cell([3; 32], PROGRAM, 7, vec![]);
    let lamports = |r: (Account, Account, Account)| (r.0.lamports, r.1.lamports, r.2.lamports);
    let settled =
        settle_lamports_balance(delegated_account(), commit_state(), vault(), 50, 50).unwrap();
    assert_eq!(lamports(settled), (100, 30, 7));
    let settled =
        settle_lamports_balance(delegated_account(), commit_state(), vault(), 50, 20).unwrap();
    assert_eq!(lamports(settled), (70, 30, 37));
    let settled =
        settle_lamports_balance(delegated_account(), commit_state(), vault(), 50, 80).unwrap();
    assert_eq!(lamports(settled), (130, 0, 7));
    assert_eq!(
        settle_lamports_balance(delegated_account(), commit_state(), vault(), 50, 81).err(),
        Some(custom(DlpError::Overflow))
    );
    assert_eq!(
        settle_lamports_balance(delegated_account(), commit_state(), vault(), 101, 0).err(),
        Some(custom(DlpError::Overflow))
    );
    assert_eq!(
        settle_lamports_balance(
            delegated_account(),
            commit_state(),
            cell([3; 32], PROGRAM, u64::MAX, vec![]),
            50,
            49
        )
        .err(),
        Some(custom(DlpError::Overflow))
    );
}

#[test]
fn undelegate_of_an_account_without_bytes_is_done_at_once() {
    let after_finalize = committed_and_finalized(true, vec![]);
    assert!(after_finalize[1].data.is_empty());
    let before = undelegate_accounts(&after_finalize);
    let record_lamports = before[6].lamports;
    let metadata_lamports = before[7].lamports;
    let step = process_undelegate(&PROGRAM, &before, &[], &RENT).unwrap();
    let after = match step {
        UndelegateStep::Done { accounts } => accounts,
        UndelegateStep::Handback { .. } => panic!("no call is needed"),
    };
    assert_eq!(after.len(), 12);
    assert_eq!(after[1].owner, OWNER_PROGRAM);
    assert_eq!(after[1].lamports, 5_000);
    for closed in [&after[6], &after[7]] {
        assert_eq!(closed.lamports, 0);
        assert_eq!(closed.owner, SYSTEM);
        assert!(closed.data.is_empty());
    }
    // A tenth of each closed cell is the fee; a tenth of the fee goes on to the protocol.
    let fee = |x: u64| x * 10 / 100;
    let fees = fee(record_lamports) + fee(metadata_lamports);
    let passed_on = fee(fee(record_lamports)) + fee(fee(metadata_lamports));
    assert_eq!(after[8].lamports, 70 + record_lamports + metadata_lamports - fees);
    assert_eq!(after[9].lamports, 11 + passed_on);
    assert_eq!(after[10].lamports, before[10].lamports + fees - passed_on);
    assert_eq!(after[0].lamports, before[0].lamports);
    assert_eq!(total(&after), total(&before));
}

#[test]
fn undelegate_of_an_account_with_bytes_goes_through_the_owning_program() {
    let after_finalize = committed_and_finalized(true, vec![4, 5, 6]);
    let before = undelegate_accounts(&after_finalize);
    let step = process_undelegate(&PROGRAM, &before, &[], &RENT).unwrap();
    let (parked, instruction_data, pending) = match step {
        UndelegateStep::Handback { accounts, instruction_data, pending } => {
            (accounts, instruction_data, pending)
        }
        UndelegateStep::Done { .. } => panic!("the owning program has to be called"),
    };
    let mut expected_data = vec![196, 28, 41, 206, 48, 37, 51, 167];
    expected_data.extend(borsh::to_vec(&vec![b"test-pda".to_vec()]).unwrap());
    assert_eq!(instruction_data, expected_data);
    assert_eq!(instruction_data, handback_instruction_data(&vec![b"test-pda".to_vec()]).unwrap());
    // The bytes are parked in the buffer, and the account is closed.
    assert_eq!(parked[3].data, vec![4, 5, 6]);
    assert_eq!(parked[3].owner, PROGRAM);
    assert_eq!(parked[3].lamports, rent_for(3));
    assert_eq!(parked[1].lamports, 0);
    assert_eq!(parked[1].owner, SYSTEM);
    assert!(parked[1].data.is_empty());
    assert_eq!(parked[0].lamports, before[0].lamports - rent_for(3) + 5_000);
    assert_eq!(
        pending,
        PendingHandback {
            delegated_lamports_before_close: 5_000,
            validator_lamports_before_cpi: parked[0].lamports,
        }
    );
    assert_eq!(total(&parked), total(&before));

    // The owning program creates the account anew at the validator's cost.
    let mut handed_back: Vec<Account> = parked.iter().map(|a| a.duplicate()).collect();
    handed_back[1].owner = OWNER_PROGRAM;
    handed_back[1].data = vec![4, 5, 6];
    handed_back[1].lamports = rent_for(3);
    handed_back[0].lamports -= rent_for(3);
    let after = process_undelegate_after_handback(&handed_back, pending, &RENT).unwrap();
    assert_eq!(after[1].owner, OWNER_PROGRAM);
    assert_eq!(after[1].data, vec![4, 5, 6]);
    assert_eq!(after[1].lamports, 5_000);
    assert_eq!(after[3].lamports, 0);
    assert_eq!(after[3].owner, SYSTEM);
    assert!(after[3].data.is_empty());
    assert_eq!(after[0].lamports, before[0].lamports);
    assert_eq!(after[6].lamports, 0);
    assert_eq!(after[7].lamports, 0);
    assert_eq!(total(&after), total(&before));
}

#[test]
fn handback_is_checked() {
    let after_finalize = committed_and_finalized(true, vec![4, 5, 6]);
    let before = undelegate_accounts(&after_finalize);
    let (parked, pending) = match process_undelegate(&PROGRAM, &before, &[], &RENT).unwrap() {
        UndelegateStep::Handback { accounts, pending, .. } => (accounts, pending),
        UndelegateStep::Done { .. } => panic!("the owning program has to be called"),
    };
    let good = || {
        let mut handed_back: Vec<Account> = parked.iter().map(|a| a.duplicate()).collect();
        handed_back[1].owner = OWNER_PROGRAM;
        handed_back[1].data = vec![4, 5, 6];
        handed_back[1].lamports = rent_for(3);
        handed_back[0].lamports -= rent_for(3);
        handed_back
    };
    let run = |accounts: &[Account]| process_undelegate_after_handback(accounts, pending, &RENT).err();
    assert_eq!(run(&good()), None);
    assert_eq!(run(&good()[..11]), Some(ProgramError::NotEnoughAccountKeys));
    // The validator was charged more, or less, than the rent.
    let mut accounts = good();
    accounts[0].lamports -= 1;
    assert_eq!(run(&accounts), Some(custom(DlpError::InvalidValidatorBalanceAfterCPI)));
    let mut accounts = good();
    accounts[0].lamports += 1;
    assert_eq!(run(&accounts), Some(custom(DlpError::InvalidValidatorBalanceAfterCPI)));
    // The owning program did nothing at all.
    let untouched: Vec<Account> = parked.iter().map(|a| a.duplicate()).collect();
    assert_eq!(run(&untouched), Some(custom(DlpError::InvalidValidatorBalanceAfterCPI)));
    // The account holds other bytes than were parked.
    let mut accounts = good();
    accounts[1].data = vec![4, 5, 7];
    assert_eq!(run(&accounts), Some(custom(DlpError::InvalidAccountDataAfterCPI)));
    // The account held less than its rent before it was closed.
    let short = PendingHandback {
        delegated_lamports_before_close: rent_for(3) - 1,
        validator_lamports_before_cpi: pending.validator_lamports_before_cpi,
    };
    assert_eq!(
        process_undelegate_after_handback(&good(), short, &RENT).err(),
        Some(custom(DlpError::Overflow))
    );
    assert_eq!(
        process_undelegate_after_handback(&good(), pending, &Rent { lamports_per_byte: u64::MAX })
            .err(),
        Some(ProgramError::ArithmeticOverflow)
    );
}

#[test]
fn undelegate_refusals() {
    let after_finalize = committed_and_finalized(true, vec![4, 5, 6]);
    let good = || undelegate_accounts(&after_finalize);
    let run = |accounts: &[Account]| process_undelegate(&PROGRAM, accounts, &[], &RENT).err();
    assert_eq!(run(&good()), None);
    assert_eq!(run(&good()[..11]), Some(ProgramError::NotEnoughAccountKeys));
    let mut accounts = good();
    accounts[0].is_signer = false;
    assert_eq!(run(&accounts), Some(ProgramError::MissingRequiredSignature));
    let mut accounts = good();
    accounts[1].owner = OWNER_PROGRAM;
    assert_eq!(run(&accounts), Some(ProgramError::InvalidAccountOwner));
    let mut accounts = good();
    accounts[6].key = [4; 32];
    assert_eq!(run(&accounts), Some(ProgramError::InvalidSeeds));
    let mut accounts = good();
    accounts[7].is_writable = false;
    assert_eq!(run(&accounts), Some(ProgramError::Immutable));
    let mut accounts = good();
    accounts[9].owner = SYSTEM;
    assert_eq!(run(&accounts), Some(ProgramError::InvalidAccountOwner));
    let mut accounts = good();
    accounts[10].key = [4; 32];
    assert_eq!(run(&accounts), Some(custom(DlpError::InvalidAuthority)));
    let mut accounts = good();
    accounts[4].data = vec![1];
    assert_eq!(run(&accounts), Some(custom(DlpError::CommitStateAlreadyInitialized)));
    let mut accounts = good();
    accounts[5].owner = PROGRAM;
    assert_eq!(run(&accounts), Some(custom(DlpError::CommitRecordInvalidAccountOwner)));
    let mut accounts = good();
    accounts[2].key = [4; 32];
    assert_eq!(run(&accounts), Some(ProgramError::InvalidAccountOwner));
    let mut accounts = good();
    accounts[8].key = [4; 32];
    assert_eq!(
        run(&accounts),
        Some(custom(DlpError::InvalidReimbursementAddressForDelegationRent))
    );
    let mut accounts = good();
    accounts[3].key = [4; 32];
    assert_eq!(run(&accounts), Some(custom(DlpError::UndelegateBufferInvalidSeeds)));
    let mut accounts = good();
    accounts[3].data = vec![1];
    assert_eq!(run(&accounts), Some(custom(DlpError::UndelegateBufferAlreadyInitialized)));
    let mut accounts = good();
    accounts[3].is_writable = false;
    assert_eq!(run(&accounts), Some(custom(DlpError::UndelegateBufferImmutable)));
    let mut accounts = good();
    accounts[3].owner = PROGRAM;
    assert_eq!(run(&accounts), Some(custom(DlpError::UndelegateBufferInvalidAccountOwner)));
    let mut accounts = good();
    accounts[0].lamports = rent_for(3) - 1;
    assert_eq!(run(&accounts), Some(ProgramError::InsufficientFunds));
}

#[test]
fn undelegate_needs_the_mark_and_no_pending_commit() {
    let unmarked = committed_and_finalized(false, vec![4, 5, 6]);
    assert_eq!(
        process_undelegate(&PROGRAM, &undelegate_accounts(&unmarked), &[], &RENT).err(),
        Some(custom(DlpError::NotUndelegatable))
    );
    assert_eq!(custom(DlpError::NotUndelegatable), ProgramError::Custom(1));
    let after_delegate = delegated(None);
    let after_commit = process_commit_state(
        &PROGRAM,
        &commit_accounts(&after_delegate),
        &commit_args(1, 5_000, true, vec![1, 2]),
        &RENT,
    )
    .unwrap();
    let pending = undelegate_accounts(&finalize_accounts(&after_commit));
    assert_eq!(
        process_undelegate(&PROGRAM, &pending, &[], &RENT).err(),
        Some(custom(DlpError::CommitStateInvalidAccountOwner))
    );
}

#[test]
fn the_owning_program_is_called_on_four_accounts() {
    let called = dlp::processor::undelegate::handback_accounts();
    let as_tuples: Vec<(usize, bool, bool)> =
        called.iter().map(|a| (a.position, a.is_writable, a.is_signer)).collect();
    assert_eq!(
        as_tuples,
        vec![(1, true, false), (3, true, true), (0, true, true), (11, false, false)]
    );
}

#[test]
fn the_library_is_reached_from_the_crate_root() {
    let diff = dlp::compute_diff(&[1, 2, 3], &[1, 5, 3]);
    let set = dlp::DiffSet::try_new(&diff).unwrap();
    assert_eq!(dlp::apply_diff_copy(&[1, 2, 3], &set).unwrap(), vec![1, 5, 3]);
    assert_eq!(dlp::SIZE_OF_CHANGED_LEN + dlp::SIZE_OF_NUM_OFFSET_PAIRS, 8);
    assert_eq!(dlp::SIZE_OF_SINGLE_OFFSET_PAIR, 8);
}
