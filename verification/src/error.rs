//! What an operation fails with.

use vstd::prelude::*;

verus! {

/// The failures that belong to this program. Each has a fixed number, which is
/// what the ledger reports to the caller.
#[derive(Debug, Clone, Copy, PartialEq, Eq, Structural)]
pub enum DlpError {
    InvalidAuthority,
    NotUndelegatable,
    Unauthorized,
    InvalidAuthorityForProgram,
    InvalidDelegatedAccount,
    InvalidDelegatedState,
    InvalidReimbursementAccount,
    InvalidAccountDataAfterCPI,
    InvalidValidatorBalanceAfterCPI,
    InvalidReimbursementAddressForDelegationRent,
    InvalidWhitelistProgramConfig,
    AlreadyUndelegated,
    NonceOutOfOrder,
    Overflow,
    TooManySeeds,
    InvalidDiff,
    InvalidDiffAlignment,
    MergeDiffError,
    CommitStateInvalidSeeds,
    CommitStateInvalidAccountOwner,
    CommitStateAlreadyInitialized,
    CommitStateImmutable,
    CommitRecordInvalidSeeds,
    CommitRecordInvalidAccountOwner,
    CommitRecordAlreadyInitialized,
    CommitRecordImmutable,
    DelegationRecordInvalidSeeds,
    DelegationRecordInvalidAccountOwner,
    DelegationRecordAlreadyInitialized,
    DelegationRecordImmutable,
    DelegationMetadataInvalidSeeds,
    DelegationMetadataInvalidAccountOwner,
    DelegationMetadataAlreadyInitialized,
    DelegationMetadataImmutable,
    UndelegateBufferInvalidSeeds,
    UndelegateBufferInvalidAccountOwner,
    UndelegateBufferAlreadyInitialized,
    UndelegateBufferImmutable,
}

/// The failure of an instruction as the ledger runtime knows it: one of the
/// runtime's own kinds, or a number that the failing program chose.
#[derive(Debug, Clone, Copy, PartialEq, Eq, Structural)]
pub enum ProgramError {
    Custom(u32),
    InvalidArgument,
    InvalidInstructionData,
    InvalidAccountData,
    InsufficientFunds,
    IncorrectProgramId,
    MissingRequiredSignature,
    NotEnoughAccountKeys,
    BorshIoError,
    InvalidSeeds,
    InvalidAccountOwner,
    ArithmeticOverflow,
    Immutable,
    AccountAlreadyInitialized,
}

impl DlpError {
    /// The number of this failure.
    pub open spec fn code_spec(self) -> u32 {
        match self {
            DlpError::InvalidAuthority => 0,
            DlpError::NotUndelegatable => 1,
            DlpError::Unauthorized => 2,
            DlpError::InvalidAuthorityForProgram => 3,
            DlpError::InvalidDelegatedAccount => 4,
            DlpError::InvalidDelegatedState => 5,
            DlpError::InvalidReimbursementAccount => 6,
            DlpError::InvalidAccountDataAfterCPI => 7,
            DlpError::InvalidValidatorBalanceAfterCPI => 8,
            DlpError::InvalidReimbursementAddressForDelegationRent => 9,
            DlpError::InvalidWhitelistProgramConfig => 10,
            DlpError::AlreadyUndelegated => 11,
            DlpError::NonceOutOfOrder => 12,
            DlpError::Overflow => 13,
            DlpError::TooManySeeds => 14,
            DlpError::InvalidDiff => 15,
            DlpError::InvalidDiffAlignment => 16,
            DlpError::MergeDiffError => 17,
            DlpError::CommitStateInvalidSeeds => 18,
            DlpError::CommitStateInvalidAccountOwner => 19,
            DlpError::CommitStateAlreadyInitialized => 20,
            DlpError::CommitStateImmutable => 21,
            DlpError::CommitRecordInvalidSeeds => 22,
            DlpError::CommitRecordInvalidAccountOwner => 23,
            DlpError::CommitRecordAlreadyInitialized => 24,
            DlpError::CommitRecordImmutable => 25,
            DlpError::DelegationRecordInvalidSeeds => 26,
            DlpError::DelegationRecordInvalidAccountOwner => 27,
            DlpError::DelegationRecordAlreadyInitialized => 28,
            DlpError::DelegationRecordImmutable => 29,
            DlpError::DelegationMetadataInvalidSeeds => 30,
            DlpError::DelegationMetadataInvalidAccountOwner => 31,
            DlpError::DelegationMetadataAlreadyInitialized => 32,
            DlpError::DelegationMetadataImmutable => 33,
            DlpError::UndelegateBufferInvalidSeeds => 34,
            DlpError::UndelegateBufferInvalidAccountOwner => 35,
            DlpError::UndelegateBufferAlreadyInitialized => 36,
            DlpError::UndelegateBufferImmutable => 37,
        }
    }

    /// The number of this failure.
    pub fn code(self) -> (n: u32)
        ensures
            n == self.code_spec(),
            n < 38,
    {
        match self {
            DlpError::InvalidAuthority => 0,
            DlpError::NotUndelegatable => 1,
            DlpError::Unauthorized => 2,
            DlpError::InvalidAuthorityForProgram => 3,
            DlpError::InvalidDelegatedAccount => 4,
            DlpError::InvalidDelegatedState => 5,
            DlpError::InvalidReimbursementAccount => 6,
            DlpError::InvalidAccountDataAfterCPI => 7,
            DlpError::InvalidValidatorBalanceAfterCPI => 8,
            DlpError::InvalidReimbursementAddressForDelegationRent => 9,
            DlpError::InvalidWhitelistProgramConfig => 10,
            DlpError::AlreadyUndelegated => 11,
            DlpError::NonceOutOfOrder => 12,
            DlpError::Overflow => 13,
            DlpError::TooManySeeds => 14,
            DlpError::InvalidDiff => 15,
            DlpError::InvalidDiffAlignment => 16,
            DlpError::MergeDiffError => 17,
            DlpError::CommitStateInvalidSeeds => 18,
            DlpError::CommitStateInvalidAccountOwner => 19,
            DlpError::CommitStateAlreadyInitialized => 20,
            DlpError::CommitStateImmutable => 21,
            DlpError::CommitRecordInvalidSeeds => 22,
            DlpError::CommitRecordInvalidAccountOwner => 23,
            DlpError::CommitRecordAlreadyInitialized => 24,
            DlpError::CommitRecordImmutable => 25,
            DlpError::DelegationRecordInvalidSeeds => 26,
            DlpError::DelegationRecordInvalidAccountOwner => 27,
            DlpError::DelegationRecordAlreadyInitialized => 28,
            DlpError::DelegationRecordImmutable => 29,
            DlpError::DelegationMetadataInvalidSeeds => 30,
            DlpError::DelegationMetadataInvalidAccountOwner => 31,
            DlpError::DelegationMetadataAlreadyInitialized => 32,
            DlpError::DelegationMetadataImmutable => 33,
            DlpError::UndelegateBufferInvalidSeeds => 34,
            DlpError::UndelegateBufferInvalidAccountOwner => 35,
            DlpError::UndelegateBufferAlreadyInitialized => 36,
            DlpError::UndelegateBufferImmutable => 37,
        }
    }

    /// The failure that has the number `n`, if there is one.
    pub fn from_code(n: u32) -> (e: Option<DlpError>)
        ensures
            n < 38 <==> e is Some,
            e matches Some(v) ==> v.code_spec() == n,
    {
        match n {
            0 => Some(DlpError::InvalidAuthority),
            1 => Some(DlpError::NotUndelegatable),
            2 => Some(DlpError::Unauthorized),
            3 => Some(DlpError::InvalidAuthorityForProgram),
            4 => Some(DlpError::InvalidDelegatedAccount),
            5 => Some(DlpError::InvalidDelegatedState),
            6 => Some(DlpError::InvalidReimbursementAccount),
            7 => Some(DlpError::InvalidAccountDataAfterCPI),
            8 => Some(DlpError::InvalidValidatorBalanceAfterCPI),
            9 => Some(DlpError::InvalidReimbursementAddressForDelegationRent),
            10 => Some(DlpError::InvalidWhitelistProgramConfig),
            11 => Some(DlpError::AlreadyUndelegated),
            12 => Some(DlpError::NonceOutOfOrder),
            13 => Some(DlpError::Overflow),
            14 => Some(DlpError::TooManySeeds),
            15 => Some(DlpError::InvalidDiff),
            16 => Some(DlpError::InvalidDiffAlignment),
            17 => Some(DlpError::MergeDiffError),
            18 => Some(DlpError::CommitStateInvalidSeeds),
            19 => Some(DlpError::CommitStateInvalidAccountOwner),
            20 => Some(DlpError::CommitStateAlreadyInitialized),
            21 => Some(DlpError::CommitStateImmutable),
            22 => Some(DlpError::CommitRecordInvalidSeeds),
            23 => Some(DlpError::CommitRecordInvalidAccountOwner),
            24 => Some(DlpError::CommitRecordAlreadyInitialized),
            25 => Some(DlpError::CommitRecordImmutable),
            26 => Some(DlpError::DelegationRecordInvalidSeeds),
            27 => Some(DlpError::DelegationRecordInvalidAccountOwner),
            28 => Some(DlpError::DelegationRecordAlreadyInitialized),
            29 => Some(DlpError::DelegationRecordImmutable),
            30 => Some(DlpError::DelegationMetadataInvalidSeeds),
            31 => Some(DlpError::DelegationMetadataInvalidAccountOwner),
            32 => Some(DlpError::DelegationMetadataAlreadyInitialized),
            33 => Some(DlpError::DelegationMetadataImmutable),
            34 => Some(DlpError::UndelegateBufferInvalidSeeds),
            35 => Some(DlpError::UndelegateBufferInvalidAccountOwner),
            36 => Some(DlpError::UndelegateBufferAlreadyInitialized),
            37 => Some(DlpError::UndelegateBufferImmutable),
            _ => None,
        }
    }

    /// The text that describes this failure.
    pub open spec fn message_spec(self) -> Seq<char> {
        match self {
            DlpError::InvalidAuthority => "Invalid Authority"@,
            DlpError::NotUndelegatable => "Account cannot be undelegated, is_undelegatable is false"@,
            DlpError::Unauthorized => "Unauthorized Operation"@,
            DlpError::InvalidAuthorityForProgram => "Invalid Authority for the current target program"@,
            DlpError::InvalidDelegatedAccount => "Delegated account does not match the expected account"@,
            DlpError::InvalidDelegatedState => "Delegated account is not in a valid state"@,
            DlpError::InvalidReimbursementAccount => "Reimbursement account does not match the expected account"@,
            DlpError::InvalidAccountDataAfterCPI => "Invalid account data after CPI"@,
            DlpError::InvalidValidatorBalanceAfterCPI => "Invalid validator balance after CPI"@,
            DlpError::InvalidReimbursementAddressForDelegationRent => "Invalid reimbursement address for delegation rent"@,
            DlpError::InvalidWhitelistProgramConfig => "Authority is invalid for the delegated account program owner"@,
            DlpError::AlreadyUndelegated => "Account already undelegated"@,
            DlpError::NonceOutOfOrder => "Commit is out of order"@,
            DlpError::Overflow => "Computation overflow detected"@,
            DlpError::TooManySeeds => "Too many seeds"@,
            DlpError::InvalidDiff => "Invalid length of diff passed to DiffSet::try_new"@,
            DlpError::InvalidDiffAlignment => "Diff is not properly aligned"@,
            DlpError::MergeDiffError => "MergeDiff precondition did not meet"@,
            DlpError::CommitStateInvalidSeeds => "Commit state PDA invalid seeds"@,
            DlpError::CommitStateInvalidAccountOwner => "Commit state PDA invalid account owner"@,
            DlpError::CommitStateAlreadyInitialized => "Commit state PDA is already initialized"@,
            DlpError::CommitStateImmutable => "Commit state PDA immutable"@,
            DlpError::CommitRecordInvalidSeeds => "Commit record PDA invalid seeds"@,
            DlpError::CommitRecordInvalidAccountOwner => "Commit record PDA invalid account owner"@,
            DlpError::CommitRecordAlreadyInitialized => "Commit record PDA is already initialized"@,
            DlpError::CommitRecordImmutable => "Commit record PDA immutable"@,
            DlpError::DelegationRecordInvalidSeeds => "Delegation record PDA invalid seeds"@,
            DlpError::DelegationRecordInvalidAccountOwner => "Delegation record PDA invalid account owner"@,
            DlpError::DelegationRecordAlreadyInitialized => "Delegation record PDA is already initialized"@,
            DlpError::DelegationRecordImmutable => "Delegation record PDA immutable"@,
            DlpError::DelegationMetadataInvalidSeeds => "Delegation metadata PDA invalid seeds"@,
            DlpError::DelegationMetadataInvalidAccountOwner => "Delegation metadata PDA invalid account owner"@,
            DlpError::DelegationMetadataAlreadyInitialized => "Delegation metadata PDA is already initialized"@,
            DlpError::DelegationMetadataImmutable => "Delegation metadata PDA immutable"@,
            DlpError::UndelegateBufferInvalidSeeds => "Undelegate buffer PDA invalid seeds"@,
            DlpError::UndelegateBufferInvalidAccountOwner => "Undelegate buffer PDA invalid account owner"@,
            DlpError::UndelegateBufferAlreadyInitialized => "Undelegate buffer PDA is already initialized"@,
            DlpError::UndelegateBufferImmutable => "Undelegate buffer PDA immutable"@,
        }
    }

    /// The text that describes this failure.
    pub fn message(self) -> (m: &'static str)
        ensures
            m@ == self.message_spec(),
    {
        match self {
            DlpError::InvalidAuthority => "Invalid Authority",
            DlpError::NotUndelegatable => "Account cannot be undelegated, is_undelegatable is false",
            DlpError::Unauthorized => "Unauthorized Operation",
            DlpError::InvalidAuthorityForProgram => "Invalid Authority for the current target program",
            DlpError::InvalidDelegatedAccount => "Delegated account does not match the expected account",
            DlpError::InvalidDelegatedState => "Delegated account is not in a valid state",
            DlpError::InvalidReimbursementAccount => "Reimbursement account does not match the expected account",
            DlpError::InvalidAccountDataAfterCPI => "Invalid account data after CPI",
            DlpError::InvalidValidatorBalanceAfterCPI => "Invalid validator balance after CPI",
            DlpError::InvalidReimbursementAddressForDelegationRent => "Invalid reimbursement address for delegation rent",
            DlpError::InvalidWhitelistProgramConfig => "Authority is invalid for the delegated account program owner",
            DlpError::AlreadyUndelegated => "Account already undelegated",
            DlpError::NonceOutOfOrder => "Commit is out of order",
            DlpError::Overflow => "Computation overflow detected",
            DlpError::TooManySeeds => "Too many seeds",
            DlpError::InvalidDiff => "Invalid length of diff passed to DiffSet::try_new",
            DlpError::InvalidDiffAlignment => "Diff is not properly aligned",
            DlpError::MergeDiffError => "MergeDiff precondition did not meet",
            DlpError::CommitStateInvalidSeeds => "Commit state PDA invalid seeds",
            DlpError::CommitStateInvalidAccountOwner => "Commit state PDA invalid account owner",
            DlpError::CommitStateAlreadyInitialized => "Commit state PDA is already initialized",
            DlpError::CommitStateImmutable => "Commit state PDA immutable",
            DlpError::CommitRecordInvalidSeeds => "Commit record PDA invalid seeds",
            DlpError::CommitRecordInvalidAccountOwner => "Commit record PDA invalid account owner",
            DlpError::CommitRecordAlreadyInitialized => "Commit record PDA is already initialized",
            DlpError::CommitRecordImmutable => "Commit record PDA immutable",
            DlpError::DelegationRecordInvalidSeeds => "Delegation record PDA invalid seeds",
            DlpError::DelegationRecordInvalidAccountOwner => "Delegation record PDA invalid account owner",
            DlpError::DelegationRecordAlreadyInitialized => "Delegation record PDA is already initialized",
            DlpError::DelegationRecordImmutable => "Delegation record PDA immutable",
            DlpError::DelegationMetadataInvalidSeeds => "Delegation metadata PDA invalid seeds",
            DlpError::DelegationMetadataInvalidAccountOwner => "Delegation metadata PDA invalid account owner",
            DlpError::DelegationMetadataAlreadyInitialized => "Delegation metadata PDA is already initialized",
            DlpError::DelegationMetadataImmutable => "Delegation metadata PDA immutable",
            DlpError::UndelegateBufferInvalidSeeds => "Undelegate buffer PDA invalid seeds",
            DlpError::UndelegateBufferInvalidAccountOwner => "Undelegate buffer PDA invalid account owner",
            DlpError::UndelegateBufferAlreadyInitialized => "Undelegate buffer PDA is already initialized",
            DlpError::UndelegateBufferImmutable => "Undelegate buffer PDA immutable",
        }
    }
}

impl From<DlpError> for ProgramError {
    fn from(e: DlpError) -> (r: ProgramError) {
        ProgramError::Custom(e.code())
    }
}

impl vstd::std_specs::convert::FromSpecImpl<DlpError> for ProgramError {
    open spec fn obeys_from_spec() -> bool {
        true
    }

    open spec fn from_spec(e: DlpError) -> ProgramError {
        ProgramError::Custom(e.code_spec())
    }
}

/// The runtime failure that carries `e`'s number.
pub open spec fn custom(e: DlpError) -> ProgramError {
    ProgramError::Custom(e.code_spec())
}

/// Two failures of this program with one number are the same failure.
pub proof fn law_codes_are_distinct(a: DlpError, b: DlpError)
    requires
        a.code_spec() == b.code_spec(),
    ensures
        a == b,
{
}

} // verus!
