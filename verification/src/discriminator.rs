//! The numbers by which the instructions of the program are told apart.

use vstd::prelude::*;

verus! {

/// The instructions of the program. The first byte of an instruction's data
/// holds the number of the instruction; the seven bytes behind it are zero.
#[derive(Clone, Copy, Debug, Eq, PartialEq, Structural)]
pub enum DlpDiscriminator {
    /// Delegates an account.
    Delegate,
    /// Commits a new state, carried in the instruction.
    CommitState,
    /// Finalizes the pending commit.
    Finalize,
    /// Hands the account back.
    Undelegate,
    /// Creates the protocol's fee vault.
    InitProtocolFeesVault,
    /// Creates a validator's fee vault.
    InitValidatorFeesVault,
    /// Pays a validator out of its fee vault.
    ValidatorClaimFees,
    /// Lists a validator in an owning program's configuration.
    WhitelistValidatorForProgram,
    /// Adds to an escrow balance.
    TopUpEphemeralBalance,
    /// Delegates an escrow balance.
    DelegateEphemeralBalance,
    /// Closes an escrow balance.
    CloseEphemeralBalance,
    /// Pays the protocol out of its fee vault.
    ProtocolClaimFees,
    /// Commits a new state that lies in a buffer account.
    CommitStateFromBuffer,
    /// Closes a validator's fee vault.
    CloseValidatorFeesVault,
    /// Passes a call on to another program.
    CallHandler,
    /// Commits a new state as a diff.
    CommitDiff,
    /// Commits a new state as a diff that lies in a buffer account.
    CommitDiffFromBuffer,
}

impl DlpDiscriminator {
    /// The number of the instruction.
    pub open spec fn number_spec(self) -> u8 {
        match self {
            DlpDiscriminator::Delegate => 0,
            DlpDiscriminator::CommitState => 1,
            DlpDiscriminator::Finalize => 2,
            DlpDiscriminator::Undelegate => 3,
            DlpDiscriminator::InitProtocolFeesVault => 5,
            DlpDiscriminator::InitValidatorFeesVault => 6,
            DlpDiscriminator::ValidatorClaimFees => 7,
            DlpDiscriminator::WhitelistValidatorForProgram => 8,
            DlpDiscriminator::TopUpEphemeralBalance => 9,
            DlpDiscriminator::DelegateEphemeralBalance => 10,
            DlpDiscriminator::CloseEphemeralBalance => 11,
            DlpDiscriminator::ProtocolClaimFees => 12,
            DlpDiscriminator::CommitStateFromBuffer => 13,
            DlpDiscriminator::CloseValidatorFeesVault => 14,
            DlpDiscriminator::CallHandler => 15,
            DlpDiscriminator::CommitDiff => 16,
            DlpDiscriminator::CommitDiffFromBuffer => 17,
        }
    }

    /// The number of the instruction.
    pub fn number(self) -> (n: u8)
        ensures
            n == self.number_spec(),
    {
        match self {
            DlpDiscriminator::Delegate => 0,
            DlpDiscriminator::CommitState => 1,
            DlpDiscriminator::Finalize => 2,
            DlpDiscriminator::Undelegate => 3,
            DlpDiscriminator::InitProtocolFeesVault => 5,
            DlpDiscriminator::InitValidatorFeesVault => 6,
            DlpDiscriminator::ValidatorClaimFees => 7,
            DlpDiscriminator::WhitelistValidatorForProgram => 8,
            DlpDiscriminator::TopUpEphemeralBalance => 9,
            DlpDiscriminator::DelegateEphemeralBalance => 10,
            DlpDiscriminator::CloseEphemeralBalance => 11,
            DlpDiscriminator::ProtocolClaimFees => 12,
            DlpDiscriminator::CommitStateFromBuffer => 13,
            DlpDiscriminator::CloseValidatorFeesVault => 14,
            DlpDiscriminator::CallHandler => 15,
            DlpDiscriminator::CommitDiff => 16,
            DlpDiscriminator::CommitDiffFromBuffer => 17,
        }
    }

    /// The instruction that has the number `n`, if there is one.
    pub fn try_from_u8(n: u8) -> (d: Option<DlpDiscriminator>)
        ensures
            match d {
                Some(found) => found.number_spec() == n,
                None => forall|other: DlpDiscriminator| other.number_spec() != n,
            },
    {
        match n {
            0 => Some(DlpDiscriminator::Delegate),
            1 => Some(DlpDiscriminator::CommitState),
            2 => Some(DlpDiscriminator::Finalize),
            3 => Some(DlpDiscriminator::Undelegate),
            5 => Some(DlpDiscriminator::InitProtocolFeesVault),
            6 => Some(DlpDiscriminator::InitValidatorFeesVault),
            7 => Some(DlpDiscriminator::ValidatorClaimFees),
            8 => Some(DlpDiscriminator::WhitelistValidatorForProgram),
            9 => Some(DlpDiscriminator::TopUpEphemeralBalance),
            10 => Some(DlpDiscriminator::DelegateEphemeralBalance),
            11 => Some(DlpDiscriminator::CloseEphemeralBalance),
            12 => Some(DlpDiscriminator::ProtocolClaimFees),
            13 => Some(DlpDiscriminator::CommitStateFromBuffer),
            14 => Some(DlpDiscriminator::CloseValidatorFeesVault),
            15 => Some(DlpDiscriminator::CallHandler),
            16 => Some(DlpDiscriminator::CommitDiff),
            17 => Some(DlpDiscriminator::CommitDiffFromBuffer),
            _ => None,
        }
    }

    /// The 8 bytes that start the data of the instruction: its number as a
    /// little-endian 64-bit integer.
    pub open spec fn bytes_spec(self) -> Seq<u8> {
        seq![self.number_spec(), 0u8, 0u8, 0u8, 0u8, 0u8, 0u8, 0u8]
    }

    /// The 8 bytes that start the data of the instruction.
    pub fn to_vec(self) -> (bytes: Vec<u8>)
        ensures
            bytes@ == self.bytes_spec(),
    {
        let bytes: Vec<u8> = vec![self.number(), 0, 0, 0, 0, 0, 0, 0];
        assert(bytes@ =~= self.bytes_spec());
        bytes
    }

    /// The name of the instruction.
    pub open spec fn name_spec(self) -> Seq<char> {
        match self {
            DlpDiscriminator::Delegate => "Delegate"@,
            DlpDiscriminator::CommitState => "CommitState"@,
            DlpDiscriminator::Finalize => "Finalize"@,
            DlpDiscriminator::Undelegate => "Undelegate"@,
            DlpDiscriminator::InitProtocolFeesVault => "InitProtocolFeesVault"@,
            DlpDiscriminator::InitValidatorFeesVault => "InitValidatorFeesVault"@,
            DlpDiscriminator::ValidatorClaimFees => "ValidatorClaimFees"@,
            DlpDiscriminator::WhitelistValidatorForProgram => "WhitelistValidatorForProgram"@,
            DlpDiscriminator::TopUpEphemeralBalance => "TopUpEphemeralBalance"@,
            DlpDiscriminator::DelegateEphemeralBalance => "DelegateEphemeralBalance"@,
            DlpDiscriminator::CloseEphemeralBalance => "CloseEphemeralBalance"@,
            DlpDiscriminator::ProtocolClaimFees => "ProtocolClaimFees"@,
            DlpDiscriminator::CommitStateFromBuffer => "CommitStateFromBuffer"@,
            DlpDiscriminator::CloseValidatorFeesVault => "CloseValidatorFeesVault"@,
            DlpDiscriminator::CallHandler => "CallHandler"@,
            DlpDiscriminator::CommitDiff => "CommitDiff"@,
            DlpDiscriminator::CommitDiffFromBuffer => "CommitDiffFromBuffer"@,
        }
    }

    /// The name of the instruction.
    pub fn name(&self) -> (n: &'static str)
        ensures
            n@ == self.name_spec(),
    {
        match self {
            DlpDiscriminator::Delegate => "Delegate",
            DlpDiscriminator::CommitState => "CommitState",
            DlpDiscriminator::Finalize => "Finalize",
            DlpDiscriminator::Undelegate => "Undelegate",
            DlpDiscriminator::InitProtocolFeesVault => "InitProtocolFeesVault",
            DlpDiscriminator::InitValidatorFeesVault => "InitValidatorFeesVault",
            DlpDiscriminator::ValidatorClaimFees => "ValidatorClaimFees",
            DlpDiscriminator::WhitelistValidatorForProgram => "WhitelistValidatorForProgram",
            DlpDiscriminator::TopUpEphemeralBalance => "TopUpEphemeralBalance",
            DlpDiscriminator::DelegateEphemeralBalance => "DelegateEphemeralBalance",
            DlpDiscriminator::CloseEphemeralBalance => "CloseEphemeralBalance",
            DlpDiscriminator::ProtocolClaimFees => "ProtocolClaimFees",
            DlpDiscriminator::CommitStateFromBuffer => "CommitStateFromBuffer",
            DlpDiscriminator::CloseValidatorFeesVault => "CloseValidatorFeesVault",
            DlpDiscriminator::CallHandler => "CallHandler",
            DlpDiscriminator::CommitDiff => "CommitDiff",
            DlpDiscriminator::CommitDiffFromBuffer => "CommitDiffFromBuffer",
        }
    }
}

/// Two instructions with one number are the same instruction.
pub proof fn law_numbers_are_distinct(a: DlpDiscriminator, b: DlpDiscriminator)
    requires
        a.number_spec() == b.number_spec(),
    ensures
        a == b,
{
}

} // verus!
