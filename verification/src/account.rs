//! Ledger cells as the program sees them, and the ledger's rent schedule.
//!
//! The transitions of this library work on plain values: each account of an
//! instruction is handed in as an `Account`, and the accounts as they stand
//! after the instruction are handed back. Every position of the account list
//! is taken as a cell of its own: where the ledger has one cell in two
//! positions, what a transition does to the one position it does not do to
//! the other.

use crate::pubkey::Pubkey;
use crate::wire::copy_bytes;
use vstd::prelude::*;

verus! {

/// One account of an instruction: a ledger cell, and how the instruction may
/// use it.
pub struct Account {
    /// The cell's address.
    pub key: Pubkey,
    /// The program that owns the cell.
    pub owner: Pubkey,
    /// The cell's balance.
    pub lamports: u64,
    /// The bytes that the cell holds.
    pub data: Vec<u8>,
    /// Whether the holder of the address signed the transaction.
    pub is_signer: bool,
    /// Whether the instruction may change the cell.
    pub is_writable: bool,
    /// Whether the cell holds a program.
    pub executable: bool,
}

/// An account as a mathematical value.
pub struct AccountView {
    pub key: Seq<u8>,
    pub owner: Seq<u8>,
    pub lamports: u64,
    pub data: Seq<u8>,
    pub is_signer: bool,
    pub is_writable: bool,
    pub executable: bool,
}

impl View for Account {
    type V = AccountView;

    open spec fn view(&self) -> AccountView {
        AccountView {
            key: self.key@,
            owner: self.owner@,
            lamports: self.lamports,
            data: self.data@,
            is_signer: self.is_signer,
            is_writable: self.is_writable,
            executable: self.executable,
        }
    }
}

impl Account {
    /// A copy of the account.
    pub fn duplicate(&self) -> (copy: Account)
        ensures
            copy@ == self@,
    {
        Account {
            key: self.key,
            owner: self.owner,
            lamports: self.lamports,
            data: copy_bytes(self.data.as_slice()),
            is_signer: self.is_signer,
            is_writable: self.is_writable,
            executable: self.executable,
        }
    }
}

/// The account with its bytes replaced.
pub fn with_data(account: Account, data: Vec<u8>) -> (out: Account)
    ensures
        out@ == (AccountView { data: data@, ..account@ }),
{
    Account {
        key: account.key,
        owner: account.owner,
        lamports: account.lamports,
        data,
        is_signer: account.is_signer,
        is_writable: account.is_writable,
        executable: account.executable,
    }
}

/// The accounts of an instruction as mathematical values.
pub open spec fn views(accounts: Seq<Account>) -> Seq<AccountView> {
    Seq::new(accounts.len(), |i: int| accounts[i]@)
}

/// The bytes that the ledger charges for a cell besides its data.
pub const ACCOUNT_STORAGE_OVERHEAD: u64 = 128;

/// The ledger's rent schedule: what a cell has to hold, for each byte it
/// takes, to be kept without paying rent.
#[derive(Debug, Clone, Copy)]
pub struct Rent {
    pub lamports_per_byte: u64,
}

/// The balance that keeps a cell of `data_len` bytes exempt from rent.
#[verifier::opaque]
pub open spec fn minimum_balance_of(lamports_per_byte: u64, data_len: nat) -> nat {
    (128 + data_len) * (lamports_per_byte as nat)
}

impl Rent {
    /// The balance that keeps a cell of `data_len` bytes exempt from rent;
    /// `None` where it does not fit into 64 bits.
    pub fn minimum_balance(&self, data_len: usize) -> (min: Option<u64>)
        ensures
            match min {
                Some(m) => m == minimum_balance_of(self.lamports_per_byte, data_len as nat),
                None => minimum_balance_of(self.lamports_per_byte, data_len as nat) > u64::MAX,
            },
    {
        reveal(minimum_balance_of);
        let len: u64 = if data_len as u128 > u64::MAX as u128 {
            u64::MAX
        } else {
            data_len as u64
        };
        match len.checked_add(ACCOUNT_STORAGE_OVERHEAD) {
            None => {
                assert((128 + data_len) * (self.lamports_per_byte as nat) > u64::MAX
                    || self.lamports_per_byte == 0) by (nonlinear_arith)
                    requires
                        128 + data_len > u64::MAX,
                ;
                if self.lamports_per_byte == 0 {
                    Some(0)
                } else {
                    None
                }
            },
            Some(bytes) => bytes.checked_mul(self.lamports_per_byte),
        }
    }
}

} // verus!
