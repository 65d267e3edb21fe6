//! Delegation of ledger accounts to a validator-run execution domain.
//!
//! An owning program hands an account to this program, a validator commits
//! new states of it, each commit is finalized into the account, and in the
//! end the account is handed back.
//!
//! - `diff` is the codec in which a commit may ship its state: the change
//!   from one buffer to another as segments of bytes, with a reader that
//!   checks what it reads.
//! - `state` and `args` are the records that the program keeps and the
//!   arguments of its instructions, as bytes.
//! - `account`, `pubkey` and `pda` are the ledger as the program sees it:
//!   accounts as plain values, addresses, and the addresses derived for the
//!   cells that the program keeps.
//! - `processor` holds the instructions as transitions from the accounts that
//!   an instruction is given to the accounts as it leaves them, and what
//!   holds of them across calls.

pub mod account;
pub mod args;
pub mod diff;
pub mod discriminator;
pub mod error;
pub mod pda;
pub mod processor;
pub mod pubkey;
pub mod seeds;
pub mod seeds_laws;
pub mod state;
pub mod state_laws;
pub mod wire;

pub use diff::algorithm::{
    apply_diff_copy, apply_diff_in_place, compute_diff, detect_size_change, merge_diff_copy,
};
pub use diff::format::{
    OffsetPair, SIZE_OF_CHANGED_LEN, SIZE_OF_NUM_OFFSET_PAIRS, SIZE_OF_SINGLE_OFFSET_PAIR,
};
pub use diff::types::{DiffSet, OffsetInData, SizeChanged};
