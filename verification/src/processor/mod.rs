//! The instructions of the program as transitions on the accounts that they
//! are given.

pub mod cells;
pub mod checks;
pub mod commit_diff;
pub mod commit_state;
pub mod commit_state_from_buffer;
pub mod delegate;
pub mod finalize;
pub mod laws;
pub mod undelegate;
