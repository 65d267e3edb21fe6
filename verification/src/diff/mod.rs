//! The diff codec: how the change from one buffer to another is written down,
//! read back, and applied.

pub mod algorithm;
pub mod aligned;
pub mod decode;
pub mod format;
pub mod laws;
pub mod lemmas;
pub mod types;
