//! A time-locked token escrow: a sender locks tokens in a vault owned by a
//! keyless, program-derived authority until a maturity time, after which the
//! tokens can be released to the receiver exactly once.
//!
//! The library decides; the caller performs. Each operation is a verified
//! function from the accounts' keys, flags and data, the instruction bytes and
//! the current time to a plan of token-program calls and record writes.

pub mod custody;
pub mod error;
pub mod instruction;
pub mod processor;
pub mod state;
pub mod utils;
