//! A multi-party conditional-payment escrow, together with the pure pricing
//! and reputation rules that surround it on the same marketplace.
//!
//! Funds from a fixed set of payers are held until a quorum of designated
//! signers agrees on a distribution, with fallback paths for timeouts,
//! disputes and emergencies.  Every state transition is a function from plain
//! values to plain values: the host that authenticates callers, persists
//! records, keeps the clock and moves tokens acts on the transfer commands
//! these functions return.

pub mod errors;
pub mod escrow;
pub mod fee;
pub mod laws;
pub mod market;
pub mod oracle;
pub mod registry;
pub mod reputation;
