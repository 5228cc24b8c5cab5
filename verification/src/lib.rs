//! Decision logic of a small ledger wallet service: address and transaction
//! identifier handling, amount conversion, error normalisation, the phases
//! of a value transfer and the aggregation of an account's transaction
//! history.
//!
//! The functions here work on plain values, and on the ledger SDK's key
//! pair, instruction and transaction, which they carry through unopened.
//! Talking to the ledger node, reading credentials and serving HTTP are left
//! to the caller, which feeds each outcome back into the next phase.

pub mod address;
pub mod amount;
pub mod balance;
pub mod error;
pub mod history;
pub mod signature;
pub mod transfer;
