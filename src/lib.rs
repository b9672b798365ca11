//! A staking ledger: per-participant stake records, an administrator-owned
//! rate configuration, and the state transitions that stake, unstake and
//! accrue reward on a record.
//!
//! Value transfers and the clock live outside the ledger. An operation that
//! moves value is split in two steps: one validates the request and returns
//! the transfer to perform, the other takes the transfer's outcome and
//! commits the new record only when the transfer went through.

pub mod identity;
pub mod error;
pub mod state;
pub mod context;
pub mod engine;
pub mod admin;
pub mod laws;
