//! A decommissioning smart contract: its only working entry point is
//! `migrate`, which drains every key from the contract's storage and hands
//! the host a single transfer instruction moving the contract's whole
//! balance to a payout address. `init`, `handle` and `query` are disabled
//! and always fail with one fixed error.

pub mod contract;
pub mod errors;
pub mod msg;
pub mod state;
