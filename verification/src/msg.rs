//! The types that cross the contract's call surface: requests coming in,
//! and the effects, log entries and confirmation data going out.

use vstd::prelude::*;

verus! {

/// A request that carries no information. The disabled entry points take
/// it and fail regardless of its (absent) content.
#[derive(Clone, Debug, PartialEq, Eq)]
pub struct EmptyMsg {}

/// The migration request: names the account that is to receive the
/// contract's residual funds.
#[derive(Clone, Debug)]
pub struct MigrateMsg {
    pub payout: String,
}

/// One (denomination, amount) pair of a balance.
#[derive(Clone, Debug, PartialEq, Eq)]
pub struct Coin {
    pub denom: String,
    pub amount: u128,
}

/// One key/value entry of the structured log that a call emits.
#[derive(Clone, Debug, PartialEq, Eq)]
pub struct LogAttribute {
    pub key: String,
    pub value: String,
}

/// The single outbound effect of a migration: an instruction to the host
/// to move `amount` from the contract's own address to the payout address.
#[derive(Clone, Debug, PartialEq, Eq)]
pub struct BankTransfer {
    pub from_address: String,
    pub to_address: String,
    pub amount: Vec<Coin>,
}

/// What a successful `migrate` hands back to the host: the transfer to
/// execute, the log to record, and an opaque confirmation payload.
#[derive(Debug, PartialEq, Eq)]
pub struct MigrateResponse {
    pub messages: Vec<BankTransfer>,
    pub log: Vec<LogAttribute>,
    pub data: Option<Vec<u8>>,
}

} // verus!
