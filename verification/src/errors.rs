//! The error taxonomy of the contract's entry points.

use vstd::prelude::*;
use vstd::string::StringExecFns;

verus! {

/// The fixed text with which every disabled entry point fails.
pub open spec fn migration_only_text() -> Seq<char> {
    "You can only use this contract for migrations"@
}

/// Why a contract call failed.
#[derive(Debug)]
pub enum ContractError {
    /// A disabled entry point (`init`, `handle`, `query`) was invoked;
    /// this contract exists only to be migrated.
    MigrationOnly,
    /// The host could not resolve the contract's own address; the
    /// payload carries the host's reason.
    AddressResolution(String),
    /// The host could not report the contract's balance; the payload
    /// carries the host's reason.
    BalanceQuery(String),
}

impl ContractError {
    /// The human-readable reason for the failure.
    pub fn message(&self) -> (r: String)
        ensures
            self is MigrationOnly ==> r@ == migration_only_text(),
            self matches ContractError::AddressResolution(m) ==> r@ == m@,
            self matches ContractError::BalanceQuery(m) ==> r@ == m@,
    {
        match self {
            ContractError::MigrationOnly => {
                String::from_str("You can only use this contract for migrations")
            },
            ContractError::AddressResolution(m) => m.clone(),
            ContractError::BalanceQuery(m) => m.clone(),
        }
    }
}

} // verus!
