//! The contract's entry points. Only `migrate` does real work: it drains
//! every key from the contract's storage and emits one transfer moving the
//! contract's whole balance to the requested payout address. `init`,
//! `handle` and `query` are permanently disabled and fail with one fixed
//! error.
//!
//! The host resolves the contract's own address and reports its balance;
//! `migrate` receives both outcomes as arguments and is verified for every
//! value the host could hand back.

use vstd::prelude::*;
use vstd::string::StringExecFns;

use crate::errors::ContractError;
use crate::msg::{BankTransfer, Coin, EmptyMsg, LogAttribute, MigrateMsg, MigrateResponse};
use crate::state::{purge, store_map};

verus! {

/// The bytes of the fixed confirmation payload: the ASCII word "burnt".
pub open spec fn burnt_marker() -> Seq<u8> {
    seq![98u8, 117u8, 114u8, 110u8, 116u8]
}

/// What the response of a successful migration holds: exactly one
/// transfer of `amount` from the contract's address to the payout
/// address, the two-entry log, and the fixed confirmation payload.
pub open spec fn response_matches(
    r: MigrateResponse,
    from: String,
    payout: String,
    amount: Vec<Coin>,
) -> bool {
    &&& r.messages@.len() == 1
    &&& r.messages@[0].from_address == from
    &&& r.messages@[0].to_address == payout
    &&& r.messages@[0].amount == amount
    &&& r.log@.len() == 2
    &&& r.log@[0].key@ == "action"@
    &&& r.log@[0].value@ == "burn"@
    &&& r.log@[1].key@ == "payout"@
    &&& r.log@[1].value == payout
    &&& r.data matches Some(d) && d@ == burnt_marker()
}

/// The full contract of `migrate`, relating the storage before the call
/// (`pre`) and after it (`post`) to the request and to the two host
/// outcomes: a failed host call aborts the migration with the matching
/// error and leaves the storage untouched; otherwise the storage ends
/// empty and the response carries the whole observed balance.
pub open spec fn migrate_post(
    pre: Map<Seq<u8>, Seq<u8>>,
    post: Map<Seq<u8>, Seq<u8>>,
    msg: MigrateMsg,
    own_address: Result<String, String>,
    balance: Result<Vec<Coin>, String>,
    r: Result<MigrateResponse, ContractError>,
) -> bool {
    &&& (own_address is Err ==> r is Err
        && r->Err_0 == ContractError::AddressResolution(own_address->Err_0) && post == pre)
    &&& (own_address is Ok && balance is Err ==> r is Err
        && r->Err_0 == ContractError::BalanceQuery(balance->Err_0) && post == pre)
    &&& (own_address is Ok && balance is Ok ==> r is Ok
        && post == Map::<Seq<u8>, Seq<u8>>::empty()
        && response_matches(r->Ok_0, own_address->Ok_0, msg.payout, balance->Ok_0))
}

/// Disabled entry point: initialization is refused, since this contract
/// exists only to be the target of a migration. It never touches the
/// storage.
pub fn init(store: &mut cosmwasm_std::testing::MockStorage, _msg: EmptyMsg) -> (r: Result<
    (),
    ContractError,
>)
    ensures
        r is Err && r->Err_0 == ContractError::MigrationOnly,
        store_map(*final(store)) == store_map(*old(store)),
{
    Err(ContractError::MigrationOnly)
}

/// Disabled entry point: transaction handling is refused. It never
/// touches the storage.
pub fn handle(store: &mut cosmwasm_std::testing::MockStorage, _msg: EmptyMsg) -> (r: Result<
    (),
    ContractError,
>)
    ensures
        r is Err && r->Err_0 == ContractError::MigrationOnly,
        store_map(*final(store)) == store_map(*old(store)),
{
    Err(ContractError::MigrationOnly)
}

/// Disabled entry point: queries are refused.
pub fn query(_store: &cosmwasm_std::testing::MockStorage, _msg: EmptyMsg) -> (r: Result<
    Vec<u8>,
    ContractError,
>)
    ensures
        r is Err && r->Err_0 == ContractError::MigrationOnly,
{
    Err(ContractError::MigrationOnly)
}

/// Decommission the contract: delete every storage key and emit one
/// transfer moving the whole balance to `msg.payout`.
///
/// `own_address` is the host's resolution of the contract's own address,
/// and `balance` the host's report of the funds held at that address. If
/// either host call failed, the migration aborts with the matching error
/// before any key is deleted, so a failed call leaves the storage exactly
/// as it was.
pub fn migrate(
    store: &mut cosmwasm_std::testing::MockStorage,
    msg: MigrateMsg,
    own_address: Result<String, String>,
    balance: Result<Vec<Coin>, String>,
) -> (r: Result<MigrateResponse, ContractError>)
    ensures
        migrate_post(
            store_map(*old(store)),
            store_map(*final(store)),
            msg,
            own_address,
            balance,
            r,
        ),
{
    let from_address = match own_address {
        Ok(a) => a,
        Err(m) => {
            return Err(ContractError::AddressResolution(m));
        },
    };
    let coins = match balance {
        Ok(b) => b,
        Err(m) => {
            return Err(ContractError::BalanceQuery(m));
        },
    };
    purge(store);
    Ok(build_response(from_address, msg.payout, coins))
}

/// Assemble the migration response for the given resolved contract
/// address, payout address and observed balance.
fn build_response(from_address: String, payout: String, amount: Vec<Coin>) -> (r:
    MigrateResponse)
    ensures
        response_matches(r, from_address, payout, amount),
{
    let to_address = payout.clone();
    let transfer = BankTransfer { from_address, to_address, amount };
    let mut messages: Vec<BankTransfer> = Vec::new();
    messages.push(transfer);
    let mut log: Vec<LogAttribute> = Vec::new();
    log.push(
        LogAttribute { key: String::from_str("action"), value: String::from_str("burn") },
    );
    log.push(LogAttribute { key: String::from_str("payout"), value: payout });
    let mut data: Vec<u8> = Vec::new();
    data.push(98u8);
    data.push(117u8);
    data.push(114u8);
    data.push(110u8);
    data.push(116u8);
    proof {
        assert(data@ =~= burnt_marker());
    }
    MigrateResponse { messages, log, data: Some(data) }
}

/// Law: a successful migration leaves the storage with zero keys,
/// however many it held before.
pub proof fn lemma_success_empties_storage(
    pre: Map<Seq<u8>, Seq<u8>>,
    post: Map<Seq<u8>, Seq<u8>>,
    msg: MigrateMsg,
    own_address: Result<String, String>,
    balance: Result<Vec<Coin>, String>,
    r: Result<MigrateResponse, ContractError>,
)
    requires
        migrate_post(pre, post, msg, own_address, balance, r),
        r is Ok,
    ensures
        post == Map::<Seq<u8>, Seq<u8>>::empty(),
        post.dom().len() == 0,
{
    assert(post.dom() =~= Set::<Seq<u8>>::empty());
}

/// Law: a successful migration emits exactly one transfer, whose amount
/// is the balance the host reported and whose destination is the payout
/// address of the request.
pub proof fn lemma_success_transfers_full_balance(
    pre: Map<Seq<u8>, Seq<u8>>,
    post: Map<Seq<u8>, Seq<u8>>,
    msg: MigrateMsg,
    own_address: Result<String, String>,
    balance: Result<Vec<Coin>, String>,
    r: Result<MigrateResponse, ContractError>,
)
    requires
        migrate_post(pre, post, msg, own_address, balance, r),
        r is Ok,
    ensures
        balance is Ok,
        r->Ok_0.messages@.len() == 1,
        r->Ok_0.messages@[0].amount == balance->Ok_0,
        r->Ok_0.messages@[0].to_address == msg.payout,
        r->Ok_0.messages@[0].from_address == own_address->Ok_0,
{
}

/// Law: if the balance query failed, the call fails and no key is
/// deleted; no partial migration is observable.
pub proof fn lemma_balance_failure_preserves_storage(
    pre: Map<Seq<u8>, Seq<u8>>,
    post: Map<Seq<u8>, Seq<u8>>,
    msg: MigrateMsg,
    own_address: Result<String, String>,
    balance: Result<Vec<Coin>, String>,
    r: Result<MigrateResponse, ContractError>,
)
    requires
        migrate_post(pre, post, msg, own_address, balance, r),
        balance is Err,
    ensures
        post == pre,
        r is Err,
{
}

/// Law: migrating a contract whose storage is already empty and whose
/// balance is already zero succeeds trivially, deletes nothing further,
/// and emits a transfer of zero amount.
pub proof fn lemma_migrate_again_trivial(
    pre: Map<Seq<u8>, Seq<u8>>,
    post: Map<Seq<u8>, Seq<u8>>,
    msg: MigrateMsg,
    own_address: Result<String, String>,
    balance: Result<Vec<Coin>, String>,
    r: Result<MigrateResponse, ContractError>,
)
    requires
        migrate_post(pre, post, msg, own_address, balance, r),
        pre == Map::<Seq<u8>, Seq<u8>>::empty(),
        own_address is Ok,
        balance is Ok,
        balance->Ok_0@.len() == 0,
    ensures
        r is Ok,
        post == pre,
        r->Ok_0.messages@.len() == 1,
        r->Ok_0.messages@[0].amount@.len() == 0,
{
}

} // verus!
