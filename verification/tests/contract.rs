use burner::contract::{handle, init, migrate, query};
use burner::errors::ContractError;
use burner::msg::{Coin, EmptyMsg, MigrateMsg};
use burner::state::store_len;

use cosmwasm_std::testing::MockStorage;
use cosmwasm_std::Storage;

fn coin(amount: u128, denom: &str) -> Coin {
    Coin {
        denom: denom.to_string(),
        amount,
    }
}

#[test]
fn init_fails() {
    let mut store = MockStorage::new();

    let msg = EmptyMsg {};
    let res = init(&mut store, msg);
    match res.unwrap_err() {
        ContractError::MigrationOnly => {}
        _ => panic!("expected migrate error message"),
    }
    let err = init(&mut store, EmptyMsg {}).unwrap_err();
    assert_eq!(
        err.message(),
        "You can only use this contract for migrations"
    );
}

#[test]
fn handle_fails() {
    let mut store = MockStorage::new();
    let err = handle(&mut store, EmptyMsg {}).unwrap_err();
    assert_eq!(
        err.message(),
        "You can only use this contract for migrations"
    );
}

#[test]
fn query_fails() {
    let store = MockStorage::new();
    let err = query(&store, EmptyMsg {}).unwrap_err();
    assert_eq!(
        err.message(),
        "You can only use this contract for migrations"
    );
}

#[test]
fn disabled_entry_points_delete_nothing() {
    let mut store = MockStorage::new();
    store.set(b"a", b"1");
    store.set(b"b", b"2");
    assert_eq!(store_len(&store), 2);

    assert!(init(&mut store, EmptyMsg {}).is_err());
    assert!(handle(&mut store, EmptyMsg {}).is_err());
    assert!(query(&store, EmptyMsg {}).is_err());
    assert_eq!(store_len(&store), 2);
}

#[test]
fn migrate_cleans_up_data() {
    let mut store = MockStorage::new();
    store.set(b"a", b"1");
    store.set(b"b", b"2");
    assert_eq!(store_len(&store), 2);

    let msg = MigrateMsg {
        payout: "recipient1".to_string(),
    };
    let res = migrate(
        &mut store,
        msg,
        Ok("contract".to_string()),
        Ok(vec![coin(1000, "earth")]),
    )
    .unwrap();

    assert_eq!(store_len(&store), 0);

    assert_eq!(res.messages.len(), 1);
    let send = &res.messages[0];
    assert_eq!(send.from_address, "contract");
    assert_eq!(send.to_address, "recipient1");
    assert_eq!(send.amount, vec![coin(1000, "earth")]);

    assert_eq!(res.log.len(), 2);
    assert_eq!(res.log[0].key, "action");
    assert_eq!(res.log[0].value, "burn");
    assert_eq!(res.log[1].key, "payout");
    assert_eq!(res.log[1].value, "recipient1");

    assert_eq!(res.data, Some(b"burnt".to_vec()));
}

#[test]
fn migrate_with_empty_storage_and_balance() {
    let mut store = MockStorage::new();
    assert_eq!(store_len(&store), 0);

    let msg = MigrateMsg {
        payout: "recipient2".to_string(),
    };
    let res = migrate(&mut store, msg, Ok("contract".to_string()), Ok(vec![])).unwrap();

    assert_eq!(store_len(&store), 0);
    assert_eq!(res.messages.len(), 1);
    assert_eq!(res.messages[0].to_address, "recipient2");
    assert!(res.messages[0].amount.is_empty());
    assert_eq!(res.log.len(), 2);
    assert_eq!(res.log[0].value, "burn");
    assert_eq!(res.data, Some(b"burnt".to_vec()));
}

#[test]
fn migrate_balance_failure_deletes_nothing() {
    let mut store = MockStorage::new();
    store.set(b"a", b"1");

    let msg = MigrateMsg {
        payout: "recipient1".to_string(),
    };
    let err = migrate(
        &mut store,
        msg,
        Ok("contract".to_string()),
        Err("bank module unavailable".to_string()),
    )
    .unwrap_err();

    match &err {
        ContractError::BalanceQuery(reason) => assert_eq!(reason, "bank module unavailable"),
        _ => panic!("expected a balance query error"),
    }
    assert_eq!(err.message(), "bank module unavailable");
    assert_eq!(store_len(&store), 1);
}

#[test]
fn migrate_address_failure_deletes_nothing() {
    let mut store = MockStorage::new();
    store.set(b"a", b"1");

    let msg = MigrateMsg {
        payout: "recipient1".to_string(),
    };
    let err = migrate(
        &mut store,
        msg,
        Err("cannot resolve contract address".to_string()),
        Ok(vec![coin(7, "earth")]),
    )
    .unwrap_err();

    match &err {
        ContractError::AddressResolution(reason) => {
            assert_eq!(reason, "cannot resolve contract address")
        }
        _ => panic!("expected an address resolution error"),
    }
    assert_eq!(err.message(), "cannot resolve contract address");
    assert_eq!(store_len(&store), 1);
}

#[test]
fn migrate_twice_is_a_no_op_with_zero_transfer() {
    let mut store = MockStorage::new();
    store.set(b"a", b"1");

    let first = migrate(
        &mut store,
        MigrateMsg {
            payout: "recipient1".to_string(),
        },
        Ok("contract".to_string()),
        Ok(vec![coin(1000, "earth")]),
    )
    .unwrap();
    assert_eq!(first.messages[0].amount, vec![coin(1000, "earth")]);
    assert_eq!(store_len(&store), 0);

    // The funds are gone and the storage is empty; a second migration
    // succeeds trivially and transfers a zero amount.
    let second = migrate(
        &mut store,
        MigrateMsg {
            payout: "recipient1".to_string(),
        },
        Ok("contract".to_string()),
        Ok(vec![]),
    )
    .unwrap();
    assert_eq!(store_len(&store), 0);
    assert_eq!(second.messages.len(), 1);
    assert!(second.messages[0].amount.is_empty());
    assert_eq!(second.log.len(), 2);
    assert_eq!(second.data, Some(b"burnt".to_vec()));
}
