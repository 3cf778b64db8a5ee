use router_core::payments::RedirectForm;
use router_core::storage::{
    ConnectorResponse, ConnectorResponseNew, ConnectorResponseStore, ConnectorResponseUpdate,
    StorageError,
};

fn new_record(merchant: &str, payment: &str, txn: &str, amount: i32) -> ConnectorResponseNew {
    ConnectorResponseNew {
        payment_id: String::from(payment),
        merchant_id: String::from(merchant),
        txn_id: String::from(txn),
        connector_name: String::from("x"),
        amount,
        connector_transaction_id: String::from(txn),
        return_url: None,
        three_ds_form: None,
    }
}

#[test]
fn second_insert_for_same_natural_key_fails() {
    let mut store = ConnectorResponseStore::new();
    new_record("m1", "p1", "t1", 1000)
        .insert(&mut store)
        .expect("first insert must succeed");
    match new_record("m1", "p1", "t1", 2000).insert(&mut store) {
        Err(err) => assert_eq!(err, StorageError::DuplicateValue),
        Ok(_) => panic!("a second insert for the same natural key must fail"),
    }
}

#[test]
fn lookup_after_insert_returns_the_row() {
    let mut store = ConnectorResponseStore::new();
    let inserted = new_record("m1", "p1", "t1", 1000)
        .insert(&mut store)
        .expect("insert must succeed");
    let found = ConnectorResponse::find_by_payment_id_and_merchant_id_transaction_id(
        &store, "p1", "m1", "t1",
    )
    .expect("lookup after insert must succeed");
    assert_eq!(found.id, inserted.id);
    assert_eq!(found.merchant_id, "m1");
    assert_eq!(found.payment_id, "p1");
    assert_eq!(found.txn_id, "t1");
    assert_eq!(found.amount, 1000);
}

#[test]
fn lookup_without_row_is_not_found() {
    let store = ConnectorResponseStore::new();
    match ConnectorResponse::find_by_payment_id_and_merchant_id_transaction_id(
        &store, "p1", "m1", "t1",
    ) {
        Err(err) => assert_eq!(err, StorageError::NotFound),
        Ok(_) => panic!("an empty store must report NotFound"),
    }
}

#[test]
fn update_of_missing_row_is_not_found() {
    let mut other_store = ConnectorResponseStore::new();
    let mut store = ConnectorResponseStore::new();
    let row = new_record("m1", "p1", "t1", 1000)
        .insert(&mut store)
        .expect("insert must succeed");
    let changes = ConnectorResponseUpdate {
        connector_transaction_id: None,
        return_url: None,
        three_ds_form: None,
    };
    match row.update(&mut other_store, changes) {
        Err(err) => assert_eq!(err, StorageError::NotFound),
        Ok(_) => panic!("updating a missing row must report NotFound"),
    }
}

#[test]
fn update_rewrites_fields_and_keeps_the_key() {
    let mut store = ConnectorResponseStore::new();
    let row = new_record("m1", "p1", "t1", 1000)
        .insert(&mut store)
        .expect("insert must succeed");
    let changes = ConnectorResponseUpdate {
        connector_transaction_id: Some(String::from("t1-final")),
        return_url: Some(String::from("https://merchant.example/return")),
        three_ds_form: None,
    };
    let updated = row.update(&mut store, changes).expect("update must succeed");
    assert_eq!(updated.connector_transaction_id, "t1-final");
    assert_eq!(
        updated.return_url.as_deref(),
        Some("https://merchant.example/return")
    );
    assert_eq!(updated.merchant_id, "m1");
    assert_eq!(updated.payment_id, "p1");
    assert_eq!(updated.txn_id, "t1");
    let found = ConnectorResponse::find_by_payment_id_and_merchant_id_transaction_id(
        &store, "p1", "m1", "t1",
    )
    .expect("the natural key must still resolve");
    assert_eq!(found.connector_transaction_id, "t1-final");
}

#[test]
fn inserts_for_different_keys_are_independent() {
    let mut store = ConnectorResponseStore::new();
    let first = new_record("m1", "p1", "t1", 1000)
        .insert(&mut store)
        .expect("insert must succeed");
    let second = new_record("m1", "p1", "t2", 500)
        .insert(&mut store)
        .expect("a different transaction id is a different key");
    assert_ne!(first.id, second.id);
    let found = ConnectorResponse::find_by_payment_id_and_merchant_id_transaction_id(
        &store, "p1", "m1", "t2",
    )
    .expect("second row must be found");
    assert_eq!(found.amount, 500);
}

#[test]
fn end_to_end_scenario() {
    let mut store = ConnectorResponseStore::new();
    let record = ConnectorResponseNew {
        payment_id: String::from("p1"),
        merchant_id: String::from("m1"),
        txn_id: String::from("t1"),
        connector_name: String::from("x"),
        amount: 1000,
        connector_transaction_id: String::from("t1"),
        return_url: None,
        three_ds_form: None,
    };
    record.insert(&mut store).expect("insert must succeed");

    let found = ConnectorResponse::find_by_payment_id_and_merchant_id_transaction_id(
        &store, "p1", "m1", "t1",
    )
    .expect("lookup must return the inserted row");
    assert_eq!(found.amount, 1000);
    assert_eq!(found.connector_name, "x");
    assert!(found.three_ds_form.is_none());

    let form = RedirectForm {
        url: String::from("https://acs.example/challenge"),
        method: String::from("POST"),
        form_fields: vec![(String::from("PaReq"), String::from("blob"))],
    };
    let changes = ConnectorResponseUpdate {
        connector_transaction_id: None,
        return_url: None,
        three_ds_form: Some(form),
    };
    found.update(&mut store, changes).expect("update must succeed");

    let after = ConnectorResponse::find_by_payment_id_and_merchant_id_transaction_id(
        &store, "p1", "m1", "t1",
    )
    .expect("lookup must still resolve the same natural key");
    assert_eq!(after.txn_id, "t1");
    let form = after.three_ds_form.expect("redirection data must be reflected");
    assert_eq!(form.url, "https://acs.example/challenge");
    assert_eq!(form.method, "POST");
    assert_eq!(form.form_fields, vec![(String::from("PaReq"), String::from("blob"))]);
}
