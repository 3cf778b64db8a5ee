//! Connector-response persistence: the record representing what a
//! connector said about a given payment attempt, with insert, update and
//! exact-match lookup on the natural key (merchant, payment, transaction).
//! The store keeps at most one row per natural key at any time: a second
//! insert for a key is a duplicate error, never a silent update, and an
//! update never changes the natural key.

use vstd::prelude::*;
use crate::payments::{RedirectForm, RedirectFormView};

verus! {

/// Failures of the persistence layer.
#[derive(Clone, Copy, Debug, PartialEq, Eq, Structural)]
pub enum StorageError {
    /// No row matches the given key. Expected: it drives the choice
    /// between insert and update.
    NotFound,
    /// An insert collided with an existing row for the same natural key.
    DuplicateValue,
    /// Any other storage failure; fatal to the current operation.
    DatabaseError,
}

/// The mathematical value of a persisted [`ConnectorResponse`] row.
pub struct ConnectorResponseView {
    pub id: int,
    pub payment_id: Seq<char>,
    pub merchant_id: Seq<char>,
    pub txn_id: Seq<char>,
    pub connector_name: Seq<char>,
    pub amount: int,
    pub connector_transaction_id: Seq<char>,
    pub return_url: Option<Seq<char>>,
    pub three_ds_form: Option<RedirectFormView>,
}

/// A persisted row: the last known connector-side truth for an attempt,
/// identified by the surrogate `id` and addressed by the natural key
/// (`merchant_id`, `payment_id`, `txn_id`).
pub struct ConnectorResponse {
    pub id: i32,
    pub payment_id: String,
    pub merchant_id: String,
    pub txn_id: String,
    pub connector_name: String,
    pub amount: i32,
    pub connector_transaction_id: String,
    pub return_url: Option<String>,
    pub three_ds_form: Option<RedirectForm>,
}

impl View for ConnectorResponse {
    type V = ConnectorResponseView;

    open spec fn view(&self) -> ConnectorResponseView {
        ConnectorResponseView {
            id: self.id as int,
            payment_id: self.payment_id@,
            merchant_id: self.merchant_id@,
            txn_id: self.txn_id@,
            connector_name: self.connector_name@,
            amount: self.amount as int,
            connector_transaction_id: self.connector_transaction_id@,
            return_url: self.return_url.deep_view(),
            three_ds_form: (match self.three_ds_form {
                Some(f) => Some(f@),
                None => None,
            }),
        }
    }
}

impl Clone for ConnectorResponse {
    fn clone(&self) -> (r: Self)
        ensures
            r@ == self@,
    {
        Self {
            id: self.id,
            payment_id: self.payment_id.clone(),
            merchant_id: self.merchant_id.clone(),
            txn_id: self.txn_id.clone(),
            connector_name: self.connector_name.clone(),
            amount: self.amount,
            connector_transaction_id: self.connector_transaction_id.clone(),
            return_url: (match &self.return_url {
                Some(s) => Some(s.clone()),
                None => None,
            }),
            three_ds_form: (match &self.three_ds_form {
                Some(f) => Some(f.clone()),
                None => None,
            }),
        }
    }
}

/// The mathematical value of a [`ConnectorResponseNew`].
pub struct ConnectorResponseNewView {
    pub payment_id: Seq<char>,
    pub merchant_id: Seq<char>,
    pub txn_id: Seq<char>,
    pub connector_name: Seq<char>,
    pub amount: int,
    pub connector_transaction_id: Seq<char>,
    pub return_url: Option<Seq<char>>,
    pub three_ds_form: Option<RedirectFormView>,
}

/// A row to be created: everything of a row except the surrogate id,
/// which the store assigns on insert.
pub struct ConnectorResponseNew {
    pub payment_id: String,
    pub merchant_id: String,
    pub txn_id: String,
    pub connector_name: String,
    pub amount: i32,
    pub connector_transaction_id: String,
    pub return_url: Option<String>,
    pub three_ds_form: Option<RedirectForm>,
}

impl View for ConnectorResponseNew {
    type V = ConnectorResponseNewView;

    open spec fn view(&self) -> ConnectorResponseNewView {
        ConnectorResponseNewView {
            payment_id: self.payment_id@,
            merchant_id: self.merchant_id@,
            txn_id: self.txn_id@,
            connector_name: self.connector_name@,
            amount: self.amount as int,
            connector_transaction_id: self.connector_transaction_id@,
            return_url: self.return_url.deep_view(),
            three_ds_form: (match self.three_ds_form {
                Some(f) => Some(f@),
                None => None,
            }),
        }
    }
}

/// The mathematical value of a [`ConnectorResponseUpdate`].
pub struct ConnectorResponseUpdateView {
    pub connector_transaction_id: Option<Seq<char>>,
    pub return_url: Option<Seq<char>>,
    pub three_ds_form: Option<RedirectFormView>,
}

/// A partial update: a field that is `Some` is written, a field that is
/// `None` keeps the row's value. Neither the surrogate id nor the natural
/// key can be touched.
pub struct ConnectorResponseUpdate {
    pub connector_transaction_id: Option<String>,
    pub return_url: Option<String>,
    pub three_ds_form: Option<RedirectForm>,
}

impl View for ConnectorResponseUpdate {
    type V = ConnectorResponseUpdateView;

    open spec fn view(&self) -> ConnectorResponseUpdateView {
        ConnectorResponseUpdateView {
            connector_transaction_id: self.connector_transaction_id.deep_view(),
            return_url: self.return_url.deep_view(),
            three_ds_form: (match self.three_ds_form {
                Some(f) => Some(f@),
                None => None,
            }),
        }
    }
}

/// The natural key of a row: the triple that uniquely identifies at most
/// one row at any time.
pub open spec fn natural_key(r: ConnectorResponseView) -> (Seq<char>, Seq<char>, Seq<char>) {
    (r.merchant_id, r.payment_id, r.txn_id)
}

/// The natural key a new row will bear.
pub open spec fn new_natural_key(n: ConnectorResponseNewView) -> (Seq<char>, Seq<char>, Seq<char>) {
    (n.merchant_id, n.payment_id, n.txn_id)
}

/// The row that inserting `n` under the surrogate id `id` creates.
pub open spec fn row_of_new(n: ConnectorResponseNewView, id: int) -> ConnectorResponseView {
    ConnectorResponseView {
        id: id,
        payment_id: n.payment_id,
        merchant_id: n.merchant_id,
        txn_id: n.txn_id,
        connector_name: n.connector_name,
        amount: n.amount,
        connector_transaction_id: n.connector_transaction_id,
        return_url: n.return_url,
        three_ds_form: n.three_ds_form,
    }
}

/// The row that applying the partial update `u` to `r` yields: written
/// fields take the update's value, the rest keep the row's, and both the
/// surrogate id and the natural key are untouched.
pub open spec fn apply_update(
    r: ConnectorResponseView,
    u: ConnectorResponseUpdateView,
) -> ConnectorResponseView {
    ConnectorResponseView {
        connector_transaction_id: (match u.connector_transaction_id {
            Some(s) => s,
            None => r.connector_transaction_id,
        }),
        return_url: (match u.return_url {
            Some(s) => Some(s),
            None => r.return_url,
        }),
        three_ds_form: (match u.three_ds_form {
            Some(f) => Some(f),
            None => r.three_ds_form,
        }),
        ..r
    }
}

/// Whether some row bears the natural key.
pub open spec fn contains_natural_key(
    rows: Seq<ConnectorResponseView>,
    key: (Seq<char>, Seq<char>, Seq<char>),
) -> bool {
    exists|i: int| 0 <= i < rows.len() && natural_key(rows[i]) == key
}

/// Whether some row bears the surrogate id.
pub open spec fn contains_row_id(rows: Seq<ConnectorResponseView>, id: int) -> bool {
    exists|i: int| 0 <= i < rows.len() && rows[i].id == id
}

/// No two rows bear the same natural key.
pub open spec fn unique_natural_keys(rows: Seq<ConnectorResponseView>) -> bool {
    forall|i: int, j: int|
        0 <= i < rows.len() && 0 <= j < rows.len() && i != j ==> natural_key(rows[i])
            != natural_key(rows[j])
}

/// No two rows bear the same surrogate id.
pub open spec fn unique_row_ids(rows: Seq<ConnectorResponseView>) -> bool {
    forall|i: int, j: int|
        0 <= i < rows.len() && 0 <= j < rows.len() && i != j ==> rows[i].id != rows[j].id
}

/// The persistence handle: the rows the connector-response contract is
/// run against. The caller serializes insert and update per natural key;
/// operations against different keys are independent.
pub struct ConnectorResponseStore {
    rows: Vec<ConnectorResponse>,
    next_id: i32,
}

impl View for ConnectorResponseStore {
    type V = Seq<ConnectorResponseView>;

    closed spec fn view(&self) -> Seq<ConnectorResponseView> {
        self.rows@.map_values(|r: ConnectorResponse| r@)
    }
}

impl ConnectorResponseStore {
    /// The next surrogate id the store will assign.
    pub closed spec fn spec_next_id(&self) -> int {
        self.next_id as int
    }

    /// The store's invariant: natural keys and surrogate ids are unique,
    /// and every assigned id lies below the next one.
    pub open spec fn wf(&self) -> bool {
        &&& unique_natural_keys(self@)
        &&& unique_row_ids(self@)
        &&& forall|i: int| 0 <= i < self@.len() ==> self@[i].id < self.spec_next_id()
        &&& 1 <= self.spec_next_id() <= i32::MAX as int
    }

    /// An empty store.
    pub fn new() -> (s: Self)
        ensures
            s.wf(),
            s@ == Seq::<ConnectorResponseView>::empty(),
            s.spec_next_id() == 1,
    {
        let s = Self { rows: Vec::new(), next_id: 1 };
        proof {
            assert(s@ =~= Seq::<ConnectorResponseView>::empty());
        }
        s
    }

    /// The index of the row bearing the natural key, if any.
    fn position_of_key(
        &self,
        merchant_id: &String,
        payment_id: &String,
        txn_id: &String,
    ) -> (r: Option<usize>)
        ensures
            match r {
                Some(i) => i < self@.len() && natural_key(self@[i as int]) == (
                    merchant_id@,
                    payment_id@,
                    txn_id@,
                ),
                None => !contains_natural_key(self@, (merchant_id@, payment_id@, txn_id@)),
            },
    {
        let mut j: usize = 0;
        while j < self.rows.len()
            invariant
                j <= self.rows.len(),
                self@.len() == self.rows@.len(),
                forall|k: int|
                    0 <= k < j as int ==> natural_key(self@[k]) != (
                        merchant_id@,
                        payment_id@,
                        txn_id@,
                    ),
            decreases self.rows.len() - j,
        {
            let row = &self.rows[j];
            if row.merchant_id == *merchant_id && row.payment_id == *payment_id && row.txn_id
                == *txn_id {
                return Some(j);
            }
            j = j + 1;
        }
        None
    }

    /// The index of the row bearing the surrogate id, if any.
    fn position_of_id(&self, id: i32) -> (r: Option<usize>)
        ensures
            match r {
                Some(i) => i < self@.len() && self@[i as int].id == id as int,
                None => !contains_row_id(self@, id as int),
            },
    {
        let mut j: usize = 0;
        while j < self.rows.len()
            invariant
                j <= self.rows.len(),
                self@.len() == self.rows@.len(),
                forall|k: int| 0 <= k < j as int ==> self@[k].id != id as int,
            decreases self.rows.len() - j,
        {
            if self.rows[j].id == id {
                return Some(j);
            }
            j = j + 1;
        }
        None
    }
}

impl ConnectorResponseNew {
    /// Create exactly one row for a natural key that does not exist yet.
    /// A duplicate natural key is an error, not a silent update; success
    /// is owed exactly when the key is fresh and an id is still free, and
    /// a failed insert leaves the store untouched.
    pub fn insert(self, store: &mut ConnectorResponseStore) -> (r: Result<
        ConnectorResponse,
        StorageError,
    >)
        requires
            old(store).wf(),
        ensures
            final(store).wf(),
            r is Ok <==> (!contains_natural_key(old(store)@, new_natural_key(self@)) && old(
                store,
            ).spec_next_id() < i32::MAX as int),
            match r {
                Ok(row) => {
                    &&& row@ == row_of_new(self@, old(store).spec_next_id())
                    &&& final(store)@ == old(store)@.push(row@)
                    &&& final(store).spec_next_id() == old(store).spec_next_id() + 1
                },
                Err(StorageError::DuplicateValue) => {
                    &&& contains_natural_key(old(store)@, new_natural_key(self@))
                    &&& *final(store) == *old(store)
                },
                Err(StorageError::DatabaseError) => {
                    &&& !contains_natural_key(old(store)@, new_natural_key(self@))
                    &&& old(store).spec_next_id() == i32::MAX as int
                    &&& *final(store) == *old(store)
                },
                Err(StorageError::NotFound) => false,
            },
    {
        let dup = store.position_of_key(&self.merchant_id, &self.payment_id, &self.txn_id);
        match dup {
            Some(_) => Err(StorageError::DuplicateValue),
            None => {
                if store.next_id == i32::MAX {
                    return Err(StorageError::DatabaseError);
                }
                let id = store.next_id;
                let row = ConnectorResponse {
                    id: id,
                    payment_id: self.payment_id,
                    merchant_id: self.merchant_id,
                    txn_id: self.txn_id,
                    connector_name: self.connector_name,
                    amount: self.amount,
                    connector_transaction_id: self.connector_transaction_id,
                    return_url: self.return_url,
                    three_ds_form: self.three_ds_form,
                };
                let stored = row.clone();
                store.rows.push(stored);
                store.next_id = id + 1;
                proof {
                    assert(store@ =~= old(store)@.push(row@));
                    assert forall|i: int, j: int|
                        0 <= i < store@.len() && 0 <= j < store@.len() && i != j implies
                        natural_key(store@[i]) != natural_key(store@[j]) by {
                        if i == store@.len() - 1 || j == store@.len() - 1 {
                            assert(!contains_natural_key(old(store)@, new_natural_key(self@)));
                        }
                    }
                    assert forall|i: int, j: int|
                        0 <= i < store@.len() && 0 <= j < store@.len() && i != j implies
                        store@[i].id != store@[j].id by {}
                }
                Ok(row)
            },
        }
    }
}

impl ConnectorResponse {
    /// Apply a partial update to the row addressed by this row's surrogate
    /// id. The natural key is never changed; a missing row is the distinct
    /// `NotFound` condition and leaves the store untouched.
    pub fn update(
        self,
        store: &mut ConnectorResponseStore,
        connector_response: ConnectorResponseUpdate,
    ) -> (r: Result<Self, StorageError>)
        requires
            old(store).wf(),
        ensures
            final(store).wf(),
            final(store).spec_next_id() == old(store).spec_next_id(),
            r is Ok <==> contains_row_id(old(store)@, self@.id),
            match r {
                Ok(row) => exists|i: int|
                    {
                        &&& 0 <= i < old(store)@.len()
                        &&& old(store)@[i].id == self@.id
                        &&& row@ == apply_update(old(store)@[i], connector_response@)
                        &&& final(store)@ == old(store)@.update(i, row@)
                    },
                Err(StorageError::NotFound) => {
                    &&& !contains_row_id(old(store)@, self@.id)
                    &&& *final(store) == *old(store)
                },
                Err(_) => false,
            },
    {
        let pos = store.position_of_id(self.id);
        match pos {
            None => Err(StorageError::NotFound),
            Some(i) => {
                let old_row = store.rows[i].clone();
                let updated = ConnectorResponse {
                    id: old_row.id,
                    payment_id: old_row.payment_id,
                    merchant_id: old_row.merchant_id,
                    txn_id: old_row.txn_id,
                    connector_name: old_row.connector_name,
                    amount: old_row.amount,
                    connector_transaction_id: (match connector_response.connector_transaction_id {
                        Some(s) => s,
                        None => old_row.connector_transaction_id,
                    }),
                    return_url: (match connector_response.return_url {
                        Some(s) => Some(s),
                        None => old_row.return_url,
                    }),
                    three_ds_form: (match connector_response.three_ds_form {
                        Some(f) => Some(f),
                        None => old_row.three_ds_form,
                    }),
                };
                let ret = updated.clone();
                store.rows.remove(i);
                store.rows.insert(i, updated);
                proof {
                    assert(store@ =~= old(store)@.update(i as int, ret@));
                    assert(natural_key(store@[i as int]) == natural_key(old(store)@[i as int]));
                    assert forall|a: int, b: int|
                        0 <= a < store@.len() && 0 <= b < store@.len() && a != b implies
                        natural_key(store@[a]) != natural_key(store@[b]) by {
                        assert(natural_key(store@[a]) == natural_key(old(store)@[a]));
                        assert(natural_key(store@[b]) == natural_key(old(store)@[b]));
                    }
                }
                Ok(ret)
            },
        }
    }

    /// Exact-match lookup on the natural key: the row for the triple, or
    /// the distinct `NotFound` condition when no row bears it.
    pub fn find_by_payment_id_and_merchant_id_transaction_id(
        store: &ConnectorResponseStore,
        payment_id: &str,
        merchant_id: &str,
        transaction_id: &str,
    ) -> (r: Result<Self, StorageError>)
        ensures
            r is Ok <==> contains_natural_key(store@, (merchant_id@, payment_id@, transaction_id@)),
            match r {
                Ok(row) => exists|i: int|
                    {
                        &&& 0 <= i < store@.len()
                        &&& store@[i] == row@
                        &&& natural_key(store@[i]) == (merchant_id@, payment_id@, transaction_id@)
                    },
                Err(StorageError::NotFound) => !contains_natural_key(
                    store@,
                    (merchant_id@, payment_id@, transaction_id@),
                ),
                Err(_) => false,
            },
    {
        let m = merchant_id.to_owned();
        let p = payment_id.to_owned();
        let t = transaction_id.to_owned();
        let pos = store.position_of_key(&m, &p, &t);
        match pos {
            Some(i) => Ok(store.rows[i].clone()),
            None => Err(StorageError::NotFound),
        }
    }
}

/// After an insert, the store contains the inserted row's natural key, so
/// the insert contract turns any second insert for that key into the
/// duplicate error.
pub proof fn lemma_key_present_after_insert(
    rows: Seq<ConnectorResponseView>,
    row: ConnectorResponseView,
)
    ensures
        contains_natural_key(rows.push(row), natural_key(row)),
{
    assert(rows.push(row)[rows.len() as int] == row);
}

/// With unique natural keys at most one row bears a key: two indexes that
/// agree on the key are the same index.
pub proof fn lemma_unique_key_determines_row(rows: Seq<ConnectorResponseView>, i: int, j: int)
    requires
        unique_natural_keys(rows),
        0 <= i < rows.len(),
        0 <= j < rows.len(),
        natural_key(rows[i]) == natural_key(rows[j]),
    ensures
        i == j,
{
}

/// The row a lookup returns for a just-inserted key is the inserted row
/// itself.
pub proof fn lemma_find_after_insert(
    rows: Seq<ConnectorResponseView>,
    row: ConnectorResponseView,
    i: int,
)
    requires
        unique_natural_keys(rows.push(row)),
        0 <= i < rows.push(row).len(),
        natural_key(rows.push(row)[i]) == natural_key(row),
    ensures
        rows.push(row)[i] == row,
{
    assert(rows.push(row)[rows.len() as int] == row);
    lemma_unique_key_determines_row(rows.push(row), i, rows.len() as int);
}

/// An update writes only the updatable fields: the natural key and the
/// surrogate id of the row it touches are unchanged.
pub proof fn lemma_update_preserves_natural_key(
    r: ConnectorResponseView,
    u: ConnectorResponseUpdateView,
)
    ensures
        natural_key(apply_update(r, u)) == natural_key(r),
        apply_update(r, u).id == r.id,
{
}

} // verus!
