//! The storage capability the ledger engine runs against: lookup and update
//! operations over stored transactions and per-client account records, with
//! one atomic two-entity write.
//!
//! A backend's observable state is a [`StoreView`]; every operation's
//! contract says how it reads or changes that view.

use vstd::prelude::*;

use crate::record::Record;
use crate::transaction::Transaction;

verus! {

/// What a storage backend holds: the stored deposit/withdrawal transactions
/// keyed by transaction id, and the account records keyed by client id.
#[verifier::ext_equal]
pub struct StoreView {
    pub txns: Map<u32, Transaction>,
    pub records: Map<u16, Record>,
}

impl StoreView {
    /// A freshly initialised backend holds nothing.
    pub open spec fn empty() -> StoreView {
        StoreView { txns: Map::empty(), records: Map::empty() }
    }

    /// The record a client lookup returns: the stored one, or a freshly
    /// zeroed one for a client never seen before.
    pub open spec fn client_record(self, client_id: u16) -> Record {
        if self.records.contains_key(client_id) {
            self.records[client_id]
        } else {
            Record::spec_initial(client_id)
        }
    }

    /// The stored transaction with this id, if any.
    pub open spec fn txn_lookup(self, tx_id: u32) -> Option<Transaction> {
        if self.txns.contains_key(tx_id) {
            Some(self.txns[tx_id])
        } else {
            None::<Transaction>
        }
    }

    /// Persisting an incoming transaction: deposits and withdrawals are
    /// stored keyed by id; corrections are not stored as new entities.
    pub open spec fn store_txn(self, t: Transaction) -> StoreView {
        if t.spec_is_correction() {
            self
        } else {
            StoreView { txns: self.txns.insert(t.tx, t), ..self }
        }
    }

    /// Upserting one account record.
    pub open spec fn with_record(self, r: Record) -> StoreView {
        StoreView { records: self.records.insert(r.client, r), ..self }
    }

    /// The atomic combined update: the account record is upserted and the
    /// stored transaction replaced in one step.
    pub open spec fn with_record_and_txn(self, r: Record, t: Transaction) -> StoreView {
        StoreView { records: self.records.insert(r.client, r), txns: self.txns.insert(t.tx, t) }
    }

    /// Every stored entity sits under its own id.  Holds of anything the
    /// engine builds, since both maps are only ever keyed by the entity's
    /// own id field.
    pub open spec fn coherent(self) -> bool {
        &&& (forall|k: u32| self.txns.contains_key(k) ==> (#[trigger] self.txns[k]).tx == k)
        &&& (forall|c: u16|
            self.records.contains_key(c) ==> (#[trigger] self.records[c]).client == c)
    }
}

/// Why a storage operation failed.  Lookups of unknown entities are not
/// errors; these arise only from the backend's own machinery.
#[derive(Debug, Clone, Copy, PartialEq, Eq, Structural)]
pub enum StorageError {
    /// No connection could be obtained from the pool.
    Connection,
    /// A statement failed to execute or a row failed to decode.
    Sql,
}

/// `rs` holds exactly the records of `m`, one row per stored client, in some
/// backend-defined order.
pub open spec fn exports(rs: Seq<Record>, m: Map<u16, Record>) -> bool {
    &&& (forall|i: int|
        0 <= i < rs.len() ==> m.contains_key((#[trigger] rs[i]).client) && m[rs[i].client]
            == rs[i])
    &&& (forall|i: int, j: int|
        0 <= i < j < rs.len() ==> (#[trigger] rs[i]).client != (#[trigger] rs[j]).client)
    &&& (forall|c: u16| m.contains_key(c) ==> exists|i: int|
        0 <= i < rs.len() && (#[trigger] rs[i]).client == c)
}

/// The storage capability: polymorphic persistence with the fixed contract
/// the ledger engine relies on.
pub trait RecordStorage: Sized {
    /// The backend's observable contents.
    spec fn contents(&self) -> StoreView;

    /// Backend-specific well-formedness, established at construction and
    /// preserved by every operation.
    spec fn inv(&self) -> bool;

    /// Whether this backend's operations can fail at all.  The in-memory
    /// backend owes success on every call; the durable one may lose its
    /// connection or its statement.
    spec fn infallible(&self) -> bool;

    /// Persist a deposit/withdrawal keyed by its id; corrections drive
    /// status updates instead and are not stored as new entities.
    fn store_transaction(&mut self, t: Transaction) -> (r: Result<(), StorageError>)
        requires
            old(self).inv(),
        ensures
            final(self).inv(),
            final(self).infallible() == old(self).infallible(),
            old(self).infallible() ==> r is Ok,
            r is Ok ==> final(self).contents() == old(self).contents().store_txn(t),
            r is Err ==> final(self).contents() == old(self).contents(),
    ;

    /// Look up a stored transaction; an unknown id is `None`, not an error.
    fn get_transaction(&mut self, tx_id: u32) -> (r: Result<Option<Transaction>, StorageError>)
        requires
            old(self).inv(),
        ensures
            final(self).inv(),
            final(self).infallible() == old(self).infallible(),
            old(self).infallible() ==> r is Ok,
            final(self).contents() == old(self).contents(),
            r is Ok ==> r->Ok_0 == old(self).contents().txn_lookup(tx_id),
    ;

    /// Look up a client's record; an unknown client gets a zeroed record,
    /// never an error.
    fn get_client_record(&self, client_id: u16) -> (r: Result<Record, StorageError>)
        requires
            self.inv(),
        ensures
            self.infallible() ==> r is Ok,
            r is Ok ==> r->Ok_0 == self.contents().client_record(client_id),
    ;

    /// Upsert one account record.
    fn update_record(&mut self, r: Record) -> (res: Result<(), StorageError>)
        requires
            old(self).inv(),
        ensures
            final(self).inv(),
            final(self).infallible() == old(self).infallible(),
            old(self).infallible() ==> res is Ok,
            res is Ok ==> final(self).contents() == old(self).contents().with_record(r),
            res is Err ==> final(self).contents() == old(self).contents(),
    ;

    /// The only multi-entity write: upsert the record and update the stored
    /// transaction's dispute status atomically — both land, or neither.
    /// `t` must be the stored transaction with only its status advanced.
    fn update_record_and_txn(&mut self, r: Record, t: Transaction) -> (res: Result<
        (),
        StorageError,
    >)
        requires
            old(self).inv(),
            old(self).contents().txns.contains_key(t.tx),
            t == old(self).contents().txns[t.tx].spec_with_status(t.dispute_status),
        ensures
            final(self).inv(),
            final(self).infallible() == old(self).infallible(),
            old(self).infallible() ==> res is Ok,
            res is Ok ==> final(self).contents() == old(self).contents().with_record_and_txn(r, t),
            res is Err ==> final(self).contents() == old(self).contents(),
    ;

    /// Export all account records, one per client, in backend-defined order.
    fn write_records(&self) -> (r: Result<Vec<Record>, StorageError>)
        requires
            self.inv(),
        ensures
            self.infallible() ==> r is Ok,
            r is Ok ==> exports(r->Ok_0@, self.contents().records),
    ;
}

} // verus!
