//! The in-memory storage backend: two maps keyed by transaction id and
//! client id, plus the insertion order of clients so that the export walks
//! them deterministically.

use vstd::prelude::*;

use std::collections::HashMap;

use crate::record::Record;
use crate::storage::{exports, RecordStorage, StorageError, StoreView};
use crate::transaction::Transaction;

verus! {

broadcast use vstd::std_specs::hash::group_hash_axioms, vstd::seq_lib::lemma_seq_contains_after_push;

pub struct MemStorage {
    /// maps tx_id to Transaction
    transactions: HashMap<u32, Transaction>,
    /// maps client_id to Record
    records: HashMap<u16, Record>,
    /// client ids in first-seen order; tracks the domain of `records`
    clients: Vec<u16>,
}

impl MemStorage {
    /// After an upsert of a record keyed by `c`, the client list still
    /// mirrors the record map's domain without duplicates.
    proof fn lemma_clients_updated(&self, pre: MemStorage, c: u16)
        requires
            pre.inv(),
            forall|x: u16|
                self.records@.contains_key(x) <==> (x == c || pre.records@.contains_key(x)),
            forall|x: u16|
                x != c && self.records@.contains_key(x) ==> self.records@[x] == pre.records@[x],
            self.records@.contains_key(c) && self.records@[c].client == c,
            if pre.records@.contains_key(c) {
                self.clients@ == pre.clients@
            } else {
                self.clients@ == pre.clients@.push(c)
            },
        ensures
            forall|i: int, j: int|
                0 <= i < j < self.clients@.len() ==> self.clients@[i] != self.clients@[j],
            forall|x: u16| self.records@.contains_key(x) <==> self.clients@.contains(x),
            forall|x: u16|
                self.records@.contains_key(x) ==> (#[trigger] self.records@[x]).client == x,
    {
        if pre.records@.contains_key(c) {
            assert(pre.clients@.contains(c));
        } else {
            assert(!pre.clients@.contains(c));
            assert forall|i: int, j: int|
                0 <= i < j < self.clients@.len() implies self.clients@[i] != self.clients@[j] by {
                assert(self.clients@[i] == pre.clients@[i]);
                if j < pre.clients@.len() as int {
                    assert(self.clients@[j] == pre.clients@[j]);
                } else {
                    assert(self.clients@[j] == c);
                    if pre.clients@[i] == c {
                        assert(pre.clients@.contains(c));
                    }
                }
            }
            assert forall|x: u16|
                self.records@.contains_key(x) <==> self.clients@.contains(x) by {
                vstd::seq_lib::lemma_seq_contains_after_push(pre.clients@, c, x);
            }
        }
    }

    pub fn new() -> (r: MemStorage)
        ensures
            r.inv(),
            r.infallible(),
            r.contents() == StoreView::empty(),
    {
        let r = Self {
            transactions: HashMap::new(),
            records: HashMap::new(),
            clients: Vec::new(),
        };
        proof {
            assert(r.contents() =~= StoreView::empty());
        }
        r
    }
}

impl Default for MemStorage {
    fn default() -> (r: Self)
        ensures
            r.inv(),
            r.infallible(),
            r.contents() == StoreView::empty(),
    {
        MemStorage::new()
    }
}

impl RecordStorage for MemStorage {
    closed spec fn contents(&self) -> StoreView {
        StoreView { txns: self.transactions@, records: self.records@ }
    }

    closed spec fn infallible(&self) -> bool {
        true
    }

    closed spec fn inv(&self) -> bool {
        &&& (forall|i: int, j: int|
            0 <= i < j < self.clients@.len() ==> self.clients@[i] != self.clients@[j])
        &&& (forall|c: u16| self.records@.contains_key(c) <==> self.clients@.contains(c))
        &&& (forall|c: u16|
            self.records@.contains_key(c) ==> (#[trigger] self.records@[c]).client == c)
    }

    fn store_transaction(&mut self, t: Transaction) -> (r: Result<(), StorageError>) {
        if !t.is_correction() {
            self.transactions.insert(t.tx, t);
        }  // corrections are not stored in this backend
        proof {
            assert(self.contents() =~= old(self).contents().store_txn(t));
        }
        Ok(())
    }

    fn get_transaction(&mut self, tx_id: u32) -> (r: Result<Option<Transaction>, StorageError>) {
        if let Some(txn) = self.transactions.get(&tx_id) {
            Ok(Some(*txn))
        } else {
            Ok(None)
        }
    }

    fn get_client_record(&self, client_id: u16) -> (r: Result<Record, StorageError>) {
        if let Some(record) = self.records.get(&client_id) {
            Ok(*record)
        } else {
            Ok(Record::new(client_id))
        }
    }

    fn update_record(&mut self, r: Record) -> (res: Result<(), StorageError>) {
        if !self.records.contains_key(&r.client) {
            self.clients.push(r.client);
        }
        self.records.insert(r.client, r);
        proof {
            self.lemma_clients_updated(*old(self), r.client);
            assert(self.contents() =~= old(self).contents().with_record(r));
        }
        Ok(())
    }

    fn update_record_and_txn(&mut self, r: Record, t: Transaction) -> (res: Result<
        (),
        StorageError,
    >) {
        if !self.records.contains_key(&r.client) {
            self.clients.push(r.client);
        }
        self.records.insert(r.client, r);
        self.transactions.insert(t.tx, t);
        proof {
            self.lemma_clients_updated(*old(self), r.client);
            assert(self.contents() =~= old(self).contents().with_record_and_txn(r, t));
        }
        Ok(())
    }

    fn write_records(&self) -> (r: Result<Vec<Record>, StorageError>) {
        let mut out: Vec<Record> = Vec::new();
        let mut i: usize = 0;
        while i < self.clients.len()
            invariant
                self.inv(),
                i <= self.clients@.len(),
                out@.len() == i as int,
                forall|k: int|
                    0 <= k < i as int ==> (#[trigger] out@[k]) == self.records@[self.clients@[k]],
                forall|k: int| 0 <= k < i as int ==> out@[k].client == self.clients@[k],
            decreases self.clients@.len() - i,
        {
            let c = self.clients[i];
            proof {
                assert(self.clients@.contains(self.clients@[i as int]));
            }
            if let Some(rec) = self.records.get(&c) {
                out.push(*rec);
            } else {
                proof {
                    assert(false);
                }
            }
            i += 1;
        }
        proof {
            assert forall|k: int|
                0 <= k < out@.len() implies self.records@.contains_key(
                (#[trigger] out@[k]).client,
            ) && self.records@[out@[k].client] == out@[k] by {
                assert(self.clients@.contains(self.clients@[k]));
            }
            assert forall|c: u16| self.records@.contains_key(c) implies exists|k: int|
                0 <= k < out@.len() && (#[trigger] out@[k]).client == c by {
                assert(self.clients@.contains(c));
                let k = choose|k: int|
                    0 <= k < self.clients@.len() && self.clients@[k] == c;
                assert(out@[k].client == c);
            }
            assert(exports(out@, self.contents().records));
        }
        Ok(out)
    }
}

} // verus!
