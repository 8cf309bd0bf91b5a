//! The ledger engine: one linear pass over the ordered transaction stream.
//!
//! For each transaction the engine looks up the client's record and (for a
//! correction) the referenced transaction, stores deposits/withdrawals
//! before validation, applies the state machine, and persists the outcome —
//! the combined update atomically.  At stream end it exports all records.

use vstd::prelude::*;

use crate::db_storage::{DbPool, DbStorage};
use crate::mem_storage::MemStorage;
use crate::record::Record;
use crate::storage::{exports, RecordStorage, StorageError, StoreView};
use crate::transaction::Transaction;

verus! {

/// The effect of one incoming transaction on a backend's contents: the
/// store-before-validate write, then whatever the state machine decided.
pub open spec fn spec_step(v: StoreView, t: Transaction) -> StoreView {
    let rec = v.client_record(t.client);
    let txn_to_check = if t.spec_is_correction() {
        v.txn_lookup(t.tx)
    } else {
        None::<Transaction>
    };
    let stored = v.store_txn(t);
    match t.spec_process(rec, txn_to_check) {
        (Some(r2), Some(t2)) => stored.with_record_and_txn(r2, t2),
        (Some(r2), None) => stored.with_record(r2),
        _ => stored,
    }
}

/// Replaying a whole stream, first transaction first.
pub open spec fn spec_run(v: StoreView, s: Seq<Transaction>) -> StoreView
    decreases s.len(),
{
    if s.len() == 0 {
        v
    } else {
        spec_run(spec_step(v, s[0]), s.skip(1))
    }
}

/// Replaying one more transaction at the end of a stream is one more step.
pub proof fn lemma_spec_run_snoc(v: StoreView, s: Seq<Transaction>, t: Transaction)
    ensures
        spec_run(v, s.push(t)) == spec_step(spec_run(v, s), t),
    decreases s.len(),
{
    if s.len() == 0 {
        assert(s.push(t)[0] == t);
        assert(s.push(t).skip(1) =~= s);
        assert(spec_run(spec_step(v, t), s) == spec_step(v, t));
    } else {
        assert(s.push(t)[0] == s[0]);
        assert(s.push(t).skip(1) =~= s.skip(1).push(t));
        lemma_spec_run_snoc(spec_step(v, s[0]), s.skip(1), t);
    }
}

/// One engine step keeps every stored entity under its own id.
pub proof fn lemma_step_preserves_coherent(v: StoreView, t: Transaction)
    requires
        v.coherent(),
    ensures
        spec_step(v, t).coherent(),
{
    let rec = v.client_record(t.client);
    let txn_to_check = if t.spec_is_correction() {
        v.txn_lookup(t.tx)
    } else {
        None::<Transaction>
    };
    let stored = v.store_txn(t);
    assert(stored.coherent());
    match t.spec_process(rec, txn_to_check) {
        (Some(r2), Some(t2)) => {
            assert(r2.client == t.client);
            assert(t2.tx == t.tx);
        },
        (Some(r2), None) => {
            assert(r2.client == t.client);
        },
        _ => {},
    }
}

/// Drive the stream through a storage backend.  On success the backend holds
/// exactly the replay of the stream over its starting contents, and the
/// returned rows are its account records.  On a storage failure the run
/// aborts, leaving the backend at a per-transaction boundary: some prefix
/// fully applied, at most the store-before-validate write of the failing
/// transaction beyond it.
pub fn run<S: RecordStorage>(stream: &Vec<Transaction>, record_storage: &mut S) -> (r: Result<
    Vec<Record>,
    StorageError,
>)
    requires
        old(record_storage).inv(),
        old(record_storage).contents().coherent(),
    ensures
        final(record_storage).inv(),
        old(record_storage).infallible() ==> r is Ok,
        r is Ok ==> final(record_storage).contents() == spec_run(
            old(record_storage).contents(),
            stream@,
        ) && exports(r->Ok_0@, final(record_storage).contents().records),
        r is Err ==> exists|i: int|
            0 <= i <= stream@.len() && {
                let prefix = spec_run(old(record_storage).contents(), #[trigger] stream@.take(i));
                ||| final(record_storage).contents() == prefix
                ||| (i < stream@.len() && final(record_storage).contents() == prefix.store_txn(
                    stream@[i],
                ))
            },
{
    let ghost v0 = old(record_storage).contents();
    let mut i: usize = 0;
    while i < stream.len()
        invariant
            record_storage.inv(),
            i <= stream@.len(),
            v0 == old(record_storage).contents(),
            record_storage.infallible() == old(record_storage).infallible(),
            record_storage.contents() == spec_run(v0, stream@.take(i as int)),
            record_storage.contents().coherent(),
        decreases stream@.len() - i,
    {
        let ghost pre = record_storage.contents();
        let txn = stream[i];
        let current_client_data: Record = match record_storage.get_client_record(txn.client) {
            Ok(rec) => rec,
            Err(e) => {
                proof {
                    assert(record_storage.contents() == spec_run(v0, stream@.take(i as int)));
                }
                return Err(e);
            },
        };
        let mut txn_to_check: Option<Transaction> = None;
        if let Some(tx_id) = txn.tx_id_to_check() {
            match record_storage.get_transaction(tx_id) {
                Ok(found) => {
                    txn_to_check = found;
                },
                Err(e) => {
                    return Err(e);
                },
            }
        }
        if let Err(e) = record_storage.store_transaction(txn) {
            return Err(e);
        }
        let (maybe_record, maybe_txn) = txn.process(&current_client_data, txn_to_check);
        proof {
            match maybe_txn {
                Some(updated) => {
                    assert(txn.spec_is_correction());
                    assert(txn.spec_is_valid(txn_to_check));
                    assert(txn_to_check == pre.txn_lookup(txn.tx));
                    assert(pre.txns.contains_key(txn.tx));
                    assert(record_storage.contents().txns == pre.txns);
                    assert(updated == pre.txns[txn.tx].spec_with_status(updated.dispute_status));
                    assert(updated.tx == txn.tx);
                },
                None => {},
            }
        }
        match (maybe_record, maybe_txn) {
            (Some(record), Some(updated_txn)) => {
                if let Err(e) = record_storage.update_record_and_txn(record, updated_txn) {
                    return Err(e);
                }
            },
            (Some(record), None) => {
                if let Err(e) = record_storage.update_record(record) {
                    return Err(e);
                }
            },
            _ => {},  // invalid transaction: no state change
        }
        proof {
            assert(stream@.take(i as int + 1) =~= stream@.take(i as int).push(txn));
            lemma_spec_run_snoc(v0, stream@.take(i as int), txn);
            assert(record_storage.contents() == spec_step(pre, txn));
            lemma_step_preserves_coherent(pre, txn);
        }
        i += 1;
    }
    proof {
        assert(stream@.take(stream@.len() as int) =~= stream@);
    }
    // print back
    record_storage.write_records()
}

/// Run the stream against a fresh in-memory backend.
pub fn run_in_mem(stream: &Vec<Transaction>) -> (r: Result<Vec<Record>, StorageError>)
    ensures
        r is Ok,
        exports(r->Ok_0@, spec_run(StoreView::empty(), stream@).records),
{
    let mut mem_storage = MemStorage::new();
    run(stream, &mut mem_storage)
}

/// Run the stream against the durable backend, freshly initialised over the
/// given pool.  On success the exported rows are exactly what the in-memory
/// backend would export for the same stream, order aside.
pub fn run_with_db(stream: &Vec<Transaction>, db_pool: DbPool) -> (r: Result<
    Vec<Record>,
    StorageError,
>)
    ensures
        r is Ok ==> exports(r->Ok_0@, spec_run(StoreView::empty(), stream@).records),
{
    let mut db_storage = match DbStorage::new(db_pool) {
        Ok(s) => s,
        Err(e) => {
            return Err(e);
        },
    };
    run(stream, &mut db_storage)
}

} // verus!
