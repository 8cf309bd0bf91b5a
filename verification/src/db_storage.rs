//! The durable storage backend: a SQLite database reached through a
//! connection pool.  Three tables hold the stored transactions, an
//! informational log of corrections, and the account records.
//!
//! The database's contents are tracked by a ghost [`StoreView`]; each row
//! operation is a trusted item whose contract states what its statement does
//! to that view.  Everything else — rendering enums to column values,
//! decoding rows, the decision which statement to run — is verified code.

use vstd::prelude::*;

use rusqlite::OptionalExtension;

use crate::record::Record;
use crate::storage::{exports, RecordStorage, StorageError, StoreView};
use crate::transaction::{DisputeStatus, Transaction, TransactionType};

verus! {

/// The SQLite connection pool, opaque to the verifier: `r2d2::Pool`'s
/// declaration carries an outside trait bound the verifier cannot follow,
/// so the pool is held behind this wrapper and only the trusted row
/// operations below reach inside.
#[verifier::external_body]
pub struct DbPool {
    pub pool: r2d2::Pool<r2d2_sqlite::SqliteConnectionManager>,
}

/// How a transaction type is stored in the `tx_type` column.
pub open spec fn spec_type_code(t: TransactionType) -> i64 {
    match t {
        TransactionType::Deposit => 0,
        TransactionType::Withdrawal => 1,
        TransactionType::Dispute => 2,
        TransactionType::Resolve => 3,
        TransactionType::Chargeback => 4,
    }
}

#[verifier::when_used_as_spec(spec_type_code)]
fn type_code(t: TransactionType) -> (r: i64)
    ensures
        r == spec_type_code(t),
{
    match t {
        TransactionType::Deposit => 0,
        TransactionType::Withdrawal => 1,
        TransactionType::Dispute => 2,
        TransactionType::Resolve => 3,
        TransactionType::Chargeback => 4,
    }
}

fn type_from_code(c: i64) -> (r: Option<TransactionType>)
    ensures
        forall|t: TransactionType| c == spec_type_code(t) ==> r == Some(t),
{
    if c == 0 {
        Some(TransactionType::Deposit)
    } else if c == 1 {
        Some(TransactionType::Withdrawal)
    } else if c == 2 {
        Some(TransactionType::Dispute)
    } else if c == 3 {
        Some(TransactionType::Resolve)
    } else if c == 4 {
        Some(TransactionType::Chargeback)
    } else {
        None
    }
}

/// How a dispute status is stored in the `disp_st` column.
pub open spec fn spec_status_code(s: DisputeStatus) -> i64 {
    match s {
        DisputeStatus::Undisputed => 0,
        DisputeStatus::Disputed => 1,
        DisputeStatus::Resolved => 2,
        DisputeStatus::Chargedback => 3,
    }
}

#[verifier::when_used_as_spec(spec_status_code)]
fn status_code(s: DisputeStatus) -> (r: i64)
    ensures
        r == spec_status_code(s),
{
    match s {
        DisputeStatus::Undisputed => 0,
        DisputeStatus::Disputed => 1,
        DisputeStatus::Resolved => 2,
        DisputeStatus::Chargedback => 3,
    }
}

fn status_from_code(c: i64) -> (r: Option<DisputeStatus>)
    ensures
        forall|s: DisputeStatus| c == spec_status_code(s) ==> r == Some(s),
{
    if c == 0 {
        Some(DisputeStatus::Undisputed)
    } else if c == 1 {
        Some(DisputeStatus::Disputed)
    } else if c == 2 {
        Some(DisputeStatus::Resolved)
    } else if c == 3 {
        Some(DisputeStatus::Chargedback)
    } else {
        None
    }
}

/// How the lock flag is stored in the `locked` column.
pub open spec fn spec_locked_code(b: bool) -> i64 {
    if b {
        1
    } else {
        0
    }
}

#[verifier::when_used_as_spec(spec_locked_code)]
fn locked_code(b: bool) -> (r: i64)
    ensures
        r == spec_locked_code(b),
{
    if b {
        1
    } else {
        0
    }
}

pub struct DbStorage {
    db_pool: DbPool,
    model: Ghost<StoreView>,
}

impl DbStorage {
    /// Relies on rusqlite's `Connection::execute_batch` running the DDL:
    /// after `Ok`, the three tables exist and hold no rows — the empty
    /// contents the constructor below records in its ghost model.
    #[verifier::external_body]
    fn clear_tables(db_pool: &DbPool) -> (r: Result<
        (),
        StorageError,
    >)
    {
        let conn = db_pool.pool.get().map_err(|_| StorageError::Connection)?;
        conn.execute_batch(
            "DROP TABLE IF EXISTS transactions; DROP TABLE IF EXISTS corrections; \
             DROP TABLE IF EXISTS records; \
             CREATE TABLE transactions (tx INTEGER PRIMARY KEY, client INTEGER, \
             tx_type INTEGER, disp_st INTEGER, amount INTEGER); \
             CREATE TABLE corrections (tx INTEGER, client INTEGER, tx_type INTEGER); \
             CREATE TABLE records (client INTEGER PRIMARY KEY, available INTEGER, \
             held INTEGER, total INTEGER, locked INTEGER);",
        ).map_err(|_| StorageError::Sql)?;
        Ok(())
    }

    /// Open the backend over a pool, dropping and recreating the three
    /// tables so that a fresh run starts from a clean slate.
    pub fn new(db_pool: DbPool) -> (r: Result<
        DbStorage,
        StorageError,
    >)
        ensures
            r matches Ok(s) ==> s.contents() == StoreView::empty() && s.inv(),
    {
        match Self::clear_tables(&db_pool) {
            Err(e) => Err(e),
            Ok(()) => Ok(DbStorage { db_pool, model: Ghost(StoreView::empty()) }),
        }
    }

    /// Relies on rusqlite's `Connection::execute` running
    /// `INSERT INTO transactions`: on success exactly this row is added,
    /// keyed by its primary key `tx`; on failure (a duplicate id, a lost
    /// connection) no row is added.
    #[verifier::external_body]
    fn insert_txn_row(&mut self, t: Transaction, tc: i64, sc: i64) -> (r: Result<(), StorageError>)
        requires
            !t.spec_is_correction(),
            tc == spec_type_code(t.tx_type),
            sc == spec_status_code(t.dispute_status),
        ensures
            r is Ok ==> final(self).contents() == old(self).contents().store_txn(t),
            r is Err ==> final(self).contents() == old(self).contents(),
    {
        let conn = self.db_pool.pool.get().map_err(|_| StorageError::Connection)?;
        conn.execute(
            "INSERT INTO transactions (tx, client, tx_type, disp_st, amount) \
             VALUES (?1, ?2, ?3, ?4, ?5)",
            (t.tx, t.client, tc, sc, t.amount),
        ).map_err(|_| StorageError::Sql)?;
        Ok(())
    }

    /// Relies on rusqlite's `Connection::execute` running
    /// `INSERT INTO corrections`: the informational log only — the
    /// transactions and records tables are untouched either way.
    #[verifier::external_body]
    fn insert_correction_row(&mut self, t: Transaction, tc: i64) -> (r: Result<(), StorageError>)
        requires
            t.spec_is_correction(),
            tc == spec_type_code(t.tx_type),
        ensures
            final(self).contents() == old(self).contents(),
    {
        let conn = self.db_pool.pool.get().map_err(|_| StorageError::Connection)?;
        conn.execute(
            "INSERT INTO corrections (tx, client, tx_type) VALUES (?1, ?2, ?3)",
            (t.tx, t.client, tc),
        ).map_err(|_| StorageError::Sql)?;
        Ok(())
    }

    /// Relies on rusqlite's `Statement::query_row` over
    /// `SELECT ... FROM transactions WHERE tx = ?1`: the primary key holds
    /// at most one row, the one stored for this id, with the column values
    /// as they were inserted.
    #[verifier::external_body]
    fn fetch_txn_row(&self, tx_id: u32) -> (r: Result<
        Option<(u32, u16, i64, i64, Option<i64>)>,
        StorageError,
    >)
        ensures
            r is Ok ==> (r->Ok_0 is Some <==> self.contents().txns.contains_key(tx_id)),
            r matches Ok(row) && row matches Some(row) ==> {
                let t = self.contents().txns[tx_id];
                &&& row.0 == t.tx
                &&& row.1 == t.client
                &&& row.2 == spec_type_code(t.tx_type)
                &&& row.3 == spec_status_code(t.dispute_status)
                &&& row.4 == t.amount
            },
    {
        let conn = self.db_pool.pool.get().map_err(|_| StorageError::Connection)?;
        let mut stmt = conn.prepare(
            "SELECT tx, client, tx_type, disp_st, amount FROM transactions WHERE tx = ?1",
        ).map_err(|_| StorageError::Sql)?;
        let row: Option<(u32, u16, i64, i64, Option<i64>)> = stmt.query_row(
            [tx_id],
            |row| Ok((row.get(0)?, row.get(1)?, row.get(2)?, row.get(3)?, row.get(4)?)),
        ).optional().map_err(|_| StorageError::Sql)?;
        Ok(row)
    }

    /// Relies on rusqlite's `Statement::query_row` over
    /// `SELECT ... FROM records WHERE client = ?1`: at most the one row
    /// stored for this client, with the column values as upserted.
    #[verifier::external_body]
    fn fetch_record_row(&self, client_id: u16) -> (r: Result<
        Option<(u16, i64, i64, i64, i64)>,
        StorageError,
    >)
        ensures
            r is Ok ==> (r->Ok_0 is Some <==> self.contents().records.contains_key(client_id)),
            r matches Ok(row) && row matches Some(row) ==> {
                let rec = self.contents().records[client_id];
                &&& row.0 == rec.client
                &&& row.1 == rec.available
                &&& row.2 == rec.held
                &&& row.3 == rec.total
                &&& row.4 == spec_locked_code(rec.locked)
            },
    {
        let conn = self.db_pool.pool.get().map_err(|_| StorageError::Connection)?;
        let mut stmt = conn.prepare(
            "SELECT client, available, held, total, locked FROM records WHERE client = ?1",
        ).map_err(|_| StorageError::Sql)?;
        let row: Option<(u16, i64, i64, i64, i64)> = stmt.query_row(
            [client_id],
            |row| Ok((row.get(0)?, row.get(1)?, row.get(2)?, row.get(3)?, row.get(4)?)),
        ).optional().map_err(|_| StorageError::Sql)?;
        Ok(row)
    }

    /// Relies on rusqlite's `Connection::execute` running
    /// `INSERT OR REPLACE INTO records`: on success exactly this client's
    /// row is created or replaced; on failure nothing changes.
    #[verifier::external_body]
    fn upsert_record_row(&mut self, rec: Record, lc: i64) -> (r: Result<(), StorageError>)
        requires
            lc == spec_locked_code(rec.locked),
        ensures
            r is Ok ==> final(self).contents() == old(self).contents().with_record(rec),
            r is Err ==> final(self).contents() == old(self).contents(),
    {
        let conn = self.db_pool.pool.get().map_err(|_| StorageError::Connection)?;
        conn.execute(
            "INSERT OR REPLACE INTO records (client, available, held, total, locked) \
             VALUES (?1, ?2, ?3, ?4, ?5)",
            (rec.client, rec.available, rec.held, rec.total, lc),
        ).map_err(|_| StorageError::Sql)?;
        Ok(())
    }

    /// Relies on rusqlite's transaction API: the record upsert and the
    /// status update run inside one database transaction, so on commit both
    /// are visible, and on any earlier failure the transaction is rolled
    /// back and neither is.  The `UPDATE` only changes `disp_st`, which is
    /// why the stored transaction must equal `t` up to its status.
    #[verifier::external_body]
    fn atomic_update_rows(&mut self, rec: Record, t: Transaction, lc: i64, sc: i64) -> (r: Result<
        (),
        StorageError,
    >)
        requires
            old(self).contents().txns.contains_key(t.tx),
            t == old(self).contents().txns[t.tx].spec_with_status(t.dispute_status),
            lc == spec_locked_code(rec.locked),
            sc == spec_status_code(t.dispute_status),
        ensures
            r is Ok ==> final(self).contents() == old(self).contents().with_record_and_txn(rec, t),
            r is Err ==> final(self).contents() == old(self).contents(),
    {
        let mut conn = self.db_pool.pool.get().map_err(|_| StorageError::Connection)?;
        let tx = conn.transaction().map_err(|_| StorageError::Sql)?;
        tx.execute(
            "INSERT OR REPLACE INTO records (client, available, held, total, locked) \
             VALUES (?1, ?2, ?3, ?4, ?5)",
            (rec.client, rec.available, rec.held, rec.total, lc),
        ).map_err(|_| StorageError::Sql)?;
        tx.execute("UPDATE transactions SET disp_st = ?1 WHERE tx = ?2", (sc, t.tx)).map_err(
            |_| StorageError::Sql,
        )?;
        tx.commit().map_err(|_| StorageError::Sql)?;
        Ok(())
    }

    /// Relies on rusqlite's `Statement::query_map` over
    /// `SELECT ... FROM records`: one row per stored client — `client` is
    /// the primary key — each with the column values as upserted, in the
    /// table's own order.
    #[verifier::external_body]
    fn fetch_all_record_rows(&self) -> (r: Result<Vec<(u16, i64, i64, i64, i64)>, StorageError>)
        ensures
            r matches Ok(rows) ==> {
                &&& (forall|i: int|
                    0 <= i < rows@.len() ==> {
                        let row = #[trigger] rows@[i];
                        &&& self.contents().records.contains_key(row.0)
                        &&& row.0 == self.contents().records[row.0].client
                        &&& row.1 == self.contents().records[row.0].available
                        &&& row.2 == self.contents().records[row.0].held
                        &&& row.3 == self.contents().records[row.0].total
                        &&& row.4 == spec_locked_code(self.contents().records[row.0].locked)
                    })
                &&& (forall|i: int, j: int|
                    0 <= i < j < rows@.len() ==> (#[trigger] rows@[i]).0 != (#[trigger] rows@[j]).0)
                &&& (forall|c: u16|
                    self.contents().records.contains_key(c) ==> exists|i: int|
                        0 <= i < rows@.len() && (#[trigger] rows@[i]).0 == c)
            },
    {
        let conn = self.db_pool.pool.get().map_err(|_| StorageError::Connection)?;
        let mut stmt = conn.prepare("SELECT client, available, held, total, locked FROM records")
            .map_err(|_| StorageError::Sql)?;
        let rows = stmt.query_map(
            [],
            |row| Ok((row.get(0)?, row.get(1)?, row.get(2)?, row.get(3)?, row.get(4)?)),
        ).map_err(|_| StorageError::Sql)?;
        rows.collect::<Result<Vec<_>, _>>().map_err(|_| StorageError::Sql)
    }
}

impl RecordStorage for DbStorage {
    closed spec fn contents(&self) -> StoreView {
        self.model@
    }

    closed spec fn infallible(&self) -> bool {
        false
    }

    closed spec fn inv(&self) -> bool {
        true
    }

    fn store_transaction(&mut self, t: Transaction) -> (r: Result<(), StorageError>) {
        let tc = type_code(t.tx_type);
        if t.is_correction() {
            // corrective txn: logged only, never stored as an entity
            self.insert_correction_row(t, tc)
        } else {
            // normal deposit/withdrawal - insert it under its id
            let sc = status_code(t.dispute_status);
            self.insert_txn_row(t, tc, sc)
        }
    }

    fn get_transaction(&mut self, tx_id: u32) -> (r: Result<Option<Transaction>, StorageError>) {
        match self.fetch_txn_row(tx_id) {
            Err(e) => Err(e),
            Ok(None) => Ok(None),
            Ok(Some(row)) => {
                let (tx, client, tc, sc, amount) = row;
                let tx_type = match type_from_code(tc) {
                    Some(tt) => tt,
                    None => {
                        return Err(StorageError::Sql);
                    },
                };
                let dispute_status = match status_from_code(sc) {
                    Some(st) => st,
                    None => {
                        return Err(StorageError::Sql);
                    },
                };
                let txn = Transaction { tx_type, client, tx, amount, dispute_status };
                proof {
                    assert(txn == self.contents().txns[tx_id]);
                }
                Ok(Some(txn))
            },
        }
    }

    fn get_client_record(&self, client_id: u16) -> (r: Result<Record, StorageError>) {
        match self.fetch_record_row(client_id) {
            Err(e) => Err(e),
            Ok(None) => Ok(Record::new(client_id)),
            Ok(Some(row)) => {
                let (client, available, held, total, lc) = row;
                let rec = Record { client, available, held, total, locked: lc != 0 };
                proof {
                    assert(rec == self.contents().records[client_id]);
                }
                Ok(rec)
            },
        }
    }

    fn update_record(&mut self, r: Record) -> (res: Result<(), StorageError>) {
        let lc = locked_code(r.locked);
        self.upsert_record_row(r, lc)
    }

    fn update_record_and_txn(&mut self, r: Record, t: Transaction) -> (res: Result<
        (),
        StorageError,
    >) {
        let lc = locked_code(r.locked);
        let sc = status_code(t.dispute_status);
        self.atomic_update_rows(r, t, lc, sc)
    }

    fn write_records(&self) -> (r: Result<Vec<Record>, StorageError>) {
        let rows = match self.fetch_all_record_rows() {
            Ok(rows) => rows,
            Err(e) => {
                return Err(e);
            },
        };
        let mut out: Vec<Record> = Vec::new();
        let mut i: usize = 0;
        while i < rows.len()
            invariant
                i <= rows@.len(),
                out@.len() == i as int,
                forall|k: int|
                    0 <= k < rows@.len() ==> {
                        let row = #[trigger] rows@[k];
                        &&& self.contents().records.contains_key(row.0)
                        &&& row.0 == self.contents().records[row.0].client
                        &&& row.1 == self.contents().records[row.0].available
                        &&& row.2 == self.contents().records[row.0].held
                        &&& row.3 == self.contents().records[row.0].total
                        &&& row.4 == spec_locked_code(self.contents().records[row.0].locked)
                    },
                forall|k: int|
                    0 <= k < i as int ==> (#[trigger] out@[k]) == self.contents().records[rows@[k].0],
                forall|k: int| 0 <= k < i as int ==> out@[k].client == rows@[k].0,
            decreases rows@.len() - i,
        {
            let (client, available, held, total, lc) = rows[i];
            out.push(Record { client, available, held, total, locked: lc != 0 });
            i += 1;
        }
        proof {
            assert forall|c: u16| self.contents().records.contains_key(c) implies exists|k: int|
                0 <= k < out@.len() && (#[trigger] out@[k]).client == c by {
                let k = choose|k: int| 0 <= k < rows@.len() && (#[trigger] rows@[k]).0 == c;
                assert(out@[k].client == c);
            }
            assert(exports(out@, self.contents().records));
        }
        Ok(out)
    }
}

} // verus!
