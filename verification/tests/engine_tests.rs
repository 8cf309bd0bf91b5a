//! Whole-stream runs through both storage backends.  Amounts are
//! fixed-point ten-thousandths: 1.5 is 15_000, 3.0 is 30_000, and so on.

use payment_engine::db_storage::DbPool;
use payment_engine::engine::{run, run_in_mem, run_with_db};
use payment_engine::mem_storage::MemStorage;
use payment_engine::record::Record;
use payment_engine::storage::StorageError;
use payment_engine::transaction::{DisputeStatus, Transaction, TransactionType};

fn txn(tx_type: TransactionType, client: u16, tx: u32, amount: Option<i64>) -> Transaction {
    Transaction {
        tx_type,
        client,
        tx,
        amount,
        dispute_status: DisputeStatus::Undisputed,
    }
}

fn record(client: u16, available: i64, held: i64, total: i64, locked: bool) -> Record {
    Record {
        client,
        available,
        held,
        total,
        locked,
    }
}

fn memory_pool() -> DbPool {
    let manager = r2d2_sqlite::SqliteConnectionManager::memory();
    let pool = r2d2::Pool::builder().max_size(2).build(manager).unwrap();
    DbPool { pool }
}

fn run_db(stream: &Vec<Transaction>) -> Result<Vec<Record>, StorageError> {
    run_with_db(stream, memory_pool())
}

fn sorted_by_client(mut records: Vec<Record>) -> Vec<Record> {
    records.sort_by_key(|r| r.client);
    records
}

#[test]
fn simple_test_test_run() {
    let stream = vec![
        txn(TransactionType::Deposit, 1, 1, Some(10_000)),
        txn(TransactionType::Deposit, 2, 2, Some(20_000)),
        txn(TransactionType::Deposit, 1, 3, Some(20_000)),
        txn(TransactionType::Withdrawal, 1, 4, Some(15_000)),
        txn(TransactionType::Withdrawal, 2, 5, Some(30_000)),
    ];
    let expected_results = vec![
        record(1, 15_000, 0, 15_000, false),
        record(2, 20_000, 0, 20_000, false),
    ];
    let records = run_db(&stream).unwrap();
    assert_eq!(expected_results, records);
}

#[test]
fn test1_test_run() {
    let stream = vec![
        txn(TransactionType::Deposit, 1, 1, Some(30_000)),
        txn(TransactionType::Deposit, 1, 2, Some(20_000)),
        txn(TransactionType::Dispute, 1, 2, None),
        txn(TransactionType::Chargeback, 1, 2, None),
        txn(TransactionType::Deposit, 2, 3, Some(20_000)),
        txn(TransactionType::Deposit, 3, 4, Some(50_000)),
        txn(TransactionType::Withdrawal, 3, 5, Some(5_000)),
    ];
    let expected_results = vec![
        record(1, 30_000, 0, 30_000, true),
        record(2, 20_000, 0, 20_000, false),
        record(3, 45_000, 0, 45_000, false),
    ];
    let records = run_db(&stream).unwrap();
    assert_eq!(expected_results, records);
}

#[test]
fn test2_test_run() {
    let stream = vec![
        txn(TransactionType::Deposit, 1, 10, Some(50_000)),
        txn(TransactionType::Withdrawal, 1, 11, Some(70_000)),
    ];
    let expected_results = vec![record(1, 50_000, 0, 50_000, false)];
    let records = run_db(&stream).unwrap();
    assert_eq!(expected_results, records);
}

/// A client's total is the sum of applied deposits minus applied
/// withdrawals, and every record keeps `available + held == total`.
#[test]
fn totals_follow_net_flow() {
    let stream = vec![
        txn(TransactionType::Deposit, 7, 1, Some(100)),
        txn(TransactionType::Deposit, 7, 2, Some(250)),
        txn(TransactionType::Withdrawal, 7, 3, Some(120)),
        txn(TransactionType::Withdrawal, 7, 4, Some(1_000)), // insufficient: no-op
        txn(TransactionType::Deposit, 8, 5, Some(40)),
    ];
    let records = sorted_by_client(run_in_mem(&stream).unwrap());
    assert_eq!(records[0], record(7, 230, 0, 230, false));
    assert_eq!(records[1], record(8, 40, 0, 40, false));
    for r in records.iter() {
        assert_eq!(r.total, r.available + r.held);
    }
}

/// A withdrawal that would drive `available` negative leaves the record
/// unchanged.
#[test]
fn overdraft_withdrawal_is_a_no_op() {
    let funded = vec![txn(TransactionType::Deposit, 1, 1, Some(500))];
    let overdrawn = vec![
        txn(TransactionType::Deposit, 1, 1, Some(500)),
        txn(TransactionType::Withdrawal, 1, 2, Some(501)),
    ];
    assert_eq!(
        run_in_mem(&funded).unwrap(),
        run_in_mem(&overdrawn).unwrap()
    );
}

/// A dispute referencing a missing tx, a tx of another client, or a
/// correction's own id changes nothing.
#[test]
fn invalid_disputes_change_nothing() {
    let base = vec![
        txn(TransactionType::Deposit, 1, 1, Some(500)),
        txn(TransactionType::Deposit, 2, 2, Some(700)),
        txn(TransactionType::Dispute, 2, 2, None),
    ];
    let mut with_bad_disputes = base.clone();
    // nonexistent tx; a correction is never stored as an entity, so a
    // dispute naming one misses the same way
    with_bad_disputes.push(txn(TransactionType::Dispute, 1, 99, None));
    // tx of a different client
    with_bad_disputes.push(txn(TransactionType::Dispute, 2, 1, None));
    assert_eq!(
        run_in_mem(&base).unwrap(),
        run_in_mem(&with_bad_disputes).unwrap()
    );
}

/// Resolve/chargeback against a tx that is not `Disputed` changes nothing.
#[test]
fn resolve_or_chargeback_without_dispute_changes_nothing() {
    let base = vec![txn(TransactionType::Deposit, 1, 1, Some(500))];
    let mut with_bad_corrections = base.clone();
    with_bad_corrections.push(txn(TransactionType::Resolve, 1, 1, None));
    with_bad_corrections.push(txn(TransactionType::Chargeback, 1, 1, None));
    assert_eq!(
        run_in_mem(&base).unwrap(),
        run_in_mem(&with_bad_corrections).unwrap()
    );
}

/// A dispute already resolved cannot be resolved or charged back again.
#[test]
fn dispute_status_advances_only_once() {
    let resolved = vec![
        txn(TransactionType::Deposit, 1, 1, Some(500)),
        txn(TransactionType::Dispute, 1, 1, None),
        txn(TransactionType::Resolve, 1, 1, None),
    ];
    let mut again = resolved.clone();
    again.push(txn(TransactionType::Resolve, 1, 1, None));
    again.push(txn(TransactionType::Chargeback, 1, 1, None));
    let expected = vec![record(1, 500, 0, 500, false)];
    assert_eq!(expected, run_in_mem(&resolved).unwrap());
    assert_eq!(expected, run_in_mem(&again).unwrap());
}

/// Chargeback locks the account for good: later transactions still apply,
/// but none unsets the lock.
#[test]
fn chargeback_locks_permanently() {
    let stream = vec![
        txn(TransactionType::Deposit, 1, 1, Some(30_000)),
        txn(TransactionType::Dispute, 1, 1, None),
        txn(TransactionType::Chargeback, 1, 1, None),
        txn(TransactionType::Deposit, 1, 2, Some(10_000)),
        txn(TransactionType::Withdrawal, 1, 3, Some(4_000)),
    ];
    let records = run_in_mem(&stream).unwrap();
    assert_eq!(vec![record(1, 6_000, 0, 6_000, true)], records);
}

/// The same stream yields the same record set through the in-memory and the
/// durable backend, order aside.
#[test]
fn backends_agree_on_the_same_stream() {
    let stream = vec![
        txn(TransactionType::Deposit, 1, 1, Some(30_000)),
        txn(TransactionType::Deposit, 2, 2, Some(20_000)),
        txn(TransactionType::Dispute, 1, 1, None),
        txn(TransactionType::Withdrawal, 2, 3, Some(5_000)),
        txn(TransactionType::Resolve, 1, 1, None),
        txn(TransactionType::Deposit, 3, 4, Some(1)),
        txn(TransactionType::Dispute, 3, 4, None),
        txn(TransactionType::Chargeback, 3, 4, None),
        txn(TransactionType::Withdrawal, 9, 5, Some(1)), // unknown client: no funds, dropped
    ];
    let mem = sorted_by_client(run_in_mem(&stream).unwrap());
    let db = sorted_by_client(run_db(&stream).unwrap());
    assert_eq!(mem, db);
}

/// Client 1 deposits 3.0, disputes it, and charges it back: the account
/// ends empty and locked.
#[test]
fn dispute_then_chargeback_scenario() {
    let stream = vec![
        txn(TransactionType::Deposit, 1, 1, Some(30_000)),
        txn(TransactionType::Dispute, 1, 1, None),
        txn(TransactionType::Chargeback, 1, 1, None),
    ];
    let records = run_in_mem(&stream).unwrap();
    assert_eq!(vec![record(1, 0, 0, 0, true)], records);

    // mid-stream check: after the dispute alone, the funds are held
    let held_only = vec![
        txn(TransactionType::Deposit, 1, 1, Some(30_000)),
        txn(TransactionType::Dispute, 1, 1, None),
    ];
    let records = run_in_mem(&held_only).unwrap();
    assert_eq!(vec![record(1, 0, 30_000, 30_000, false)], records);
}

/// Client 2 deposits 5.0 and tries to withdraw 7.0: the withdrawal is a
/// no-op and the account stays unlocked.
#[test]
fn overdraft_scenario() {
    let stream = vec![
        txn(TransactionType::Deposit, 2, 10, Some(50_000)),
        txn(TransactionType::Withdrawal, 2, 11, Some(70_000)),
    ];
    let records = run_in_mem(&stream).unwrap();
    assert_eq!(vec![record(2, 50_000, 0, 50_000, false)], records);
}

/// The durable backend refuses to store two transactions under one id and
/// the run aborts with the statement error.
#[test]
fn duplicate_id_fails_on_the_durable_backend() {
    let stream = vec![
        txn(TransactionType::Deposit, 1, 1, Some(100)),
        txn(TransactionType::Deposit, 1, 1, Some(200)),
    ];
    assert_eq!(Err(StorageError::Sql), run_db(&stream));
}

/// With no connection to give out, the run aborts with a connection error.
#[test]
fn exhausted_pool_fails_with_connection_error() {
    let manager = r2d2_sqlite::SqliteConnectionManager::memory();
    let pool = r2d2::Pool::builder()
        .max_size(1)
        .connection_timeout(std::time::Duration::from_millis(50))
        .build(manager)
        .unwrap();
    let _held = pool.get().unwrap();
    let stream = vec![txn(TransactionType::Deposit, 1, 1, Some(100))];
    assert_eq!(
        Err(StorageError::Connection),
        run_with_db(&stream, DbPool { pool })
    );
}

/// A run over a pre-used storage keeps processing against what is there.
#[test]
fn run_continues_over_existing_storage() {
    let mut storage = MemStorage::new();
    let first = vec![txn(TransactionType::Deposit, 1, 1, Some(500))];
    run(&first, &mut storage).unwrap();
    let second = vec![txn(TransactionType::Dispute, 1, 1, None)];
    let records = run(&second, &mut storage).unwrap();
    assert_eq!(vec![record(1, 0, 500, 500, false)], records);
}

/// Deposits and withdrawals without an amount are dropped, but still
/// stored; a later dispute of such a deposit misses its amount and is
/// dropped too.
#[test]
fn amountless_rows_are_dropped() {
    let stream = vec![
        txn(TransactionType::Deposit, 1, 1, None),
        txn(TransactionType::Dispute, 1, 1, None),
        txn(TransactionType::Deposit, 1, 2, Some(700)),
    ];
    let mem = run_in_mem(&stream).unwrap();
    let db = sorted_by_client(run_db(&stream).unwrap());
    assert_eq!(vec![record(1, 700, 0, 700, false)], mem);
    assert_eq!(mem, sorted_by_client(db));
}
