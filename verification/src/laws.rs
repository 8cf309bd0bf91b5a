//! The engine's global guarantees, each proved over the replay
//! specification: accounting identities, no-op guarantees for rejected
//! transactions, permanence of the lock, and backend-independence.

use vstd::prelude::*;

use crate::engine::{spec_run, spec_step};
use crate::record::Record;
use crate::storage::StoreView;
use crate::transaction::{fits_i64, DisputeStatus, Transaction, TransactionType};

verus! {

/// Every stored record satisfies the accounting identity
/// `total == available + held`.
pub open spec fn all_balanced(v: StoreView) -> bool {
    forall|c: u16| v.records.contains_key(c) ==> (#[trigger] v.records[c]).balanced()
}

/// Correction transactions are never stored as entities of their own.
pub open spec fn no_stored_corrections(v: StoreView) -> bool {
    forall|k: u32| v.txns.contains_key(k) ==> !(#[trigger] v.txns[k]).spec_is_correction()
}

/// The signed amount one deposit or withdrawal moves for client `c` when it
/// reaches state `v`: the deposit's amount, minus the withdrawal's amount,
/// or nothing when the transaction is rejected or insufficiently funded.
pub open spec fn step_delta(v: StoreView, t: Transaction, c: u16) -> int {
    if t.client != c {
        0
    } else {
        let rec = v.client_record(c);
        match t.tx_type {
            TransactionType::Deposit => {
                if t.amount is Some && fits_i64(rec.available + t.amt()) && fits_i64(
                    rec.total + t.amt(),
                ) {
                    t.amt()
                } else {
                    0
                }
            },
            TransactionType::Withdrawal => {
                if t.amount is Some && rec.available - t.amt() >= 0 && fits_i64(
                    rec.available - t.amt(),
                ) && fits_i64(rec.total - t.amt()) {
                    -t.amt()
                } else {
                    0
                }
            },
            _ => 0,
        }
    }
}

/// The sum of the deltas of a whole stream for client `c`: net deposits
/// minus net withdrawals, each counted only where it was applied.
pub open spec fn net_flow(v: StoreView, s: Seq<Transaction>, c: u16) -> int
    decreases s.len(),
{
    if s.len() == 0 {
        0
    } else {
        step_delta(v, s[0], c) + net_flow(spec_step(v, s[0]), s.skip(1), c)
    }
}

/// One deposit or withdrawal moves a client's total by exactly its delta.
pub proof fn lemma_step_total(v: StoreView, t: Transaction, c: u16)
    requires
        v.coherent(),
        !t.spec_is_correction(),
    ensures
        spec_step(v, t).client_record(c).total == v.client_record(c).total + step_delta(v, t, c),
{
    let rec = v.client_record(t.client);
    let stored = v.store_txn(t);
    assert(stored.records == v.records);
    match t.spec_process(rec, None::<Transaction>) {
        (Some(r2), _) => {
            assert(r2.client == t.client);
        },
        _ => {},
    }
}

/// A client's total after a stream of deposits/withdrawals is its starting
/// total plus the stream's net flow; `available + held == total` is
/// [`lemma_run_preserves_balanced`].
pub proof fn lemma_total_is_net_flow(v: StoreView, s: Seq<Transaction>, c: u16)
    requires
        v.coherent(),
        forall|k: int| 0 <= k < s.len() ==> !(#[trigger] s[k]).spec_is_correction(),
    ensures
        spec_run(v, s).client_record(c).total == v.client_record(c).total + net_flow(v, s, c),
    decreases s.len(),
{
    if s.len() == 0 {
    } else {
        lemma_step_total(v, s[0], c);
        crate::engine::lemma_step_preserves_coherent(v, s[0]);
        assert(forall|k: int|
            0 <= k < s.skip(1).len() ==> !(#[trigger] s.skip(1)[k]).spec_is_correction());
        lemma_total_is_net_flow(spec_step(v, s[0]), s.skip(1), c);
    }
}

/// One step keeps every stored record balanced.
pub proof fn lemma_step_preserves_balanced(v: StoreView, t: Transaction)
    requires
        all_balanced(v),
    ensures
        all_balanced(spec_step(v, t)),
{
    let rec = v.client_record(t.client);
    assert(rec.balanced());
}

/// Replaying any stream keeps every stored record balanced: the accounting
/// identity `total == available + held` holds after every transaction.
pub proof fn lemma_run_preserves_balanced(v: StoreView, s: Seq<Transaction>)
    requires
        all_balanced(v),
    ensures
        all_balanced(spec_run(v, s)),
    decreases s.len(),
{
    if s.len() == 0 {
    } else {
        lemma_step_preserves_balanced(v, s[0]);
        lemma_run_preserves_balanced(spec_step(v, s[0]), s.skip(1));
    }
}

/// A withdrawal that would drive `available` negative changes no account
/// record at all: the withdrawal is stored, the records are untouched.
pub proof fn lemma_withdrawal_insufficient(v: StoreView, t: Transaction)
    requires
        t.tx_type == TransactionType::Withdrawal,
        t.amount is Some,
        v.client_record(t.client).available - t.amt() < 0,
    ensures
        spec_step(v, t).records == v.records,
{
}

/// A dispute whose reference misses — no transaction stored under the id,
/// one of another client, or a correction-type transaction — changes
/// nothing at all.  The engine never stores corrections
/// ([`lemma_step_preserves_no_corrections`]), which is why the store may be
/// assumed free of them; under that assumption the third case cannot even
/// arise.
pub proof fn lemma_dispute_invalid(v: StoreView, t: Transaction)
    requires
        no_stored_corrections(v),
        t.tx_type == TransactionType::Dispute,
        (!v.txns.contains_key(t.tx) || v.txns[t.tx].client != t.client
            || v.txns[t.tx].spec_is_correction()),
    ensures
        spec_step(v, t) == v,
{
}

/// A resolve or chargeback against a transaction that is not currently
/// `Disputed` — or that was never stored — changes nothing at all.
pub proof fn lemma_correction_not_disputed(v: StoreView, t: Transaction)
    requires
        t.tx_type == TransactionType::Resolve || t.tx_type == TransactionType::Chargeback,
        !(v.txn_lookup(t.tx) matches Some(x) && x.dispute_status == DisputeStatus::Disputed),
    ensures
        spec_step(v, t) == v,
{
}

/// One step never stores a correction.
pub proof fn lemma_step_preserves_no_corrections(v: StoreView, t: Transaction)
    requires
        no_stored_corrections(v),
    ensures
        no_stored_corrections(spec_step(v, t)),
{
}

/// No stream ever stores a correction.
pub proof fn lemma_run_preserves_no_corrections(v: StoreView, s: Seq<Transaction>)
    requires
        no_stored_corrections(v),
    ensures
        no_stored_corrections(spec_run(v, s)),
    decreases s.len(),
{
    if s.len() == 0 {
    } else {
        lemma_step_preserves_no_corrections(v, s[0]);
        lemma_run_preserves_no_corrections(spec_step(v, s[0]), s.skip(1));
    }
}

/// Every stored record has non-negative spendable funds.
pub open spec fn all_available_nonneg(v: StoreView) -> bool {
    forall|c: u16| v.records.contains_key(c) ==> (#[trigger] v.records[c]).available >= 0
}

/// One deposit or withdrawal of a non-negative amount keeps `available`
/// non-negative: a deposit only adds, and a withdrawal is applied only when
/// the funds suffice.
pub proof fn lemma_step_available_nonneg(v: StoreView, t: Transaction)
    requires
        all_available_nonneg(v),
        !t.spec_is_correction(),
        t.amount matches Some(a) ==> a >= 0,
    ensures
        all_available_nonneg(spec_step(v, t)),
{
    let rec = v.client_record(t.client);
    assert(rec.available >= 0);
}

/// Replaying deposits and withdrawals of non-negative amounts never drives
/// any record's `available` negative.
pub proof fn lemma_run_available_nonneg(v: StoreView, s: Seq<Transaction>)
    requires
        all_available_nonneg(v),
        forall|k: int| 0 <= k < s.len() ==> !(#[trigger] s[k]).spec_is_correction(),
        forall|k: int| 0 <= k < s.len() ==> ((#[trigger] s[k]).amount matches Some(a) ==> a >= 0),
    ensures
        all_available_nonneg(spec_run(v, s)),
    decreases s.len(),
{
    if s.len() == 0 {
    } else {
        lemma_step_available_nonneg(v, s[0]);
        assert(forall|k: int|
            0 <= k < s.skip(1).len() ==> !(#[trigger] s.skip(1)[k]).spec_is_correction());
        assert(forall|k: int|
            0 <= k < s.skip(1).len() ==> ((#[trigger] s.skip(1)[k]).amount matches Some(a) ==> a
                >= 0));
        lemma_run_available_nonneg(spec_step(v, s[0]), s.skip(1));
    }
}

/// Once an account is locked by a chargeback, no later transaction of any
/// kind unlocks it.
pub proof fn lemma_step_preserves_locked(v: StoreView, t: Transaction, c: u16)
    requires
        v.coherent(),
        v.client_record(c).locked,
    ensures
        spec_step(v, t).client_record(c).locked,
{
    let rec = v.client_record(t.client);
    let stored = v.store_txn(t);
    assert(stored.records == v.records);
    match t.spec_process(
        rec,
        if t.spec_is_correction() {
            v.txn_lookup(t.tx)
        } else {
            None::<Transaction>
        },
    ) {
        (Some(r2), _) => {
            assert(r2.client == t.client);
        },
        _ => {},
    }
}

/// The lock survives any remaining stream.
pub proof fn lemma_run_preserves_locked(v: StoreView, s: Seq<Transaction>, c: u16)
    requires
        v.coherent(),
        v.client_record(c).locked,
    ensures
        spec_run(v, s).client_record(c).locked,
    decreases s.len(),
{
    if s.len() == 0 {
    } else {
        lemma_step_preserves_locked(v, s[0], c);
        crate::engine::lemma_step_preserves_coherent(v, s[0]);
        lemma_run_preserves_locked(spec_step(v, s[0]), s.skip(1), c);
    }
}

/// Replay is a function of the stream alone.  Since `run` leaves any
/// backend at exactly `spec_run` of its starting contents, two backends
/// that start empty and process the same stream — the in-memory one and the
/// durable one — end with identical account record sets.
pub proof fn lemma_round_trip(s: Seq<Transaction>, v1: StoreView, v2: StoreView)
    requires
        v1 == spec_run(StoreView::empty(), s),
        v2 == spec_run(StoreView::empty(), s),
    ensures
        v1.records == v2.records,
{
}

} // verus!
