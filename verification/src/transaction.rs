//! The transaction state machine: given an incoming transaction, the client's
//! current account record and (for corrections) the referenced transaction,
//! decide validity and compute the new record and/or updated referenced
//! transaction.
//!
//! Invalid transactions are dropped silently: the engine applies no change and
//! raises no error.  A transaction whose arithmetic result would leave the
//! fixed-point range is treated the same way, so that every applied change is
//! exact.

use vstd::prelude::*;

use crate::record::Record;

verus! {

#[derive(Debug, Clone, Copy, PartialEq, Eq, Structural)]
pub enum TransactionType {
    Deposit,
    Withdrawal,
    Dispute,
    Resolve,
    Chargeback,
}

/// Status of a stored deposit/withdrawal under the correction lifecycle:
/// `Undisputed` -> `Disputed` -> (`Resolved` | `Chargedback`).
#[derive(Debug, Clone, Copy, PartialEq, Eq, Structural)]
pub enum DisputeStatus {
    Undisputed,
    Disputed,
    Resolved,
    Chargedback,
}

impl Default for DisputeStatus {
    fn default() -> (r: Self)
        ensures
            r == DisputeStatus::Undisputed,
    {
        DisputeStatus::Undisputed
    }
}

/// Does the fixed-point representation hold this value?
pub open spec fn fits_i64(x: int) -> bool {
    i64::MIN <= x <= i64::MAX
}

/// One row of the input stream.  Deposits and withdrawals carry an amount;
/// corrections instead name the transaction they correct through `tx`.
#[derive(Debug, Clone, Copy, PartialEq, Eq)]
pub struct Transaction {
    pub tx_type: TransactionType,
    pub client: u16,
    pub tx: u32,
    pub amount: Option<i64>,
    pub dispute_status: DisputeStatus,
}

impl Transaction {
    /// Is this one of the correction types (dispute/resolve/chargeback)?
    pub open spec fn spec_is_correction(&self) -> bool {
        ||| self.tx_type == TransactionType::Dispute
        ||| self.tx_type == TransactionType::Resolve
        ||| self.tx_type == TransactionType::Chargeback
    }

    #[verifier::when_used_as_spec(spec_is_correction)]
    pub fn is_correction(&self) -> (r: bool)
        ensures
            r == self.spec_is_correction(),
    {
        matches!(
            self.tx_type,
            TransactionType::Dispute | TransactionType::Resolve | TransactionType::Chargeback
        )
    }

    /// The amount, as a mathematical integer (meaningful when present).
    pub open spec fn amt(self) -> int {
        self.amount->0 as int
    }

    /// For a correction, the id of the transaction that must be looked up;
    /// deposits and withdrawals need no reference lookup.
    pub fn tx_id_to_check(&self) -> (r: Option<u32>)
        ensures
            r == if self.spec_is_correction() {
                Some(self.tx)
            } else {
                None::<u32>
            },
    {
        if self.is_correction() {
            Some(self.tx)
        } else {
            None
        }
    }

    /// `self` with its dispute status replaced.
    pub open spec fn spec_with_status(self, disp_st: DisputeStatus) -> Transaction {
        Transaction { dispute_status: disp_st, ..self }
    }

    pub fn update_dispute_status(&self, disp_st: DisputeStatus) -> (r: Transaction)
        ensures
            r == self.spec_with_status(disp_st),
    {
        Transaction {
            tx_type: self.tx_type,
            client: self.client,
            tx: self.tx,
            amount: self.amount,
            dispute_status: disp_st,
        }
    }

    /// A correction is well-referenced when the referenced transaction was
    /// found, belongs to the same client, and carries an amount.
    pub open spec fn spec_is_valid_correcting(self, txn_to_check: Option<Transaction>) -> bool {
        txn_to_check matches Some(t) && t.client == self.client && t.amount is Some
    }

    pub fn is_valid_correcting_txn(&self, txn_to_check: Option<Transaction>) -> (r: bool)
        ensures
            r == self.spec_is_valid_correcting(txn_to_check),
    {
        match txn_to_check {
            Some(t) => t.client == self.client && t.amount.is_some(),
            None => false,
        }
    }

    /// The validity contract, evaluated before any mutation:
    /// deposits/withdrawals need an amount; corrections need a
    /// well-referenced transaction, and resolve/chargeback additionally need
    /// it to currently be `Disputed`.
    pub open spec fn spec_is_valid(self, txn_to_check: Option<Transaction>) -> bool {
        match self.tx_type {
            TransactionType::Deposit => self.amount is Some,
            TransactionType::Withdrawal => self.amount is Some,
            TransactionType::Dispute => self.spec_is_valid_correcting(txn_to_check),
            TransactionType::Resolve => self.spec_is_valid_correcting(txn_to_check)
                && txn_to_check->0.dispute_status == DisputeStatus::Disputed,
            TransactionType::Chargeback => self.spec_is_valid_correcting(txn_to_check)
                && txn_to_check->0.dispute_status == DisputeStatus::Disputed,
        }
    }

    pub fn is_valid_transaction(&self, txn_to_check: Option<Transaction>) -> (r: bool)
        ensures
            r == self.spec_is_valid(txn_to_check),
    {
        match self.tx_type {
            TransactionType::Deposit => self.amount.is_some(),
            TransactionType::Withdrawal => self.amount.is_some(),
            TransactionType::Dispute => self.is_valid_correcting_txn(txn_to_check),
            TransactionType::Resolve => self.is_valid_correcting_txn(txn_to_check)
                && txn_to_check.unwrap().dispute_status == DisputeStatus::Disputed,
            TransactionType::Chargeback => self.is_valid_correcting_txn(txn_to_check)
                && txn_to_check.unwrap().dispute_status == DisputeStatus::Disputed,
        }
    }

    /// What `process` returns: the whole transition rule, including the
    /// silent drop of invalid transactions and of transactions whose result
    /// would leave the fixed-point range.
    pub open spec fn spec_process(self, rec: Record, txn_to_check: Option<Transaction>) -> (
        Option<Record>,
        Option<Transaction>,
    ) {
        if !self.spec_is_valid(txn_to_check) {
            (None::<Record>, None::<Transaction>)
        } else {
            match self.tx_type {
                TransactionType::Deposit => {
                    if fits_i64(rec.available + self.amt()) && fits_i64(rec.total + self.amt()) {
                        (
                            Some(
                                Record {
                                    available: (rec.available + self.amt()) as i64,
                                    total: (rec.total + self.amt()) as i64,
                                    ..rec
                                },
                            ),
                            None::<Transaction>,
                        )
                    } else {
                        (None::<Record>, None::<Transaction>)
                    }
                },
                TransactionType::Withdrawal => {
                    if rec.available - self.amt() < 0 {
                        (None::<Record>, None::<Transaction>)
                    } else if fits_i64(rec.available - self.amt()) && fits_i64(
                        rec.total - self.amt(),
                    ) {
                        (
                            Some(
                                Record {
                                    available: (rec.available - self.amt()) as i64,
                                    total: (rec.total - self.amt()) as i64,
                                    ..rec
                                },
                            ),
                            None::<Transaction>,
                        )
                    } else {
                        (None::<Record>, None::<Transaction>)
                    }
                },
                TransactionType::Dispute => {
                    let a = txn_to_check->0.amt();
                    if fits_i64(rec.available - a) && fits_i64(rec.held + a) {
                        (
                            Some(
                                Record {
                                    available: (rec.available - a) as i64,
                                    held: (rec.held + a) as i64,
                                    ..rec
                                },
                            ),
                            Some(txn_to_check->0.spec_with_status(DisputeStatus::Disputed)),
                        )
                    } else {
                        (None::<Record>, None::<Transaction>)
                    }
                },
                TransactionType::Resolve => {
                    let a = txn_to_check->0.amt();
                    if fits_i64(rec.available + a) && fits_i64(rec.held - a) {
                        (
                            Some(
                                Record {
                                    available: (rec.available + a) as i64,
                                    held: (rec.held - a) as i64,
                                    ..rec
                                },
                            ),
                            Some(txn_to_check->0.spec_with_status(DisputeStatus::Resolved)),
                        )
                    } else {
                        (None::<Record>, None::<Transaction>)
                    }
                },
                TransactionType::Chargeback => {
                    let a = txn_to_check->0.amt();
                    if fits_i64(rec.held - a) && fits_i64(rec.total - a) {
                        (
                            Some(
                                Record {
                                    held: (rec.held - a) as i64,
                                    total: (rec.total - a) as i64,
                                    locked: true,
                                    ..rec
                                },
                            ),
                            Some(txn_to_check->0.spec_with_status(DisputeStatus::Chargedback)),
                        )
                    } else {
                        (None::<Record>, None::<Transaction>)
                    }
                },
            }
        }
    }

    pub fn process_deposit(&self, current_rec: &Record) -> (r: Record)
        requires
            self.amount is Some,
            fits_i64(current_rec.available + self.amt()),
            fits_i64(current_rec.total + self.amt()),
        ensures
            r == (Record {
                available: (current_rec.available + self.amt()) as i64,
                total: (current_rec.total + self.amt()) as i64,
                ..*current_rec
            }),
    {
        let amount = self.amount.unwrap();
        Record {
            client: current_rec.client,
            available: current_rec.available + amount,
            held: current_rec.held,
            total: current_rec.total + amount,
            locked: current_rec.locked,
        }
    }

    pub fn process_withdrawal(&self, current_rec: &Record) -> (r: Option<Record>)
        requires
            self.amount is Some,
            fits_i64(current_rec.available - self.amt()),
            fits_i64(current_rec.total - self.amt()),
        ensures
            r == if current_rec.available - self.amt() < 0 {
                None::<Record>
            } else {
                Some(
                    Record {
                        available: (current_rec.available - self.amt()) as i64,
                        total: (current_rec.total - self.amt()) as i64,
                        ..*current_rec
                    },
                )
            },
    {
        let amount = self.amount.unwrap();
        // do we have enough funds?
        if current_rec.available - amount < 0 {
            None
        } else {
            Some(
                Record {
                    client: current_rec.client,
                    available: current_rec.available - amount,
                    held: current_rec.held,
                    total: current_rec.total - amount,
                    locked: current_rec.locked,
                },
            )
        }
    }

    pub fn process_dispute(&self, current_rec: &Record, disputed_txn: &Transaction) -> (r: (
        Option<Record>,
        Option<Transaction>,
    ))
        requires
            disputed_txn.amount is Some,
            fits_i64(current_rec.available - disputed_txn.amt()),
            fits_i64(current_rec.held + disputed_txn.amt()),
        ensures
            r == (
                Some(
                    Record {
                        available: (current_rec.available - disputed_txn.amt()) as i64,
                        held: (current_rec.held + disputed_txn.amt()) as i64,
                        ..*current_rec
                    },
                ),
                Some(disputed_txn.spec_with_status(DisputeStatus::Disputed)),
            ),
    {
        let amount = disputed_txn.amount.unwrap();
        (
            Some(
                Record {
                    client: current_rec.client,
                    available: current_rec.available - amount,
                    held: current_rec.held + amount,
                    total: current_rec.total,
                    locked: current_rec.locked,
                },
            ),
            Some(disputed_txn.update_dispute_status(DisputeStatus::Disputed)),
        )
    }

    pub fn process_resolve(&self, current_rec: &Record, txn_to_resolve: &Transaction) -> (r: (
        Option<Record>,
        Option<Transaction>,
    ))
        requires
            txn_to_resolve.amount is Some,
            fits_i64(current_rec.available + txn_to_resolve.amt()),
            fits_i64(current_rec.held - txn_to_resolve.amt()),
        ensures
            r == (
                Some(
                    Record {
                        available: (current_rec.available + txn_to_resolve.amt()) as i64,
                        held: (current_rec.held - txn_to_resolve.amt()) as i64,
                        ..*current_rec
                    },
                ),
                Some(txn_to_resolve.spec_with_status(DisputeStatus::Resolved)),
            ),
    {
        let amount = txn_to_resolve.amount.unwrap();
        let new_rec = Record {
            client: current_rec.client,
            available: current_rec.available + amount,
            held: current_rec.held - amount,
            total: current_rec.total,
            locked: current_rec.locked,
        };
        let updated_txn = txn_to_resolve.update_dispute_status(DisputeStatus::Resolved);
        (Some(new_rec), Some(updated_txn))
    }

    pub fn process_chargeback(&self, current_rec: &Record, chargeback: &Transaction) -> (r: (
        Option<Record>,
        Option<Transaction>,
    ))
        requires
            chargeback.amount is Some,
            fits_i64(current_rec.held - chargeback.amt()),
            fits_i64(current_rec.total - chargeback.amt()),
        ensures
            r == (
                Some(
                    Record {
                        held: (current_rec.held - chargeback.amt()) as i64,
                        total: (current_rec.total - chargeback.amt()) as i64,
                        locked: true,
                        ..*current_rec
                    },
                ),
                Some(chargeback.spec_with_status(DisputeStatus::Chargedback)),
            ),
    {
        let amount = chargeback.amount.unwrap();
        (
            Some(
                Record {
                    client: current_rec.client,
                    available: current_rec.available,
                    held: current_rec.held - amount,
                    total: current_rec.total - amount,
                    locked: true,
                },
            ),
            Some(chargeback.update_dispute_status(DisputeStatus::Chargedback)),
        )
    }

    /// Apply the whole transition rule.  Exactly `spec_process`: an invalid
    /// transaction, an insufficiently funded withdrawal, and an arithmetic
    /// result outside the fixed-point range all come back as `(None, None)`.
    pub fn process(&self, current_rec: &Record, transaction_to_check: Option<Transaction>) -> (r: (
        Option<Record>,
        Option<Transaction>,
    ))
        ensures
            r == self.spec_process(*current_rec, transaction_to_check),
    {
        if !self.is_valid_transaction(transaction_to_check) {
            return (None, None);  // means this is an error and we ignore it
        }
        match self.tx_type {
            TransactionType::Deposit => {
                let amount = self.amount.unwrap();
                if add_in_range(current_rec.available, amount) && add_in_range(
                    current_rec.total,
                    amount,
                ) {
                    (Some(self.process_deposit(current_rec)), None)
                } else {
                    (None, None)
                }
            },
            TransactionType::Withdrawal => {
                let amount = self.amount.unwrap();
                let avail: i128 = current_rec.available as i128;
                if avail - (amount as i128) < 0 {
                    (None, None)
                } else if sub_in_range(current_rec.available, amount) && sub_in_range(
                    current_rec.total,
                    amount,
                ) {
                    (self.process_withdrawal(current_rec), None)
                } else {
                    (None, None)
                }
            },
            TransactionType::Dispute => {
                let t = transaction_to_check.unwrap();
                let amount = t.amount.unwrap();
                if sub_in_range(current_rec.available, amount) && add_in_range(
                    current_rec.held,
                    amount,
                ) {
                    self.process_dispute(current_rec, &t)
                } else {
                    (None, None)
                }
            },
            TransactionType::Resolve => {
                let t = transaction_to_check.unwrap();
                let amount = t.amount.unwrap();
                if add_in_range(current_rec.available, amount) && sub_in_range(
                    current_rec.held,
                    amount,
                ) {
                    self.process_resolve(current_rec, &t)
                } else {
                    (None, None)
                }
            },
            TransactionType::Chargeback => {
                let t = transaction_to_check.unwrap();
                let amount = t.amount.unwrap();
                if sub_in_range(current_rec.held, amount) && sub_in_range(
                    current_rec.total,
                    amount,
                ) {
                    self.process_chargeback(current_rec, &t)
                } else {
                    (None, None)
                }
            },
        }
    }
}

/// Does `a + b` stay in `i64`?
pub fn add_in_range(a: i64, b: i64) -> (r: bool)
    ensures
        r == fits_i64(a + b),
{
    let s: i128 = a as i128 + b as i128;
    s >= i64::MIN as i128 && s <= i64::MAX as i128
}

/// Does `a - b` stay in `i64`?
pub fn sub_in_range(a: i64, b: i64) -> (r: bool)
    ensures
        r == fits_i64(a - b),
{
    let s: i128 = a as i128 - b as i128;
    s >= i64::MIN as i128 && s <= i64::MAX as i128
}

} // verus!
