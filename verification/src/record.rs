//! Per-client account balances.
//!
//! Monetary amounts are fixed-point: an `i64` counting ten-thousandths of a
//! currency unit, so that repeated additions and subtractions stay exact.

use vstd::prelude::*;

verus! {

/// How many fixed-point units make one currency unit.
pub const AMOUNT_SCALE: i64 = 10000;

/// Per-client balance state: spendable funds, funds frozen under dispute,
/// their sum, and whether a chargeback has locked the account.
#[derive(Debug, Clone, Copy, PartialEq, Eq, Structural)]
pub struct Record {
    pub client: u16,
    pub available: i64,
    pub held: i64,
    pub total: i64,
    pub locked: bool,
}

impl Record {
    /// The all-zero record a client starts with.
    pub open spec fn spec_initial(client_id: u16) -> Record {
        Record { client: client_id, available: 0, held: 0, total: 0, locked: false }
    }

    /// The accounting invariant: the total is exactly the spendable part
    /// plus the part frozen under dispute.
    pub open spec fn balanced(self) -> bool {
        self.total == self.available + self.held
    }

    pub fn new(client_id: u16) -> (r: Record)
        ensures
            r == Record::spec_initial(client_id),
    {
        Record { client: client_id, available: 0, held: 0, total: 0, locked: false }
    }
}

} // verus!
