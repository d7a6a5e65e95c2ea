//! Changes to a ledger that take effect only once the transfer that goes
//! with them has succeeded.

use vstd::prelude::*;
use crate::error::Error;
use crate::state::State;

verus! {

/// A ledger on which changes are staged, beside the ledger as it was. The
/// caller stages an operation on `staged`, makes the transfer that the
/// operation asks for, and concludes with what became of the transfer.
pub struct Transaction {
    /// The ledger as it was when the transaction began.
    pub committed: State,
    /// The ledger with the changes made so far.
    pub staged: State,
}

impl Transaction {
    /// Begins a transaction on a ledger. Nothing is staged yet.
    pub fn begin(ledger: State) -> (tx: Transaction)
        requires
            ledger.wf(),
        ensures
            tx.committed.wf(),
            tx.staged.wf(),
            tx.committed@ == ledger@,
            tx.staged@ == ledger@,
    {
        let staged = ledger.duplicate();
        Transaction { committed: ledger, staged }
    }

    /// Concludes a transaction: where the transfer has succeeded, the ledger
    /// is the staged one; where it has failed, the ledger is as it was when
    /// the transaction began, and the failure is handed on.
    pub fn conclude(self, transfer: Result<(), Error>) -> (r: (State, Result<(), Error>))
        requires
            self.committed.wf(),
            self.staged.wf(),
        ensures
            r.0.wf(),
            r.1 == transfer,
            r.0@ == if transfer is Ok {
                self.staged@
            } else {
                self.committed@
            },
    {
        if transfer.is_ok() {
            (self.staged, transfer)
        } else {
            (self.committed, transfer)
        }
    }
}

} // verus!
