//! Batching of inserts into the media library: inserts are gathered in one
//! transaction, which is committed every time a fixed number has been
//! gathered.

use vstd::prelude::*;

verus! {

/// Number of inserts after which the open transaction is committed.
pub const COMMIT_LIMIT: u8 = 64;

/// Counts the inserts made in the open transaction.
pub struct CommitCounter {
    pending: u8,
}

impl View for CommitCounter {
    type V = nat;

    /// Number of inserts not yet committed.
    closed spec fn view(&self) -> nat {
        self.pending as nat
    }
}

impl CommitCounter {
    /// Fewer inserts are pending than make a batch.
    pub open spec fn wf(&self) -> bool {
        self@ < COMMIT_LIMIT
    }

    /// A counter with nothing pending.
    pub fn new() -> (counter: CommitCounter)
        ensures
            counter@ == 0,
            counter.wf(),
    {
        CommitCounter { pending: 0 }
    }

    pub fn pending(&self) -> (n: u8)
        ensures
            n == self@,
    {
        self.pending
    }

    /// Notes one insert. Returns whether the transaction is to be
    /// committed now, which is the case when this insert completes a
    /// batch; the count then starts over.
    pub fn record(&mut self) -> (commit: bool)
        requires
            old(self).wf(),
        ensures
            final(self).wf(),
            commit == (old(self)@ + 1 == COMMIT_LIMIT),
            final(self)@ == if commit {
                0
            } else {
                old(self)@ + 1
            },
    {
        self.pending = self.pending + 1;
        if self.pending >= COMMIT_LIMIT {
            self.pending = 0;
            true
        } else {
            false
        }
    }

    /// Notes that the transaction was committed from outside.
    pub fn reset(&mut self)
        ensures
            final(self)@ == 0,
            final(self).wf(),
    {
        self.pending = 0;
    }
}

} // verus!
