//! The observation log: every record that any monitor made, oldest first.
//!
//! Records are only ever added, a tick's records as one batch. The caller
//! guards the log with a lock and holds it for one call at a time.

use crate::fill::TransactionRecord;
use vstd::prelude::*;

verus! {

/// The records of all monitors, in the order in which they were added.
pub struct ObservationLog {
    records: Vec<TransactionRecord>,
}

impl View for ObservationLog {
    type V = Seq<TransactionRecord>;

    closed spec fn view(&self) -> Seq<TransactionRecord> {
        self.records@
    }
}

impl ObservationLog {
    /// An empty log.
    pub fn new() -> (log: Self)
        ensures
            log@ == Seq::<TransactionRecord>::empty(),
    {
        ObservationLog { records: Vec::new() }
    }

    pub fn len(&self) -> (count: usize)
        ensures
            count == self@.len(),
    {
        self.records.len()
    }

    /// Adds the records of one tick behind those that are there.
    pub fn append(&mut self, batch: Vec<TransactionRecord>)
        ensures
            final(self)@ == old(self)@ + batch@,
    {
        let mut batch = batch;
        self.records.append(&mut batch);
    }

    /// The records, oldest first.
    pub fn snapshot(&self) -> (records: Vec<TransactionRecord>)
        ensures
            records@ == self@,
    {
        let mut records: Vec<TransactionRecord> = Vec::new();
        let mut i: usize = 0;
        while i < self.records.len()
            invariant
                i <= self.records.len(),
                records@ == self.records@.take(i as int),
            decreases self.records.len() - i,
        {
            records.push(self.records[i].clone());
            proof {
                assert(records@ =~= self.records@.take(i as int + 1));
            }
            i = i + 1;
        }
        proof {
            assert(self.records@.take(self.records@.len() as int) == self.records@);
        }
        records
    }

    /// The records as a list shows them, newest first.
    pub fn newest_first(&self) -> (records: Vec<TransactionRecord>)
        ensures
            records@ == self@.reverse(),
    {
        let mut records: Vec<TransactionRecord> = Vec::new();
        let n = self.records.len();
        let mut i: usize = 0;
        while i < n
            invariant
                i <= n,
                n == self.records.len(),
                records.len() == i,
                forall|j: int| 0 <= j < i ==> records[j] == self.records[n - 1 - j],
            decreases n - i,
        {
            records.push(self.records[n - 1 - i].clone());
            i = i + 1;
        }
        proof {
            assert(records@ =~= self@.reverse());
        }
        records
    }
}

} // verus!
