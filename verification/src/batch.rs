//! The batching aggregator's decision core: an open batch grows with
//! each arriving record and closes either when it reaches the count
//! bound or when the flush timer fires, whichever comes first. The
//! timer itself is run by the caller; this type decides what each
//! event does to the open batch and what, if anything, is emitted.

use vstd::prelude::*;

use crate::storage::FlowLog;

verus! {

/// The aggregator's state: the records of the open batch, in arrival
/// order, and the count a batch closes at.
pub struct Batcher {
    pending: Vec<FlowLog>,
    max_records: usize,
}

impl View for Batcher {
    type V = Seq<FlowLog>;

    /// The open batch, in arrival order.
    closed spec fn view(&self) -> Seq<FlowLog> {
        self.pending@
    }
}

impl Batcher {
    /// The count bound: a batch is emitted the moment it holds this
    /// many records.
    pub closed spec fn bound(&self) -> nat {
        self.max_records as nat
    }

    /// Internal soundness: the bound is positive and the open batch
    /// is always strictly below it.
    pub closed spec fn wf(&self) -> bool {
        1 <= self.max_records && self.pending@.len() < self.max_records as nat
    }

    /// A fresh aggregator with an empty open batch.
    pub fn new(max_records_per_batch: usize) -> (b: Batcher)
        requires
            max_records_per_batch >= 1,
        ensures
            b.wf(),
            b@ == Seq::<FlowLog>::empty(),
            b.bound() == max_records_per_batch,
    {
        Batcher { pending: Vec::new(), max_records: max_records_per_batch }
    }

    /// One record arrives: it joins the open batch, and exactly when
    /// that brings the batch to the bound, the full batch — the bound
    /// many records, in arrival order — is emitted and a new batch
    /// opens empty. Below the bound nothing is emitted.
    pub fn push(&mut self, log: FlowLog) -> (emitted: Option<Vec<FlowLog>>)
        requires
            old(self).wf(),
        ensures
            final(self).wf(),
            final(self).bound() == old(self).bound(),
            old(self)@.len() + 1 == old(self).bound() ==> (emitted matches Some(batch)
                && batch@ == old(self)@.push(log) && final(self)@ == Seq::<FlowLog>::empty()),
            old(self)@.len() + 1 < old(self).bound() ==> emitted is None && final(self)@ == old(
                self,
            )@.push(log),
    {
        self.pending.push(log);
        if self.pending.len() == self.max_records {
            let mut full: Vec<FlowLog> = Vec::new();
            core::mem::swap(&mut full, &mut self.pending);
            Some(full)
        } else {
            None
        }
    }

    /// The flush timer fires: whatever has arrived — fewer records
    /// than the bound, possibly none — is emitted as one smaller
    /// batch, and a new batch opens empty. An empty open batch emits
    /// nothing.
    pub fn flush(&mut self) -> (emitted: Option<Vec<FlowLog>>)
        requires
            old(self).wf(),
        ensures
            final(self).wf(),
            final(self).bound() == old(self).bound(),
            final(self)@ == Seq::<FlowLog>::empty(),
            old(self)@.len() == 0 ==> emitted is None,
            old(self)@.len() > 0 ==> (emitted matches Some(batch) && batch@ == old(self)@),
    {
        if self.pending.len() == 0 {
            None
        } else {
            let mut full: Vec<FlowLog> = Vec::new();
            core::mem::swap(&mut full, &mut self.pending);
            Some(full)
        }
    }

    /// How many records the open batch holds.
    pub fn pending_len(&self) -> (n: usize)
        ensures
            n == self@.len(),
    {
        self.pending.len()
    }
}

} // verus!
