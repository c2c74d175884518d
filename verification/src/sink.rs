//! Emission sink: the boundary to the downstream change-processing pipeline.
//!
//! Emission is a synchronous, one-way hand-off: no acknowledgment, no retry.
//! The sink keeps the records in the exact order they were handed to it, so
//! the downstream collaborator observes records in delivery order.

use vstd::prelude::*;
use crate::mapper::GraphChangeRecord;
use crate::mapper::RecordView;

verus! {

/// Accepts completed graph-change records in order, on behalf of the
/// downstream collaborator.
pub struct EmissionSink {
    records: Vec<GraphChangeRecord>,
}

impl View for EmissionSink {
    type V = Seq<RecordView>;

    closed spec fn view(&self) -> Seq<RecordView> {
        self.records@.map_values(|r: GraphChangeRecord| r@)
    }
}

impl EmissionSink {
    /// A sink that has received nothing yet.
    pub fn new() -> (s: Self)
        ensures
            s@ == Seq::<RecordView>::empty(),
    {
        let s = EmissionSink { records: Vec::new() };
        proof {
            assert(s@ =~= Seq::<RecordView>::empty());
        }
        s
    }

    /// Hand one record to the downstream collaborator; records are kept in
    /// the order emitted.
    pub fn emit(&mut self, record: GraphChangeRecord)
        ensures
            final(self)@ == old(self)@.push(record@),
    {
        let ghost before = self.records@;
        self.records.push(record);
        proof {
            assert(self@ =~= before.map_values(|r: GraphChangeRecord| r@).push(record@));
        }
    }

    /// How many records have been emitted so far.
    pub fn len(&self) -> (n: usize)
        ensures
            n == self@.len(),
    {
        self.records.len()
    }

    /// The `i`-th record emitted, counting from the first.
    pub fn get(&self, i: usize) -> (r: &GraphChangeRecord)
        requires
            i < self@.len(),
        ensures
            r@ == self@[i as int],
    {
        &self.records[i]
    }
}

} // verus!
