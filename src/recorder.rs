//! The decisions of a latency log: which values to write, and when to flush.
use vstd::prelude::*;

use std::collections::BTreeSet;

verus! {

broadcast use {vstd::std_specs::btree::group_btree_axioms, vstd::laws_cmp::group_laws_cmp};

/// How many written records go between two flushes.
pub const FLUSH_SIZE: u128 = 2;

/// What to do with one value.
#[derive(Debug, Clone, Copy, PartialEq, Eq, Structural)]
pub struct RecordAction {
    pub write: bool,
    pub flush: bool,
}

/// Counts the records written and, when deduplicating, remembers the values
/// seen, so that each value is written once.
pub struct LatencyRecorder {
    written: u128,
    seen: Option<BTreeSet<u128>>,
}

impl LatencyRecorder {
    pub closed spec fn spec_written(&self) -> u128 {
        self.written
    }

    /// The values seen so far when deduplicating; `None` when every value is
    /// written.
    pub closed spec fn seen(&self) -> Option<Set<u128>> {
        match self.seen {
            Some(set) => Some(set@),
            None => None,
        }
    }

    /// A log that writes every value.
    pub fn new() -> (r: Self)
        ensures
            r.spec_written() == 0,
            r.seen() is None,
    {
        LatencyRecorder { written: 0, seen: None }
    }

    /// A log that writes each value once.
    pub fn deduplicating() -> (r: Self)
        ensures
            r.spec_written() == 0,
            r.seen() == Some(Set::<u128>::empty()),
    {
        LatencyRecorder { written: 0, seen: Some(BTreeSet::new()) }
    }

    pub fn written(&self) -> (r: u128)
        ensures
            r == self.spec_written(),
    {
        self.written
    }

    /// Decides on one value: it is written unless it was seen before, and a
    /// flush follows every `FLUSH_SIZE`-th written record. The count stops at
    /// the largest `u128`.
    pub fn record(&mut self, value: u128) -> (r: RecordAction)
        ensures
            r.write == (old(self).seen() is None || !old(self).seen()->0.contains(value)),
            final(self).seen() == match old(self).seen() {
                Some(set) => Some(set.insert(value)),
                None => None::<Set<u128>>,
            },
            final(self).spec_written() == if r.write && old(self).spec_written() < u128::MAX {
                (old(self).spec_written() + 1) as u128
            } else {
                old(self).spec_written()
            },
            r.flush == (r.write && final(self).spec_written() % FLUSH_SIZE == 0),
    {
        let write = match &mut self.seen {
            Some(set) => set.insert(value),
            None => true,
        };
        if write && self.written < u128::MAX {
            self.written = self.written + 1;
        }
        RecordAction { write, flush: write && self.written % FLUSH_SIZE == 0 }
    }
}

} // verus!
