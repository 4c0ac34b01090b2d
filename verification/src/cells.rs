//! The shared cells of the concurrency walkthroughs: the counter and the
//! collection that workers mutate under a mutual-exclusion lock, and the
//! read-only value workers share without one. The binary wraps each cell in a
//! counted reference (and, for the mutable ones, a lock) and hands every
//! worker's mutation to these methods, so the lock's holder only ever steps
//! the cell as stated here.

use vstd::prelude::*;

verus! {

/// The integer a lock protects in the counter walkthrough.
pub struct CounterCell {
    pub value: u64,
}

impl CounterCell {
    /// A fresh counter at zero.
    pub fn new() -> (c: Self)
        ensures
            c.value == 0,
    {
        CounterCell { value: 0 }
    }

    /// One worker's unit of work: step the counter by exactly one.
    pub fn increment(&mut self)
        requires
            old(self).value < u64::MAX,
        ensures
            final(self).value == old(self).value + 1,
    {
        self.value = self.value + 1;
    }

    /// Reports the current count.
    pub fn value(&self) -> (v: u64)
        ensures
            v == self.value,
    {
        self.value
    }
}

/// The ordered collection a lock protects in the collection walkthrough.
pub struct CollectionCell {
    pub items: Vec<u64>,
}

impl CollectionCell {
    /// A fresh, empty collection.
    pub fn new() -> (c: Self)
        ensures
            c.items@ == Seq::<u64>::empty(),
    {
        CollectionCell { items: Vec::new() }
    }

    /// One worker's unit of work: append its own index at the end.
    pub fn append(&mut self, index: u64)
        ensures
            final(self).items@ == old(self).items@.push(index),
    {
        self.items.push(index);
    }

    /// How many appends have landed so far.
    pub fn len(&self) -> (n: usize)
        ensures
            n == self.items@.len(),
    {
        self.items.len()
    }

    /// The element at the given position.
    pub fn get(&self, i: usize) -> (v: u64)
        requires
            i < self.items@.len(),
        ensures
            v == self.items@[i as int],
    {
        self.items[i]
    }
}

/// The immutable value of the read-only sharing walkthrough. The field is
/// private and no method mutates it, so every observation through a counted
/// reference is of the value given at construction.
pub struct ReadOnlyCell {
    value: u64,
}

impl ReadOnlyCell {
    /// The value the cell was constructed with.
    pub closed spec fn spec_value(&self) -> u64 {
        self.value
    }

    /// Builds the cell around the value every sharer will observe.
    pub fn new(value: u64) -> (c: Self)
        ensures
            c.spec_value() == value,
    {
        ReadOnlyCell { value }
    }

    /// What a worker (or the main flow) reads and reports.
    pub fn get(&self) -> (v: u64)
        ensures
            v == self.spec_value(),
    {
        self.value
    }
}

/// Sharing without mutation never diverges: whatever each observer read from
/// the cell, it is the value the cell was constructed with.
pub proof fn lemma_read_only_no_divergence(c: ReadOnlyCell, constructed: u64, reads: Seq<u64>)
    requires
        c.spec_value() == constructed,
        forall|k: int| 0 <= k < reads.len() ==> reads[k] == c.spec_value(),
    ensures
        forall|k: int| 0 <= k < reads.len() ==> reads[k] == constructed,
{
}

} // verus!
