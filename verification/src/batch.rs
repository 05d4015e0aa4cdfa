//! The queueing policy of the batch cryptographic verifiers.
//!
//! A batch collects verification items until a flush: submission reports
//! when the size threshold is reached, and draining hands every queued item
//! back in submission order, so per-item attribution of outcomes is
//! preserved.  The driver decides when to flush — on the size signal, on a
//! timer, or at shutdown — and performs the cryptography itself.

use vstd::prelude::*;

verus! {

/// A first-in, first-out queue of verification items with a flush
/// threshold.
pub struct Batch<T> {
    items: Vec<T>,
    threshold: usize,
}

impl<T> Batch<T> {
    /// The queued items, in submission order.
    pub closed spec fn spec_items(&self) -> Seq<T> {
        self.items@
    }

    /// The size at which submission signals a flush.
    pub closed spec fn spec_threshold(&self) -> usize {
        self.threshold
    }

    /// An empty batch that signals a flush at `threshold` queued items.
    pub fn new(threshold: usize) -> (r: Batch<T>)
        requires
            threshold >= 1,
        ensures
            r.spec_items() == Seq::<T>::empty(),
            r.spec_threshold() == threshold,
    {
        Batch { items: Vec::new(), threshold }
    }

    /// How many items are queued.
    pub fn len(&self) -> (r: usize)
        ensures
            r == self.spec_items().len(),
    {
        self.items.len()
    }

    /// Queues `item` behind every earlier submission and reports whether
    /// the batch has reached its flush threshold.
    pub fn submit(&mut self, item: T) -> (flush_now: bool)
        requires
            old(self).spec_items().len() < usize::MAX,
        ensures
            final(self).spec_items() == old(self).spec_items().push(item),
            final(self).spec_threshold() == old(self).spec_threshold(),
            flush_now == (final(self).spec_items().len() >= final(self).spec_threshold()),
    {
        self.items.push(item);
        self.items.len() >= self.threshold
    }

    /// Empties the batch, handing back every queued item in submission
    /// order.
    pub fn drain(&mut self) -> (r: Vec<T>)
        ensures
            r@ == old(self).spec_items(),
            final(self).spec_items() == Seq::<T>::empty(),
            final(self).spec_threshold() == old(self).spec_threshold(),
    {
        let mut drained: Vec<T> = Vec::new();
        core::mem::swap(&mut drained, &mut self.items);
        drained
    }
}

} // verus!
