//! The callback-delivery contract.
//!
//! A `SubscriptionSink` receives each finalized record exactly once per
//! flow. Delivery to the user-registered handler is synchronous and owned by
//! the embedding program: the sink holds the records in delivery order, and
//! the embedding program drains them to its handler. Handler failure is the
//! caller's to contain; nothing here retries or swallows it.

use vstd::prelude::*;

verus! {

/// Collects finalized records in delivery order.
#[derive(Debug)]
pub struct SubscriptionSink<R> {
    pub delivered: Vec<R>,
}

impl<R> SubscriptionSink<R> {
    pub fn new() -> (r: SubscriptionSink<R>)
        ensures
            r.delivered@ == Seq::<R>::empty(),
    {
        SubscriptionSink { delivered: Vec::new() }
    }

    /// Delivers one record. Append-only: no delivered record is ever
    /// dropped or replaced.
    pub fn invoke(&mut self, record: R)
        ensures
            final(self).delivered@ == old(self).delivered@.push(record),
    {
        self.delivered.push(record);
    }

    pub fn count(&self) -> (r: usize)
        ensures
            r == self.delivered@.len(),
    {
        self.delivered.len()
    }

    /// Hands the delivered records to the embedding program, leaving the
    /// sink empty.
    pub fn take_delivered(&mut self) -> (r: Vec<R>)
        ensures
            r@ == old(self).delivered@,
            final(self).delivered@ == Seq::<R>::empty(),
    {
        let mut out: Vec<R> = Vec::new();
        core::mem::swap(&mut out, &mut self.delivered);
        out
    }
}

} // verus!
