//! Per-core aggregate counters.
//!
//! Process-wide tallies (flows processed, records emitted) are kept as one
//! slot per core. A slot is only ever incremented through its owning
//! core's index, and the slots are summed once, at shutdown or reporting
//! time — no counter is ever mutated from two cores, so no synchronization
//! and no cross-core cache traffic is needed.

use vstd::prelude::*;

verus! {

/// Left-to-right sum of the slots, each addition saturating at `u64::MAX`.
pub open spec fn slots_total(s: Seq<u64>) -> u64
    decreases s.len(),
{
    if s.len() == 0 {
        0u64
    } else {
        let t = slots_total(s.drop_last()) as int + s.last() as int;
        if t > u64::MAX {
            u64::MAX
        } else {
            t as u64
        }
    }
}

/// One counter slot per core.
#[derive(Debug)]
pub struct PerCoreCounters {
    pub slots: Vec<u64>,
}

impl PerCoreCounters {
    pub fn new(n_cores: usize) -> (r: PerCoreCounters)
        ensures
            r.slots@.len() == n_cores,
            forall|i: int| 0 <= i < n_cores ==> r.slots@[i] == 0,
    {
        let mut slots: Vec<u64> = Vec::new();
        for k in 0..n_cores
            invariant
                slots@.len() == k,
                forall|i: int| 0 <= i < k ==> slots@[i] == 0,
        {
            slots.push(0);
        }
        PerCoreCounters { slots }
    }

    /// Bumps the owning core's slot, saturating; every other slot is
    /// untouched.
    pub fn increment(&mut self, core: usize)
        requires
            core < old(self).slots@.len(),
        ensures
            final(self).slots@.len() == old(self).slots@.len(),
            final(self).slots@[core as int] == (if old(self).slots@[core as int] == u64::MAX {
                u64::MAX
            } else {
                (old(self).slots@[core as int] + 1) as u64
            }),
            forall|i: int| 0 <= i < old(self).slots@.len() && i != core ==> final(self).slots@[i]
                == old(self).slots@[i],
    {
        let cur = self.slots[core];
        let bumped = if cur == u64::MAX {
            u64::MAX
        } else {
            cur + 1
        };
        self.slots.set(core, bumped);
    }

    /// The one final reduction: the sum of every core's slot, saturating.
    pub fn total(&self) -> (r: u64)
        ensures
            r == slots_total(self.slots@),
    {
        let mut r: u64 = 0;
        let n = self.slots.len();
        proof {
            assert(self.slots@.take(0) =~= Seq::<u64>::empty());
        }
        for i in 0..n
            invariant
                n == self.slots@.len(),
                r == slots_total(self.slots@.take(i as int)),
        {
            proof {
                assert(self.slots@.take(i + 1).drop_last() =~= self.slots@.take(i as int));
            }
            let x = self.slots[i];
            r = if r > u64::MAX - x {
                u64::MAX
            } else {
                r + x
            };
        }
        proof {
            assert(self.slots@.take(n as int) =~= self.slots@);
        }
        r
    }
}

} // verus!
