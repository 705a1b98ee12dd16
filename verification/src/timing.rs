//! Conversion of a monotonic hardware cycle counter into nanosecond offsets.
//!
//! The calibration factor (cycles per second) is read once at process start
//! by the embedding program and handed in as a plain value; no ambient
//! global state is kept here. Reading the counter itself is likewise the
//! embedding program's job: every function here computes from plain values.

use vstd::prelude::*;

verus! {

pub const NANOS_PER_SEC: u64 = 1_000_000_000;

/// Exact nanosecond value of `delta` cycles at `hz` cycles per second,
/// saturated to the `u64` range.
pub open spec fn nanos_of(delta: u64, hz: u64) -> u64
    recommends
        hz > 0,
{
    let exact = (delta as int) * (NANOS_PER_SEC as int) / (hz as int);
    if exact > u64::MAX {
        u64::MAX
    } else {
        exact as u64
    }
}

/// Converts cycle-counter deltas to nanosecond offsets using a calibration
/// factor computed once per process.
#[derive(Clone, Copy, Debug)]
pub struct TimeSource {
    /// Calibration factor, in cycles per second; always positive in a
    /// well-formed value.
    pub cycles_per_sec: u64,
}

impl TimeSource {
    /// True of every properly constructed value: a zero frequency would make
    /// the whole timing subsystem unusable, so construction rejects it.
    pub open spec fn wf(self) -> bool {
        self.cycles_per_sec > 0
    }

    /// Calibration: a frequency of zero cannot be used and is rejected;
    /// the caller treats that as fatal at startup.
    pub fn new(cycles_per_sec: u64) -> (r: Option<TimeSource>)
        ensures
            cycles_per_sec == 0 <==> r is None,
            r matches Some(t) ==> t.wf() && t.cycles_per_sec == cycles_per_sec,
    {
        if cycles_per_sec == 0 {
            None
        } else {
            Some(TimeSource { cycles_per_sec })
        }
    }

    /// Nanoseconds spanned by `delta_cycles`, saturating at the `u64` range.
    pub fn to_nanos(&self, delta_cycles: u64) -> (r: u64)
        requires
            self.wf(),
        ensures
            r == nanos_of(delta_cycles, self.cycles_per_sec),
    {
        let wide: u128 = (delta_cycles as u128) * (NANOS_PER_SEC as u128) / (self.cycles_per_sec as u128);
        if wide > u64::MAX as u128 {
            u64::MAX
        } else {
            wide as u64
        }
    }

    /// Nanoseconds elapsed between `start_cycles` and `now_cycles`. A counter
    /// value that appears to have gone backwards (a wrapped or desynchronized
    /// read) degrades to a zero offset rather than a bogus duration.
    pub fn elapsed_since(&self, now_cycles: u64, start_cycles: u64) -> (r: u64)
        requires
            self.wf(),
        ensures
            now_cycles >= start_cycles ==> r == nanos_of(
                (now_cycles - start_cycles) as u64,
                self.cycles_per_sec,
            ),
            now_cycles < start_cycles ==> r == 0,
    {
        let delta = if now_cycles >= start_cycles {
            now_cycles - start_cycles
        } else {
            0
        };
        self.to_nanos(delta)
    }
}

/// The arrival offset stored with a packet: nanoseconds since the flow
/// started, clamped into a 32-bit sample.
pub open spec fn delta_ns32(start_cycles: u64, now_cycles: u64, hz: u64) -> u32 {
    let ns = if now_cycles >= start_cycles {
        nanos_of((now_cycles - start_cycles) as u64, hz)
    } else {
        0
    };
    if ns > u32::MAX {
        u32::MAX
    } else {
        ns as u32
    }
}

/// Relies on std's `SystemTime::now` and `duration_since`: seconds since
/// the Unix epoch, by the system clock. The read is total whatever the
/// machine's clock state: a clock set before the epoch yields the zero
/// sentinel, and one beyond the `i64` second range saturates. The result
/// depends on the moment of the call, so nothing is promised of it.
#[verifier::external_body]
pub fn unix_timestamp_seconds() -> i64 {
    match std::time::SystemTime::now().duration_since(std::time::UNIX_EPOCH) {
        Ok(d) => i64::try_from(d.as_secs()).unwrap_or(i64::MAX),
        Err(_) => 0,
    }
}

} // verus!
