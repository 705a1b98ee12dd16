//! The raw per-packet subscription.
//!
//! Instead of aggregating, this subscription records one compact entry per
//! parsed packet — direction, arrival offset, IPv4 size — and emits them
//! all in one record at flow termination.

use vstd::prelude::*;
use crate::packet::PacketView;
use crate::subscription::SubscriptionSink;
use crate::timing::{delta_ns32, unix_timestamp_seconds, TimeSource};
use crate::types::{FiveTuple, Session};

verus! {

/// The recorded facts of one packet.
#[derive(Clone, Copy, Debug, PartialEq, Eq, Structural)]
pub struct PacketFeature {
    /// Direction: one for originator to responder, zero for the reverse.
    pub dir: u32,
    /// Time offset from the start of the connection, in nanoseconds.
    pub offset: u32,
    /// Size of the IP packet (IPv4 total length).
    pub sz: u32,
}

impl PacketFeature {
    /// The entry one packet produces, or nothing for a packet without an
    /// IPv4 header.
    pub open spec fn spec_from(segment: PacketView, start_tsc: u64, hz: u64) -> Option<
        PacketFeature,
    > {
        match segment.ipv4 {
            Option::Some(ip) => Some(
                PacketFeature {
                    dir: if segment.dir {
                        1u32
                    } else {
                        0u32
                    },
                    offset: delta_ns32(start_tsc, segment.timestamp_cycles, hz),
                    sz: ip.total_length as u32,
                },
            ),
            Option::None => None,
        }
    }

    /// Builds the entry for one packet; a packet without an IPv4 header
    /// yields nothing and is silently excluded.
    pub fn from(segment: &PacketView, start_tsc: u64, time: &TimeSource) -> (r: Option<
        PacketFeature,
    >)
        requires
            segment.wf(),
            time.wf(),
        ensures
            r == PacketFeature::spec_from(*segment, start_tsc, time.cycles_per_sec),
    {
        let ip = match segment.ipv4 {
            Some(ip) => ip,
            None => {
                return None;
            },
        };
        let delta64 = time.elapsed_since(segment.timestamp_cycles, start_tsc);
        let offset = if delta64 > u32::MAX as u64 {
            u32::MAX
        } else {
            delta64 as u32
        };
        Some(
            PacketFeature {
                dir: if segment.dir {
                    1
                } else {
                    0
                },
                offset,
                sz: ip.total_length as u32,
            },
        )
    }
}

/// A packet features record: the flow identity, its starting wall-clock
/// second, and one entry per parsed packet in arrival order.
#[derive(Debug, PartialEq)]
pub struct PacketFeatures {
    /// The flow's five-tuple.
    pub five_tuple: FiveTuple,
    /// Starting Unix timestamp, in seconds.
    pub ts: i64,
    /// Per-packet entries, in arrival order.
    pub packets: Vec<PacketFeature>,
}

/// Tracks a connection's packet features throughout its lifetime.
#[derive(Debug)]
pub struct TrackedPacketFeatures {
    pub five_tuple: FiveTuple,
    pub ts: i64,
    pub start_tsc: u64,
    /// True once the record has been delivered; delivery is one-shot.
    pub emitted: bool,
    /// Early-termination policy: recorded entries at which the flow is to
    /// be finalized, bounding per-flow memory.
    pub sample_ceiling: u64,
    pub packets: Vec<PacketFeature>,
}

impl TrackedPacketFeatures {
    /// Starts tracking a flow. The wall-clock field is read from the system
    /// clock, so nothing is promised of its value.
    pub fn new(five_tuple: FiveTuple, start_tsc: u64, sample_ceiling: u64) -> (r:
        TrackedPacketFeatures)
        ensures
            r.five_tuple == five_tuple,
            r.start_tsc == start_tsc,
            !r.emitted,
            r.sample_ceiling == sample_ceiling,
            r.packets@ == Seq::<PacketFeature>::empty(),
    {
        TrackedPacketFeatures {
            five_tuple,
            ts: unix_timestamp_seconds(),
            start_tsc,
            emitted: false,
            sample_ceiling,
            packets: Vec::new(),
        }
    }

    /// Appends one packet's entry; a packet without an IPv4 header changes
    /// nothing.
    pub fn update(&mut self, segment: &PacketView, time: &TimeSource)
        requires
            segment.wf(),
            time.wf(),
        ensures
            final(self).five_tuple == old(self).five_tuple,
            final(self).ts == old(self).ts,
            final(self).start_tsc == old(self).start_tsc,
            final(self).emitted == old(self).emitted,
            final(self).sample_ceiling == old(self).sample_ceiling,
            final(self).packets@ == (match PacketFeature::spec_from(
                *segment,
                old(self).start_tsc,
                time.cycles_per_sec,
            ) {
                Option::Some(p) => old(self).packets@.push(p),
                Option::None => old(self).packets@,
            }),
    {
        if let Some(packet) = PacketFeature::from(segment, self.start_tsc, time) {
            self.packets.push(packet);
        }
    }

    /// Accumulation before any session match: identical to `update`.
    pub fn pre_match(&mut self, pdu: &PacketView, _session_id: Option<usize>, time: &TimeSource)
        requires
            pdu.wf(),
            time.wf(),
        ensures
            final(self).five_tuple == old(self).five_tuple,
            final(self).ts == old(self).ts,
            final(self).start_tsc == old(self).start_tsc,
            final(self).emitted == old(self).emitted,
            final(self).sample_ceiling == old(self).sample_ceiling,
            final(self).packets@ == (match PacketFeature::spec_from(
                *pdu,
                old(self).start_tsc,
                time.cycles_per_sec,
            ) {
                Option::Some(p) => old(self).packets@.push(p),
                Option::None => old(self).packets@,
            }),
    {
        self.update(pdu, time);
    }

    /// A session match changes nothing: the flow stays tracked.
    pub fn on_match(&mut self, _session: Session)
        ensures
            *final(self) == *old(self),
    {
    }

    /// Accumulation after a session match: identical to `update`.
    pub fn post_match(&mut self, pdu: &PacketView, time: &TimeSource)
        requires
            pdu.wf(),
            time.wf(),
        ensures
            final(self).five_tuple == old(self).five_tuple,
            final(self).ts == old(self).ts,
            final(self).start_tsc == old(self).start_tsc,
            final(self).emitted == old(self).emitted,
            final(self).sample_ceiling == old(self).sample_ceiling,
            final(self).packets@ == (match PacketFeature::spec_from(
                *pdu,
                old(self).start_tsc,
                time.cycles_per_sec,
            ) {
                Option::Some(p) => old(self).packets@.push(p),
                Option::None => old(self).packets@,
            }),
    {
        self.update(pdu, time);
    }

    /// Builds the immutable record from the tracked state and delivers it,
    /// once: a repeated termination signal delivers nothing further.
    pub fn on_terminate(&mut self, sink: &mut SubscriptionSink<PacketFeatures>)
        ensures
            final(self).emitted,
            final(self).five_tuple == old(self).five_tuple,
            final(self).ts == old(self).ts,
            final(self).start_tsc == old(self).start_tsc,
            final(self).sample_ceiling == old(self).sample_ceiling,
            final(self).packets@ == old(self).packets@,
            old(self).emitted ==> *final(sink) == *old(sink),
            !old(self).emitted ==> {
                &&& final(sink).delivered@.len() == old(sink).delivered@.len() + 1
                &&& forall|i: int| 0 <= i < old(sink).delivered@.len()
                    ==> final(sink).delivered@[i] == old(sink).delivered@[i]
                &&& final(sink).delivered@.last().five_tuple == old(self).five_tuple
                &&& final(sink).delivered@.last().ts == old(self).ts
                &&& final(sink).delivered@.last().packets@ == old(self).packets@
            },
    {
        if self.emitted {
            return ;
        }
        self.emitted = true;
        let record = PacketFeatures {
            five_tuple: self.five_tuple,
            ts: self.ts,
            packets: copy_packets(&self.packets),
        };
        sink.invoke(record);
    }

    /// The early-termination policy: true once the configured ceiling's
    /// worth of entries has been recorded. Finalizing then bounds per-flow
    /// memory, at the cost of describing only the flow's prefix.
    pub fn early_terminate(&self) -> (r: bool)
        ensures
            r == (self.packets@.len() >= self.sample_ceiling),
    {
        self.packets.len() as u64 >= self.sample_ceiling
    }
}

/// Copies the per-packet entries.
fn copy_packets(v: &Vec<PacketFeature>) -> (r: Vec<PacketFeature>)
    ensures
        r@ == v@,
{
    let mut r: Vec<PacketFeature> = Vec::new();
    let n = v.len();
    proof {
        assert(v@.take(0) =~= r@);
    }
    for i in 0..n
        invariant
            n == v@.len(),
            r@ == v@.take(i as int),
    {
        r.push(v[i]);
        proof {
            assert(v@.take(i + 1) =~= v@.take(i as int).push(v@[i as int]));
        }
    }
    proof {
        assert(v@.take(n as int) =~= v@);
    }
    r
}

} // verus!
