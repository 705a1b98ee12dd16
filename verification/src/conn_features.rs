//! The compact connection-features subscription.
//!
//! A lighter sibling of the catalog-driven accumulator: per direction it
//! keeps only the packet arrival offsets, the packet count, and the sums of
//! IPv4 total lengths and TCP window sizes, and finalizes into four values
//! per direction (count, mean packet size, mean window size, mean
//! inter-arrival time). Only fully parsed TCP-over-IPv4 packets contribute.

use vstd::prelude::*;
use crate::packet::PacketView;
use crate::stats::{sat_add32, sat_add64, Ratio};
use crate::subscription::SubscriptionSink;
use crate::timing::{delta_ns32, TimeSource};
use crate::types::{FiveTuple, Session, SessionKind};

verus! {

/// Packet count at which a flow is finalized early, both directions
/// together.
pub const EARLY_TERMINATION_PACKET_CEILING: u64 = 4;

/// Subtraction of arrival offsets that stops at zero: a desynchronized
/// counter read never yields a negative gap.
pub open spec fn sat_sub32(a: u32, b: u32) -> u32 {
    if a >= b {
        (a - b) as u32
    } else {
        0
    }
}

/// Sum of the gaps between consecutive arrival offsets, saturating.
pub open spec fn iat_sum_sat(s: Seq<u32>) -> u64
    decreases s.len(),
{
    if s.len() <= 1 {
        0u64
    } else {
        sat_add64(iat_sum_sat(s.drop_last()), sat_sub32(s.last(), s[s.len() - 2]) as u64)
    }
}

/// A uni-directional flow.
#[derive(Debug, PartialEq)]
pub struct FlowFeatures {
    /// Cycle-counter reading at flow creation.
    pub start_tsc: u64,
    /// Arrival offset of each counted packet, nanoseconds from flow start.
    pub delta_ns: Vec<u32>,
    /// Number of packets counted in this direction, saturating.
    pub packet_cnt: u32,
    /// Sum of IPv4 total lengths, saturating.
    pub ip_total_length: u32,
    /// Sum of TCP window sizes, saturating.
    pub tcp_window_size: u32,
}

/// How one observed packet transforms the accumulator: a packet carrying
/// Ethernet, IPv4 and TCP contributes one offset and bumps every counter;
/// any other packet changes nothing.
pub open spec fn spec_inserted(
    pre: FlowFeatures,
    post: FlowFeatures,
    p: PacketView,
    hz: u64,
) -> bool {
    match (p.ipv4, p.tcp) {
        (Option::Some(ip), Option::Some(tc)) => {
            let delta = delta_ns32(pre.start_tsc, p.timestamp_cycles, hz);
            &&& post.start_tsc == pre.start_tsc
            &&& post.delta_ns@ == pre.delta_ns@.push(delta)
            &&& post.packet_cnt == sat_add32(pre.packet_cnt, 1)
            &&& post.ip_total_length == sat_add32(pre.ip_total_length, ip.total_length as u32)
            &&& post.tcp_window_size == sat_add32(pre.tcp_window_size, tc.window as u32)
        },
        _ => post == pre,
    }
}

/// The four finalized values of one direction: packet count, mean packet
/// size in bytes, mean window size, and mean inter-arrival time in
/// nanoseconds. A direction that counted no packet yields four zero
/// sentinels; a single-packet direction has no gaps and a zero mean
/// inter-arrival time.
pub open spec fn spec_extracted(f: FlowFeatures) -> Seq<Ratio> {
    if f.packet_cnt == 0 {
        seq![Ratio::spec_zero(), Ratio::spec_zero(), Ratio::spec_zero(), Ratio::spec_zero()]
    } else {
        let gaps = f.delta_ns.len() as int - 1;
        seq![
            Ratio::spec_whole(f.packet_cnt as u128),
            Ratio { num: f.ip_total_length as u128, den: f.packet_cnt as u128 },
            Ratio { num: f.tcp_window_size as u128, den: f.packet_cnt as u128 },
            if gaps > 0 {
                Ratio { num: iat_sum_sat(f.delta_ns@) as u128, den: gaps as u128 }
            } else {
                Ratio::spec_zero()
            },
        ]
    }
}

impl FlowFeatures {
    pub fn new(start_tsc: u64) -> (r: FlowFeatures)
        ensures
            r.start_tsc == start_tsc,
            r.delta_ns@ == Seq::<u32>::empty(),
            r.packet_cnt == 0,
            r.ip_total_length == 0,
            r.tcp_window_size == 0,
    {
        FlowFeatures {
            start_tsc,
            delta_ns: Vec::new(),
            packet_cnt: 0,
            ip_total_length: 0,
            tcp_window_size: 0,
        }
    }

    /// Observes one packet; a packet missing any of the three layers is
    /// silently excluded and never aborts the flow.
    pub fn insert_segment(&mut self, segment: &PacketView, time: &TimeSource)
        requires
            segment.wf(),
            time.wf(),
        ensures
            spec_inserted(*old(self), *final(self), *segment, time.cycles_per_sec),
    {
        let ip = match segment.ipv4 {
            Some(ip) => ip,
            None => {
                return ;
            },
        };
        let tc = match segment.tcp {
            Some(tc) => tc,
            None => {
                return ;
            },
        };
        let delta64 = time.elapsed_since(segment.timestamp_cycles, self.start_tsc);
        let delta = if delta64 > u32::MAX as u64 {
            u32::MAX
        } else {
            delta64 as u32
        };
        self.delta_ns.push(delta);
        self.packet_cnt = if self.packet_cnt == u32::MAX {
            u32::MAX
        } else {
            self.packet_cnt + 1
        };
        let len = ip.total_length as u32;
        self.ip_total_length = if self.ip_total_length > u32::MAX - len {
            u32::MAX
        } else {
            self.ip_total_length + len
        };
        let win = tc.window as u32;
        self.tcp_window_size = if self.tcp_window_size > u32::MAX - win {
            u32::MAX
        } else {
            self.tcp_window_size + win
        };
    }

    /// Appends this direction's four finalized values.
    pub fn extract_features(&self, features: &mut Vec<Ratio>)
        ensures
            final(features)@ == old(features)@ + spec_extracted(*self),
    {
        if self.packet_cnt == 0 {
            features.push(Ratio::zero());
            features.push(Ratio::zero());
            features.push(Ratio::zero());
            features.push(Ratio::zero());
        } else {
            features.push(Ratio::whole(self.packet_cnt as u64));
            features.push(Ratio { num: self.ip_total_length as u128, den: self.packet_cnt as u128 });
            features.push(Ratio { num: self.tcp_window_size as u128, den: self.packet_cnt as u128 });
            let n = self.delta_ns.len();
            if n > 1 {
                let mut iat_sum: u64 = 0;
                proof {
                    assert(self.delta_ns@.take(1).len() <= 1);
                }
                for i in 1..n
                    invariant
                        n == self.delta_ns@.len(),
                        0 < i <= n,
                        iat_sum == iat_sum_sat(self.delta_ns@.take(i as int)),
                {
                    proof {
                        assert(self.delta_ns@.take(i + 1).drop_last() =~= self.delta_ns@.take(
                            i as int,
                        ));
                    }
                    let a = self.delta_ns[i];
                    let b = self.delta_ns[i - 1];
                    let gap = if a >= b {
                        (a - b) as u64
                    } else {
                        0
                    };
                    iat_sum = if iat_sum > u64::MAX - gap {
                        u64::MAX
                    } else {
                        iat_sum + gap
                    };
                }
                proof {
                    assert(self.delta_ns@.take(n as int) =~= self.delta_ns@);
                }
                features.push(Ratio { num: iat_sum as u128, den: (n - 1) as u128 });
            } else {
                features.push(Ratio::zero());
            }
        }
        proof {
            assert(final(features)@ =~= old(features)@ + spec_extracted(*self));
        }
    }
}

/// A compact connection record: the session identity and eight finalized
/// values, originator direction first.
#[derive(Debug, PartialEq)]
pub struct ConnFeatures {
    /// Server name (for TLS connections).
    pub sni: String,
    /// The finalized values, originator's four then responder's four.
    pub features: Vec<Ratio>,
}

/// Tracks a compact connection record throughout its lifetime.
#[derive(Debug)]
pub struct TrackedConnFeatures {
    pub sni: String,
    /// True once a session event has been delivered; later ones are ignored
    /// (first-match-wins).
    pub matched: bool,
    /// True once the record has been delivered; delivery is one-shot.
    pub emitted: bool,
    pub ctos: FlowFeatures,
    pub stoc: FlowFeatures,
}

/// The observable effect of the compact tracker's session hook: the first
/// session event records a TLS session's server name (and nothing for any
/// other protocol); a later one changes nothing but stays consumed.
pub open spec fn session_matched(
    pre: TrackedConnFeatures,
    post: TrackedConnFeatures,
    session: Session,
) -> bool {
    &&& post.matched
    &&& (!pre.matched && session.kind is Tls ==> post.sni@ == session.server_name@)
    &&& (pre.matched || !(session.kind is Tls) ==> post.sni == pre.sni)
    &&& post.emitted == pre.emitted
    &&& post.ctos == pre.ctos
    &&& post.stoc == pre.stoc
}

/// First-match-wins at the compact tracker: once a first session event is
/// delivered, a second one — whatever identity it carries — leaves the
/// recorded identity unchanged.
pub proof fn lemma_compact_first_match_wins(
    t0: TrackedConnFeatures,
    t1: TrackedConnFeatures,
    t2: TrackedConnFeatures,
    s1: Session,
    s2: Session,
)
    requires
        !t0.matched,
        session_matched(t0, t1, s1),
        session_matched(t1, t2, s2),
    ensures
        s1.kind is Tls ==> t2.sni@ == s1.server_name@,
        !(s1.kind is Tls) ==> t2.sni == t0.sni,
{
}

impl TrackedConnFeatures {
    pub fn new(_five_tuple: FiveTuple, start_tsc: u64) -> (r: TrackedConnFeatures)
        ensures
            r.sni@ == Seq::<char>::empty(),
            !r.matched,
            !r.emitted,
            r.ctos.start_tsc == start_tsc,
            r.ctos.delta_ns@ == Seq::<u32>::empty(),
            r.ctos.packet_cnt == 0,
            r.ctos.ip_total_length == 0,
            r.ctos.tcp_window_size == 0,
            r.stoc.start_tsc == start_tsc,
            r.stoc.delta_ns@ == Seq::<u32>::empty(),
            r.stoc.packet_cnt == 0,
            r.stoc.ip_total_length == 0,
            r.stoc.tcp_window_size == 0,
    {
        TrackedConnFeatures {
            sni: String::new(),
            matched: false,
            emitted: false,
            ctos: FlowFeatures::new(start_tsc),
            stoc: FlowFeatures::new(start_tsc),
        }
    }

    /// Routes one packet to the accumulator of its direction.
    pub fn update(&mut self, segment: &PacketView, time: &TimeSource)
        requires
            segment.wf(),
            time.wf(),
        ensures
            final(self).sni == old(self).sni,
            final(self).matched == old(self).matched,
            final(self).emitted == old(self).emitted,
            segment.dir ==> spec_inserted(
                old(self).ctos,
                final(self).ctos,
                *segment,
                time.cycles_per_sec,
            ) && final(self).stoc == old(self).stoc,
            !segment.dir ==> spec_inserted(
                old(self).stoc,
                final(self).stoc,
                *segment,
                time.cycles_per_sec,
            ) && final(self).ctos == old(self).ctos,
    {
        if segment.dir {
            self.ctos.insert_segment(segment, time);
        } else {
            self.stoc.insert_segment(segment, time);
        }
    }

    /// The eight finalized values, originator direction first.
    pub fn extract_features(&self) -> (r: Vec<Ratio>)
        ensures
            r@ == spec_extracted(self.ctos) + spec_extracted(self.stoc),
    {
        let mut features: Vec<Ratio> = Vec::new();
        self.ctos.extract_features(&mut features);
        self.stoc.extract_features(&mut features);
        proof {
            assert(features@ =~= spec_extracted(self.ctos) + spec_extracted(self.stoc));
        }
        features
    }

    /// Accumulation before any session match: identical to `update`.
    pub fn pre_match(&mut self, pdu: &PacketView, _session_id: Option<usize>, time: &TimeSource)
        requires
            pdu.wf(),
            time.wf(),
        ensures
            final(self).sni == old(self).sni,
            final(self).matched == old(self).matched,
            final(self).emitted == old(self).emitted,
            pdu.dir ==> spec_inserted(
                old(self).ctos,
                final(self).ctos,
                *pdu,
                time.cycles_per_sec,
            ) && final(self).stoc == old(self).stoc,
            !pdu.dir ==> spec_inserted(
                old(self).stoc,
                final(self).stoc,
                *pdu,
                time.cycles_per_sec,
            ) && final(self).ctos == old(self).ctos,
    {
        self.update(pdu, time);
    }

    /// Records the session identity, once: the first session event sets the
    /// server name of a TLS session (and nothing for any other protocol);
    /// any later session event leaves the identity unchanged
    /// (first-match-wins).
    pub fn on_match(&mut self, session: Session)
        ensures
            session_matched(*old(self), *final(self), session),
    {
        if !self.matched {
            self.matched = true;
            if let SessionKind::Tls = session.kind {
                self.sni = session.server_name;
            }
        }
    }

    /// Accumulation after a session match: identical to `update`.
    pub fn post_match(&mut self, pdu: &PacketView, time: &TimeSource)
        requires
            pdu.wf(),
            time.wf(),
        ensures
            final(self).sni == old(self).sni,
            final(self).matched == old(self).matched,
            final(self).emitted == old(self).emitted,
            pdu.dir ==> spec_inserted(
                old(self).ctos,
                final(self).ctos,
                *pdu,
                time.cycles_per_sec,
            ) && final(self).stoc == old(self).stoc,
            !pdu.dir ==> spec_inserted(
                old(self).stoc,
                final(self).stoc,
                *pdu,
                time.cycles_per_sec,
            ) && final(self).ctos == old(self).ctos,
    {
        self.update(pdu, time);
    }

    /// Builds the immutable record from the tracked state and delivers it,
    /// once: a repeated termination signal delivers nothing further.
    pub fn on_terminate(&mut self, sink: &mut SubscriptionSink<ConnFeatures>)
        ensures
            final(self).emitted,
            final(self).sni == old(self).sni,
            final(self).matched == old(self).matched,
            final(self).ctos == old(self).ctos,
            final(self).stoc == old(self).stoc,
            old(self).emitted ==> *final(sink) == *old(sink),
            !old(self).emitted ==> {
                &&& final(sink).delivered@.len() == old(sink).delivered@.len() + 1
                &&& forall|i: int| 0 <= i < old(sink).delivered@.len()
                    ==> final(sink).delivered@[i] == old(sink).delivered@[i]
                &&& final(sink).delivered@.last().sni@ == old(self).sni@
                &&& final(sink).delivered@.last().features@ == spec_extracted(old(self).ctos)
                    + spec_extracted(old(self).stoc)
            },
    {
        if self.emitted {
            return ;
        }
        self.emitted = true;
        let record = ConnFeatures { sni: self.sni.clone(), features: self.extract_features() };
        sink.invoke(record);
    }

    /// The early-termination predicate: true once the directions together
    /// have counted the ceiling's worth of packets.
    pub fn early_terminate(&self) -> (r: bool)
        ensures
            r == (self.ctos.packet_cnt as int + self.stoc.packet_cnt as int
                >= EARLY_TERMINATION_PACKET_CEILING),
    {
        self.ctos.packet_cnt as u64 + self.stoc.packet_cnt as u64
            >= EARLY_TERMINATION_PACKET_CEILING
    }
}

} // verus!
