//! The consolidated per-flow summary engine.
//!
//! One `TrackedFeatures` value accumulates, packet by packet, everything the
//! fixed-schema summary record needs: per-direction counters, byte and TTL
//! sums, packet-size extrema and histories, and the TCP handshake
//! timestamps. Finalization turns the state into one `Features` record of
//! exact values.
//!
//! Handshake detection is a pattern match on flag bits and arrival order,
//! not a verified protocol transcript: the first originator packet's time
//! counts as `syn`, the first responder packet with SYN+ACK as `syn_ack`,
//! and the first later originator packet with ACK (once `syn_ack` is set)
//! as `ack`. Retransmissions, out-of-order arrival and simultaneous-open
//! can therefore record a spurious or missing handshake timestamp; that is
//! an accepted approximation, documented rather than corrected.

use vstd::prelude::*;
use crate::packet::{MacAddr, PacketView};
use crate::stats::{median, median_doubled, sat_add64, sat_sub64, sort_spec, Ratio};
use crate::subscription::SubscriptionSink;
use crate::timing::{nanos_of, TimeSource};
use crate::types::{FiveTuple, Session, SessionKind};

verus! {

/// The smaller of a running minimum and a new sample; an unset minimum is
/// replaced by the sample.
pub open spec fn min_opt16(cur: Option<u16>, x: u16) -> Option<u16> {
    match cur {
        Option::None => Some(x),
        Option::Some(m) => Some(if x < m {
            x
        } else {
            m
        }),
    }
}

/// The larger of a running maximum and a new sample.
pub open spec fn max_opt16(cur: Option<u16>, x: u16) -> Option<u16> {
    match cur {
        Option::None => Some(x),
        Option::Some(m) => Some(if x > m {
            x
        } else {
            m
        }),
    }
}

/// A flow summary record: one exact value per feature of the fixed schema.
/// A feature whose inputs were never observed is `None`; the embedding
/// program renders that as its sentinel.
#[derive(Debug, PartialEq)]
pub struct Features {
    /// Flow duration in nanoseconds: latest activity minus the first
    /// originator packet's time.
    pub dur: Option<u64>,
    /// IPv4 protocol number of the originator side.
    pub proto: Option<u8>,
    pub s_bytes_sum: u64,
    pub d_bytes_sum: u64,
    pub s_ttl_mean: Option<Ratio>,
    pub d_ttl_mean: Option<Ratio>,
    /// Originator load in bits per second: bytes times eight billion over
    /// the duration in nanoseconds.
    pub s_load: Option<Ratio>,
    pub d_load: Option<Ratio>,
    pub s_pkt_cnt: u64,
    pub d_pkt_cnt: u64,
    pub s_bytes_mean: Option<Ratio>,
    pub d_bytes_mean: Option<Ratio>,
    pub s_iat_mean: Option<Ratio>,
    pub d_iat_mean: Option<Ratio>,
    /// Round-trip estimate: `syn_ack + ack_dat`.
    pub tcp_rtt: Option<u64>,
    /// Nanoseconds from SYN to SYN-ACK.
    pub syn_ack: Option<u64>,
    /// Nanoseconds from SYN-ACK to the completing ACK.
    pub ack_dat: Option<u64>,
    pub s_bytes_min: Option<u16>,
    pub d_bytes_min: Option<u16>,
    pub s_bytes_max: Option<u16>,
    pub d_bytes_max: Option<u16>,
    pub s_bytes_med: Option<Ratio>,
    pub d_bytes_med: Option<Ratio>,
    pub s_mac: Option<MacAddr>,
    pub d_mac: Option<MacAddr>,
    /// Server name of the matched TLS session, if any.
    pub sni: String,
}

/// Per-flow running state of the summary engine.
#[derive(Debug)]
pub struct TrackedFeatures {
    pub sni: String,
    /// True once a session event has been delivered; later ones are ignored
    /// (first-match-wins).
    pub matched: bool,
    /// True once the record has been delivered; delivery is one-shot.
    pub emitted: bool,
    /// Early-termination policy: accumulated samples across both directions
    /// at which the flow is to be finalized, bounding per-flow memory.
    pub sample_ceiling: u64,
    /// Packets delivered to this flow, parseable or not.
    pub cnt: u64,
    /// Time of the first originator packet, in nanoseconds.
    pub syn_ts: Option<u64>,
    /// Time of the first responder packet carrying SYN+ACK.
    pub syn_ack_ts: Option<u64>,
    /// Time of the first originator ACK after `syn_ack_ts` was set.
    pub ack_ts: Option<u64>,
    pub s_last_ts: Option<u64>,
    pub d_last_ts: Option<u64>,
    pub s_pkt_cnt: u64,
    pub d_pkt_cnt: u64,
    pub s_bytes_sum: u64,
    pub d_bytes_sum: u64,
    pub s_ttl_sum: u64,
    pub d_ttl_sum: u64,
    pub proto: Option<u8>,
    pub s_bytes_min: Option<u16>,
    pub d_bytes_min: Option<u16>,
    pub s_bytes_max: Option<u16>,
    pub d_bytes_max: Option<u16>,
    pub s_bytes_hist: Vec<u32>,
    pub d_bytes_hist: Vec<u32>,
    pub s_mac: Option<MacAddr>,
    pub d_mac: Option<MacAddr>,
}

/// The observable effect of the summary engine's session hook: the first
/// session event records a TLS session's server name (and nothing for any
/// other protocol); a later one changes nothing but stays consumed.
pub open spec fn session_matched(
    pre: TrackedFeatures,
    post: TrackedFeatures,
    session: Session,
) -> bool {
    &&& post.matched
    &&& (!pre.matched && session.kind is Tls ==> post.sni@ == session.server_name@)
    &&& (pre.matched || !(session.kind is Tls) ==> post.sni == pre.sni)
    &&& post == (TrackedFeatures { sni: post.sni, matched: true, ..pre })
}

/// First-match-wins at the summary engine: once a first session event is
/// delivered, a second one — whatever identity it carries — leaves the
/// recorded identity unchanged.
pub proof fn lemma_summary_first_match_wins(
    t0: TrackedFeatures,
    t1: TrackedFeatures,
    t2: TrackedFeatures,
    s1: Session,
    s2: Session,
)
    requires
        !t0.matched,
        session_matched(t0, t1, s1),
        session_matched(t1, t2, s2),
    ensures
        s1.kind is Tls ==> t2.sni@ == s1.server_name@,
        !(s1.kind is Tls) ==> t2.sni == t0.sni,
{
}

/// How one observed packet transforms the summary state.
///
/// A packet without an IPv4 header contributes nothing but the delivery
/// count; it never aborts the flow. All additions saturate.
pub open spec fn spec_update(
    pre: TrackedFeatures,
    post: TrackedFeatures,
    p: PacketView,
    hz: u64,
) -> bool {
    let t = nanos_of(p.timestamp_cycles, hz);
    &&& post.sni == pre.sni
    &&& post.matched == pre.matched
    &&& post.emitted == pre.emitted
    &&& post.sample_ceiling == pre.sample_ceiling
    &&& post.cnt == sat_add64(pre.cnt, 1)
    &&& match p.ipv4 {
        Option::None => {
            &&& post.syn_ts == pre.syn_ts
            &&& post.syn_ack_ts == pre.syn_ack_ts
            &&& post.ack_ts == pre.ack_ts
            &&& post.s_last_ts == pre.s_last_ts
            &&& post.d_last_ts == pre.d_last_ts
            &&& post.s_pkt_cnt == pre.s_pkt_cnt
            &&& post.d_pkt_cnt == pre.d_pkt_cnt
            &&& post.s_bytes_sum == pre.s_bytes_sum
            &&& post.d_bytes_sum == pre.d_bytes_sum
            &&& post.s_ttl_sum == pre.s_ttl_sum
            &&& post.d_ttl_sum == pre.d_ttl_sum
            &&& post.proto == pre.proto
            &&& post.s_bytes_min == pre.s_bytes_min
            &&& post.d_bytes_min == pre.d_bytes_min
            &&& post.s_bytes_max == pre.s_bytes_max
            &&& post.d_bytes_max == pre.d_bytes_max
            &&& post.s_bytes_hist@ == pre.s_bytes_hist@
            &&& post.d_bytes_hist@ == pre.d_bytes_hist@
            &&& post.s_mac == pre.s_mac
            &&& post.d_mac == pre.d_mac
        },
        Option::Some(ip) => if p.dir {
            &&& (if pre.cnt == 0 && p.eth is Some {
                post.s_mac == Some(p.eth.unwrap().src) && post.d_mac == Some(p.eth.unwrap().dst)
            } else {
                post.s_mac == pre.s_mac && post.d_mac == pre.d_mac
            })
            &&& post.syn_ts == (if pre.syn_ts is None {
                Some(t)
            } else {
                pre.syn_ts
            })
            &&& post.s_last_ts == Some(t)
            &&& post.s_pkt_cnt == sat_add64(pre.s_pkt_cnt, 1)
            &&& post.s_bytes_sum == sat_add64(pre.s_bytes_sum, ip.total_length as u64)
            &&& post.s_ttl_sum == sat_add64(pre.s_ttl_sum, ip.time_to_live as u64)
            &&& post.s_bytes_min == min_opt16(pre.s_bytes_min, ip.total_length)
            &&& post.s_bytes_max == max_opt16(pre.s_bytes_max, ip.total_length)
            &&& post.s_bytes_hist@ == pre.s_bytes_hist@.push(ip.total_length as u32)
            &&& post.ack_ts == (if pre.syn_ack_ts is Some && pre.ack_ts is None && (
                match p.tcp {
                    Option::Some(tc) => tc.ack,
                    Option::None => false,
                }
            ) {
                Some(t)
            } else {
                pre.ack_ts
            })
            &&& post.proto == Some(ip.protocol)
            &&& post.syn_ack_ts == pre.syn_ack_ts
            &&& post.d_last_ts == pre.d_last_ts
            &&& post.d_pkt_cnt == pre.d_pkt_cnt
            &&& post.d_bytes_sum == pre.d_bytes_sum
            &&& post.d_ttl_sum == pre.d_ttl_sum
            &&& post.d_bytes_min == pre.d_bytes_min
            &&& post.d_bytes_max == pre.d_bytes_max
            &&& post.d_bytes_hist@ == pre.d_bytes_hist@
        } else {
            &&& post.d_last_ts == Some(t)
            &&& post.d_pkt_cnt == sat_add64(pre.d_pkt_cnt, 1)
            &&& post.d_bytes_sum == sat_add64(pre.d_bytes_sum, ip.total_length as u64)
            &&& post.d_ttl_sum == sat_add64(pre.d_ttl_sum, ip.time_to_live as u64)
            &&& post.d_bytes_min == min_opt16(pre.d_bytes_min, ip.total_length)
            &&& post.d_bytes_max == max_opt16(pre.d_bytes_max, ip.total_length)
            &&& post.d_bytes_hist@ == pre.d_bytes_hist@.push(ip.total_length as u32)
            &&& post.syn_ack_ts == (if pre.syn_ack_ts is None && (match p.tcp {
                Option::Some(tc) => tc.spec_synack(),
                Option::None => false,
            }) {
                Some(t)
            } else {
                pre.syn_ack_ts
            })
            &&& post.syn_ts == pre.syn_ts
            &&& post.ack_ts == pre.ack_ts
            &&& post.s_last_ts == pre.s_last_ts
            &&& post.s_pkt_cnt == pre.s_pkt_cnt
            &&& post.s_bytes_sum == pre.s_bytes_sum
            &&& post.s_ttl_sum == pre.s_ttl_sum
            &&& post.proto == pre.proto
            &&& post.s_bytes_min == pre.s_bytes_min
            &&& post.s_bytes_max == pre.s_bytes_max
            &&& post.s_bytes_hist@ == pre.s_bytes_hist@
            &&& post.s_mac == pre.s_mac
            &&& post.d_mac == pre.d_mac
        },
    }
}

impl TrackedFeatures {
    // -- the finalized value of each schema feature, as a function of the
    // -- accumulated state

    pub open spec fn spec_latest_ts(self) -> Option<u64> {
        match (self.s_last_ts, self.d_last_ts) {
            (Option::Some(a), Option::Some(b)) => Some(
                if a > b {
                    a
                } else {
                    b
                },
            ),
            (Option::Some(a), Option::None) => Some(a),
            (Option::None, Option::Some(b)) => Some(b),
            (Option::None, Option::None) => None,
        }
    }

    pub open spec fn spec_dur(self) -> Option<u64> {
        match (self.spec_latest_ts(), self.syn_ts) {
            (Option::Some(last), Option::Some(syn)) => Some(sat_sub64(last, syn)),
            _ => None,
        }
    }

    pub open spec fn spec_mean(sum: u64, cnt: u64) -> Option<Ratio> {
        if cnt == 0 {
            None
        } else {
            Some(Ratio { num: sum as u128, den: cnt as u128 })
        }
    }

    /// Load in bits per second: bytes times eight billion over the duration
    /// in nanoseconds; undefined for a zero or unknown duration.
    pub open spec fn spec_load(bytes: u64, dur: Option<u64>) -> Option<Ratio> {
        match dur {
            Option::Some(d) => if d > 0 {
                Some(Ratio { num: (bytes * 8_000_000_000) as u128, den: d as u128 })
            } else {
                None
            },
            Option::None => None,
        }
    }

    /// Mean inter-arrival time: the span from the direction's first
    /// reference time to its last packet, over the count of gaps.
    pub open spec fn spec_iat_mean(first: Option<u64>, last: Option<u64>, cnt: u64) -> Option<
        Ratio,
    > {
        match (first, last) {
            (Option::Some(f), Option::Some(l)) => if cnt > 1 {
                Some(Ratio { num: sat_sub64(l, f) as u128, den: (cnt - 1) as u128 })
            } else {
                None
            },
            _ => None,
        }
    }

    pub open spec fn spec_syn_ack(self) -> Option<u64> {
        match (self.syn_ack_ts, self.syn_ts) {
            (Option::Some(sa), Option::Some(s)) => Some(sat_sub64(sa, s)),
            _ => None,
        }
    }

    pub open spec fn spec_ack_dat(self) -> Option<u64> {
        match (self.ack_ts, self.syn_ack_ts) {
            (Option::Some(a), Option::Some(sa)) => Some(sat_sub64(a, sa)),
            _ => None,
        }
    }

    pub open spec fn spec_tcp_rtt(self) -> Option<u64> {
        match (self.spec_syn_ack(), self.spec_ack_dat()) {
            (Option::Some(a), Option::Some(b)) => Some(sat_add64(a, b)),
            _ => None,
        }
    }

    pub open spec fn spec_med(hist: Seq<u32>) -> Option<Ratio> {
        if hist.len() == 0 {
            None
        } else {
            Some(Ratio { num: median_doubled(sort_spec(hist)) as u128, den: 2 })
        }
    }

    /// The record finalization owes for this state: every field a function
    /// of the accumulated values.
    pub open spec fn spec_record_matches(self, r: Features) -> bool {
        &&& r.dur == self.spec_dur()
        &&& r.proto == self.proto
        &&& r.s_bytes_sum == self.s_bytes_sum
        &&& r.d_bytes_sum == self.d_bytes_sum
        &&& r.s_ttl_mean == TrackedFeatures::spec_mean(self.s_ttl_sum, self.s_pkt_cnt)
        &&& r.d_ttl_mean == TrackedFeatures::spec_mean(self.d_ttl_sum, self.d_pkt_cnt)
        &&& r.s_load == TrackedFeatures::spec_load(self.s_bytes_sum, self.spec_dur())
        &&& r.d_load == TrackedFeatures::spec_load(self.d_bytes_sum, self.spec_dur())
        &&& r.s_pkt_cnt == self.s_pkt_cnt
        &&& r.d_pkt_cnt == self.d_pkt_cnt
        &&& r.s_bytes_mean == TrackedFeatures::spec_mean(self.s_bytes_sum, self.s_pkt_cnt)
        &&& r.d_bytes_mean == TrackedFeatures::spec_mean(self.d_bytes_sum, self.d_pkt_cnt)
        &&& r.s_iat_mean == TrackedFeatures::spec_iat_mean(
            self.syn_ts,
            self.s_last_ts,
            self.s_pkt_cnt,
        )
        &&& r.d_iat_mean == TrackedFeatures::spec_iat_mean(
            self.syn_ack_ts,
            self.d_last_ts,
            self.d_pkt_cnt,
        )
        &&& r.tcp_rtt == self.spec_tcp_rtt()
        &&& r.syn_ack == self.spec_syn_ack()
        &&& r.ack_dat == self.spec_ack_dat()
        &&& r.s_bytes_min == self.s_bytes_min
        &&& r.d_bytes_min == self.d_bytes_min
        &&& r.s_bytes_max == self.s_bytes_max
        &&& r.d_bytes_max == self.d_bytes_max
        &&& r.s_bytes_med == TrackedFeatures::spec_med(self.s_bytes_hist@)
        &&& r.d_bytes_med == TrackedFeatures::spec_med(self.d_bytes_hist@)
        &&& r.s_mac == self.s_mac
        &&& r.d_mac == self.d_mac
        &&& r.sni@ == self.sni@
    }

    /// Accumulates one packet.
    pub fn update(&mut self, segment: &PacketView, time: &TimeSource)
        requires
            segment.wf(),
            time.wf(),
        ensures
            spec_update(*old(self), *final(self), *segment, time.cycles_per_sec),
    {
        let t = time.to_nanos(segment.timestamp_cycles);
        let first = self.cnt == 0;
        self.cnt = if self.cnt == u64::MAX {
            u64::MAX
        } else {
            self.cnt + 1
        };
        let ip = match segment.ipv4 {
            Option::Some(ip) => ip,
            Option::None => {
                return ;
            },
        };
        if segment.dir {
            if first {
                if let Some(eth) = segment.eth {
                    self.s_mac = Some(eth.src);
                    self.d_mac = Some(eth.dst);
                }
            }
            if self.syn_ts.is_none() {
                self.syn_ts = Some(t);
            }
            self.s_last_ts = Some(t);
            self.s_pkt_cnt = if self.s_pkt_cnt == u64::MAX {
                u64::MAX
            } else {
                self.s_pkt_cnt + 1
            };
            let len = ip.total_length as u64;
            self.s_bytes_sum = if self.s_bytes_sum > u64::MAX - len {
                u64::MAX
            } else {
                self.s_bytes_sum + len
            };
            let ttl = ip.time_to_live as u64;
            self.s_ttl_sum = if self.s_ttl_sum > u64::MAX - ttl {
                u64::MAX
            } else {
                self.s_ttl_sum + ttl
            };
            self.s_bytes_min = match self.s_bytes_min {
                Option::None => Some(ip.total_length),
                Option::Some(m) => Some(
                    if ip.total_length < m {
                        ip.total_length
                    } else {
                        m
                    },
                ),
            };
            self.s_bytes_max = match self.s_bytes_max {
                Option::None => Some(ip.total_length),
                Option::Some(m) => Some(
                    if ip.total_length > m {
                        ip.total_length
                    } else {
                        m
                    },
                ),
            };
            self.s_bytes_hist.push(ip.total_length as u32);
            if self.syn_ack_ts.is_some() && self.ack_ts.is_none() {
                if let Some(tc) = segment.tcp {
                    if tc.ack {
                        self.ack_ts = Some(t);
                    }
                }
            }
            self.proto = Some(ip.protocol);
        } else {
            self.d_last_ts = Some(t);
            self.d_pkt_cnt = if self.d_pkt_cnt == u64::MAX {
                u64::MAX
            } else {
                self.d_pkt_cnt + 1
            };
            let len = ip.total_length as u64;
            self.d_bytes_sum = if self.d_bytes_sum > u64::MAX - len {
                u64::MAX
            } else {
                self.d_bytes_sum + len
            };
            let ttl = ip.time_to_live as u64;
            self.d_ttl_sum = if self.d_ttl_sum > u64::MAX - ttl {
                u64::MAX
            } else {
                self.d_ttl_sum + ttl
            };
            self.d_bytes_min = match self.d_bytes_min {
                Option::None => Some(ip.total_length),
                Option::Some(m) => Some(
                    if ip.total_length < m {
                        ip.total_length
                    } else {
                        m
                    },
                ),
            };
            self.d_bytes_max = match self.d_bytes_max {
                Option::None => Some(ip.total_length),
                Option::Some(m) => Some(
                    if ip.total_length > m {
                        ip.total_length
                    } else {
                        m
                    },
                ),
            };
            self.d_bytes_hist.push(ip.total_length as u32);
            if self.syn_ack_ts.is_none() {
                if let Some(tc) = segment.tcp {
                    if tc.synack() {
                        self.syn_ack_ts = Some(t);
                    }
                }
            }
        }
    }

    /// Finalizes the state into the summary record.
    pub fn extract_features(&self) -> (r: Features)
        ensures
            self.spec_record_matches(r),
    {
        let dur = match (self.latest_ts(), self.syn_ts) {
            (Some(last), Some(syn)) => Some(
                if last >= syn {
                    last - syn
                } else {
                    0
                },
            ),
            _ => None,
        };
        let s_load = Self::load_of(self.s_bytes_sum, dur);
        let d_load = Self::load_of(self.d_bytes_sum, dur);
        let syn_ack = match (self.syn_ack_ts, self.syn_ts) {
            (Some(sa), Some(s)) => Some(
                if sa >= s {
                    sa - s
                } else {
                    0
                },
            ),
            _ => None,
        };
        let ack_dat = match (self.ack_ts, self.syn_ack_ts) {
            (Some(a), Some(sa)) => Some(
                if a >= sa {
                    a - sa
                } else {
                    0
                },
            ),
            _ => None,
        };
        let tcp_rtt = match (syn_ack, ack_dat) {
            (Some(a), Some(b)) => Some(
                if a > u64::MAX - b {
                    u64::MAX
                } else {
                    a + b
                },
            ),
            _ => None,
        };
        let s_bytes_med = median(&self.s_bytes_hist);
        let d_bytes_med = median(&self.d_bytes_hist);
        Features {
            dur,
            proto: self.proto,
            s_bytes_sum: self.s_bytes_sum,
            d_bytes_sum: self.d_bytes_sum,
            s_ttl_mean: Self::mean_of(self.s_ttl_sum, self.s_pkt_cnt),
            d_ttl_mean: Self::mean_of(self.d_ttl_sum, self.d_pkt_cnt),
            s_load,
            d_load,
            s_pkt_cnt: self.s_pkt_cnt,
            d_pkt_cnt: self.d_pkt_cnt,
            s_bytes_mean: Self::mean_of(self.s_bytes_sum, self.s_pkt_cnt),
            d_bytes_mean: Self::mean_of(self.d_bytes_sum, self.d_pkt_cnt),
            s_iat_mean: Self::iat_mean_of(self.syn_ts, self.s_last_ts, self.s_pkt_cnt),
            d_iat_mean: Self::iat_mean_of(self.syn_ack_ts, self.d_last_ts, self.d_pkt_cnt),
            tcp_rtt,
            syn_ack,
            ack_dat,
            s_bytes_min: self.s_bytes_min,
            d_bytes_min: self.d_bytes_min,
            s_bytes_max: self.s_bytes_max,
            d_bytes_max: self.d_bytes_max,
            s_bytes_med,
            d_bytes_med,
            s_mac: self.s_mac,
            d_mac: self.d_mac,
            sni: self.sni.clone(),
        }
    }

    fn latest_ts(&self) -> (r: Option<u64>)
        ensures
            r == self.spec_latest_ts(),
    {
        match (self.s_last_ts, self.d_last_ts) {
            (Some(a), Some(b)) => Some(
                if a > b {
                    a
                } else {
                    b
                },
            ),
            (Some(a), None) => Some(a),
            (None, Some(b)) => Some(b),
            (None, None) => None,
        }
    }

    fn mean_of(sum: u64, cnt: u64) -> (r: Option<Ratio>)
        ensures
            r == TrackedFeatures::spec_mean(sum, cnt),
    {
        if cnt == 0 {
            None
        } else {
            Some(Ratio { num: sum as u128, den: cnt as u128 })
        }
    }

    fn load_of(bytes: u64, dur: Option<u64>) -> (r: Option<Ratio>)
        ensures
            r == TrackedFeatures::spec_load(bytes, dur),
    {
        match dur {
            Some(d) => if d > 0 {
                Some(Ratio { num: bytes as u128 * 8_000_000_000u128, den: d as u128 })
            } else {
                None
            },
            None => None,
        }
    }

    pub fn new(_five_tuple: FiveTuple, sample_ceiling: u64) -> (r: TrackedFeatures)
        ensures
            r.sni@ == Seq::<char>::empty(),
            !r.matched,
            !r.emitted,
            r.sample_ceiling == sample_ceiling,
            r.cnt == 0,
            r.syn_ts is None,
            r.syn_ack_ts is None,
            r.ack_ts is None,
            r.s_last_ts is None,
            r.d_last_ts is None,
            r.s_pkt_cnt == 0,
            r.d_pkt_cnt == 0,
            r.s_bytes_sum == 0,
            r.d_bytes_sum == 0,
            r.s_ttl_sum == 0,
            r.d_ttl_sum == 0,
            r.proto is None,
            r.s_bytes_min is None,
            r.d_bytes_min is None,
            r.s_bytes_max is None,
            r.d_bytes_max is None,
            r.s_bytes_hist@ == Seq::<u32>::empty(),
            r.d_bytes_hist@ == Seq::<u32>::empty(),
            r.s_mac is None,
            r.d_mac is None,
    {
        TrackedFeatures {
            sni: String::new(),
            matched: false,
            emitted: false,
            sample_ceiling,
            cnt: 0,
            syn_ts: None,
            syn_ack_ts: None,
            ack_ts: None,
            s_last_ts: None,
            d_last_ts: None,
            s_pkt_cnt: 0,
            d_pkt_cnt: 0,
            s_bytes_sum: 0,
            d_bytes_sum: 0,
            s_ttl_sum: 0,
            d_ttl_sum: 0,
            proto: None,
            s_bytes_min: None,
            d_bytes_min: None,
            s_bytes_max: None,
            d_bytes_max: None,
            s_bytes_hist: Vec::new(),
            d_bytes_hist: Vec::new(),
            s_mac: None,
            d_mac: None,
        }
    }

    /// Accumulation before any session match: identical to `update`.
    pub fn pre_match(&mut self, pdu: &PacketView, _session_id: Option<usize>, time: &TimeSource)
        requires
            pdu.wf(),
            time.wf(),
        ensures
            spec_update(*old(self), *final(self), *pdu, time.cycles_per_sec),
    {
        self.update(pdu, time);
    }

    /// Records the session identity, once: the first session event sets the
    /// server name of a TLS session (and nothing for any other protocol);
    /// any later session event leaves the identity unchanged
    /// (first-match-wins).
    pub fn on_match(&mut self, session: Session)
        ensures
            session_matched(*old(self), *final(self), session),
    {
        if !self.matched {
            self.matched = true;
            if let SessionKind::Tls = session.kind {
                self.sni = session.server_name;
            }
        }
    }

    /// Accumulation after a session match: identical to `update`.
    pub fn post_match(&mut self, pdu: &PacketView, time: &TimeSource)
        requires
            pdu.wf(),
            time.wf(),
        ensures
            spec_update(*old(self), *final(self), *pdu, time.cycles_per_sec),
    {
        self.update(pdu, time);
    }

    /// Finalizes the state into the record and delivers it, once: a repeated
    /// termination signal delivers nothing further.
    pub fn on_terminate(&mut self, sink: &mut SubscriptionSink<Features>)
        ensures
            *final(self) == (TrackedFeatures { emitted: true, ..*old(self) }),
            old(self).emitted ==> *final(sink) == *old(sink),
            !old(self).emitted ==> {
                &&& final(sink).delivered@.len() == old(sink).delivered@.len() + 1
                &&& forall|i: int| 0 <= i < old(sink).delivered@.len()
                    ==> final(sink).delivered@[i] == old(sink).delivered@[i]
                &&& old(self).spec_record_matches(final(sink).delivered@.last())
            },
    {
        if self.emitted {
            return ;
        }
        self.emitted = true;
        let record = self.extract_features();
        sink.invoke(record);
    }

    /// The early-termination policy: true once the directions together have
    /// accumulated the configured ceiling's worth of samples. Finalizing
    /// then bounds per-flow memory, at the cost of describing only the
    /// flow's prefix.
    pub fn early_terminate(&self) -> (r: bool)
        ensures
            r == (self.s_pkt_cnt as int + self.d_pkt_cnt as int >= self.sample_ceiling as int),
    {
        if self.s_pkt_cnt > u64::MAX - self.d_pkt_cnt {
            true
        } else {
            self.s_pkt_cnt + self.d_pkt_cnt >= self.sample_ceiling
        }
    }

    fn iat_mean_of(first: Option<u64>, last: Option<u64>, cnt: u64) -> (r: Option<Ratio>)
        ensures
            r == TrackedFeatures::spec_iat_mean(first, last, cnt),
    {
        match (first, last) {
            (Some(f), Some(l)) => if cnt > 1 {
                let span = if l >= f {
                    l - f
                } else {
                    0
                };
                Some(Ratio { num: span as u128, den: (cnt - 1) as u128 })
            } else {
                None
            },
            _ => None,
        }
    }
}

} // verus!
