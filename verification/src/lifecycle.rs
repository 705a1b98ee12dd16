//! The per-flow lifecycle state machine.
//!
//! A `ConnectionLifecycle` is created when the first packet of a new flow
//! arrives and orchestrates everything that happens to the flow afterwards:
//! it feeds packets to the per-direction accumulators, accepts at most one
//! session event, evaluates the early-termination policy after every
//! accumulation step, and emits exactly one record into its sink — whether
//! termination came early or from the external closure signal. An
//! already-terminated flow ignores every further event: the state machine
//! guards idempotency here, on top of the trackers' own one-shot delivery
//! guards, so no caller has to.

use vstd::prelude::*;
use crate::connection_features::{
    aligned, lemma_observe_preserves_alignment, lemma_obs_eq_transfers_alignment, obs_eq,
    spec_observed, ConnectionFeatures, TrackedConnectionFeatures,
};
use crate::packet::PacketView;
use crate::subscription::SubscriptionSink;
use crate::timing::TimeSource;
use crate::types::{FiveTuple, Session};

verus! {

/// The lifecycle states. `Open` and `Matched` accept packets identically;
/// `Matched` additionally carries the session identity recorded on entry.
/// `Terminated` is final.
#[derive(Clone, Copy, Debug, PartialEq, Eq, Structural)]
pub enum FlowState {
    Open,
    Matched,
    Terminated,
}

/// Why a flow was finalized.
#[derive(Clone, Copy, Debug, PartialEq, Eq, Structural)]
pub enum TerminateReason {
    /// The external demultiplexer signalled closure or expiry.
    ClosedByPeer,
    /// The early-termination sample ceiling was reached.
    EarlyTermination,
}

/// The per-flow state machine: lifecycle state, the tracked accumulation, the
/// flow's own record sink, the time source, and the configured
/// early-termination ceiling.
#[derive(Debug)]
pub struct ConnectionLifecycle {
    pub state: FlowState,
    pub conn: TrackedConnectionFeatures,
    pub sink: SubscriptionSink<ConnectionFeatures>,
    pub time: TimeSource,
    pub ceiling: u64,
}

/// Packets counted over both directions of a record.
pub open spec fn record_total(r: ConnectionFeatures) -> int {
    r.orig.packet_cnt + r.resp.packet_cnt
}

/// The observable effect of `observe_session`: a first session event moves
/// the flow from `Open` to `Matched` and records a TLS session's server
/// name; any later or out-of-state session event changes nothing.
pub open spec fn session_stepped(
    pre: ConnectionLifecycle,
    post: ConnectionLifecycle,
    session: Session,
) -> bool {
    if pre.state is Open {
        &&& post.state is Matched
        &&& post.conn.sni@ == session.spec_identity()
        &&& post.conn.ctos == pre.conn.ctos
        &&& post.conn.stoc == pre.conn.stoc
        &&& post.sink == pre.sink
        &&& post.time == pre.time
        &&& post.ceiling == pre.ceiling
    } else {
        post == pre
    }
}

impl ConnectionLifecycle {
    /// Packets counted so far over both directions.
    pub open spec fn total_cnt(self) -> int {
        self.conn.ctos.packet_cnt + self.conn.stoc.packet_cnt
    }

    /// The lifecycle invariant, established at creation and preserved by
    /// every transition:
    /// - exactly one record has been delivered if and only if the flow is
    ///   terminated, and none before;
    /// - any delivered record describes at most `ceiling` counted packets,
    ///   and its per-class sample sequences are aligned;
    /// - the accumulators' sample sequences stay aligned;
    /// - while the flow is live, the count is strictly below the ceiling,
    ///   so accumulation is bounded.
    pub open spec fn wf(self) -> bool {
        &&& self.time.wf()
        &&& self.ceiling >= 1
        &&& self.sink.delivered@.len() == (if self.state is Terminated {
            1int
        } else {
            0int
        })
        &&& forall|i: int|
            0 <= i < self.sink.delivered@.len() ==> {
                let r = #[trigger] self.sink.delivered@[i];
                record_total(r) <= self.ceiling && aligned(r.orig) && aligned(r.resp)
            }
        &&& aligned(self.conn.ctos)
        &&& aligned(self.conn.stoc)
        &&& self.state is Open ==> !self.conn.matched && self.conn.sni@ == Seq::<char>::empty()
        &&& self.state is Matched ==> self.conn.matched
        &&& self.conn.emitted <==> self.state is Terminated
        &&& !(self.state is Terminated) ==> self.total_cnt() < self.ceiling
    }

    /// Opens a flow. A ceiling below one could never admit a packet and is
    /// rejected by precondition; configured values come from the embedding
    /// program.
    pub fn new(five_tuple: FiveTuple, start_tsc: u64, time: TimeSource, ceiling: u64) -> (r:
        ConnectionLifecycle)
        requires
            time.wf(),
            ceiling >= 1,
        ensures
            r.wf(),
            r.state is Open,
            r.time == time,
            r.ceiling == ceiling,
            r.total_cnt() == 0,
            r.conn.sni@ == Seq::<char>::empty(),
            r.sink.delivered@ == Seq::<ConnectionFeatures>::empty(),
    {
        ConnectionLifecycle {
            state: FlowState::Open,
            conn: TrackedConnectionFeatures::new(five_tuple, start_tsc),
            sink: SubscriptionSink::new(),
            time,
            ceiling,
        }
    }

    /// The early-termination policy: a pure predicate on the accumulated
    /// state, true once the directions together have counted the ceiling's
    /// worth of packets.
    pub fn should_terminate_early(&self) -> (r: bool)
        ensures
            r == (self.total_cnt() >= self.ceiling),
    {
        self.conn.ctos.packet_cnt as u64 <= u64::MAX - self.conn.stoc.packet_cnt as u64
            && self.conn.ctos.packet_cnt as u64 + self.conn.stoc.packet_cnt as u64
            >= self.ceiling
    }

    /// Feeds one packet to the flow. A terminated flow ignores it. A live
    /// flow accumulates it into the accumulator of its direction and is
    /// finalized immediately if the accumulated count reaches the ceiling,
    /// delivering the one record of the flow.
    pub fn observe_packet(&mut self, p: &PacketView)
        requires
            old(self).wf(),
            p.wf(),
        ensures
            final(self).wf(),
            final(self).time == old(self).time,
            final(self).ceiling == old(self).ceiling,
            old(self).state is Terminated ==> *final(self) == *old(self),
            !(old(self).state is Terminated) ==> {
                &&& final(self).conn.sni == old(self).conn.sni
                &&& final(self).conn.matched == old(self).conn.matched
                &&& (p.dir ==> spec_observed(
                    old(self).conn.ctos,
                    final(self).conn.ctos,
                    *p,
                    old(self).time.cycles_per_sec,
                ) && final(self).conn.stoc == old(self).conn.stoc)
                &&& (!p.dir ==> spec_observed(
                    old(self).conn.stoc,
                    final(self).conn.stoc,
                    *p,
                    old(self).time.cycles_per_sec,
                ) && final(self).conn.ctos == old(self).conn.ctos)
                &&& (final(self).total_cnt() >= old(self).ceiling ==> {
                    &&& final(self).state is Terminated
                    &&& final(self).sink.delivered@.len() == 1
                    &&& final(self).sink.delivered@[0].sni@ == final(self).conn.sni@
                    &&& obs_eq(final(self).sink.delivered@[0].orig, final(self).conn.ctos)
                    &&& obs_eq(final(self).sink.delivered@[0].resp, final(self).conn.stoc)
                })
                &&& (final(self).total_cnt() < old(self).ceiling ==> {
                    &&& final(self).state == old(self).state
                    &&& final(self).sink.delivered@ == Seq::<ConnectionFeatures>::empty()
                })
            },
    {
        let ghost pre = *self;
        match self.state {
            FlowState::Terminated => {},
            FlowState::Open => {
                self.conn.pre_match(p, None, &self.time);
                proof {
                    self.lemma_accumulation_keeps_alignment(pre, *p);
                }
                if self.should_terminate_early() {
                    self.conn.on_terminate(&mut self.sink);
                    self.state = FlowState::Terminated;
                    proof {
                        lemma_obs_eq_transfers_alignment(self.conn.ctos, self.sink.delivered@.last().orig);
                        lemma_obs_eq_transfers_alignment(self.conn.stoc, self.sink.delivered@.last().resp);
                    }
                }
            },
            FlowState::Matched => {
                self.conn.post_match(p, &self.time);
                proof {
                    self.lemma_accumulation_keeps_alignment(pre, *p);
                }
                if self.should_terminate_early() {
                    self.conn.on_terminate(&mut self.sink);
                    self.state = FlowState::Terminated;
                    proof {
                        lemma_obs_eq_transfers_alignment(self.conn.ctos, self.sink.delivered@.last().orig);
                        lemma_obs_eq_transfers_alignment(self.conn.stoc, self.sink.delivered@.last().resp);
                    }
                }
            },
        }
    }

    /// After routing one packet, both accumulators are still aligned.
    proof fn lemma_accumulation_keeps_alignment(self, pre: ConnectionLifecycle, p: PacketView)
        requires
            p.wf(),
            aligned(pre.conn.ctos),
            aligned(pre.conn.stoc),
            pre.time.wf(),
            p.dir ==> spec_observed(
                pre.conn.ctos,
                self.conn.ctos,
                p,
                pre.time.cycles_per_sec,
            ) && self.conn.stoc == pre.conn.stoc,
            !p.dir ==> spec_observed(
                pre.conn.stoc,
                self.conn.stoc,
                p,
                pre.time.cycles_per_sec,
            ) && self.conn.ctos == pre.conn.ctos,
        ensures
            aligned(self.conn.ctos),
            aligned(self.conn.stoc),
    {
        if p.dir {
            lemma_observe_preserves_alignment(
                pre.conn.ctos,
                self.conn.ctos,
                p,
                pre.time.cycles_per_sec,
            );
        } else {
            lemma_observe_preserves_alignment(
                pre.conn.stoc,
                self.conn.stoc,
                p,
                pre.time.cycles_per_sec,
            );
        }
    }

    /// Delivers a session event. Valid once: the first event moves an open
    /// flow to `Matched` and records the session identity; a second session
    /// event for the same flow is ignored (first-match-wins), since a flow
    /// carries at most one application-layer identity.
    pub fn observe_session(&mut self, session: Session)
        requires
            old(self).wf(),
        ensures
            final(self).wf(),
            session_stepped(*old(self), *final(self), session),
    {
        if let FlowState::Open = self.state {
            self.conn.on_match(session);
            self.state = FlowState::Matched;
        }
    }

    /// Finalizes the flow: builds the record and delivers it, exactly once.
    /// Terminating an already-terminated flow — an external closure signal
    /// arriving after early termination — is a no-op, never a second
    /// record.
    pub fn terminate(&mut self, _reason: TerminateReason)
        requires
            old(self).wf(),
        ensures
            final(self).wf(),
            final(self).state is Terminated,
            final(self).conn.emitted,
            final(self).conn.sni == old(self).conn.sni,
            final(self).conn.matched == old(self).conn.matched,
            final(self).conn.ctos == old(self).conn.ctos,
            final(self).conn.stoc == old(self).conn.stoc,
            final(self).time == old(self).time,
            final(self).ceiling == old(self).ceiling,
            old(self).state is Terminated ==> *final(self) == *old(self),
            !(old(self).state is Terminated) ==> {
                &&& final(self).sink.delivered@.len() == 1
                &&& final(self).sink.delivered@[0].sni@ == old(self).conn.sni@
                &&& obs_eq(final(self).sink.delivered@[0].orig, old(self).conn.ctos)
                &&& obs_eq(final(self).sink.delivered@[0].resp, old(self).conn.stoc)
            },
    {
        match self.state {
            FlowState::Terminated => {},
            _ => {
                self.conn.on_terminate(&mut self.sink);
                self.state = FlowState::Terminated;
                proof {
                    lemma_obs_eq_transfers_alignment(
                        self.conn.ctos,
                        self.sink.delivered@.last().orig,
                    );
                    lemma_obs_eq_transfers_alignment(
                        self.conn.stoc,
                        self.sink.delivered@.last().resp,
                    );
                }
            },
        }
    }

    /// Hands the flow's delivered records to the embedding program for the
    /// user callback.
    pub fn take_delivered(&mut self) -> (r: Vec<ConnectionFeatures>)
        ensures
            r@ == old(self).sink.delivered@,
            final(self).sink.delivered@ == Seq::<ConnectionFeatures>::empty(),
            final(self).state == old(self).state,
            final(self).conn == old(self).conn,
            final(self).time == old(self).time,
            final(self).ceiling == old(self).ceiling,
    {
        self.sink.take_delivered()
    }
}

// ---------------------------------------------------------------------------
// Delivery laws.
// ---------------------------------------------------------------------------

/// At-most-one record, and exactly one once terminated: in every reachable
/// lifecycle state the sink has delivered at most one record, it has
/// delivered none while the flow is live, and it has delivered exactly one
/// once the flow is terminated — regardless of whether termination was
/// early or came from the external closure signal. Reachability is the
/// lifecycle invariant `wf`, which `new` establishes and every transition
/// preserves.
pub proof fn lemma_at_most_one_record(l: ConnectionLifecycle)
    requires
        l.wf(),
    ensures
        l.sink.delivered@.len() <= 1,
        l.state is Terminated ==> l.sink.delivered@.len() == 1,
        !(l.state is Terminated) ==> l.sink.delivered@.len() == 0,
{
}

/// The early-termination bound: every record a flow delivers describes at
/// most `ceiling` counted packets, and a live flow's accumulated count
/// stays strictly below the ceiling — long flows are truncated to a
/// prefix, they never grow without bound.
pub proof fn lemma_early_termination_bound(l: ConnectionLifecycle)
    requires
        l.wf(),
    ensures
        forall|i: int|
            0 <= i < l.sink.delivered@.len() ==> record_total(#[trigger] l.sink.delivered@[i])
                <= l.ceiling && aligned(l.sink.delivered@[i].orig) && aligned(
                l.sink.delivered@[i].resp,
            ),
        !(l.state is Terminated) ==> l.total_cnt() < l.ceiling,
{
}

/// First-match-wins: after a first session event is delivered to an open
/// flow, a second session event — whatever identity it carries — leaves
/// the recorded identity unchanged.
pub proof fn lemma_session_first_match_wins(
    l0: ConnectionLifecycle,
    l1: ConnectionLifecycle,
    l2: ConnectionLifecycle,
    s1: Session,
    s2: Session,
)
    requires
        l0.state is Open,
        session_stepped(l0, l1, s1),
        session_stepped(l1, l2, s2),
    ensures
        l2.conn.sni@ == s1.spec_identity(),
{
}

} // verus!
