use flowtrack::lifecycle::{ConnectionLifecycle, FlowState, TerminateReason};
use flowtrack::packet::{EthView, Ipv4View, MacAddr, PacketView, TcpView};
use flowtrack::timing::TimeSource;
use flowtrack::types::{FiveTuple, Session, SessionKind};

fn tcp_packet(dir: bool, ts: u64, total_length: u16) -> PacketView {
    PacketView {
        dir,
        timestamp_cycles: ts,
        eth: Some(EthView { src: MacAddr(1, 1, 1, 1, 1, 1), dst: MacAddr(2, 2, 2, 2, 2, 2) }),
        ipv4: Some(Ipv4View {
            ihl: 5,
            dscp: 0,
            ecn: 0,
            total_length,
            identification: 7,
            rf: false,
            df: false,
            mf: false,
            fragment_offset: 0,
            time_to_live: 64,
            protocol: 6,
            header_checksum: 0,
        }),
        tcp: Some(TcpView {
            src_port: 1,
            dst_port: 2,
            seq_no: 0,
            ack_no: 0,
            data_offset: 5,
            reserved: 0,
            cwr: false,
            ece: false,
            urg: false,
            ack: true,
            psh: false,
            rst: false,
            syn: false,
            fin: false,
            window: 100,
            checksum: 0,
            urgent_ptr: 0,
        }),
    }
}

fn five_tuple() -> FiveTuple {
    FiveTuple { orig_addr: 1, orig_port: 2, resp_addr: 3, resp_port: 4, protocol: 6 }
}

fn ns_time() -> TimeSource {
    TimeSource::new(1_000_000_000).unwrap()
}

fn tls_session(name: &str) -> Session {
    Session { kind: SessionKind::Tls, server_name: name.to_string() }
}

#[test]
fn exactly_one_record_on_external_close() {
    let mut l = ConnectionLifecycle::new(five_tuple(), 0, ns_time(), 1000);
    for i in 0..5u64 {
        l.observe_packet(&tcp_packet(i % 2 == 0, i, 100));
    }
    assert_eq!(l.sink.delivered.len(), 0);
    l.terminate(TerminateReason::ClosedByPeer);
    assert_eq!(l.sink.delivered.len(), 1);
    // a second closure signal is a no-op, never a second record
    l.terminate(TerminateReason::ClosedByPeer);
    assert_eq!(l.sink.delivered.len(), 1);
    assert_eq!(l.state, FlowState::Terminated);
}

#[test]
fn exactly_one_record_when_early_termination_races_the_close() {
    let ceiling = 8u64;
    let mut l = ConnectionLifecycle::new(five_tuple(), 0, ns_time(), ceiling);
    for i in 0..58u64 {
        l.observe_packet(&tcp_packet(i % 2 == 0, i, 100));
    }
    // the external closure signal arrives after early termination
    l.terminate(TerminateReason::ClosedByPeer);
    assert_eq!(l.sink.delivered.len(), 1);
}

#[test]
fn early_termination_bounds_the_record_to_the_ceiling() {
    let ceiling = 8u64;
    let mut l = ConnectionLifecycle::new(five_tuple(), 0, ns_time(), ceiling);
    for i in 0..(ceiling + 50) {
        l.observe_packet(&tcp_packet(i % 2 == 0, i, 100));
    }
    assert_eq!(l.state, FlowState::Terminated);
    assert_eq!(l.sink.delivered.len(), 1);
    let record = &l.sink.delivered[0];
    let total = record.orig.packet_cnt as u64 + record.resp.packet_cnt as u64;
    assert_eq!(total, ceiling);
    // the per-class sequences hold only the prefix
    assert_eq!(record.orig.pkt_data.ip_total_length.len() as u64
        + record.resp.pkt_data.ip_total_length.len() as u64, ceiling);
    // later packets are not delivered to the terminated instance
    let frozen_orig = record.orig.packet_cnt;
    l.observe_packet(&tcp_packet(true, 999, 100));
    assert_eq!(l.sink.delivered.len(), 1);
    assert_eq!(l.sink.delivered[0].orig.packet_cnt, frozen_orig);
    assert_eq!(l.conn.ctos.packet_cnt + l.conn.stoc.packet_cnt, ceiling as u32);
}

#[test]
fn session_first_match_wins() {
    let mut l = ConnectionLifecycle::new(five_tuple(), 0, ns_time(), 100);
    l.observe_packet(&tcp_packet(true, 0, 100));
    l.observe_session(tls_session("first.example"));
    assert_eq!(l.state, FlowState::Matched);
    l.observe_session(tls_session("second.example"));
    assert_eq!(l.conn.sni, "first.example");
    l.terminate(TerminateReason::ClosedByPeer);
    let records = l.take_delivered();
    assert_eq!(records.len(), 1);
    assert_eq!(records[0].sni, "first.example");
}

#[test]
fn non_tls_session_matches_with_empty_identity() {
    let mut l = ConnectionLifecycle::new(five_tuple(), 0, ns_time(), 100);
    l.observe_session(Session { kind: SessionKind::Other, server_name: "ignored".to_string() });
    assert_eq!(l.state, FlowState::Matched);
    assert_eq!(l.conn.sni, "");
    // a later TLS session does not replace the first match
    l.observe_session(tls_session("late.example"));
    assert_eq!(l.conn.sni, "");
}

#[test]
fn matched_flows_keep_accumulating_until_terminated() {
    let mut l = ConnectionLifecycle::new(five_tuple(), 0, ns_time(), 100);
    l.observe_packet(&tcp_packet(true, 0, 100));
    l.observe_session(tls_session("x.example"));
    l.observe_packet(&tcp_packet(false, 5, 200));
    assert_eq!(l.conn.ctos.packet_cnt, 1);
    assert_eq!(l.conn.stoc.packet_cnt, 1);
    l.terminate(TerminateReason::ClosedByPeer);
    let records = l.take_delivered();
    assert_eq!(records[0].orig.byte_cnt, 100);
    assert_eq!(records[0].resp.byte_cnt, 200);
}

#[test]
fn session_after_termination_is_ignored() {
    let mut l = ConnectionLifecycle::new(five_tuple(), 0, ns_time(), 100);
    l.terminate(TerminateReason::ClosedByPeer);
    l.observe_session(tls_session("late.example"));
    assert_eq!(l.state, FlowState::Terminated);
    assert_eq!(l.conn.sni, "");
    assert_eq!(l.sink.delivered.len(), 1);
}
