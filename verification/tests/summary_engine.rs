use flowtrack::features::TrackedFeatures;
use flowtrack::packet::{EthView, Ipv4View, MacAddr, PacketView, TcpView};
use flowtrack::stats::Ratio;
use flowtrack::subscription::SubscriptionSink;
use flowtrack::timing::TimeSource;
use flowtrack::types::{FiveTuple, Session, SessionKind};

fn tcp_view(syn: bool, ack: bool) -> TcpView {
    TcpView {
        src_port: 1,
        dst_port: 2,
        seq_no: 0,
        ack_no: 0,
        data_offset: 5,
        reserved: 0,
        cwr: false,
        ece: false,
        urg: false,
        ack,
        psh: false,
        rst: false,
        syn,
        fin: false,
        window: 64,
        checksum: 0,
        urgent_ptr: 0,
    }
}

fn handshake_packet(dir: bool, ts: u64, total_length: u16, ttl: u8, syn: bool, ack: bool) -> PacketView {
    PacketView {
        dir,
        timestamp_cycles: ts,
        eth: Some(EthView { src: MacAddr(1, 0, 0, 0, 0, 1), dst: MacAddr(2, 0, 0, 0, 0, 2) }),
        ipv4: Some(Ipv4View {
            ihl: 5,
            dscp: 0,
            ecn: 0,
            total_length,
            identification: 0,
            rf: false,
            df: false,
            mf: false,
            fragment_offset: 0,
            time_to_live: ttl,
            protocol: 6,
            header_checksum: 0,
        }),
        tcp: Some(tcp_view(syn, ack)),
    }
}

fn five_tuple() -> FiveTuple {
    FiveTuple { orig_addr: 1, orig_port: 2, resp_addr: 3, resp_port: 4, protocol: 6 }
}

fn ns_time() -> TimeSource {
    TimeSource::new(1_000_000_000).unwrap()
}

#[test]
fn handshake_timing_scenario() {
    let time = ns_time();
    let mut t = TrackedFeatures::new(five_tuple(), 2048);
    t.update(&handshake_packet(true, 0, 60, 64, true, false), &time); // SYN at 0
    t.update(&handshake_packet(false, 10, 60, 60, true, true), &time); // SYN-ACK at 10
    t.update(&handshake_packet(true, 15, 52, 64, false, true), &time); // ACK at 15
    t.update(&handshake_packet(true, 16, 500, 64, false, true), &time); // DATA at 16
    let r = t.extract_features();
    assert_eq!(r.syn_ack, Some(10));
    assert_eq!(r.ack_dat, Some(5));
    assert_eq!(r.tcp_rtt, Some(15));
    assert_eq!(r.dur, Some(16));
    assert_eq!(r.s_pkt_cnt, 3);
    assert_eq!(r.d_pkt_cnt, 1);
    assert_eq!(r.s_bytes_sum, 60 + 52 + 500);
    assert_eq!(r.d_bytes_sum, 60);
    assert_eq!(r.proto, Some(6));
    assert_eq!(r.s_mac, Some(MacAddr(1, 0, 0, 0, 0, 1)));
    assert_eq!(r.d_mac, Some(MacAddr(2, 0, 0, 0, 0, 2)));
}

#[test]
fn means_extrema_and_medians_are_exact() {
    let time = ns_time();
    let mut t = TrackedFeatures::new(five_tuple(), 2048);
    t.update(&handshake_packet(true, 0, 100, 60, false, false), &time);
    t.update(&handshake_packet(true, 10, 300, 62, false, false), &time);
    t.update(&handshake_packet(true, 30, 200, 64, false, false), &time);
    let r = t.extract_features();
    assert_eq!(r.s_bytes_mean, Some(Ratio { num: 600, den: 3 }));
    assert_eq!(r.s_ttl_mean, Some(Ratio { num: 186, den: 3 }));
    assert_eq!(r.s_bytes_min, Some(100));
    assert_eq!(r.s_bytes_max, Some(300));
    assert_eq!(r.s_bytes_med, Some(Ratio { num: 400, den: 2 })); // median 200
    // three packets over 30 ns: two gaps
    assert_eq!(r.s_iat_mean, Some(Ratio { num: 30, den: 2 }));
    // load: 600 bytes over 30 ns
    assert_eq!(r.s_load, Some(Ratio { num: 600 * 8_000_000_000, den: 30 }));
    assert_eq!(r.d_bytes_mean, None);
    assert_eq!(r.d_bytes_med, None);
}

#[test]
fn fresh_engine_finalizes_to_sentinels_without_panicking() {
    let t = TrackedFeatures::new(five_tuple(), 2048);
    let r = t.extract_features();
    assert_eq!(r.dur, None);
    assert_eq!(r.proto, None);
    assert_eq!(r.s_bytes_sum, 0);
    assert_eq!(r.d_bytes_sum, 0);
    assert_eq!(r.s_ttl_mean, None);
    assert_eq!(r.s_load, None);
    assert_eq!(r.s_pkt_cnt, 0);
    assert_eq!(r.s_iat_mean, None);
    assert_eq!(r.tcp_rtt, None);
    assert_eq!(r.syn_ack, None);
    assert_eq!(r.ack_dat, None);
    assert_eq!(r.s_bytes_min, None);
    assert_eq!(r.s_bytes_max, None);
    assert_eq!(r.s_bytes_med, None);
    assert_eq!(r.s_mac, None);
    assert_eq!(r.sni, "");
}

#[test]
fn unparseable_packet_only_counts_delivery() {
    let time = ns_time();
    let mut t = TrackedFeatures::new(five_tuple(), 2048);
    let bare = PacketView { dir: true, timestamp_cycles: 5, eth: None, ipv4: None, tcp: None };
    t.update(&bare, &time);
    assert_eq!(t.cnt, 1);
    assert_eq!(t.s_pkt_cnt, 0);
    assert_eq!(t.syn_ts, None);
    let r = t.extract_features();
    assert_eq!(r.s_pkt_cnt, 0);
    assert_eq!(r.dur, None);
}

#[test]
fn replaying_the_same_packets_yields_an_identical_record() {
    let time = ns_time();
    let packets = [
        handshake_packet(true, 0, 60, 64, true, false),
        handshake_packet(false, 10, 60, 60, true, true),
        handshake_packet(true, 15, 52, 64, false, true),
        handshake_packet(false, 22, 900, 58, false, true),
    ];
    let mut a = TrackedFeatures::new(five_tuple(), 2048);
    let mut b = TrackedFeatures::new(five_tuple(), 2048);
    for p in &packets {
        a.update(p, &time);
    }
    for p in &packets {
        b.update(p, &time);
    }
    assert_eq!(a.extract_features(), b.extract_features());
}

#[test]
fn session_identity_is_copied_into_the_record() {
    let time = ns_time();
    let mut t = TrackedFeatures::new(five_tuple(), 2048);
    t.update(&handshake_packet(true, 0, 60, 64, true, false), &time);
    t.on_match(Session { kind: SessionKind::Tls, server_name: "svc.example".to_string() });
    t.on_match(Session { kind: SessionKind::Other, server_name: "other".to_string() });
    let r = t.extract_features();
    assert_eq!(r.sni, "svc.example");
}

#[test]
fn summary_engine_keeps_the_first_session_identity() {
    let mut t = TrackedFeatures::new(five_tuple(), 2048);
    t.on_match(Session { kind: SessionKind::Tls, server_name: "first.example".to_string() });
    t.on_match(Session { kind: SessionKind::Tls, server_name: "second.example".to_string() });
    assert_eq!(t.sni, "first.example");
    // a first non-TLS session consumes the one match without an identity
    let mut u = TrackedFeatures::new(five_tuple(), 2048);
    u.on_match(Session { kind: SessionKind::Other, server_name: "ignored".to_string() });
    u.on_match(Session { kind: SessionKind::Tls, server_name: "late.example".to_string() });
    assert_eq!(u.sni, "");
}

#[test]
fn summary_engine_early_terminates_at_the_ceiling() {
    let time = ns_time();
    let mut t = TrackedFeatures::new(five_tuple(), 3);
    t.update(&handshake_packet(true, 0, 60, 64, true, false), &time);
    t.update(&handshake_packet(false, 5, 60, 60, true, true), &time);
    assert!(!t.early_terminate());
    t.update(&handshake_packet(true, 9, 52, 64, false, true), &time);
    assert!(t.early_terminate());
}

#[test]
fn summary_engine_delivers_at_most_once() {
    let time = ns_time();
    let mut t = TrackedFeatures::new(five_tuple(), 2048);
    t.update(&handshake_packet(true, 0, 60, 64, true, false), &time);
    let mut sink = SubscriptionSink::new();
    t.on_terminate(&mut sink);
    t.on_terminate(&mut sink);
    assert_eq!(sink.count(), 1);
}

#[test]
fn summary_engine_delivers_through_the_sink() {
    let time = ns_time();
    let mut t = TrackedFeatures::new(five_tuple(), 2048);
    t.pre_match(&handshake_packet(true, 0, 60, 64, true, false), None, &time);
    t.post_match(&handshake_packet(false, 4, 60, 60, true, true), &time);
    let mut sink = SubscriptionSink::new();
    t.on_terminate(&mut sink);
    assert_eq!(sink.count(), 1);
    let records = sink.take_delivered();
    assert_eq!(records[0].syn_ack, Some(4));
    assert_eq!(sink.count(), 0);
    assert!(!t.early_terminate());
}

#[test]
fn time_source_converts_cycles_exactly() {
    assert!(TimeSource::new(0).is_none());
    let t = TimeSource::new(2_000_000_000).unwrap(); // two cycles per nanosecond
    assert_eq!(t.to_nanos(4), 2);
    assert_eq!(t.to_nanos(5), 2); // truncating division
    assert_eq!(t.elapsed_since(10, 4), 3);
    // a counter that appears to run backwards degrades to a zero offset
    assert_eq!(t.elapsed_since(4, 10), 0);
}

#[test]
fn nanosecond_conversion_saturates_instead_of_overflowing() {
    let slow = TimeSource::new(1).unwrap(); // one cycle per second
    assert_eq!(slow.to_nanos(u64::MAX), u64::MAX);
    assert_eq!(slow.to_nanos(3), 3_000_000_000);
}
