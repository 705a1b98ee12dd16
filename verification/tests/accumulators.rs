use flowtrack::catalog::{Aggregator, FeatureCatalog, FeaturePair, FeatureClass, FeatureValue};
use flowtrack::conn_features::TrackedConnFeatures;
use flowtrack::connection_features::FlowFeatures;
use flowtrack::packet::{EthView, Ipv4View, MacAddr, PacketView, TcpView};
use flowtrack::packet_features::{PacketFeature, TrackedPacketFeatures};
use flowtrack::stats::Ratio;
use flowtrack::subscription::SubscriptionSink;
use flowtrack::timing::TimeSource;
use flowtrack::types::{FiveTuple, Session, SessionKind};

fn mac(b: u8) -> MacAddr {
    MacAddr(b, b, b, b, b, b)
}

fn ipv4(total_length: u16, ttl: u8) -> Ipv4View {
    Ipv4View {
        ihl: 5,
        dscp: 0,
        ecn: 0,
        total_length,
        identification: 42,
        rf: false,
        df: true,
        mf: false,
        fragment_offset: 0,
        time_to_live: ttl,
        protocol: 6,
        header_checksum: 0xBEEF,
        }
}

fn tcp(window: u16, syn: bool, ack: bool) -> TcpView {
    TcpView {
        src_port: 443,
        dst_port: 50000,
        seq_no: 1000,
        ack_no: 2000,
        data_offset: 5,
        reserved: 0,
        cwr: false,
        ece: false,
        urg: false,
        ack,
        psh: false,
        rst: false,
        syn,
        fin: false,
        window,
        checksum: 0xCAFE,
        urgent_ptr: 0,
    }
}

fn tcp_packet(dir: bool, ts: u64, total_length: u16, window: u16) -> PacketView {
    PacketView {
        dir,
        timestamp_cycles: ts,
        eth: Some(EthView { src: mac(1), dst: mac(2) }),
        ipv4: Some(ipv4(total_length, 64)),
        tcp: Some(tcp(window, false, true)),
    }
}

fn eth_only_packet(dir: bool, ts: u64) -> PacketView {
    PacketView {
        dir,
        timestamp_cycles: ts,
        eth: Some(EthView { src: mac(1), dst: mac(2) }),
        ipv4: None,
        tcp: None,
    }
}

fn five_tuple() -> FiveTuple {
    FiveTuple { orig_addr: 0x0A000001, orig_port: 50000, resp_addr: 0x0A000002, resp_port: 443, protocol: 6 }
}

fn ns_time() -> TimeSource {
    // one cycle per nanosecond: offsets equal raw timestamps
    TimeSource::new(1_000_000_000).unwrap()
}

#[test]
fn accumulator_appends_one_sample_per_carried_layer() {
    let time = ns_time();
    let mut f = FlowFeatures::new(0);
    f.insert_segment(&tcp_packet(true, 5, 100, 32), &time);
    f.insert_segment(&eth_only_packet(true, 9), &time);
    assert_eq!(f.packet_cnt, 1);
    assert_eq!(f.byte_cnt, 100);
    // the unparseable packet contributed an arrival offset but no ip/tcp samples
    assert_eq!(f.pkt_data.packet_iat, vec![5, 9]);
    assert_eq!(f.pkt_data.ip_total_length, vec![100]);
    assert_eq!(f.pkt_data.tcp_window_size, vec![32]);
    assert_eq!(f.pkt_data.ip_ttl, vec![64]);
    assert_eq!(f.pkt_data.tcp_flags_ack, vec![1]);
    assert_eq!(f.pkt_data.tcp_flags_syn, vec![0]);
}

#[test]
fn get_features_follows_catalog_order_and_length() {
    let time = ns_time();
    let mut f = FlowFeatures::new(0);
    f.insert_segment(&tcp_packet(true, 0, 100, 10), &time);
    f.insert_segment(&tcp_packet(true, 10, 200, 20), &time);
    let cat = FeatureCatalog::new(vec![
        FeaturePair { class: FeatureClass::IpTotalLength, agg: Aggregator::Sum },
        FeaturePair { class: FeatureClass::IpTotalLength, agg: Aggregator::Mean },
        FeaturePair { class: FeatureClass::TcpWindowSize, agg: Aggregator::Max },
        FeaturePair { class: FeatureClass::PacketIat, agg: Aggregator::Med },
    ]);
    let out = f.get_features(&cat, None);
    assert_eq!(out.len(), 4);
    assert_eq!(out[0], FeatureValue::Exact(Ratio { num: 300, den: 1 }));
    assert_eq!(out[1], FeatureValue::Exact(Ratio { num: 300, den: 2 }));
    assert_eq!(out[2], FeatureValue::Exact(Ratio { num: 20, den: 1 }));
    assert_eq!(out[3], FeatureValue::Exact(Ratio { num: 10, den: 2 }));
}

#[test]
fn empty_accumulator_finalizes_to_sentinels() {
    let f = FlowFeatures::new(0);
    let cat = FeatureCatalog::full();
    let out = f.get_features(&cat, None);
    assert_eq!(out.len(), 360);
    for v in out {
        assert_eq!(v, FeatureValue::Exact(Ratio { num: 0, den: 1 }));
    }
}

#[test]
fn replaying_the_same_packets_yields_identical_features() {
    let time = ns_time();
    let packets: Vec<PacketView> = vec![
        tcp_packet(true, 0, 120, 11),
        tcp_packet(true, 7, 80, 13),
        eth_only_packet(true, 9),
        tcp_packet(true, 21, 500, 17),
    ];
    let mut first = FlowFeatures::new(0);
    first.observe_sequence(&packets, &time);
    let mut second = FlowFeatures::new(0);
    second.observe_sequence(&packets, &time);
    let cat = FeatureCatalog::full();
    assert_eq!(first.get_features(&cat, None), second.get_features(&cat, None));
    assert_eq!(first.packet_cnt, second.packet_cnt);
    assert_eq!(first.byte_cnt, second.byte_cnt);
    assert_eq!(first.pkt_data, second.pkt_data);
}

#[test]
fn compact_flow_extracts_count_and_means() {
    let time = ns_time();
    let mut t = TrackedConnFeatures::new(five_tuple(), 0);
    t.update(&tcp_packet(true, 0, 100, 10), &time);
    t.update(&tcp_packet(true, 10, 200, 20), &time);
    let features = t.extract_features();
    assert_eq!(features.len(), 8);
    // originator: count, mean size, mean window, mean inter-arrival time
    assert_eq!(features[0], Ratio { num: 2, den: 1 });
    assert_eq!(features[1], Ratio { num: 300, den: 2 });
    assert_eq!(features[2], Ratio { num: 30, den: 2 });
    assert_eq!(features[3], Ratio { num: 10, den: 1 });
    // responder saw nothing: four zero sentinels
    for i in 4..8 {
        assert_eq!(features[i], Ratio { num: 0, den: 1 });
    }
}

#[test]
fn compact_flow_ignores_packets_without_tcp() {
    let time = ns_time();
    let mut t = TrackedConnFeatures::new(five_tuple(), 0);
    t.update(&eth_only_packet(true, 3), &time);
    assert_eq!(t.ctos.packet_cnt, 0);
    assert_eq!(t.ctos.delta_ns.len(), 0);
    assert!(!t.early_terminate());
}

#[test]
fn compact_flow_early_terminates_at_four_packets() {
    let time = ns_time();
    let mut t = TrackedConnFeatures::new(five_tuple(), 0);
    for i in 0..3 {
        t.update(&tcp_packet(i % 2 == 0, i as u64, 100, 10), &time);
    }
    assert!(!t.early_terminate());
    t.update(&tcp_packet(false, 3, 100, 10), &time);
    assert!(t.early_terminate());
}

#[test]
fn compact_flow_delivers_one_record() {
    let time = ns_time();
    let mut t = TrackedConnFeatures::new(five_tuple(), 0);
    t.update(&tcp_packet(true, 0, 100, 10), &time);
    let mut sink = SubscriptionSink::new();
    t.on_terminate(&mut sink);
    assert_eq!(sink.count(), 1);
    let records = sink.take_delivered();
    assert_eq!(records[0].sni, "");
    assert_eq!(records[0].features.len(), 8);
    assert_eq!(records[0].features[0], Ratio { num: 1, den: 1 });
}

#[test]
fn packet_entry_is_built_from_ipv4_and_offset() {
    let time = ns_time();
    let p = tcp_packet(false, 25, 1400, 10);
    let entry = PacketFeature::from(&p, 5, &time).unwrap();
    assert_eq!(entry, PacketFeature { dir: 0, offset: 20, sz: 1400 });
    assert_eq!(PacketFeature::from(&eth_only_packet(true, 25), 5, &time), None);
}

#[test]
fn packet_tracker_collects_entries_in_order() {
    let time = ns_time();
    let mut t = TrackedPacketFeatures::new(five_tuple(), 0, 2048);
    t.update(&tcp_packet(true, 10, 100, 1), &time);
    t.update(&eth_only_packet(true, 11), &time);
    t.update(&tcp_packet(false, 30, 200, 1), &time);
    assert_eq!(t.packets.len(), 2);
    assert_eq!(t.packets[0], PacketFeature { dir: 1, offset: 10, sz: 100 });
    assert_eq!(t.packets[1], PacketFeature { dir: 0, offset: 30, sz: 200 });
    let mut sink = SubscriptionSink::new();
    t.on_terminate(&mut sink);
    // a repeated termination signal delivers nothing further
    t.on_terminate(&mut sink);
    let records = sink.take_delivered();
    assert_eq!(records.len(), 1);
    assert_eq!(records[0].five_tuple, five_tuple());
    assert_eq!(records[0].packets, t.packets);
    assert!(!t.early_terminate());
}

#[test]
fn packet_tracker_early_terminates_at_the_ceiling() {
    let time = ns_time();
    let mut t = TrackedPacketFeatures::new(five_tuple(), 0, 2);
    t.update(&tcp_packet(true, 1, 100, 1), &time);
    assert!(!t.early_terminate());
    t.update(&tcp_packet(false, 2, 100, 1), &time);
    assert!(t.early_terminate());
}

#[test]
fn compact_flow_keeps_the_first_session_identity() {
    let mut t = TrackedConnFeatures::new(five_tuple(), 0);
    t.on_match(Session { kind: SessionKind::Tls, server_name: "first.example".to_string() });
    t.on_match(Session { kind: SessionKind::Tls, server_name: "second.example".to_string() });
    assert_eq!(t.sni, "first.example");
}

#[test]
fn compact_flow_delivers_at_most_once() {
    let time = ns_time();
    let mut t = TrackedConnFeatures::new(five_tuple(), 0);
    t.update(&tcp_packet(true, 0, 100, 10), &time);
    let mut sink = SubscriptionSink::new();
    t.on_terminate(&mut sink);
    t.on_terminate(&mut sink);
    assert_eq!(sink.count(), 1);
}

#[test]
fn sample_bound_beyond_recorded_length_takes_everything() {
    let time = ns_time();
    let mut f = FlowFeatures::new(0);
    f.insert_segment(&tcp_packet(true, 0, 100, 10), &time);
    f.insert_segment(&tcp_packet(true, 10, 200, 20), &time);
    let cat = FeatureCatalog::new(vec![
        FeaturePair { class: FeatureClass::IpTotalLength, agg: Aggregator::Sum },
    ]);
    let capped = f.get_features(&cat, Some(1));
    let generous = f.get_features(&cat, Some(10));
    let all = f.get_features(&cat, None);
    assert_eq!(capped[0], FeatureValue::Exact(Ratio { num: 100, den: 1 }));
    assert_eq!(generous, all);
    assert_eq!(all[0], FeatureValue::Exact(Ratio { num: 300, den: 1 }));
}
