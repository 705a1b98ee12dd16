//! Connection-level flow accumulation against the feature catalog.
//!
//! One `FlowFeatures` accumulator exists per direction of a flow. Each
//! packet appends one sample to the sequence of every feature class whose
//! protocol layer the packet carried; no stored value is ever overwritten.
//! Finalization reduces the per-class sequences through the configured
//! catalog into one flat, ordered feature vector.

use vstd::prelude::*;
use crate::catalog::{spec_aggregate, aggregate, FeatureCatalog, FeatureClass, FeatureValue};
use crate::packet::PacketView;
use crate::stats::take_prefix;
use crate::stats::sat_add32;
use crate::timing::{delta_ns32, TimeSource};
use crate::types::{FiveTuple, Session, SessionKind};

verus! {

/// The sample one packet contributes to one feature class, or nothing when
/// the packet lacks the protocol layer the class is derived from.
pub open spec fn class_sample(p: PacketView, delta_ns: u32, c: FeatureClass) -> Option<u32> {
    match c {
        FeatureClass::PacketIat => if p.eth is Some {
            Some(delta_ns)
        } else {
            None
        },
        FeatureClass::IpIhl => match p.ipv4 {
            Some(ip) => Some(ip.ihl as u32),
            None => None,
        },
        FeatureClass::IpDscp => match p.ipv4 {
            Some(ip) => Some(ip.dscp as u32),
            None => None,
        },
        FeatureClass::IpEcn => match p.ipv4 {
            Some(ip) => Some(ip.ecn as u32),
            None => None,
        },
        FeatureClass::IpTotalLength => match p.ipv4 {
            Some(ip) => Some(ip.total_length as u32),
            None => None,
        },
        FeatureClass::IpId => match p.ipv4 {
            Some(ip) => Some(ip.identification as u32),
            None => None,
        },
        FeatureClass::IpFlagsRf => match p.ipv4 {
            Some(ip) => Some(if ip.rf { 1u32 } else { 0u32 }),
            None => None,
        },
        FeatureClass::IpFlagsDf => match p.ipv4 {
            Some(ip) => Some(if ip.df { 1u32 } else { 0u32 }),
            None => None,
        },
        FeatureClass::IpFlagsMf => match p.ipv4 {
            Some(ip) => Some(if ip.mf { 1u32 } else { 0u32 }),
            None => None,
        },
        FeatureClass::IpFragmentOffset => match p.ipv4 {
            Some(ip) => Some(ip.fragment_offset as u32),
            None => None,
        },
        FeatureClass::IpTtl => match p.ipv4 {
            Some(ip) => Some(ip.time_to_live as u32),
            None => None,
        },
        FeatureClass::IpProtocol => match p.ipv4 {
            Some(ip) => Some(ip.protocol as u32),
            None => None,
        },
        FeatureClass::IpHeaderChecksum => match p.ipv4 {
            Some(ip) => Some(ip.header_checksum as u32),
            None => None,
        },
        FeatureClass::TcpSrcPort => match p.tcp {
            Some(t) => Some(t.src_port as u32),
            None => None,
        },
        FeatureClass::TcpDstPort => match p.tcp {
            Some(t) => Some(t.dst_port as u32),
            None => None,
        },
        FeatureClass::TcpSeqNum => match p.tcp {
            Some(t) => Some(t.seq_no),
            None => None,
        },
        FeatureClass::TcpAckNum => match p.tcp {
            Some(t) => Some(t.ack_no),
            None => None,
        },
        FeatureClass::TcpDataOffset => match p.tcp {
            Some(t) => Some(t.data_offset as u32),
            None => None,
        },
        FeatureClass::TcpReserved => match p.tcp {
            Some(t) => Some(t.reserved as u32),
            None => None,
        },
        FeatureClass::TcpFlagsCwr => match p.tcp {
            Some(t) => Some(if t.cwr { 1u32 } else { 0u32 }),
            None => None,
        },
        FeatureClass::TcpFlagsEce => match p.tcp {
            Some(t) => Some(if t.ece { 1u32 } else { 0u32 }),
            None => None,
        },
        FeatureClass::TcpFlagsUrg => match p.tcp {
            Some(t) => Some(if t.urg { 1u32 } else { 0u32 }),
            None => None,
        },
        FeatureClass::TcpFlagsAck => match p.tcp {
            Some(t) => Some(if t.ack { 1u32 } else { 0u32 }),
            None => None,
        },
        FeatureClass::TcpFlagsPsh => match p.tcp {
            Some(t) => Some(if t.psh { 1u32 } else { 0u32 }),
            None => None,
        },
        FeatureClass::TcpFlagsRst => match p.tcp {
            Some(t) => Some(if t.rst { 1u32 } else { 0u32 }),
            None => None,
        },
        FeatureClass::TcpFlagsSyn => match p.tcp {
            Some(t) => Some(if t.syn { 1u32 } else { 0u32 }),
            None => None,
        },
        FeatureClass::TcpFlagsFin => match p.tcp {
            Some(t) => Some(if t.fin { 1u32 } else { 0u32 }),
            None => None,
        },
        FeatureClass::TcpWindowSize => match p.tcp {
            Some(t) => Some(t.window as u32),
            None => None,
        },
        FeatureClass::TcpChecksum => match p.tcp {
            Some(t) => Some(t.checksum as u32),
            None => None,
        },
        FeatureClass::TcpUrgentPtr => match p.tcp {
            Some(t) => Some(t.urgent_ptr as u32),
            None => None,
        },
    }
}

/// What one class's sample sequence becomes when a packet is observed.
pub open spec fn spec_updated(
    pre: PacketSamples,
    p: PacketView,
    delta_ns: u32,
    c: FeatureClass,
) -> Seq<u32> {
    match class_sample(p, delta_ns, c) {
        Some(v) => pre.class_samples(c).push(v),
        None => pre.class_samples(c),
    }
}

/// The per-class raw sample sequences of one flow direction, ordered and
/// append-only.
#[derive(Debug, PartialEq)]
pub struct PacketSamples {
    pub packet_iat: Vec<u32>,
    pub ip_ihl: Vec<u32>,
    pub ip_dscp: Vec<u32>,
    pub ip_ecn: Vec<u32>,
    pub ip_total_length: Vec<u32>,
    pub ip_id: Vec<u32>,
    pub ip_flags_rf: Vec<u32>,
    pub ip_flags_df: Vec<u32>,
    pub ip_flags_mf: Vec<u32>,
    pub ip_fragment_offset: Vec<u32>,
    pub ip_ttl: Vec<u32>,
    pub ip_protocol: Vec<u32>,
    pub ip_header_checksum: Vec<u32>,
    pub tcp_src_port: Vec<u32>,
    pub tcp_dst_port: Vec<u32>,
    pub tcp_seq_num: Vec<u32>,
    pub tcp_ack_num: Vec<u32>,
    pub tcp_data_offset: Vec<u32>,
    pub tcp_reserved: Vec<u32>,
    pub tcp_flags_cwr: Vec<u32>,
    pub tcp_flags_ece: Vec<u32>,
    pub tcp_flags_urg: Vec<u32>,
    pub tcp_flags_ack: Vec<u32>,
    pub tcp_flags_psh: Vec<u32>,
    pub tcp_flags_rst: Vec<u32>,
    pub tcp_flags_syn: Vec<u32>,
    pub tcp_flags_fin: Vec<u32>,
    pub tcp_window_size: Vec<u32>,
    pub tcp_checksum: Vec<u32>,
    pub tcp_urgent_ptr: Vec<u32>,
}

impl PacketSamples {
    /// The sample sequence recorded for one feature class.
    pub open spec fn class_samples(self, c: FeatureClass) -> Seq<u32> {
        match c {
            FeatureClass::PacketIat => self.packet_iat@,
            FeatureClass::IpIhl => self.ip_ihl@,
            FeatureClass::IpDscp => self.ip_dscp@,
            FeatureClass::IpEcn => self.ip_ecn@,
            FeatureClass::IpTotalLength => self.ip_total_length@,
            FeatureClass::IpId => self.ip_id@,
            FeatureClass::IpFlagsRf => self.ip_flags_rf@,
            FeatureClass::IpFlagsDf => self.ip_flags_df@,
            FeatureClass::IpFlagsMf => self.ip_flags_mf@,
            FeatureClass::IpFragmentOffset => self.ip_fragment_offset@,
            FeatureClass::IpTtl => self.ip_ttl@,
            FeatureClass::IpProtocol => self.ip_protocol@,
            FeatureClass::IpHeaderChecksum => self.ip_header_checksum@,
            FeatureClass::TcpSrcPort => self.tcp_src_port@,
            FeatureClass::TcpDstPort => self.tcp_dst_port@,
            FeatureClass::TcpSeqNum => self.tcp_seq_num@,
            FeatureClass::TcpAckNum => self.tcp_ack_num@,
            FeatureClass::TcpDataOffset => self.tcp_data_offset@,
            FeatureClass::TcpReserved => self.tcp_reserved@,
            FeatureClass::TcpFlagsCwr => self.tcp_flags_cwr@,
            FeatureClass::TcpFlagsEce => self.tcp_flags_ece@,
            FeatureClass::TcpFlagsUrg => self.tcp_flags_urg@,
            FeatureClass::TcpFlagsAck => self.tcp_flags_ack@,
            FeatureClass::TcpFlagsPsh => self.tcp_flags_psh@,
            FeatureClass::TcpFlagsRst => self.tcp_flags_rst@,
            FeatureClass::TcpFlagsSyn => self.tcp_flags_syn@,
            FeatureClass::TcpFlagsFin => self.tcp_flags_fin@,
            FeatureClass::TcpWindowSize => self.tcp_window_size@,
            FeatureClass::TcpChecksum => self.tcp_checksum@,
            FeatureClass::TcpUrgentPtr => self.tcp_urgent_ptr@,
        }
    }

    pub fn new() -> (r: PacketSamples)
        ensures
            forall|c: FeatureClass| #[trigger] r.class_samples(c) == Seq::<u32>::empty(),
    {
        let r = PacketSamples {
            packet_iat: Vec::new(),
            ip_ihl: Vec::new(),
            ip_dscp: Vec::new(),
            ip_ecn: Vec::new(),
            ip_total_length: Vec::new(),
            ip_id: Vec::new(),
            ip_flags_rf: Vec::new(),
            ip_flags_df: Vec::new(),
            ip_flags_mf: Vec::new(),
            ip_fragment_offset: Vec::new(),
            ip_ttl: Vec::new(),
            ip_protocol: Vec::new(),
            ip_header_checksum: Vec::new(),
            tcp_src_port: Vec::new(),
            tcp_dst_port: Vec::new(),
            tcp_seq_num: Vec::new(),
            tcp_ack_num: Vec::new(),
            tcp_data_offset: Vec::new(),
            tcp_reserved: Vec::new(),
            tcp_flags_cwr: Vec::new(),
            tcp_flags_ece: Vec::new(),
            tcp_flags_urg: Vec::new(),
            tcp_flags_ack: Vec::new(),
            tcp_flags_psh: Vec::new(),
            tcp_flags_rst: Vec::new(),
            tcp_flags_syn: Vec::new(),
            tcp_flags_fin: Vec::new(),
            tcp_window_size: Vec::new(),
            tcp_checksum: Vec::new(),
            tcp_urgent_ptr: Vec::new(),
        };
        proof {
            assert(r.class_samples(FeatureClass::PacketIat) =~= Seq::<u32>::empty());
            assert(r.class_samples(FeatureClass::IpIhl) =~= Seq::<u32>::empty());
            assert(r.class_samples(FeatureClass::IpDscp) =~= Seq::<u32>::empty());
            assert(r.class_samples(FeatureClass::IpEcn) =~= Seq::<u32>::empty());
            assert(r.class_samples(FeatureClass::IpTotalLength) =~= Seq::<u32>::empty());
            assert(r.class_samples(FeatureClass::IpId) =~= Seq::<u32>::empty());
            assert(r.class_samples(FeatureClass::IpFlagsRf) =~= Seq::<u32>::empty());
            assert(r.class_samples(FeatureClass::IpFlagsDf) =~= Seq::<u32>::empty());
            assert(r.class_samples(FeatureClass::IpFlagsMf) =~= Seq::<u32>::empty());
            assert(r.class_samples(FeatureClass::IpFragmentOffset) =~= Seq::<u32>::empty());
            assert(r.class_samples(FeatureClass::IpTtl) =~= Seq::<u32>::empty());
            assert(r.class_samples(FeatureClass::IpProtocol) =~= Seq::<u32>::empty());
            assert(r.class_samples(FeatureClass::IpHeaderChecksum) =~= Seq::<u32>::empty());
            assert(r.class_samples(FeatureClass::TcpSrcPort) =~= Seq::<u32>::empty());
            assert(r.class_samples(FeatureClass::TcpDstPort) =~= Seq::<u32>::empty());
            assert(r.class_samples(FeatureClass::TcpSeqNum) =~= Seq::<u32>::empty());
            assert(r.class_samples(FeatureClass::TcpAckNum) =~= Seq::<u32>::empty());
            assert(r.class_samples(FeatureClass::TcpDataOffset) =~= Seq::<u32>::empty());
            assert(r.class_samples(FeatureClass::TcpReserved) =~= Seq::<u32>::empty());
            assert(r.class_samples(FeatureClass::TcpFlagsCwr) =~= Seq::<u32>::empty());
            assert(r.class_samples(FeatureClass::TcpFlagsEce) =~= Seq::<u32>::empty());
            assert(r.class_samples(FeatureClass::TcpFlagsUrg) =~= Seq::<u32>::empty());
            assert(r.class_samples(FeatureClass::TcpFlagsAck) =~= Seq::<u32>::empty());
            assert(r.class_samples(FeatureClass::TcpFlagsPsh) =~= Seq::<u32>::empty());
            assert(r.class_samples(FeatureClass::TcpFlagsRst) =~= Seq::<u32>::empty());
            assert(r.class_samples(FeatureClass::TcpFlagsSyn) =~= Seq::<u32>::empty());
            assert(r.class_samples(FeatureClass::TcpFlagsFin) =~= Seq::<u32>::empty());
            assert(r.class_samples(FeatureClass::TcpWindowSize) =~= Seq::<u32>::empty());
            assert(r.class_samples(FeatureClass::TcpChecksum) =~= Seq::<u32>::empty());
            assert(r.class_samples(FeatureClass::TcpUrgentPtr) =~= Seq::<u32>::empty());
        }
        r
    }

    /// The recorded samples of one class.
    pub fn get(&self, c: FeatureClass) -> (r: &Vec<u32>)
        ensures
            r@ == self.class_samples(c),
    {
        match c {
            FeatureClass::PacketIat => &self.packet_iat,
            FeatureClass::IpIhl => &self.ip_ihl,
            FeatureClass::IpDscp => &self.ip_dscp,
            FeatureClass::IpEcn => &self.ip_ecn,
            FeatureClass::IpTotalLength => &self.ip_total_length,
            FeatureClass::IpId => &self.ip_id,
            FeatureClass::IpFlagsRf => &self.ip_flags_rf,
            FeatureClass::IpFlagsDf => &self.ip_flags_df,
            FeatureClass::IpFlagsMf => &self.ip_flags_mf,
            FeatureClass::IpFragmentOffset => &self.ip_fragment_offset,
            FeatureClass::IpTtl => &self.ip_ttl,
            FeatureClass::IpProtocol => &self.ip_protocol,
            FeatureClass::IpHeaderChecksum => &self.ip_header_checksum,
            FeatureClass::TcpSrcPort => &self.tcp_src_port,
            FeatureClass::TcpDstPort => &self.tcp_dst_port,
            FeatureClass::TcpSeqNum => &self.tcp_seq_num,
            FeatureClass::TcpAckNum => &self.tcp_ack_num,
            FeatureClass::TcpDataOffset => &self.tcp_data_offset,
            FeatureClass::TcpReserved => &self.tcp_reserved,
            FeatureClass::TcpFlagsCwr => &self.tcp_flags_cwr,
            FeatureClass::TcpFlagsEce => &self.tcp_flags_ece,
            FeatureClass::TcpFlagsUrg => &self.tcp_flags_urg,
            FeatureClass::TcpFlagsAck => &self.tcp_flags_ack,
            FeatureClass::TcpFlagsPsh => &self.tcp_flags_psh,
            FeatureClass::TcpFlagsRst => &self.tcp_flags_rst,
            FeatureClass::TcpFlagsSyn => &self.tcp_flags_syn,
            FeatureClass::TcpFlagsFin => &self.tcp_flags_fin,
            FeatureClass::TcpWindowSize => &self.tcp_window_size,
            FeatureClass::TcpChecksum => &self.tcp_checksum,
            FeatureClass::TcpUrgentPtr => &self.tcp_urgent_ptr,
        }
    }

    /// Appends this packet's sample to every class whose protocol layer the
    /// packet carries; classes of absent layers are left untouched.
    #[verifier::rlimit(100)]
    pub fn push_samples(&mut self, p: &PacketView, delta_ns: u32)
        requires
            p.wf(),
        ensures
            forall|c: FeatureClass| #[trigger] final(self).class_samples(c) == spec_updated(
                *old(self),
                *p,
                delta_ns,
                c,
            ),
    {
        let iat = delta_ns;
        if p.eth.is_some() {
            self.packet_iat.push(iat);
        }
        if let Some(ip) = p.ipv4 {
            self.ip_ihl.push(ip.ihl as u32);
            self.ip_dscp.push(ip.dscp as u32);
            self.ip_ecn.push(ip.ecn as u32);
            self.ip_total_length.push(ip.total_length as u32);
            self.ip_id.push(ip.identification as u32);
            self.ip_flags_rf.push(if ip.rf { 1u32 } else { 0u32 });
            self.ip_flags_df.push(if ip.df { 1u32 } else { 0u32 });
            self.ip_flags_mf.push(if ip.mf { 1u32 } else { 0u32 });
            self.ip_fragment_offset.push(ip.fragment_offset as u32);
            self.ip_ttl.push(ip.time_to_live as u32);
            self.ip_protocol.push(ip.protocol as u32);
            self.ip_header_checksum.push(ip.header_checksum as u32);
        }
        if let Some(t) = p.tcp {
            self.tcp_src_port.push(t.src_port as u32);
            self.tcp_dst_port.push(t.dst_port as u32);
            self.tcp_seq_num.push(t.seq_no);
            self.tcp_ack_num.push(t.ack_no);
            self.tcp_data_offset.push(t.data_offset as u32);
            self.tcp_reserved.push(t.reserved as u32);
            self.tcp_flags_cwr.push(if t.cwr { 1u32 } else { 0u32 });
            self.tcp_flags_ece.push(if t.ece { 1u32 } else { 0u32 });
            self.tcp_flags_urg.push(if t.urg { 1u32 } else { 0u32 });
            self.tcp_flags_ack.push(if t.ack { 1u32 } else { 0u32 });
            self.tcp_flags_psh.push(if t.psh { 1u32 } else { 0u32 });
            self.tcp_flags_rst.push(if t.rst { 1u32 } else { 0u32 });
            self.tcp_flags_syn.push(if t.syn { 1u32 } else { 0u32 });
            self.tcp_flags_fin.push(if t.fin { 1u32 } else { 0u32 });
            self.tcp_window_size.push(t.window as u32);
            self.tcp_checksum.push(t.checksum as u32);
            self.tcp_urgent_ptr.push(t.urgent_ptr as u32);
        }
        proof {
            assert(final(self).class_samples(FeatureClass::PacketIat) == spec_updated(*old(self), *p, delta_ns, FeatureClass::PacketIat));
            assert(final(self).class_samples(FeatureClass::IpIhl) == spec_updated(*old(self), *p, delta_ns, FeatureClass::IpIhl));
            assert(final(self).class_samples(FeatureClass::IpDscp) == spec_updated(*old(self), *p, delta_ns, FeatureClass::IpDscp));
            assert(final(self).class_samples(FeatureClass::IpEcn) == spec_updated(*old(self), *p, delta_ns, FeatureClass::IpEcn));
            assert(final(self).class_samples(FeatureClass::IpTotalLength) == spec_updated(*old(self), *p, delta_ns, FeatureClass::IpTotalLength));
            assert(final(self).class_samples(FeatureClass::IpId) == spec_updated(*old(self), *p, delta_ns, FeatureClass::IpId));
            assert(final(self).class_samples(FeatureClass::IpFlagsRf) == spec_updated(*old(self), *p, delta_ns, FeatureClass::IpFlagsRf));
            assert(final(self).class_samples(FeatureClass::IpFlagsDf) == spec_updated(*old(self), *p, delta_ns, FeatureClass::IpFlagsDf));
            assert(final(self).class_samples(FeatureClass::IpFlagsMf) == spec_updated(*old(self), *p, delta_ns, FeatureClass::IpFlagsMf));
            assert(final(self).class_samples(FeatureClass::IpFragmentOffset) == spec_updated(*old(self), *p, delta_ns, FeatureClass::IpFragmentOffset));
            assert(final(self).class_samples(FeatureClass::IpTtl) == spec_updated(*old(self), *p, delta_ns, FeatureClass::IpTtl));
            assert(final(self).class_samples(FeatureClass::IpProtocol) == spec_updated(*old(self), *p, delta_ns, FeatureClass::IpProtocol));
            assert(final(self).class_samples(FeatureClass::IpHeaderChecksum) == spec_updated(*old(self), *p, delta_ns, FeatureClass::IpHeaderChecksum));
            assert(final(self).class_samples(FeatureClass::TcpSrcPort) == spec_updated(*old(self), *p, delta_ns, FeatureClass::TcpSrcPort));
            assert(final(self).class_samples(FeatureClass::TcpDstPort) == spec_updated(*old(self), *p, delta_ns, FeatureClass::TcpDstPort));
            assert(final(self).class_samples(FeatureClass::TcpSeqNum) == spec_updated(*old(self), *p, delta_ns, FeatureClass::TcpSeqNum));
            assert(final(self).class_samples(FeatureClass::TcpAckNum) == spec_updated(*old(self), *p, delta_ns, FeatureClass::TcpAckNum));
            assert(final(self).class_samples(FeatureClass::TcpDataOffset) == spec_updated(*old(self), *p, delta_ns, FeatureClass::TcpDataOffset));
            assert(final(self).class_samples(FeatureClass::TcpReserved) == spec_updated(*old(self), *p, delta_ns, FeatureClass::TcpReserved));
            assert(final(self).class_samples(FeatureClass::TcpFlagsCwr) == spec_updated(*old(self), *p, delta_ns, FeatureClass::TcpFlagsCwr));
            assert(final(self).class_samples(FeatureClass::TcpFlagsEce) == spec_updated(*old(self), *p, delta_ns, FeatureClass::TcpFlagsEce));
            assert(final(self).class_samples(FeatureClass::TcpFlagsUrg) == spec_updated(*old(self), *p, delta_ns, FeatureClass::TcpFlagsUrg));
            assert(final(self).class_samples(FeatureClass::TcpFlagsAck) == spec_updated(*old(self), *p, delta_ns, FeatureClass::TcpFlagsAck));
            assert(final(self).class_samples(FeatureClass::TcpFlagsPsh) == spec_updated(*old(self), *p, delta_ns, FeatureClass::TcpFlagsPsh));
            assert(final(self).class_samples(FeatureClass::TcpFlagsRst) == spec_updated(*old(self), *p, delta_ns, FeatureClass::TcpFlagsRst));
            assert(final(self).class_samples(FeatureClass::TcpFlagsSyn) == spec_updated(*old(self), *p, delta_ns, FeatureClass::TcpFlagsSyn));
            assert(final(self).class_samples(FeatureClass::TcpFlagsFin) == spec_updated(*old(self), *p, delta_ns, FeatureClass::TcpFlagsFin));
            assert(final(self).class_samples(FeatureClass::TcpWindowSize) == spec_updated(*old(self), *p, delta_ns, FeatureClass::TcpWindowSize));
            assert(final(self).class_samples(FeatureClass::TcpChecksum) == spec_updated(*old(self), *p, delta_ns, FeatureClass::TcpChecksum));
            assert(final(self).class_samples(FeatureClass::TcpUrgentPtr) == spec_updated(*old(self), *p, delta_ns, FeatureClass::TcpUrgentPtr));
        }
    }

    /// A copy holding the same samples.
    pub fn snapshot(&self) -> (r: PacketSamples)
        ensures
            forall|c: FeatureClass| #[trigger] r.class_samples(c) == self.class_samples(c),
    {
        let r = PacketSamples {
            packet_iat: copy_samples(&self.packet_iat),
            ip_ihl: copy_samples(&self.ip_ihl),
            ip_dscp: copy_samples(&self.ip_dscp),
            ip_ecn: copy_samples(&self.ip_ecn),
            ip_total_length: copy_samples(&self.ip_total_length),
            ip_id: copy_samples(&self.ip_id),
            ip_flags_rf: copy_samples(&self.ip_flags_rf),
            ip_flags_df: copy_samples(&self.ip_flags_df),
            ip_flags_mf: copy_samples(&self.ip_flags_mf),
            ip_fragment_offset: copy_samples(&self.ip_fragment_offset),
            ip_ttl: copy_samples(&self.ip_ttl),
            ip_protocol: copy_samples(&self.ip_protocol),
            ip_header_checksum: copy_samples(&self.ip_header_checksum),
            tcp_src_port: copy_samples(&self.tcp_src_port),
            tcp_dst_port: copy_samples(&self.tcp_dst_port),
            tcp_seq_num: copy_samples(&self.tcp_seq_num),
            tcp_ack_num: copy_samples(&self.tcp_ack_num),
            tcp_data_offset: copy_samples(&self.tcp_data_offset),
            tcp_reserved: copy_samples(&self.tcp_reserved),
            tcp_flags_cwr: copy_samples(&self.tcp_flags_cwr),
            tcp_flags_ece: copy_samples(&self.tcp_flags_ece),
            tcp_flags_urg: copy_samples(&self.tcp_flags_urg),
            tcp_flags_ack: copy_samples(&self.tcp_flags_ack),
            tcp_flags_psh: copy_samples(&self.tcp_flags_psh),
            tcp_flags_rst: copy_samples(&self.tcp_flags_rst),
            tcp_flags_syn: copy_samples(&self.tcp_flags_syn),
            tcp_flags_fin: copy_samples(&self.tcp_flags_fin),
            tcp_window_size: copy_samples(&self.tcp_window_size),
            tcp_checksum: copy_samples(&self.tcp_checksum),
            tcp_urgent_ptr: copy_samples(&self.tcp_urgent_ptr),
        };
        proof {
            assert(r.class_samples(FeatureClass::PacketIat) == self.class_samples(FeatureClass::PacketIat));
            assert(r.class_samples(FeatureClass::IpIhl) == self.class_samples(FeatureClass::IpIhl));
            assert(r.class_samples(FeatureClass::IpDscp) == self.class_samples(FeatureClass::IpDscp));
            assert(r.class_samples(FeatureClass::IpEcn) == self.class_samples(FeatureClass::IpEcn));
            assert(r.class_samples(FeatureClass::IpTotalLength) == self.class_samples(FeatureClass::IpTotalLength));
            assert(r.class_samples(FeatureClass::IpId) == self.class_samples(FeatureClass::IpId));
            assert(r.class_samples(FeatureClass::IpFlagsRf) == self.class_samples(FeatureClass::IpFlagsRf));
            assert(r.class_samples(FeatureClass::IpFlagsDf) == self.class_samples(FeatureClass::IpFlagsDf));
            assert(r.class_samples(FeatureClass::IpFlagsMf) == self.class_samples(FeatureClass::IpFlagsMf));
            assert(r.class_samples(FeatureClass::IpFragmentOffset) == self.class_samples(FeatureClass::IpFragmentOffset));
            assert(r.class_samples(FeatureClass::IpTtl) == self.class_samples(FeatureClass::IpTtl));
            assert(r.class_samples(FeatureClass::IpProtocol) == self.class_samples(FeatureClass::IpProtocol));
            assert(r.class_samples(FeatureClass::IpHeaderChecksum) == self.class_samples(FeatureClass::IpHeaderChecksum));
            assert(r.class_samples(FeatureClass::TcpSrcPort) == self.class_samples(FeatureClass::TcpSrcPort));
            assert(r.class_samples(FeatureClass::TcpDstPort) == self.class_samples(FeatureClass::TcpDstPort));
            assert(r.class_samples(FeatureClass::TcpSeqNum) == self.class_samples(FeatureClass::TcpSeqNum));
            assert(r.class_samples(FeatureClass::TcpAckNum) == self.class_samples(FeatureClass::TcpAckNum));
            assert(r.class_samples(FeatureClass::TcpDataOffset) == self.class_samples(FeatureClass::TcpDataOffset));
            assert(r.class_samples(FeatureClass::TcpReserved) == self.class_samples(FeatureClass::TcpReserved));
            assert(r.class_samples(FeatureClass::TcpFlagsCwr) == self.class_samples(FeatureClass::TcpFlagsCwr));
            assert(r.class_samples(FeatureClass::TcpFlagsEce) == self.class_samples(FeatureClass::TcpFlagsEce));
            assert(r.class_samples(FeatureClass::TcpFlagsUrg) == self.class_samples(FeatureClass::TcpFlagsUrg));
            assert(r.class_samples(FeatureClass::TcpFlagsAck) == self.class_samples(FeatureClass::TcpFlagsAck));
            assert(r.class_samples(FeatureClass::TcpFlagsPsh) == self.class_samples(FeatureClass::TcpFlagsPsh));
            assert(r.class_samples(FeatureClass::TcpFlagsRst) == self.class_samples(FeatureClass::TcpFlagsRst));
            assert(r.class_samples(FeatureClass::TcpFlagsSyn) == self.class_samples(FeatureClass::TcpFlagsSyn));
            assert(r.class_samples(FeatureClass::TcpFlagsFin) == self.class_samples(FeatureClass::TcpFlagsFin));
            assert(r.class_samples(FeatureClass::TcpWindowSize) == self.class_samples(FeatureClass::TcpWindowSize));
            assert(r.class_samples(FeatureClass::TcpChecksum) == self.class_samples(FeatureClass::TcpChecksum));
            assert(r.class_samples(FeatureClass::TcpUrgentPtr) == self.class_samples(FeatureClass::TcpUrgentPtr));
        }
        r
    }
}

/// Copies a sample vector.
fn copy_samples(v: &Vec<u32>) -> (r: Vec<u32>)
    ensures
        r@ == v@,
{
    let r = take_prefix(v, v.len());
    proof {
        assert(v@.take(v@.len() as int) =~= v@);
    }
    r
}


// ---------------------------------------------------------------------------
// The per-direction accumulator and the connection record.
// ---------------------------------------------------------------------------

/// A uni-directional flow: running counters plus the per-class raw sample
/// sequences. Mutated only by the one worker that owns the flow.
#[derive(Debug, PartialEq)]
pub struct FlowFeatures {
    /// Cycle-counter reading at flow creation.
    pub start_tsc: u64,
    /// Number of packets that carried an IPv4 header, saturating.
    pub packet_cnt: u32,
    /// Sum of IPv4 total lengths, saturating.
    pub byte_cnt: u32,
    /// The per-class sample sequences.
    pub pkt_data: PacketSamples,
}

/// Two accumulators agree on everything finalization can observe.
pub open spec fn obs_eq(a: FlowFeatures, b: FlowFeatures) -> bool {
    &&& a.start_tsc == b.start_tsc
    &&& a.packet_cnt == b.packet_cnt
    &&& a.byte_cnt == b.byte_cnt
    &&& forall|c: FeatureClass| #[trigger] a.pkt_data.class_samples(c)
        == b.pkt_data.class_samples(c)
}

/// How one observed packet transforms an accumulator: every class of a
/// carried layer gains exactly one sample derived from the header fields,
/// the counters saturate upward, and nothing else changes.
pub open spec fn spec_observed(
    pre: FlowFeatures,
    post: FlowFeatures,
    p: PacketView,
    hz: u64,
) -> bool {
    let delta = delta_ns32(pre.start_tsc, p.timestamp_cycles, hz);
    &&& post.start_tsc == pre.start_tsc
    &&& forall|c: FeatureClass| #[trigger] post.pkt_data.class_samples(c) == spec_updated(
        pre.pkt_data,
        p,
        delta,
        c,
    )
    &&& match p.ipv4 {
        Some(ip) => post.packet_cnt == sat_add32(pre.packet_cnt, 1) && post.byte_cnt == sat_add32(
            pre.byte_cnt,
            ip.total_length as u32,
        ),
        None => post.packet_cnt == pre.packet_cnt && post.byte_cnt == pre.byte_cnt,
    }
}

/// First `n_pkts` samples of a class sequence, or all of them when no bound
/// is given or the bound exceeds what was recorded.
pub open spec fn truncated(s: Seq<u32>, n_pkts: Option<usize>) -> Seq<u32> {
    match n_pkts {
        Option::None => s,
        Option::Some(n) => if (n as int) < s.len() {
            s.take(n as int)
        } else {
            s
        },
    }
}

impl FlowFeatures {
    pub fn new(start_tsc: u64) -> (r: FlowFeatures)
        ensures
            r.start_tsc == start_tsc,
            r.packet_cnt == 0,
            r.byte_cnt == 0,
            forall|c: FeatureClass| #[trigger] r.pkt_data.class_samples(c) == Seq::<u32>::empty(),
            aligned(r),
    {
        let r = FlowFeatures { start_tsc, packet_cnt: 0, byte_cnt: 0, pkt_data: PacketSamples::new() };
        proof {
            assert(r.pkt_data.class_samples(FeatureClass::PacketIat) == Seq::<u32>::empty());
            assert(r.pkt_data.class_samples(FeatureClass::IpIhl) == Seq::<u32>::empty());
            assert(r.pkt_data.class_samples(FeatureClass::IpDscp) == Seq::<u32>::empty());
            assert(r.pkt_data.class_samples(FeatureClass::IpEcn) == Seq::<u32>::empty());
            assert(r.pkt_data.class_samples(FeatureClass::IpTotalLength) == Seq::<u32>::empty());
            assert(r.pkt_data.class_samples(FeatureClass::IpId) == Seq::<u32>::empty());
            assert(r.pkt_data.class_samples(FeatureClass::IpFlagsRf) == Seq::<u32>::empty());
            assert(r.pkt_data.class_samples(FeatureClass::IpFlagsDf) == Seq::<u32>::empty());
            assert(r.pkt_data.class_samples(FeatureClass::IpFlagsMf) == Seq::<u32>::empty());
            assert(r.pkt_data.class_samples(FeatureClass::IpFragmentOffset) == Seq::<u32>::empty());
            assert(r.pkt_data.class_samples(FeatureClass::IpTtl) == Seq::<u32>::empty());
            assert(r.pkt_data.class_samples(FeatureClass::IpProtocol) == Seq::<u32>::empty());
            assert(r.pkt_data.class_samples(FeatureClass::IpHeaderChecksum) == Seq::<u32>::empty());
            assert(r.pkt_data.class_samples(FeatureClass::TcpSrcPort) == Seq::<u32>::empty());
            assert(r.pkt_data.class_samples(FeatureClass::TcpDstPort) == Seq::<u32>::empty());
            assert(r.pkt_data.class_samples(FeatureClass::TcpSeqNum) == Seq::<u32>::empty());
            assert(r.pkt_data.class_samples(FeatureClass::TcpAckNum) == Seq::<u32>::empty());
            assert(r.pkt_data.class_samples(FeatureClass::TcpDataOffset) == Seq::<u32>::empty());
            assert(r.pkt_data.class_samples(FeatureClass::TcpReserved) == Seq::<u32>::empty());
            assert(r.pkt_data.class_samples(FeatureClass::TcpFlagsCwr) == Seq::<u32>::empty());
            assert(r.pkt_data.class_samples(FeatureClass::TcpFlagsEce) == Seq::<u32>::empty());
            assert(r.pkt_data.class_samples(FeatureClass::TcpFlagsUrg) == Seq::<u32>::empty());
            assert(r.pkt_data.class_samples(FeatureClass::TcpFlagsAck) == Seq::<u32>::empty());
            assert(r.pkt_data.class_samples(FeatureClass::TcpFlagsPsh) == Seq::<u32>::empty());
            assert(r.pkt_data.class_samples(FeatureClass::TcpFlagsRst) == Seq::<u32>::empty());
            assert(r.pkt_data.class_samples(FeatureClass::TcpFlagsSyn) == Seq::<u32>::empty());
            assert(r.pkt_data.class_samples(FeatureClass::TcpFlagsFin) == Seq::<u32>::empty());
            assert(r.pkt_data.class_samples(FeatureClass::TcpWindowSize) == Seq::<u32>::empty());
            assert(r.pkt_data.class_samples(FeatureClass::TcpChecksum) == Seq::<u32>::empty());
            assert(r.pkt_data.class_samples(FeatureClass::TcpUrgentPtr) == Seq::<u32>::empty());
        }
        r
    }

    /// Observes one packet: an append-only update of the sample sequences
    /// and counters. A packet lacking a layer simply contributes no sample
    /// to that layer's classes; it never aborts the flow.
    pub fn insert_segment(&mut self, segment: &PacketView, time: &TimeSource)
        requires
            segment.wf(),
            time.wf(),
        ensures
            spec_observed(*old(self), *final(self), *segment, time.cycles_per_sec),
    {
        let delta64 = time.elapsed_since(segment.timestamp_cycles, self.start_tsc);
        let delta = if delta64 > u32::MAX as u64 {
            u32::MAX
        } else {
            delta64 as u32
        };
        self.pkt_data.push_samples(segment, delta);
        if let Some(ip) = segment.ipv4 {
            self.packet_cnt = if self.packet_cnt == u32::MAX {
                u32::MAX
            } else {
                self.packet_cnt + 1
            };
            let len = ip.total_length as u32;
            self.byte_cnt = if self.byte_cnt > u32::MAX - len {
                u32::MAX
            } else {
                self.byte_cnt + len
            };
        }
    }

    /// Reduces the per-class sample sequences through the configured catalog
    /// into one flat feature vector: one value per configured pair, in
    /// catalog order, each over at most the first `n_pkts` samples of its
    /// class.
    pub fn get_features(&self, catalog: &FeatureCatalog, n_pkts: Option<usize>) -> (r: Vec<
        FeatureValue,
    >)
        ensures
            r@.len() == catalog.pairs@.len(),
            forall|i: int| 0 <= i < r@.len() ==> r@[i] == spec_aggregate(
                catalog.pairs@[i].agg,
                truncated(self.pkt_data.class_samples(#[trigger] catalog.pairs@[i].class), n_pkts),
            ),
    {
        let mut r: Vec<FeatureValue> = Vec::new();
        let m = catalog.pairs.len();
        for i in 0..m
            invariant
                m == catalog.pairs@.len(),
                r@.len() == i,
                forall|k: int| 0 <= k < i ==> r@[k] == spec_aggregate(
                    catalog.pairs@[k].agg,
                    truncated(
                        self.pkt_data.class_samples(#[trigger] catalog.pairs@[k].class),
                        n_pkts,
                    ),
                ),
        {
            let pair = catalog.pairs[i];
            let raw = self.pkt_data.get(pair.class);
            let k = match n_pkts {
                Option::Some(n) => if n < raw.len() {
                    n
                } else {
                    raw.len()
                },
                Option::None => raw.len(),
            };
            proof {
                assert(raw@.take(raw@.len() as int) =~= raw@);
            }
            let v = aggregate(pair.agg, raw, k);
            r.push(v);
        }
        r
    }

    /// A copy holding the same observations.
    pub fn snapshot(&self) -> (r: FlowFeatures)
        ensures
            obs_eq(r, *self),
    {
        FlowFeatures {
            start_tsc: self.start_tsc,
            packet_cnt: self.packet_cnt,
            byte_cnt: self.byte_cnt,
            pkt_data: self.pkt_data.snapshot(),
        }
    }
}

// ---------------------------------------------------------------------------
// Sample alignment: the data-model invariant that the per-class sample
// counts line up.
// ---------------------------------------------------------------------------

/// Packets sampled for the IPv4-derived classes.
pub open spec fn ip_sample_count(ps: PacketSamples) -> int {
    ps.ip_ihl@.len() as int
}

/// Packets sampled for the TCP-derived classes.
pub open spec fn tcp_sample_count(ps: PacketSamples) -> int {
    ps.tcp_src_port@.len() as int
}

/// The accumulator's structural invariant: every class of one protocol
/// layer has recorded the same number of samples (each packet contributes
/// to all classes of its carried layers, or to none of them), inner layers
/// have at most as many samples as their enclosing layer, and the packet
/// counter equals the IPv4 sample count, saturated.
pub open spec fn aligned(f: FlowFeatures) -> bool {
    let ps = f.pkt_data;
    &&& ps.ip_dscp@.len() == ps.ip_ihl@.len()
    &&& ps.ip_ecn@.len() == ps.ip_ihl@.len()
    &&& ps.ip_total_length@.len() == ps.ip_ihl@.len()
    &&& ps.ip_id@.len() == ps.ip_ihl@.len()
    &&& ps.ip_flags_rf@.len() == ps.ip_ihl@.len()
    &&& ps.ip_flags_df@.len() == ps.ip_ihl@.len()
    &&& ps.ip_flags_mf@.len() == ps.ip_ihl@.len()
    &&& ps.ip_fragment_offset@.len() == ps.ip_ihl@.len()
    &&& ps.ip_ttl@.len() == ps.ip_ihl@.len()
    &&& ps.ip_protocol@.len() == ps.ip_ihl@.len()
    &&& ps.ip_header_checksum@.len() == ps.ip_ihl@.len()
    &&& ps.tcp_dst_port@.len() == ps.tcp_src_port@.len()
    &&& ps.tcp_seq_num@.len() == ps.tcp_src_port@.len()
    &&& ps.tcp_ack_num@.len() == ps.tcp_src_port@.len()
    &&& ps.tcp_data_offset@.len() == ps.tcp_src_port@.len()
    &&& ps.tcp_reserved@.len() == ps.tcp_src_port@.len()
    &&& ps.tcp_flags_cwr@.len() == ps.tcp_src_port@.len()
    &&& ps.tcp_flags_ece@.len() == ps.tcp_src_port@.len()
    &&& ps.tcp_flags_urg@.len() == ps.tcp_src_port@.len()
    &&& ps.tcp_flags_ack@.len() == ps.tcp_src_port@.len()
    &&& ps.tcp_flags_psh@.len() == ps.tcp_src_port@.len()
    &&& ps.tcp_flags_rst@.len() == ps.tcp_src_port@.len()
    &&& ps.tcp_flags_syn@.len() == ps.tcp_src_port@.len()
    &&& ps.tcp_flags_fin@.len() == ps.tcp_src_port@.len()
    &&& ps.tcp_window_size@.len() == ps.tcp_src_port@.len()
    &&& ps.tcp_checksum@.len() == ps.tcp_src_port@.len()
    &&& ps.tcp_urgent_ptr@.len() == ps.tcp_src_port@.len()
    &&& tcp_sample_count(ps) <= ip_sample_count(ps) <= ps.packet_iat@.len()
    &&& f.packet_cnt == (if ip_sample_count(ps) > u32::MAX {
        u32::MAX as int
    } else {
        ip_sample_count(ps)
    })
}

/// A fresh accumulator is aligned, and observing a layered packet keeps an
/// accumulator aligned: the invariant holds of every reachable state.
pub proof fn lemma_observe_preserves_alignment(
    pre: FlowFeatures,
    post: FlowFeatures,
    p: PacketView,
    hz: u64,
)
    requires
        p.wf(),
        aligned(pre),
        spec_observed(pre, post, p, hz),
    ensures
        aligned(post),
{
    let delta = delta_ns32(pre.start_tsc, p.timestamp_cycles, hz);
    assert(post.pkt_data.class_samples(FeatureClass::PacketIat) == spec_updated(pre.pkt_data, p, delta, FeatureClass::PacketIat));
    assert(post.pkt_data.class_samples(FeatureClass::IpIhl) == spec_updated(pre.pkt_data, p, delta, FeatureClass::IpIhl));
    assert(post.pkt_data.class_samples(FeatureClass::IpDscp) == spec_updated(pre.pkt_data, p, delta, FeatureClass::IpDscp));
    assert(post.pkt_data.class_samples(FeatureClass::IpEcn) == spec_updated(pre.pkt_data, p, delta, FeatureClass::IpEcn));
    assert(post.pkt_data.class_samples(FeatureClass::IpTotalLength) == spec_updated(pre.pkt_data, p, delta, FeatureClass::IpTotalLength));
    assert(post.pkt_data.class_samples(FeatureClass::IpId) == spec_updated(pre.pkt_data, p, delta, FeatureClass::IpId));
    assert(post.pkt_data.class_samples(FeatureClass::IpFlagsRf) == spec_updated(pre.pkt_data, p, delta, FeatureClass::IpFlagsRf));
    assert(post.pkt_data.class_samples(FeatureClass::IpFlagsDf) == spec_updated(pre.pkt_data, p, delta, FeatureClass::IpFlagsDf));
    assert(post.pkt_data.class_samples(FeatureClass::IpFlagsMf) == spec_updated(pre.pkt_data, p, delta, FeatureClass::IpFlagsMf));
    assert(post.pkt_data.class_samples(FeatureClass::IpFragmentOffset) == spec_updated(pre.pkt_data, p, delta, FeatureClass::IpFragmentOffset));
    assert(post.pkt_data.class_samples(FeatureClass::IpTtl) == spec_updated(pre.pkt_data, p, delta, FeatureClass::IpTtl));
    assert(post.pkt_data.class_samples(FeatureClass::IpProtocol) == spec_updated(pre.pkt_data, p, delta, FeatureClass::IpProtocol));
    assert(post.pkt_data.class_samples(FeatureClass::IpHeaderChecksum) == spec_updated(pre.pkt_data, p, delta, FeatureClass::IpHeaderChecksum));
    assert(post.pkt_data.class_samples(FeatureClass::TcpSrcPort) == spec_updated(pre.pkt_data, p, delta, FeatureClass::TcpSrcPort));
    assert(post.pkt_data.class_samples(FeatureClass::TcpDstPort) == spec_updated(pre.pkt_data, p, delta, FeatureClass::TcpDstPort));
    assert(post.pkt_data.class_samples(FeatureClass::TcpSeqNum) == spec_updated(pre.pkt_data, p, delta, FeatureClass::TcpSeqNum));
    assert(post.pkt_data.class_samples(FeatureClass::TcpAckNum) == spec_updated(pre.pkt_data, p, delta, FeatureClass::TcpAckNum));
    assert(post.pkt_data.class_samples(FeatureClass::TcpDataOffset) == spec_updated(pre.pkt_data, p, delta, FeatureClass::TcpDataOffset));
    assert(post.pkt_data.class_samples(FeatureClass::TcpReserved) == spec_updated(pre.pkt_data, p, delta, FeatureClass::TcpReserved));
    assert(post.pkt_data.class_samples(FeatureClass::TcpFlagsCwr) == spec_updated(pre.pkt_data, p, delta, FeatureClass::TcpFlagsCwr));
    assert(post.pkt_data.class_samples(FeatureClass::TcpFlagsEce) == spec_updated(pre.pkt_data, p, delta, FeatureClass::TcpFlagsEce));
    assert(post.pkt_data.class_samples(FeatureClass::TcpFlagsUrg) == spec_updated(pre.pkt_data, p, delta, FeatureClass::TcpFlagsUrg));
    assert(post.pkt_data.class_samples(FeatureClass::TcpFlagsAck) == spec_updated(pre.pkt_data, p, delta, FeatureClass::TcpFlagsAck));
    assert(post.pkt_data.class_samples(FeatureClass::TcpFlagsPsh) == spec_updated(pre.pkt_data, p, delta, FeatureClass::TcpFlagsPsh));
    assert(post.pkt_data.class_samples(FeatureClass::TcpFlagsRst) == spec_updated(pre.pkt_data, p, delta, FeatureClass::TcpFlagsRst));
    assert(post.pkt_data.class_samples(FeatureClass::TcpFlagsSyn) == spec_updated(pre.pkt_data, p, delta, FeatureClass::TcpFlagsSyn));
    assert(post.pkt_data.class_samples(FeatureClass::TcpFlagsFin) == spec_updated(pre.pkt_data, p, delta, FeatureClass::TcpFlagsFin));
    assert(post.pkt_data.class_samples(FeatureClass::TcpWindowSize) == spec_updated(pre.pkt_data, p, delta, FeatureClass::TcpWindowSize));
    assert(post.pkt_data.class_samples(FeatureClass::TcpChecksum) == spec_updated(pre.pkt_data, p, delta, FeatureClass::TcpChecksum));
    assert(post.pkt_data.class_samples(FeatureClass::TcpUrgentPtr) == spec_updated(pre.pkt_data, p, delta, FeatureClass::TcpUrgentPtr));
}

/// Alignment carries over to any accumulator with the same observable
/// state — in particular to the snapshots inside a delivered record.
pub proof fn lemma_obs_eq_transfers_alignment(a: FlowFeatures, b: FlowFeatures)
    requires
        aligned(a),
        obs_eq(b, a),
    ensures
        aligned(b),
{
    assert(b.pkt_data.class_samples(FeatureClass::PacketIat) == a.pkt_data.class_samples(FeatureClass::PacketIat));
    assert(b.pkt_data.class_samples(FeatureClass::IpIhl) == a.pkt_data.class_samples(FeatureClass::IpIhl));
    assert(b.pkt_data.class_samples(FeatureClass::IpDscp) == a.pkt_data.class_samples(FeatureClass::IpDscp));
    assert(b.pkt_data.class_samples(FeatureClass::IpEcn) == a.pkt_data.class_samples(FeatureClass::IpEcn));
    assert(b.pkt_data.class_samples(FeatureClass::IpTotalLength) == a.pkt_data.class_samples(FeatureClass::IpTotalLength));
    assert(b.pkt_data.class_samples(FeatureClass::IpId) == a.pkt_data.class_samples(FeatureClass::IpId));
    assert(b.pkt_data.class_samples(FeatureClass::IpFlagsRf) == a.pkt_data.class_samples(FeatureClass::IpFlagsRf));
    assert(b.pkt_data.class_samples(FeatureClass::IpFlagsDf) == a.pkt_data.class_samples(FeatureClass::IpFlagsDf));
    assert(b.pkt_data.class_samples(FeatureClass::IpFlagsMf) == a.pkt_data.class_samples(FeatureClass::IpFlagsMf));
    assert(b.pkt_data.class_samples(FeatureClass::IpFragmentOffset) == a.pkt_data.class_samples(FeatureClass::IpFragmentOffset));
    assert(b.pkt_data.class_samples(FeatureClass::IpTtl) == a.pkt_data.class_samples(FeatureClass::IpTtl));
    assert(b.pkt_data.class_samples(FeatureClass::IpProtocol) == a.pkt_data.class_samples(FeatureClass::IpProtocol));
    assert(b.pkt_data.class_samples(FeatureClass::IpHeaderChecksum) == a.pkt_data.class_samples(FeatureClass::IpHeaderChecksum));
    assert(b.pkt_data.class_samples(FeatureClass::TcpSrcPort) == a.pkt_data.class_samples(FeatureClass::TcpSrcPort));
    assert(b.pkt_data.class_samples(FeatureClass::TcpDstPort) == a.pkt_data.class_samples(FeatureClass::TcpDstPort));
    assert(b.pkt_data.class_samples(FeatureClass::TcpSeqNum) == a.pkt_data.class_samples(FeatureClass::TcpSeqNum));
    assert(b.pkt_data.class_samples(FeatureClass::TcpAckNum) == a.pkt_data.class_samples(FeatureClass::TcpAckNum));
    assert(b.pkt_data.class_samples(FeatureClass::TcpDataOffset) == a.pkt_data.class_samples(FeatureClass::TcpDataOffset));
    assert(b.pkt_data.class_samples(FeatureClass::TcpReserved) == a.pkt_data.class_samples(FeatureClass::TcpReserved));
    assert(b.pkt_data.class_samples(FeatureClass::TcpFlagsCwr) == a.pkt_data.class_samples(FeatureClass::TcpFlagsCwr));
    assert(b.pkt_data.class_samples(FeatureClass::TcpFlagsEce) == a.pkt_data.class_samples(FeatureClass::TcpFlagsEce));
    assert(b.pkt_data.class_samples(FeatureClass::TcpFlagsUrg) == a.pkt_data.class_samples(FeatureClass::TcpFlagsUrg));
    assert(b.pkt_data.class_samples(FeatureClass::TcpFlagsAck) == a.pkt_data.class_samples(FeatureClass::TcpFlagsAck));
    assert(b.pkt_data.class_samples(FeatureClass::TcpFlagsPsh) == a.pkt_data.class_samples(FeatureClass::TcpFlagsPsh));
    assert(b.pkt_data.class_samples(FeatureClass::TcpFlagsRst) == a.pkt_data.class_samples(FeatureClass::TcpFlagsRst));
    assert(b.pkt_data.class_samples(FeatureClass::TcpFlagsSyn) == a.pkt_data.class_samples(FeatureClass::TcpFlagsSyn));
    assert(b.pkt_data.class_samples(FeatureClass::TcpFlagsFin) == a.pkt_data.class_samples(FeatureClass::TcpFlagsFin));
    assert(b.pkt_data.class_samples(FeatureClass::TcpWindowSize) == a.pkt_data.class_samples(FeatureClass::TcpWindowSize));
    assert(b.pkt_data.class_samples(FeatureClass::TcpChecksum) == a.pkt_data.class_samples(FeatureClass::TcpChecksum));
    assert(b.pkt_data.class_samples(FeatureClass::TcpUrgentPtr) == a.pkt_data.class_samples(FeatureClass::TcpUrgentPtr));
}

/// A whole packet sequence observed in order, starting from `pre` and
/// ending at `post`.
pub open spec fn observed_all(
    pre: FlowFeatures,
    post: FlowFeatures,
    pkts: Seq<PacketView>,
    hz: u64,
) -> bool
    decreases pkts.len(),
{
    if pkts.len() == 0 {
        obs_eq(post, pre)
    } else {
        exists|mid: FlowFeatures|
            observed_all(pre, mid, pkts.drop_last(), hz) && spec_observed(
                mid,
                post,
                pkts.last(),
                hz,
            )
    }
}

/// One observation is deterministic: accumulators that agree on their
/// observable state agree after observing the same packet.
pub proof fn lemma_observe_deterministic(
    pre1: FlowFeatures,
    post1: FlowFeatures,
    pre2: FlowFeatures,
    post2: FlowFeatures,
    p: PacketView,
    hz: u64,
)
    requires
        obs_eq(pre1, pre2),
        spec_observed(pre1, post1, p, hz),
        spec_observed(pre2, post2, p, hz),
    ensures
        obs_eq(post1, post2),
{
    let delta = delta_ns32(pre1.start_tsc, p.timestamp_cycles, hz);
    assert forall|c: FeatureClass| #[trigger] post1.pkt_data.class_samples(c)
        == post2.pkt_data.class_samples(c) by {
        assert(post1.pkt_data.class_samples(c) == spec_updated(pre1.pkt_data, p, delta, c));
        assert(post2.pkt_data.class_samples(c) == spec_updated(pre2.pkt_data, p, delta, c));
        assert(pre1.pkt_data.class_samples(c) == pre2.pkt_data.class_samples(c));
    }
}

/// Feeding the same packet sequence in the same order through the
/// accumulator twice, with the accumulator state reset in between, yields
/// the same observable state — and therefore, through `get_features`, the
/// same feature record: aggregation is a deterministic pure function of the
/// observed sample sequence.
pub proof fn lemma_replay_deterministic(
    pre1: FlowFeatures,
    post1: FlowFeatures,
    pre2: FlowFeatures,
    post2: FlowFeatures,
    pkts: Seq<PacketView>,
    hz: u64,
)
    requires
        obs_eq(pre1, pre2),
        observed_all(pre1, post1, pkts, hz),
        observed_all(pre2, post2, pkts, hz),
    ensures
        obs_eq(post1, post2),
    decreases pkts.len(),
{
    if pkts.len() == 0 {
    } else {
        let mid1 = choose|mid: FlowFeatures|
            observed_all(pre1, mid, pkts.drop_last(), hz) && spec_observed(
                mid,
                post1,
                pkts.last(),
                hz,
            );
        let mid2 = choose|mid: FlowFeatures|
            observed_all(pre2, mid, pkts.drop_last(), hz) && spec_observed(
                mid,
                post2,
                pkts.last(),
                hz,
            );
        lemma_replay_deterministic(pre1, mid1, pre2, mid2, pkts.drop_last(), hz);
        lemma_observe_deterministic(mid1, post1, mid2, post2, pkts.last(), hz);
    }
}

/// Accumulators that agree on their observable state finalize to the same
/// feature value for every configured column: together with
/// `lemma_replay_deterministic`, the records of two identical runs are
/// identical.
pub proof fn lemma_features_of_equal_observations(
    a: FlowFeatures,
    b: FlowFeatures,
    c: FeatureClass,
    agg: crate::catalog::Aggregator,
    n_pkts: Option<usize>,
)
    requires
        obs_eq(a, b),
    ensures
        spec_aggregate(agg, truncated(a.pkt_data.class_samples(c), n_pkts)) == spec_aggregate(
            agg,
            truncated(b.pkt_data.class_samples(c), n_pkts),
        ),
{
    assert(a.pkt_data.class_samples(c) == b.pkt_data.class_samples(c));
}

impl FlowFeatures {
    /// Observes a whole packet sequence in order.
    pub fn observe_sequence(&mut self, packets: &Vec<PacketView>, time: &TimeSource)
        requires
            time.wf(),
            forall|i: int| 0 <= i < packets@.len() ==> (#[trigger] packets@[i]).wf(),
        ensures
            observed_all(*old(self), *final(self), packets@, time.cycles_per_sec),
    {
        let n = packets.len();
        for i in 0..n
            invariant
                n == packets@.len(),
                time.wf(),
                forall|k: int| 0 <= k < packets@.len() ==> (#[trigger] packets@[k]).wf(),
                observed_all(*old(self), *self, packets@.take(i as int), time.cycles_per_sec),
        {
            let ghost mid = *self;
            self.insert_segment(&packets[i], time);
            proof {
                assert(packets@.take(i + 1).drop_last() =~= packets@.take(i as int));
                assert(packets@.take(i + 1).last() == packets@[i as int]);
            }
        }
        proof {
            assert(packets@.take(n as int) =~= packets@);
        }
    }
}

/// A connection features record: the immutable summary emitted exactly once
/// per flow. It carries the session identity and the raw per-direction
/// accumulations; feature vectors are materialized from it through
/// `FlowFeatures::get_features`.
#[derive(Debug, PartialEq)]
pub struct ConnectionFeatures {
    /// Server name, for flows whose session was TLS; empty otherwise.
    pub sni: String,
    /// Originator-side flow features.
    pub orig: FlowFeatures,
    /// Responder-side flow features.
    pub resp: FlowFeatures,
}

/// Tracks a connection record throughout its lifetime: the session identity
/// seen so far and one accumulator per direction.
#[derive(Debug)]
pub struct TrackedConnectionFeatures {
    pub sni: String,
    /// True once a session event has been delivered; later ones are ignored
    /// (first-match-wins).
    pub matched: bool,
    /// True once the record has been delivered; delivery is one-shot.
    pub emitted: bool,
    pub ctos: FlowFeatures,
    pub stoc: FlowFeatures,
}

impl TrackedConnectionFeatures {
    pub fn new(_five_tuple: FiveTuple, start_tsc: u64) -> (r: TrackedConnectionFeatures)
        ensures
            r.sni@ == Seq::<char>::empty(),
            !r.matched,
            !r.emitted,
            r.ctos.start_tsc == start_tsc,
            r.ctos.packet_cnt == 0,
            r.ctos.byte_cnt == 0,
            forall|c: FeatureClass| #[trigger] r.ctos.pkt_data.class_samples(c)
                == Seq::<u32>::empty(),
            r.stoc.start_tsc == start_tsc,
            r.stoc.packet_cnt == 0,
            r.stoc.byte_cnt == 0,
            forall|c: FeatureClass| #[trigger] r.stoc.pkt_data.class_samples(c)
                == Seq::<u32>::empty(),
            aligned(r.ctos),
            aligned(r.stoc),
    {
        TrackedConnectionFeatures {
            sni: String::new(),
            matched: false,
            emitted: false,
            ctos: FlowFeatures::new(start_tsc),
            stoc: FlowFeatures::new(start_tsc),
        }
    }

    /// Routes one packet to the accumulator of its direction.
    pub fn update(&mut self, segment: &PacketView, time: &TimeSource)
        requires
            segment.wf(),
            time.wf(),
        ensures
            final(self).sni == old(self).sni,
            final(self).matched == old(self).matched,
            final(self).emitted == old(self).emitted,
            segment.dir ==> spec_observed(
                old(self).ctos,
                final(self).ctos,
                *segment,
                time.cycles_per_sec,
            ) && final(self).stoc == old(self).stoc,
            !segment.dir ==> spec_observed(
                old(self).stoc,
                final(self).stoc,
                *segment,
                time.cycles_per_sec,
            ) && final(self).ctos == old(self).ctos,
    {
        if segment.dir {
            self.ctos.insert_segment(segment, time);
        } else {
            self.stoc.insert_segment(segment, time);
        }
    }

    /// Accumulation before any session match: identical to `update`.
    pub fn pre_match(
        &mut self,
        pdu: &PacketView,
        _session_id: Option<usize>,
        time: &TimeSource,
    )
        requires
            pdu.wf(),
            time.wf(),
        ensures
            final(self).sni == old(self).sni,
            final(self).matched == old(self).matched,
            final(self).emitted == old(self).emitted,
            pdu.dir ==> spec_observed(
                old(self).ctos,
                final(self).ctos,
                *pdu,
                time.cycles_per_sec,
            ) && final(self).stoc == old(self).stoc,
            !pdu.dir ==> spec_observed(
                old(self).stoc,
                final(self).stoc,
                *pdu,
                time.cycles_per_sec,
            ) && final(self).ctos == old(self).ctos,
    {
        self.update(pdu, time);
    }

    /// Records the session identity, once: the first session event sets the
    /// server name of a TLS session (and nothing for any other protocol);
    /// any later session event leaves the identity unchanged
    /// (first-match-wins).
    pub fn on_match(&mut self, session: Session)
        ensures
            final(self).matched,
            !old(self).matched && session.kind is Tls ==> final(self).sni@
                == session.server_name@,
            old(self).matched || !(session.kind is Tls) ==> final(self).sni == old(self).sni,
            final(self).emitted == old(self).emitted,
            final(self).ctos == old(self).ctos,
            final(self).stoc == old(self).stoc,
    {
        if !self.matched {
            self.matched = true;
            if let SessionKind::Tls = session.kind {
                self.sni = session.server_name;
            }
        }
    }

    /// Accumulation after a session match: identical to `update`.
    pub fn post_match(&mut self, pdu: &PacketView, time: &TimeSource)
        requires
            pdu.wf(),
            time.wf(),
        ensures
            final(self).sni == old(self).sni,
            final(self).matched == old(self).matched,
            final(self).emitted == old(self).emitted,
            pdu.dir ==> spec_observed(
                old(self).ctos,
                final(self).ctos,
                *pdu,
                time.cycles_per_sec,
            ) && final(self).stoc == old(self).stoc,
            !pdu.dir ==> spec_observed(
                old(self).stoc,
                final(self).stoc,
                *pdu,
                time.cycles_per_sec,
            ) && final(self).ctos == old(self).ctos,
    {
        self.update(pdu, time);
    }

    /// Builds the immutable record from the tracked state and delivers it,
    /// once: a repeated termination signal delivers nothing further.
    pub fn on_terminate(&mut self, sink: &mut crate::subscription::SubscriptionSink<
        ConnectionFeatures,
    >)
        ensures
            final(self).emitted,
            final(self).sni == old(self).sni,
            final(self).matched == old(self).matched,
            final(self).ctos == old(self).ctos,
            final(self).stoc == old(self).stoc,
            old(self).emitted ==> *final(sink) == *old(sink),
            !old(self).emitted ==> {
                &&& final(sink).delivered@.len() == old(sink).delivered@.len() + 1
                &&& forall|i: int| 0 <= i < old(sink).delivered@.len()
                    ==> final(sink).delivered@[i] == old(sink).delivered@[i]
                &&& final(sink).delivered@.last().sni@ == old(self).sni@
                &&& obs_eq(final(sink).delivered@.last().orig, old(self).ctos)
                &&& obs_eq(final(sink).delivered@.last().resp, old(self).stoc)
            },
    {
        if self.emitted {
            return ;
        }
        self.emitted = true;
        let record = ConnectionFeatures {
            sni: self.sni.clone(),
            orig: self.ctos.snapshot(),
            resp: self.stoc.snapshot(),
        };
        sink.invoke(record);
    }
}

} // verus!
