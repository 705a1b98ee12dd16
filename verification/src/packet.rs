//! Read-only views over one packet's parsed headers.
//!
//! The packet and protocol parsers are external collaborators: they hand the
//! library one `PacketView` per packet, holding the direction flag, the raw
//! hardware timestamp, and the header fields of each protocol layer that was
//! present and parseable. A missing layer means "no sample for the classes
//! derived from it", never an error.

use vstd::prelude::*;

verus! {

/// A hardware (MAC) address.
#[derive(Clone, Copy, Debug, PartialEq, Eq, Structural, Hash)]
pub struct MacAddr(pub u8, pub u8, pub u8, pub u8, pub u8, pub u8);

/// Parsed Ethernet header fields.
#[derive(Clone, Copy, Debug, PartialEq, Eq, Structural)]
pub struct EthView {
    pub src: MacAddr,
    pub dst: MacAddr,
}

/// Parsed IPv4 header fields.
#[derive(Clone, Copy, Debug, PartialEq, Eq, Structural)]
pub struct Ipv4View {
    pub ihl: u8,
    pub dscp: u8,
    pub ecn: u8,
    pub total_length: u16,
    pub identification: u16,
    pub rf: bool,
    pub df: bool,
    pub mf: bool,
    pub fragment_offset: u16,
    pub time_to_live: u8,
    pub protocol: u8,
    pub header_checksum: u16,
}

/// Parsed TCP header fields.
#[derive(Clone, Copy, Debug, PartialEq, Eq, Structural)]
pub struct TcpView {
    pub src_port: u16,
    pub dst_port: u16,
    pub seq_no: u32,
    pub ack_no: u32,
    pub data_offset: u8,
    pub reserved: u8,
    pub cwr: bool,
    pub ece: bool,
    pub urg: bool,
    pub ack: bool,
    pub psh: bool,
    pub rst: bool,
    pub syn: bool,
    pub fin: bool,
    pub window: u16,
    pub checksum: u16,
    pub urgent_ptr: u16,
}

impl TcpView {
    /// SYN and ACK both set: the signature of the second step of a TCP
    /// three-way handshake.
    pub open spec fn spec_synack(self) -> bool {
        self.syn && self.ack
    }

    pub fn synack(&self) -> (r: bool)
        ensures
            r == self.spec_synack(),
    {
        self.syn && self.ack
    }
}

/// One packet as the flow core sees it: a direction flag (true means
/// originator to responder), a raw cycle-counter timestamp, and the parsed
/// header fields of whichever layers the packet carried.
#[derive(Clone, Copy, Debug)]
pub struct PacketView {
    pub dir: bool,
    pub timestamp_cycles: u64,
    pub eth: Option<EthView>,
    pub ipv4: Option<Ipv4View>,
    pub tcp: Option<TcpView>,
}

impl PacketView {
    /// Protocol layering: an inner layer can only have been parsed out of
    /// its enclosing layer.
    pub open spec fn wf(self) -> bool {
        &&& self.tcp is Some ==> self.ipv4 is Some
        &&& self.ipv4 is Some ==> self.eth is Some
    }
}

} // verus!
