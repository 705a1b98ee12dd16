//! Flow identity and session facts.

use vstd::prelude::*;

verus! {

/// The five-tuple identity of a flow, with a fixed originator/responder
/// orientation assigned at flow creation and never changed afterwards.
#[derive(Clone, Copy, Debug, PartialEq, Eq, Structural, Hash)]
pub struct FiveTuple {
    pub orig_addr: u32,
    pub orig_port: u16,
    pub resp_addr: u32,
    pub resp_port: u16,
    pub protocol: u8,
}

/// Which protocol layer produced a session fact.
#[derive(Clone, Copy, Debug, PartialEq, Eq, Structural)]
pub enum SessionKind {
    Tls,
    Other,
}

/// An application-layer fact about a flow, delivered at most once per flow
/// by the external protocol-parsing layer: an identity string (for TLS, the
/// server name) and a tag of which protocol produced it.
#[derive(Clone, Debug)]
pub struct Session {
    pub kind: SessionKind,
    pub server_name: String,
}

impl Session {
    /// The identity carried into a flow record: the server name for a TLS
    /// session, the empty string for any other protocol.
    pub open spec fn spec_identity(self) -> Seq<char> {
        if self.kind is Tls {
            self.server_name@
        } else {
            Seq::<char>::empty()
        }
    }
}

} // verus!
