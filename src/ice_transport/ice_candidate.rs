//! A network-path candidate as the session reads it: its statistics id, its
//! address and port, and the kind of path it stands for.
use vstd::prelude::*;

verus! {

/// The kind of network path a candidate stands for.
#[derive(Clone, Copy, Debug, PartialEq, Eq, Structural, Default)]
pub enum RTCIceCandidateType {
    #[default]
    Unspecified,
    /// An address of a local interface.
    Host,
    /// A server-reflexive address, as seen by a STUN server.
    Srflx,
    /// A peer-reflexive address, learned during connectivity checks.
    Prflx,
    /// An address on a relay server.
    Relay,
}

impl RTCIceCandidateType {
    /// The name of the kind, as diagnostics print it.
    pub open spec fn spec_name(&self) -> Seq<char> {
        match self {
            RTCIceCandidateType::Unspecified => "Unspecified"@,
            RTCIceCandidateType::Host => "Host"@,
            RTCIceCandidateType::Srflx => "Srflx"@,
            RTCIceCandidateType::Prflx => "Prflx"@,
            RTCIceCandidateType::Relay => "Relay"@,
        }
    }

    /// The name of the kind, as diagnostics print it.
    pub fn name(&self) -> (r: &'static str)
        ensures
            r@ == self.spec_name(),
    {
        match self {
            RTCIceCandidateType::Unspecified => "Unspecified",
            RTCIceCandidateType::Host => "Host",
            RTCIceCandidateType::Srflx => "Srflx",
            RTCIceCandidateType::Prflx => "Prflx",
            RTCIceCandidateType::Relay => "Relay",
        }
    }
}

/// A network-path candidate.
#[derive(Clone, Debug, PartialEq, Eq, Default)]
pub struct RTCIceCandidate {
    pub stats_id: String,
    pub address: String,
    pub port: u16,
    pub typ: RTCIceCandidateType,
}

} // verus!
