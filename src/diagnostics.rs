//! The diagnostics snapshot: local credentials and the selected candidate pair.
use vstd::prelude::*;
use crate::ice_transport::ice_candidate::RTCIceCandidate;
use crate::ice_transport::ice_candidate_pair::RTCIceCandidatePair;

verus! {

/// The local negotiation credentials.
#[derive(Debug, PartialEq, Eq, Default)]
pub struct RTCIceParameters {
    pub username_fragment: String,
    pub password: String,
}

/// One end of the selected pair as diagnostics report it.
#[derive(Debug, PartialEq, Eq)]
pub struct CandidateSummary {
    pub address: String,
    pub port: u16,
    pub typ: String,
}

/// A snapshot of negotiation and connectivity state; each part is absent
/// when the engine did not have it.
#[derive(Debug, PartialEq, Eq)]
pub struct Diagnostics {
    pub local_ice_ufrag: Option<String>,
    pub local_ice_pwd: Option<String>,
    pub selected_local_candidate: Option<CandidateSummary>,
    pub selected_remote_candidate: Option<CandidateSummary>,
}

/// Whether `s` reports the address, port and kind of candidate `c`.
pub open spec fn summarizes(s: CandidateSummary, c: RTCIceCandidate) -> bool {
    &&& s.address@ == c.address@
    &&& s.port == c.port
    &&& s.typ@ == c.typ.spec_name()
}

/// The address, port and kind of a candidate.
pub fn candidate_summary(c: &RTCIceCandidate) -> (r: CandidateSummary)
    ensures
        summarizes(r, *c),
{
    CandidateSummary {
        address: c.address.clone(),
        port: c.port,
        typ: String::from_str(c.typ.name()),
    }
}

/// The snapshot for the engine's local credentials (if it has them) and the
/// selected candidate pair (once selection has completed).
pub fn collect_diagnostics(params: Option<RTCIceParameters>, pair: Option<&RTCIceCandidatePair>) -> (r:
    Diagnostics)
    ensures
        r.local_ice_ufrag is Some <==> params is Some,
        r.local_ice_pwd is Some <==> params is Some,
        params matches Some(p) ==> r.local_ice_ufrag == Some(p.username_fragment)
            && r.local_ice_pwd == Some(p.password),
        r.selected_local_candidate is Some <==> pair is Some,
        r.selected_remote_candidate is Some <==> pair is Some,
        pair matches Some(p) ==> summarizes(r.selected_local_candidate->0, p.spec_local())
            && summarizes(r.selected_remote_candidate->0, p.spec_remote()),
{
    let (local_ice_ufrag, local_ice_pwd) = match params {
        Some(p) => (Some(p.username_fragment), Some(p.password)),
        None => (None, None),
    };
    let (selected_local_candidate, selected_remote_candidate) = match pair {
        Some(p) => (
            Some(candidate_summary(p.local_candidate())),
            Some(candidate_summary(p.remote_candidate())),
        ),
        None => (None, None),
    };
    Diagnostics {
        local_ice_ufrag,
        local_ice_pwd,
        selected_local_candidate,
        selected_remote_candidate,
    }
}

} // verus!
