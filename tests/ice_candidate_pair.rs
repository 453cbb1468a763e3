use webrtc_session::ice_transport::ice_candidate::{RTCIceCandidate, RTCIceCandidateType};
use webrtc_session::ice_transport::ice_candidate_pair::RTCIceCandidatePair;

fn candidate(id: &str, address: &str, port: u16, typ: RTCIceCandidateType) -> RTCIceCandidate {
    RTCIceCandidate { stats_id: id.to_string(), address: address.to_string(), port, typ }
}

#[test]
fn pair_keeps_both_candidates() {
    let local = candidate("loc1", "192.168.1.2", 50000, RTCIceCandidateType::Host);
    let remote = candidate("rem9", "203.0.113.7", 3478, RTCIceCandidateType::Srflx);
    let pair = RTCIceCandidatePair::new(local.clone(), remote.clone());
    assert_eq!(pair.local_candidate(), &local);
    assert_eq!(pair.remote_candidate(), &remote);
    assert_eq!(pair.pair_stats_id(), "loc1-rem9");
}

#[test]
fn stats_id_joins_with_a_dash() {
    assert_eq!(RTCIceCandidatePair::stats_id("a", "b"), "a-b");
    assert_eq!(RTCIceCandidatePair::stats_id("", ""), "-");
    assert_eq!(RTCIceCandidatePair::stats_id("x-y", "z"), "x-y-z");
}

#[test]
fn candidate_type_names() {
    assert_eq!(RTCIceCandidateType::Unspecified.name(), "Unspecified");
    assert_eq!(RTCIceCandidateType::Host.name(), "Host");
    assert_eq!(RTCIceCandidateType::Srflx.name(), "Srflx");
    assert_eq!(RTCIceCandidateType::Prflx.name(), "Prflx");
    assert_eq!(RTCIceCandidateType::Relay.name(), "Relay");
    assert_eq!(RTCIceCandidateType::default(), RTCIceCandidateType::Unspecified);
}
