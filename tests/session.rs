use webrtc_session::diagnostics::{collect_diagnostics, CandidateSummary, RTCIceParameters};
use webrtc_session::ice_transport::ice_candidate::{RTCIceCandidate, RTCIceCandidateType};
use webrtc_session::ice_transport::ice_candidate_pair::RTCIceCandidatePair;
use webrtc_session::session::{
    SessionHandle, SessionSetup, SetupOutcome, SetupStep, VIDEO_MIME_TYPE, VIDEO_STREAM_ID,
    VIDEO_TRACK_ID,
};

#[test]
fn setup_runs_every_step_in_order() {
    let mut s = SessionSetup::new(true);
    let mut steps = Vec::new();
    while let Some(step) = s.next_step() {
        steps.push(step);
        s.record(true);
    }
    assert_eq!(
        steps,
        vec![
            SetupStep::RegisterCodecs,
            SetupStep::StartRuntime,
            SetupStep::CreatePeerConnection,
            SetupStep::AddVideoTrack,
            SetupStep::OpenInputChannel,
        ]
    );
    assert_eq!(s.outcome(), SetupOutcome::Ready);
    assert_eq!((VIDEO_MIME_TYPE, VIDEO_TRACK_ID, VIDEO_STREAM_ID), ("video/VP9", "video", "webrtc-rs"));
}

#[test]
fn setup_without_input_channel_has_four_steps() {
    let mut s = SessionSetup::new(false);
    for _ in 0..4 {
        assert!(s.next_step().is_some());
        assert_eq!(s.outcome(), SetupOutcome::InProgress);
        s.record(true);
    }
    assert_eq!(s.next_step(), None);
    assert_eq!(s.outcome(), SetupOutcome::Ready);
}

#[test]
fn any_failure_abandons_the_session() {
    let mut s = SessionSetup::new(true);
    s.record(true);
    s.record(true);
    assert_eq!(s.next_step(), Some(SetupStep::CreatePeerConnection));
    s.record(false);
    assert_eq!(s.outcome(), SetupOutcome::Abandoned);
    assert_eq!(s.next_step(), None);
    s.record(true);
    s.record(true);
    assert_eq!(s.outcome(), SetupOutcome::Abandoned);
}

#[test]
fn destroy_hands_back_the_session_once() {
    let h = SessionHandle::new(String::from("session"));
    assert!(h.is_live());
    assert_eq!(h.session(), Some(&String::from("session")));
    assert_eq!(h.destroy(), Some(String::from("session")));
    let empty: SessionHandle<u8> = SessionHandle { inner: None };
    assert!(!empty.is_live());
    assert_eq!(empty.destroy(), None);
}

#[test]
fn diagnostics_report_credentials_and_pair() {
    let local = RTCIceCandidate {
        stats_id: "l".to_string(),
        address: "10.0.0.2".to_string(),
        port: 50000,
        typ: RTCIceCandidateType::Host,
    };
    let remote = RTCIceCandidate {
        stats_id: "r".to_string(),
        address: "198.51.100.4".to_string(),
        port: 61000,
        typ: RTCIceCandidateType::Relay,
    };
    let pair = RTCIceCandidatePair::new(local, remote);
    let params = RTCIceParameters { username_fragment: "uf".to_string(), password: "pw".to_string() };
    let d = collect_diagnostics(Some(params), Some(&pair));
    assert_eq!(d.local_ice_ufrag, Some("uf".to_string()));
    assert_eq!(d.local_ice_pwd, Some("pw".to_string()));
    assert_eq!(
        d.selected_local_candidate,
        Some(CandidateSummary { address: "10.0.0.2".to_string(), port: 50000, typ: "Host".to_string() })
    );
    assert_eq!(
        d.selected_remote_candidate,
        Some(CandidateSummary { address: "198.51.100.4".to_string(), port: 61000, typ: "Relay".to_string() })
    );
}

#[test]
fn diagnostics_leave_out_what_is_missing() {
    let d = collect_diagnostics(None, None);
    assert_eq!(d.local_ice_ufrag, None);
    assert_eq!(d.local_ice_pwd, None);
    assert_eq!(d.selected_local_candidate, None);
    assert_eq!(d.selected_remote_candidate, None);
}
