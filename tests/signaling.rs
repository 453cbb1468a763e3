use webrtc_session::session_description::{
    RTCIceCandidateInit, RTCSdpType, RTCSessionDescription,
};
use webrtc_session::signaling::{
    input_message_len, is_input_channel, local_candidate_delivery, remote_candidate_action,
    CandidateAction, LocalCandidateEvent, RemoteAction, RemoteDescriptionTask, RemoteEvent,
};

fn desc(t: RTCSdpType, sdp: &str) -> RTCSessionDescription {
    RTCSessionDescription::new(t, sdp.to_string())
}

fn run(has_callback: bool, events: Vec<RemoteEvent>) -> Vec<RemoteAction> {
    let mut task = RemoteDescriptionTask::new(has_callback);
    let mut actions = Vec::new();
    for e in events {
        let (next, a) = task.step(e);
        task = next;
        actions.push(a);
    }
    assert!(task.is_finished());
    actions
}

#[test]
fn sdp_type_names_round_trip() {
    for t in [
        RTCSdpType::Unspecified,
        RTCSdpType::Offer,
        RTCSdpType::Pranswer,
        RTCSdpType::Answer,
        RTCSdpType::Rollback,
    ] {
        assert_eq!(RTCSdpType::from_name(t.name()), t);
    }
    assert_eq!(RTCSdpType::Offer.name(), "offer");
    assert_eq!(RTCSdpType::Answer.name(), "answer");
    assert_eq!(RTCSdpType::from_name("Offer"), RTCSdpType::Unspecified);
    assert_eq!(RTCSdpType::from_name(""), RTCSdpType::Unspecified);
}

#[test]
fn description_copy_is_equal() {
    let d = desc(RTCSdpType::Offer, "v=0\r\no=- 1 2 IN IP4 127.0.0.1\r\n");
    assert_eq!(d.duplicate(), d);
    assert!(d.is_offer());
    assert!(!desc(RTCSdpType::Answer, "").is_offer());
}

#[test]
fn offer_is_answered_exactly_once() {
    let actions = run(
        true,
        vec![
            RemoteEvent::Parsed(Some(desc(RTCSdpType::Offer, "remote"))),
            RemoteEvent::RemoteApplied(Some(RTCSdpType::Offer)),
            RemoteEvent::AnswerCreated(Some(desc(RTCSdpType::Answer, "local"))),
            RemoteEvent::LocalApplied(true),
            RemoteEvent::AnswerSerialized(Some("{\"type\":\"answer\"}".to_string())),
        ],
    );
    assert_eq!(
        actions,
        vec![
            RemoteAction::ApplyRemote(desc(RTCSdpType::Offer, "remote")),
            RemoteAction::CreateAnswer,
            RemoteAction::ApplyLocal(desc(RTCSdpType::Answer, "local")),
            RemoteAction::SerializeAnswer(desc(RTCSdpType::Answer, "local")),
            RemoteAction::DeliverAnswer("{\"type\":\"answer\"}".to_string()),
        ]
    );
}

#[test]
fn answer_is_not_answered() {
    let actions = run(
        true,
        vec![
            RemoteEvent::Parsed(Some(desc(RTCSdpType::Answer, "remote"))),
            RemoteEvent::RemoteApplied(Some(RTCSdpType::Answer)),
            RemoteEvent::AnswerCreated(Some(desc(RTCSdpType::Answer, "late"))),
        ],
    );
    assert_eq!(
        actions,
        vec![
            RemoteAction::ApplyRemote(desc(RTCSdpType::Answer, "remote")),
            RemoteAction::Finish,
            RemoteAction::Finish,
        ]
    );
}

#[test]
fn failures_end_the_task_quietly() {
    assert_eq!(run(true, vec![RemoteEvent::Parsed(None)]), vec![RemoteAction::Finish]);
    let a = run(
        true,
        vec![RemoteEvent::Parsed(Some(desc(RTCSdpType::Offer, "x"))), RemoteEvent::RemoteApplied(None)],
    );
    assert_eq!(a[1], RemoteAction::Finish);
    let a = run(
        true,
        vec![
            RemoteEvent::Parsed(Some(desc(RTCSdpType::Offer, "x"))),
            RemoteEvent::RemoteApplied(Some(RTCSdpType::Offer)),
            RemoteEvent::AnswerCreated(Some(desc(RTCSdpType::Answer, "y"))),
            RemoteEvent::LocalApplied(false),
        ],
    );
    assert_eq!(a[3], RemoteAction::Finish);
    let a = run(
        true,
        vec![
            RemoteEvent::Parsed(Some(desc(RTCSdpType::Offer, "x"))),
            RemoteEvent::RemoteApplied(Some(RTCSdpType::Offer)),
            RemoteEvent::AnswerCreated(None),
        ],
    );
    assert_eq!(a[2], RemoteAction::Finish);
}

#[test]
fn answer_without_callback_is_not_delivered() {
    let actions = run(
        false,
        vec![
            RemoteEvent::Parsed(Some(desc(RTCSdpType::Offer, "remote"))),
            RemoteEvent::RemoteApplied(Some(RTCSdpType::Offer)),
            RemoteEvent::AnswerCreated(Some(desc(RTCSdpType::Answer, "local"))),
            RemoteEvent::LocalApplied(true),
            RemoteEvent::AnswerSerialized(Some("text".to_string())),
        ],
    );
    assert_eq!(actions[2], RemoteAction::ApplyLocal(desc(RTCSdpType::Answer, "local")));
    assert_eq!(actions[4], RemoteAction::Finish);
}

#[test]
fn malformed_candidate_is_dropped() {
    assert_eq!(remote_candidate_action(None), CandidateAction::Drop);
    let c = RTCIceCandidateInit {
        candidate: "candidate:1 1 udp 2130706431 10.0.0.1 5000 typ host".to_string(),
        sdp_mid: Some("0".to_string()),
        sdp_mline_index: Some(0),
        username_fragment: None,
    };
    let same = RTCIceCandidateInit {
        candidate: c.candidate.clone(),
        sdp_mid: c.sdp_mid.clone(),
        sdp_mline_index: c.sdp_mline_index,
        username_fragment: None,
    };
    assert_eq!(remote_candidate_action(Some(c)), CandidateAction::Apply(same));
}

#[test]
fn local_candidates_reach_the_callback() {
    let found = || LocalCandidateEvent::Found(Some("{\"candidate\":\"c\"}".to_string()));
    assert_eq!(local_candidate_delivery(true, found()), Some("{\"candidate\":\"c\"}".to_string()));
    assert_eq!(local_candidate_delivery(false, found()), None);
    assert_eq!(local_candidate_delivery(true, LocalCandidateEvent::Complete), None);
    assert_eq!(local_candidate_delivery(true, LocalCandidateEvent::Found(None)), None);
}

#[test]
fn only_the_input_channel_is_relayed() {
    assert!(is_input_channel("input"));
    assert!(!is_input_channel("Input"));
    assert!(!is_input_channel("chat"));
    assert!(!is_input_channel(""));
    assert_eq!(input_message_len(true, 12), Some(12));
    assert_eq!(input_message_len(true, 0), Some(0));
    assert_eq!(input_message_len(false, 12), None);
    assert_eq!(input_message_len(true, i32::MAX as usize), Some(i32::MAX));
    assert_eq!(input_message_len(true, i32::MAX as usize + 1), None);
}
