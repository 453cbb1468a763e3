//! The signaling relay's decisions.
//!
//! Applying a remote description is a background task that alternates work of
//! the negotiation engine with decisions. The decisions are a state machine
//! here: the task takes an event (what the engine reported) and answers with
//! the next action. A failure at any step ends the task quietly.
use vstd::prelude::*;
use crate::session_description::{same_text, RTCIceCandidateInit, RTCSdpType, RTCSessionDescription};

verus! {

/// What the engine reported to the remote-description task.
#[derive(Debug, PartialEq, Eq)]
pub enum RemoteEvent {
    /// The payload was read as a description (`None`: it was not one).
    Parsed(Option<RTCSessionDescription>),
    /// The description was applied, and the engine now holds a remote
    /// description of this type (`None`: applying failed).
    RemoteApplied(Option<RTCSdpType>),
    /// An answer was generated (`None`: generating failed).
    AnswerCreated(Option<RTCSessionDescription>),
    /// Applying the answer as the local description succeeded or failed.
    LocalApplied(bool),
    /// The answer's text form (`None`: serializing failed).
    AnswerSerialized(Option<String>),
}

/// What the remote-description task asks for next.
#[derive(Debug, PartialEq, Eq)]
pub enum RemoteAction {
    /// Apply this description as the remote one.
    ApplyRemote(RTCSessionDescription),
    /// Generate an answer to the remote offer.
    CreateAnswer,
    /// Apply this answer as the local description.
    ApplyLocal(RTCSessionDescription),
    /// Produce the text form of this answer.
    SerializeAnswer(RTCSessionDescription),
    /// Hand this text to the signal callback.
    DeliverAnswer(String),
    /// The task is over.
    Finish,
}

/// Where the remote-description task stands.
#[derive(Debug, PartialEq, Eq)]
pub enum RemoteStage {
    AwaitParsed,
    AwaitRemoteApplied,
    AwaitAnswer,
    AwaitLocalApplied(RTCSessionDescription),
    AwaitSerialized,
    Finished,
}

/// The remote-description task: its stage, and whether a signal callback was
/// registered when the task was started.
#[derive(Debug, PartialEq, Eq)]
pub struct RemoteDescriptionTask {
    pub stage: RemoteStage,
    pub has_callback: bool,
}

/// One step of the task: the next task and the action it asks for.
pub open spec fn spec_step(task: RemoteDescriptionTask, event: RemoteEvent) -> (
    RemoteDescriptionTask,
    RemoteAction,
) {
    let cb = task.has_callback;
    let done = RemoteDescriptionTask { stage: RemoteStage::Finished, has_callback: cb };
    match (task.stage, event) {
        (RemoteStage::AwaitParsed, RemoteEvent::Parsed(Some(d))) => (
            RemoteDescriptionTask { stage: RemoteStage::AwaitRemoteApplied, has_callback: cb },
            RemoteAction::ApplyRemote(d),
        ),
        (RemoteStage::AwaitRemoteApplied, RemoteEvent::RemoteApplied(Some(RTCSdpType::Offer))) => (
            RemoteDescriptionTask { stage: RemoteStage::AwaitAnswer, has_callback: cb },
            RemoteAction::CreateAnswer,
        ),
        (RemoteStage::AwaitAnswer, RemoteEvent::AnswerCreated(Some(a))) => (
            RemoteDescriptionTask { stage: RemoteStage::AwaitLocalApplied(a), has_callback: cb },
            RemoteAction::ApplyLocal(a),
        ),
        (RemoteStage::AwaitLocalApplied(a), RemoteEvent::LocalApplied(true)) => (
            RemoteDescriptionTask { stage: RemoteStage::AwaitSerialized, has_callback: cb },
            RemoteAction::SerializeAnswer(a),
        ),
        (RemoteStage::AwaitSerialized, RemoteEvent::AnswerSerialized(Some(text))) => (
            done,
            if cb {
                RemoteAction::DeliverAnswer(text)
            } else {
                RemoteAction::Finish
            },
        ),
        _ => (done, RemoteAction::Finish),
    }
}

/// The actions the task asks for when it is handed `events` in turn.
pub open spec fn spec_run(task: RemoteDescriptionTask, events: Seq<RemoteEvent>) -> Seq<
    RemoteAction,
>
    decreases events.len(),
{
    if events.len() == 0 {
        Seq::empty()
    } else {
        let (next, action) = spec_step(task, events[0]);
        seq![action] + spec_run(next, events.drop_first())
    }
}

/// How many of `actions` apply a local description.
pub open spec fn count_apply_local(actions: Seq<RemoteAction>) -> nat
    decreases actions.len(),
{
    if actions.len() == 0 {
        0
    } else {
        (if actions[0] is ApplyLocal {
            1nat
        } else {
            0nat
        }) + count_apply_local(actions.drop_first())
    }
}

/// How many of `actions` deliver an answer.
pub open spec fn count_deliver(actions: Seq<RemoteAction>) -> nat
    decreases actions.len(),
{
    if actions.len() == 0 {
        0
    } else {
        (if actions[0] is DeliverAnswer {
            1nat
        } else {
            0nat
        }) + count_deliver(actions.drop_first())
    }
}

impl RemoteDescriptionTask {
    /// A task that waits for its payload to be read.
    pub fn new(has_callback: bool) -> (r: Self)
        ensures
            r.stage is AwaitParsed,
            r.has_callback == has_callback,
    {
        RemoteDescriptionTask { stage: RemoteStage::AwaitParsed, has_callback }
    }

    /// Whether the task is over.
    pub fn is_finished(&self) -> (r: bool)
        ensures
            r == self.stage is Finished,
    {
        match self.stage {
            RemoteStage::Finished => true,
            _ => false,
        }
    }

    /// Takes the engine's report and answers with the next action.
    ///
    /// A parsed description is applied; an applied offer is answered; the
    /// answer is applied locally, serialized, and delivered when a callback is
    /// registered. Any failure, an applied description that is not an offer,
    /// or an event the stage does not wait for ends the task.
    pub fn step(self, event: RemoteEvent) -> (r: (Self, RemoteAction))
        ensures
            r == spec_step(self, event),
    {
        let cb = self.has_callback;
        let done = RemoteDescriptionTask { stage: RemoteStage::Finished, has_callback: cb };
        match (self.stage, event) {
            (RemoteStage::AwaitParsed, RemoteEvent::Parsed(Some(d))) => (
                RemoteDescriptionTask { stage: RemoteStage::AwaitRemoteApplied, has_callback: cb },
                RemoteAction::ApplyRemote(d),
            ),
            (RemoteStage::AwaitRemoteApplied, RemoteEvent::RemoteApplied(Some(t))) => {
                if t == RTCSdpType::Offer {
                    (
                        RemoteDescriptionTask { stage: RemoteStage::AwaitAnswer, has_callback: cb },
                        RemoteAction::CreateAnswer,
                    )
                } else {
                    (done, RemoteAction::Finish)
                }
            },
            (RemoteStage::AwaitAnswer, RemoteEvent::AnswerCreated(Some(a))) => {
                let kept = a.duplicate();
                (
                    RemoteDescriptionTask {
                        stage: RemoteStage::AwaitLocalApplied(kept),
                        has_callback: cb,
                    },
                    RemoteAction::ApplyLocal(a),
                )
            },
            (RemoteStage::AwaitLocalApplied(a), RemoteEvent::LocalApplied(ok)) => {
                if ok {
                    (
                        RemoteDescriptionTask { stage: RemoteStage::AwaitSerialized, has_callback: cb },
                        RemoteAction::SerializeAnswer(a),
                    )
                } else {
                    (done, RemoteAction::Finish)
                }
            },
            (RemoteStage::AwaitSerialized, RemoteEvent::AnswerSerialized(Some(text))) => {
                if cb {
                    (done, RemoteAction::DeliverAnswer(text))
                } else {
                    (done, RemoteAction::Finish)
                }
            },
            _ => (done, RemoteAction::Finish),
        }
    }
}

/// How many local descriptions a task in `stage` may still apply.
pub open spec fn local_budget(stage: RemoteStage) -> nat {
    match stage {
        RemoteStage::AwaitParsed | RemoteStage::AwaitRemoteApplied | RemoteStage::AwaitAnswer => 1,
        _ => 0,
    }
}

/// How many answers a task in `stage` may still deliver.
pub open spec fn deliver_budget(stage: RemoteStage) -> nat {
    match stage {
        RemoteStage::Finished => 0,
        _ => 1,
    }
}

proof fn lemma_run_unfold(task: RemoteDescriptionTask, events: Seq<RemoteEvent>)
    requires
        events.len() > 0,
    ensures
        count_apply_local(spec_run(task, events)) == (if spec_step(task, events[0]).1 is ApplyLocal {
            1nat
        } else {
            0nat
        }) + count_apply_local(spec_run(spec_step(task, events[0]).0, events.drop_first())),
        count_deliver(spec_run(task, events)) == (if spec_step(task, events[0]).1 is DeliverAnswer {
            1nat
        } else {
            0nat
        }) + count_deliver(spec_run(spec_step(task, events[0]).0, events.drop_first())),
{
    let (next, action) = spec_step(task, events[0]);
    let s = spec_run(task, events);
    assert(s =~= seq![action] + spec_run(next, events.drop_first()));
    assert(s.drop_first() =~= spec_run(next, events.drop_first()));
}

/// Within the remaining budgets: a run never applies more local descriptions
/// or delivers more answers than its starting stage allows.
proof fn lemma_run_within_budget(task: RemoteDescriptionTask, events: Seq<RemoteEvent>)
    ensures
        count_apply_local(spec_run(task, events)) <= local_budget(task.stage),
        count_deliver(spec_run(task, events)) <= deliver_budget(task.stage),
    decreases events.len(),
{
    if events.len() > 0 {
        lemma_run_unfold(task, events);
        lemma_run_within_budget(spec_step(task, events[0]).0, events.drop_first());
    }
}

/// Whatever the engine reports, one remote-description task applies at most
/// one local description and delivers at most one answer.
pub proof fn lemma_at_most_one_answer(has_callback: bool, events: Seq<RemoteEvent>)
    ensures
        count_apply_local(
            spec_run(RemoteDescriptionTask { stage: RemoteStage::AwaitParsed, has_callback }, events),
        ) <= 1,
        count_deliver(
            spec_run(RemoteDescriptionTask { stage: RemoteStage::AwaitParsed, has_callback }, events),
        ) <= 1,
{
    lemma_run_within_budget(
        RemoteDescriptionTask { stage: RemoteStage::AwaitParsed, has_callback },
        events,
    );
}

/// A well-formed offer that the engine accepts, with a callback registered,
/// leads to exactly one local description set (the generated answer) and
/// exactly one delivered answer (its text), whatever comes after.
pub proof fn lemma_offer_answered_once(
    offer: RTCSessionDescription,
    answer: RTCSessionDescription,
    text: String,
    later: Seq<RemoteEvent>,
)
    requires
        offer.sdp_type == RTCSdpType::Offer,
    ensures
        ({
            let events = seq![
                RemoteEvent::Parsed(Some(offer)),
                RemoteEvent::RemoteApplied(Some(RTCSdpType::Offer)),
                RemoteEvent::AnswerCreated(Some(answer)),
                RemoteEvent::LocalApplied(true),
                RemoteEvent::AnswerSerialized(Some(text)),
            ] + later;
            let actions = spec_run(
                RemoteDescriptionTask { stage: RemoteStage::AwaitParsed, has_callback: true },
                events,
            );
            &&& count_apply_local(actions) == 1
            &&& count_deliver(actions) == 1
            &&& actions[2] == RemoteAction::ApplyLocal(answer)
            &&& actions[4] == RemoteAction::DeliverAnswer(text)
        }),
{
    let events = seq![
        RemoteEvent::Parsed(Some(offer)),
        RemoteEvent::RemoteApplied(Some(RTCSdpType::Offer)),
        RemoteEvent::AnswerCreated(Some(answer)),
        RemoteEvent::LocalApplied(true),
        RemoteEvent::AnswerSerialized(Some(text)),
    ] + later;
    let t0 = RemoteDescriptionTask { stage: RemoteStage::AwaitParsed, has_callback: true };
    let t1 = spec_step(t0, events[0]).0;
    let e1 = events.drop_first();
    let t2 = spec_step(t1, e1[0]).0;
    let e2 = e1.drop_first();
    let t3 = spec_step(t2, e2[0]).0;
    let e3 = e2.drop_first();
    let t4 = spec_step(t3, e3[0]).0;
    let e4 = e3.drop_first();
    let t5 = spec_step(t4, e4[0]).0;
    let e5 = e4.drop_first();
    assert(e5 =~= later);
    lemma_run_unfold(t0, events);
    lemma_run_unfold(t1, e1);
    lemma_run_unfold(t2, e2);
    lemma_run_unfold(t3, e3);
    lemma_run_unfold(t4, e4);
    lemma_run_within_budget(t5, e5);
    let a = spec_run(t0, events);
    assert(a.drop_first() == spec_run(t1, e1));
    assert(a.drop_first().drop_first() == spec_run(t2, e2));
    assert(a[2] == spec_run(t2, e2)[0]);
    assert(spec_run(t2, e2).drop_first() == spec_run(t3, e3));
    assert(spec_run(t3, e3).drop_first() == spec_run(t4, e4));
    assert(a[4] == spec_run(t4, e4)[0]);
}

/// A description that the engine holds as anything but an offer (an answer,
/// say) is never answered: the task applies no local description and
/// delivers nothing, whatever comes after.
pub proof fn lemma_non_offer_not_answered(
    has_callback: bool,
    description: RTCSessionDescription,
    held: RTCSdpType,
    later: Seq<RemoteEvent>,
)
    requires
        held != RTCSdpType::Offer,
    ensures
        ({
            let actions = spec_run(
                RemoteDescriptionTask { stage: RemoteStage::AwaitParsed, has_callback },
                seq![
                    RemoteEvent::Parsed(Some(description)),
                    RemoteEvent::RemoteApplied(Some(held)),
                ] + later,
            );
            &&& count_apply_local(actions) == 0
            &&& count_deliver(actions) == 0
        }),
{
    let events = seq![RemoteEvent::Parsed(Some(description)), RemoteEvent::RemoteApplied(Some(held))]
        + later;
    let t0 = RemoteDescriptionTask { stage: RemoteStage::AwaitParsed, has_callback };
    let t1 = spec_step(t0, events[0]).0;
    let e1 = events.drop_first();
    let t2 = spec_step(t1, e1[0]).0;
    let e2 = e1.drop_first();
    lemma_run_unfold(t0, events);
    lemma_run_unfold(t1, e1);
    lemma_run_within_budget(t2, e2);
}

/// What adding a remote candidate does to the engine.
#[derive(Debug, PartialEq, Eq)]
pub enum CandidateAction {
    /// Hand this candidate to the engine.
    Apply(RTCIceCandidateInit),
    /// Leave the engine alone and notify nobody.
    Drop,
}

/// The decision on a remote candidate payload, given what reading it gave
/// (`None`: the payload was malformed). A malformed payload is dropped:
/// nothing is applied and nothing is delivered.
pub fn remote_candidate_action(parsed: Option<RTCIceCandidateInit>) -> (r: CandidateAction)
    ensures
        parsed is None <==> r is Drop,
        parsed matches Some(c) ==> r == CandidateAction::Apply(c),
{
    match parsed {
        Some(c) => CandidateAction::Apply(c),
        None => CandidateAction::Drop,
    }
}

/// What local network-path discovery reported.
#[derive(Debug, PartialEq, Eq)]
pub enum LocalCandidateEvent {
    /// A path was found; its text form (`None`: it could not be serialized).
    Found(Option<String>),
    /// Discovery is over.
    Complete,
}

/// The text to hand to the signal callback for a discovery event, if any:
/// each serialized path when a callback is registered; never the end of
/// discovery.
pub fn local_candidate_delivery(has_callback: bool, event: LocalCandidateEvent) -> (r: Option<
    String,
>)
    ensures
        r == (match event {
            LocalCandidateEvent::Found(Some(text)) => if has_callback {
                Some(text)
            } else {
                None
            },
            _ => None,
        }),
{
    match event {
        LocalCandidateEvent::Found(Some(text)) => {
            if has_callback {
                Some(text)
            } else {
                None
            }
        },
        _ => None,
    }
}

/// The label of the control channel whose messages go to the input callback.
pub const INPUT_CHANNEL_LABEL: &'static str = "input";

/// Whether an inbound channel with this label carries input for the host.
pub fn is_input_channel(label: &str) -> (r: bool)
    ensures
        r == (label@ == INPUT_CHANNEL_LABEL@),
{
    same_text(label, INPUT_CHANNEL_LABEL)
}

/// The length to report with an inbound input message of `len` bytes, or
/// `None` when it is not delivered: no input callback is registered, or the
/// length does not fit the callback's signed 32-bit length.
pub fn input_message_len(has_callback: bool, len: usize) -> (r: Option<i32>)
    ensures
        r is Some <==> has_callback && len <= i32::MAX,
        r matches Some(n) ==> n as int == len as int,
{
    if has_callback && len <= i32::MAX as usize {
        Some(len as i32)
    } else {
        None
    }
}

} // verus!
