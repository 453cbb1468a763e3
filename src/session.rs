//! The session's lifetime: the ordered steps that build it, where any failure
//! abandons the whole session, and the handle that teardown consumes.
use vstd::prelude::*;

verus! {

/// Codec of the outbound video track.
pub const VIDEO_MIME_TYPE: &'static str = "video/VP9";

/// Id of the outbound video track.
pub const VIDEO_TRACK_ID: &'static str = "video";

/// Stream id of the outbound video track.
pub const VIDEO_STREAM_ID: &'static str = "webrtc-rs";

/// Whether the control channel delivers its messages in order.
pub const INPUT_CHANNEL_ORDERED: bool = true;

/// One step of building a session.
#[derive(Clone, Copy, Debug, PartialEq, Eq, Structural)]
pub enum SetupStep {
    RegisterCodecs,
    StartRuntime,
    CreatePeerConnection,
    AddVideoTrack,
    OpenInputChannel,
}

/// Where building a session stands.
#[derive(Clone, Copy, Debug, PartialEq, Eq, Structural)]
pub enum SetupOutcome {
    InProgress,
    Ready,
    Abandoned,
}

/// The step at position `i` of the build.
pub open spec fn spec_step_at(i: int) -> SetupStep {
    if i == 0 {
        SetupStep::RegisterCodecs
    } else if i == 1 {
        SetupStep::StartRuntime
    } else if i == 2 {
        SetupStep::CreatePeerConnection
    } else if i == 3 {
        SetupStep::AddVideoTrack
    } else {
        SetupStep::OpenInputChannel
    }
}

/// The build of one session: how many steps succeeded, whether one failed,
/// and whether the control channel is part of it.
#[derive(Clone, Copy, Debug, PartialEq, Eq, Structural)]
pub struct SessionSetup {
    pub done: u8,
    pub failed: bool,
    pub with_input_channel: bool,
}

impl SessionSetup {
    /// The number of steps of the build.
    pub open spec fn spec_total(&self) -> int {
        if self.with_input_channel {
            5
        } else {
            4
        }
    }

    pub open spec fn wf(&self) -> bool {
        self.done <= self.spec_total()
    }

    /// Whether the build still waits for a step's result.
    pub open spec fn spec_running(&self) -> bool {
        !self.failed && (self.done as int) < self.spec_total()
    }

    pub open spec fn spec_outcome(&self) -> SetupOutcome {
        if self.failed {
            SetupOutcome::Abandoned
        } else if self.done as int == self.spec_total() {
            SetupOutcome::Ready
        } else {
            SetupOutcome::InProgress
        }
    }

    /// The build after the running step reported `ok`; a stopped build stays.
    pub open spec fn spec_record(self, ok: bool) -> Self {
        if !self.spec_running() {
            self
        } else if ok {
            SessionSetup { done: (self.done + 1) as u8, ..self }
        } else {
            SessionSetup { failed: true, ..self }
        }
    }

    /// The build after the steps reported `results` in turn.
    pub open spec fn spec_feed(self, results: Seq<bool>) -> Self
        decreases results.len(),
    {
        if results.len() == 0 {
            self
        } else {
            self.spec_record(results[0]).spec_feed(results.drop_first())
        }
    }

    /// A build that has not started.
    pub fn new(with_input_channel: bool) -> (r: Self)
        ensures
            r.done == 0,
            !r.failed,
            r.with_input_channel == with_input_channel,
            r.wf(),
    {
        SessionSetup { done: 0, failed: false, with_input_channel }
    }

    /// The step to run next, or `None` once the build is ready or abandoned.
    pub fn next_step(&self) -> (r: Option<SetupStep>)
        requires
            self.wf(),
        ensures
            r is Some <==> self.spec_running(),
            r matches Some(s) ==> s == spec_step_at(self.done as int),
    {
        let total: u8 = if self.with_input_channel {
            5
        } else {
            4
        };
        if self.failed || self.done >= total {
            None
        } else if self.done == 0 {
            Some(SetupStep::RegisterCodecs)
        } else if self.done == 1 {
            Some(SetupStep::StartRuntime)
        } else if self.done == 2 {
            Some(SetupStep::CreatePeerConnection)
        } else if self.done == 3 {
            Some(SetupStep::AddVideoTrack)
        } else {
            Some(SetupStep::OpenInputChannel)
        }
    }

    /// Records the result of the running step; a failure abandons the build.
    pub fn record(&mut self, ok: bool)
        requires
            old(self).wf(),
        ensures
            *final(self) == old(self).spec_record(ok),
            final(self).wf(),
    {
        let total: u8 = if self.with_input_channel {
            5
        } else {
            4
        };
        if self.failed || self.done >= total {
            return ;
        }
        if ok {
            self.done = self.done + 1;
        } else {
            self.failed = true;
        }
    }

    /// Whether the session is built, abandoned, or still being built.
    pub fn outcome(&self) -> (r: SetupOutcome)
        requires
            self.wf(),
        ensures
            r == self.spec_outcome(),
    {
        let total: u8 = if self.with_input_channel {
            5
        } else {
            4
        };
        if self.failed {
            SetupOutcome::Abandoned
        } else if self.done == total {
            SetupOutcome::Ready
        } else {
            SetupOutcome::InProgress
        }
    }
}

proof fn lemma_feed_from(s: SessionSetup, results: Seq<bool>)
    requires
        s.wf(),
        !s.failed,
    ensures
        s.spec_feed(results).wf(),
        s.spec_feed(results).spec_outcome() == SetupOutcome::Ready <==> {
            &&& results.len() >= s.spec_total() - s.done
            &&& forall|i: int| 0 <= i < s.spec_total() - s.done ==> #[trigger] results[i]
        },
        s.spec_feed(results).spec_outcome() == SetupOutcome::Abandoned <==> exists|i: int|
            0 <= i < s.spec_total() - s.done && i < results.len() && !#[trigger] results[i]
                && forall|j: int| 0 <= j < i ==> #[trigger] results[j],
    decreases results.len(),
{
    if results.len() == 0 {
    } else if s.done as int == s.spec_total() {
        lemma_feed_stopped(s, results);
    } else {
        let t = s.spec_record(results[0]);
        let rest = results.drop_first();
        if results[0] {
            lemma_feed_from(t, rest);
            if exists|i: int|
                0 <= i < s.spec_total() - s.done && i < results.len() && !#[trigger] results[i]
                    && forall|j: int| 0 <= j < i ==> #[trigger] results[j] {
                let i = choose|i: int|
                    0 <= i < s.spec_total() - s.done && i < results.len() && !#[trigger] results[i]
                        && forall|j: int| 0 <= j < i ==> #[trigger] results[j];
                assert(i > 0);
                assert(!rest[i - 1]);
                assert forall|j: int| 0 <= j < i - 1 implies #[trigger] rest[j] by {
                    assert(results[j + 1]);
                }
            }
            if exists|i: int|
                0 <= i < t.spec_total() - t.done && i < rest.len() && !#[trigger] rest[i]
                    && forall|j: int| 0 <= j < i ==> #[trigger] rest[j] {
                let i = choose|i: int|
                    0 <= i < t.spec_total() - t.done && i < rest.len() && !#[trigger] rest[i]
                        && forall|j: int| 0 <= j < i ==> #[trigger] rest[j];
                assert(!results[i + 1]);
                assert forall|j: int| 0 <= j < i + 1 implies #[trigger] results[j] by {
                    if j > 0 {
                        assert(rest[j - 1]);
                    }
                }
            }
            if results.len() >= s.spec_total() - s.done && forall|i: int|
                0 <= i < s.spec_total() - s.done ==> #[trigger] results[i] {
                assert forall|i: int| 0 <= i < t.spec_total() - t.done implies #[trigger] rest[i] by {
                    assert(results[i + 1]);
                }
            }
        } else {
            lemma_feed_stopped(t, rest);
            assert(!results[0] && forall|j: int| 0 <= j < 0 ==> #[trigger] results[j]);
        }
    }
}

proof fn lemma_feed_stopped(s: SessionSetup, results: Seq<bool>)
    requires
        !s.spec_running(),
    ensures
        s.spec_feed(results) == s,
    decreases results.len(),
{
    if results.len() > 0 {
        lemma_feed_stopped(s.spec_record(results[0]), results.drop_first());
    }
}

/// A session is handed out only when every step of its build succeeded; the
/// first failure abandons it, whatever follows, so no partly built session
/// is ever ready.
pub proof fn lemma_setup_all_or_nothing(with_input_channel: bool, results: Seq<bool>)
    ensures
        ({
            let s = SessionSetup { done: 0, failed: false, with_input_channel };
            let end = s.spec_feed(results);
            &&& end.spec_outcome() == SetupOutcome::Ready <==> results.len() >= s.spec_total()
                && forall|i: int| 0 <= i < s.spec_total() ==> #[trigger] results[i]
            &&& end.spec_outcome() == SetupOutcome::Abandoned <==> exists|i: int|
                0 <= i < s.spec_total() && i < results.len() && !#[trigger] results[i]
                    && forall|j: int| 0 <= j < i ==> #[trigger] results[j]
        }),
{
    lemma_feed_from(SessionSetup { done: 0, failed: false, with_input_channel }, results);
}

/// The unit of lifetime handed to the host: it holds a session until
/// teardown consumes it, so teardown happens at most once.
#[derive(Debug)]
pub struct SessionHandle<S> {
    pub inner: Option<S>,
}

impl<S> SessionHandle<S> {
    /// A handle holding `session`.
    pub fn new(session: S) -> (r: Self)
        ensures
            r.inner == Some(session),
    {
        SessionHandle { inner: Some(session) }
    }

    /// Whether the handle still holds a session.
    pub fn is_live(&self) -> (r: bool)
        ensures
            r == self.inner is Some,
    {
        self.inner.is_some()
    }

    /// The session, for a call that only reads it.
    pub fn session(&self) -> (r: Option<&S>)
        ensures
            r == (match self.inner {
                Some(s) => Some(&s),
                None => None,
            }),
    {
        match &self.inner {
            Some(s) => Some(s),
            None => None,
        }
    }

    /// Consumes the handle and gives back its session, whose engine the
    /// caller closes before dropping it; the handle cannot be used again.
    pub fn destroy(self) -> (r: Option<S>)
        ensures
            r == self.inner,
    {
        self.inner
    }
}

} // verus!
