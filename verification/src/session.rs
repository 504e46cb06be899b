//! The session lifecycle controller.
//!
//! One dictation session runs record -> transcribe -> inject, driven by a
//! small set of named external events. The controller itself performs no
//! I/O: each transition returns the list of side-effect actions the caller
//! must carry out, in order, and the full action history is kept so the
//! ordering guarantees (start cue before capture, capture stop before stop
//! cue, overlay gone before the stop cue) can be stated and proved.

use vstd::prelude::*;

verus! {

/// The per-session controller state. Transitions are strictly linear,
/// except that every non-terminal state may fall directly to `Terminated`
/// on cancellation or failure.
#[derive(Debug, Clone, Copy, PartialEq, Eq, Structural)]
pub enum ControllerState {
    Idle,
    Recording,
    Transcribing,
    Injecting,
    Terminated,
}

/// A side effect the caller must perform. The controller only decides and
/// sequences these; the caller executes them in the order returned.
#[derive(Debug, Clone, Copy, PartialEq, Eq, Structural)]
pub enum Action {
    /// Play the start cue and wait until it has audibly finished.
    PlayStartCue,
    /// Begin audio capture.
    StartCapture,
    /// Start the visual overlay process (best effort).
    SpawnOverlay,
    /// Start loading the transcription model on a worker.
    StartPreload,
    /// Terminate the overlay process (no-op when it never started).
    TerminateOverlay,
    /// Stop audio capture and retrieve the sample buffer.
    StopCapture,
    /// Stop audio capture and discard whatever was recorded.
    DiscardCapture,
    /// Play the stop cue and wait until it has audibly finished.
    PlayStopCue,
    /// Join the preload worker, obtaining the model load result.
    JoinPreload,
    /// Run the transcription engine over the captured samples.
    Transcribe,
    /// Deliver the transcribed text to the focused application.
    DeliverText,
    /// Remove the lock file.
    ReleaseLock,
}

/// How the process should exit once the session is `Terminated`.
#[derive(Debug, Clone, Copy, PartialEq, Eq, Structural)]
pub enum ExitStatus {
    Success,
    Failure,
}

/// The named external events the controller waits for. Exactly one event
/// resolves each wait, and it is consumed exactly once.
pub enum SessionEvent {
    /// The lock file was created by this invocation: the session starts.
    LockAcquired,
    /// Audio capture could not be started.
    CaptureStartFailed,
    /// Abort was received (interrupt or termination request).
    AbortReceived,
    /// Toggle was received from a second invocation.
    ToggleReceived,
    /// Capture stopped; the buffer holds `sample_count` samples and the
    /// preload worker reported `preload_ok`.
    CaptureStopped { sample_count: usize, preload_ok: bool },
    /// The transcription engine failed.
    TranscriptionFailed,
    /// The transcription engine produced this text (possibly empty).
    TranscriptionProduced(String),
    /// Text delivery finished, successfully or not.
    DeliveryFinished { delivered: bool },
}

/// The mathematical model of a controller: its state, the exit status once
/// terminated, whether the transcription engine has been invoked, and the
/// full history of actions issued so far.
#[verifier::ext_equal]
pub struct SessionModel {
    pub state: ControllerState,
    pub history: Seq<Action>,
    pub exit: Option<ExitStatus>,
    pub transcribe_issued: bool,
}

/// Actions issued when the session starts: the start cue completes before
/// capture begins, and the preload starts together with capture.
pub open spec fn start_actions() -> Seq<Action> {
    seq![
        Action::PlayStartCue,
        Action::StartCapture,
        Action::SpawnOverlay,
        Action::StartPreload,
    ]
}

/// Actions issued on Toggle: the overlay goes first, capture stops before
/// the stop cue plays, and the preload result is joined last.
pub open spec fn toggle_actions() -> Seq<Action> {
    seq![
        Action::TerminateOverlay,
        Action::StopCapture,
        Action::PlayStopCue,
        Action::JoinPreload,
    ]
}

/// Actions issued on Abort: overlay down, capture discarded, lock released.
pub open spec fn abort_actions() -> Seq<Action> {
    seq![Action::TerminateOverlay, Action::DiscardCapture, Action::ReleaseLock]
}

impl SessionModel {
    /// The model of a freshly constructed controller.
    pub open spec fn initial() -> SessionModel {
        SessionModel {
            state: ControllerState::Idle,
            history: Seq::<Action>::empty(),
            exit: None,
            transcribe_issued: false,
        }
    }

    /// Which events are legal in which state. While `Recording` the
    /// controller waits for exactly one of Toggle, Abort, or a capture
    /// failure; once `Transcribing` begins no cancellation is accepted.
    pub open spec fn accepts(self, ev: SessionEvent) -> bool {
        match ev {
            SessionEvent::LockAcquired => self.state is Idle,
            SessionEvent::CaptureStartFailed => self.state is Recording,
            SessionEvent::AbortReceived => self.state is Recording,
            SessionEvent::ToggleReceived => self.state is Recording,
            SessionEvent::CaptureStopped { .. } => self.state is Transcribing
                && !self.transcribe_issued,
            SessionEvent::TranscriptionFailed => self.state is Transcribing
                && self.transcribe_issued,
            SessionEvent::TranscriptionProduced(_) => self.state is Transcribing
                && self.transcribe_issued,
            SessionEvent::DeliveryFinished { .. } => self.state is Injecting,
        }
    }

    /// The actions a legal event gives rise to.
    pub open spec fn actions_of(self, ev: SessionEvent) -> Seq<Action> {
        match ev {
            SessionEvent::LockAcquired => start_actions(),
            SessionEvent::CaptureStartFailed => seq![
                Action::TerminateOverlay,
                Action::ReleaseLock,
            ],
            SessionEvent::AbortReceived => abort_actions(),
            SessionEvent::ToggleReceived => toggle_actions(),
            SessionEvent::CaptureStopped { sample_count, preload_ok } => {
                if sample_count == 0 || !preload_ok {
                    seq![Action::ReleaseLock]
                } else {
                    seq![Action::Transcribe]
                }
            },
            SessionEvent::TranscriptionFailed => seq![Action::ReleaseLock],
            SessionEvent::TranscriptionProduced(text) => {
                if text@.len() == 0 {
                    seq![Action::ReleaseLock]
                } else {
                    seq![Action::DeliverText]
                }
            },
            SessionEvent::DeliveryFinished { .. } => seq![Action::ReleaseLock],
        }
    }

    /// The state a legal event leads to.
    pub open spec fn next_state(self, ev: SessionEvent) -> ControllerState {
        match ev {
            SessionEvent::LockAcquired => ControllerState::Recording,
            SessionEvent::CaptureStartFailed => ControllerState::Terminated,
            SessionEvent::AbortReceived => ControllerState::Terminated,
            SessionEvent::ToggleReceived => ControllerState::Transcribing,
            SessionEvent::CaptureStopped { sample_count, preload_ok } => {
                if sample_count == 0 || !preload_ok {
                    ControllerState::Terminated
                } else {
                    ControllerState::Transcribing
                }
            },
            SessionEvent::TranscriptionFailed => ControllerState::Terminated,
            SessionEvent::TranscriptionProduced(text) => {
                if text@.len() == 0 {
                    ControllerState::Terminated
                } else {
                    ControllerState::Injecting
                }
            },
            SessionEvent::DeliveryFinished { .. } => ControllerState::Terminated,
        }
    }

    /// The exit status after a legal event. `None` while the session is
    /// still running. Every normal-completion path exits successfully,
    /// including "no speech detected" and "delivery failed but logged";
    /// capture-start failure, model failure and transcription failure exit
    /// with failure.
    pub open spec fn next_exit(self, ev: SessionEvent) -> Option<ExitStatus> {
        match ev {
            SessionEvent::LockAcquired => None,
            SessionEvent::CaptureStartFailed => Some(ExitStatus::Failure),
            SessionEvent::AbortReceived => Some(ExitStatus::Success),
            SessionEvent::ToggleReceived => None,
            SessionEvent::CaptureStopped { sample_count, preload_ok } => {
                if sample_count == 0 {
                    Some(ExitStatus::Success)
                } else if !preload_ok {
                    Some(ExitStatus::Failure)
                } else {
                    None
                }
            },
            SessionEvent::TranscriptionFailed => Some(ExitStatus::Failure),
            SessionEvent::TranscriptionProduced(text) => {
                if text@.len() == 0 {
                    Some(ExitStatus::Success)
                } else {
                    None
                }
            },
            SessionEvent::DeliveryFinished { .. } => Some(ExitStatus::Success),
        }
    }

    /// The full transition: the new model, whose history is the old history
    /// extended by exactly the actions of the event.
    pub open spec fn step(self, ev: SessionEvent) -> SessionModel {
        SessionModel {
            state: self.next_state(ev),
            history: self.history + self.actions_of(ev),
            exit: self.next_exit(ev),
            transcribe_issued: self.transcribe_issued || (ev matches
                SessionEvent::CaptureStopped { sample_count, preload_ok }
                && sample_count > 0 && preload_ok),
        }
    }

    /// Well-formedness: the history corresponds exactly to the state, and
    /// the exit status is set exactly once the session is terminated.
    pub open spec fn wf(self) -> bool {
        &&& (self.state is Terminated <==> self.exit is Some)
        &&& match self.state {
            ControllerState::Idle => self.history =~= Seq::<Action>::empty()
                && !self.transcribe_issued,
            ControllerState::Recording => self.history =~= start_actions()
                && !self.transcribe_issued,
            ControllerState::Transcribing => {
                if self.transcribe_issued {
                    self.history =~= start_actions() + toggle_actions()
                        + seq![Action::Transcribe]
                } else {
                    self.history =~= start_actions() + toggle_actions()
                }
            },
            ControllerState::Injecting => self.history =~= start_actions()
                + toggle_actions() + seq![Action::Transcribe, Action::DeliverText]
                && self.transcribe_issued,
            ControllerState::Terminated => self.history.len() > 0
                && self.history.last() == Action::ReleaseLock
                && start_cue_precedes_capture(self.history)
                && capture_stop_precedes_stop_cue(self.history)
                && overlay_ends_before_stop_cue(self.history)
                && preload_joined_before_transcribe(self.history)
                && release_only_last(self.history),
        }
    }
}

/// Every `StartCapture` is preceded by a completed `PlayStartCue`: the
/// start cue's own sound is never captured as speech.
pub open spec fn start_cue_precedes_capture(h: Seq<Action>) -> bool {
    &&& forall|i: int, j: int|
        #![trigger h[i], h[j]]
        0 <= i < h.len() && 0 <= j < h.len() && h[i] == Action::PlayStartCue && h[j]
            == Action::StartCapture ==> i < j
    &&& (exists|i: int| #![trigger h[i]] 0 <= i < h.len() && h[i] == Action::StartCapture) ==> (
    exists|j: int| #![trigger h[j]] 0 <= j < h.len() && h[j] == Action::PlayStartCue)
}

/// Every `PlayStopCue` comes after a completed `StopCapture`: the stop
/// cue is never captured either.
pub open spec fn capture_stop_precedes_stop_cue(h: Seq<Action>) -> bool {
    &&& forall|i: int, j: int|
        #![trigger h[i], h[j]]
        0 <= i < h.len() && 0 <= j < h.len() && h[i] == Action::StopCapture && h[j]
            == Action::PlayStopCue ==> i < j
    &&& (exists|i: int| #![trigger h[i]] 0 <= i < h.len() && h[i] == Action::PlayStopCue) ==> (
    exists|j: int| #![trigger h[j]] 0 <= j < h.len() && h[j] == Action::StopCapture)
}

/// The overlay is terminated before the stop cue plays: visual feedback
/// never outlives the audio state it represents.
pub open spec fn overlay_ends_before_stop_cue(h: Seq<Action>) -> bool {
    forall|i: int, j: int|
        #![trigger h[i], h[j]]
        0 <= i < h.len() && 0 <= j < h.len() && h[i] == Action::TerminateOverlay && h[j]
            == Action::PlayStopCue ==> i < j
}

/// The preload result is joined before the transcription engine runs:
/// entry into transcription waits for the model load to finish, and never
/// re-triggers a load.
pub open spec fn preload_joined_before_transcribe(h: Seq<Action>) -> bool {
    &&& forall|i: int, j: int|
        #![trigger h[i], h[j]]
        0 <= i < h.len() && 0 <= j < h.len() && h[i] == Action::JoinPreload && h[j]
            == Action::Transcribe ==> i < j
    &&& (exists|i: int| #![trigger h[i]] 0 <= i < h.len() && h[i] == Action::Transcribe) ==> (
    exists|j: int| #![trigger h[j]] 0 <= j < h.len() && h[j] == Action::JoinPreload)
}

/// The lock is released at most once, and only as the very last action.
pub open spec fn release_only_last(h: Seq<Action>) -> bool {
    forall|i: int|
        #![trigger h[i]]
        0 <= i < h.len() && h[i] == Action::ReleaseLock ==> i == h.len() - 1
}

/// The session lifecycle controller. It owns no device or file: it decides,
/// and its caller performs the returned actions in order.
pub struct SessionController {
    state: ControllerState,
    history: Vec<Action>,
    exit: Option<ExitStatus>,
    transcribe_issued: bool,
}

impl View for SessionController {
    type V = SessionModel;

    closed spec fn view(&self) -> SessionModel {
        SessionModel {
            state: self.state,
            history: self.history@,
            exit: self.exit,
            transcribe_issued: self.transcribe_issued,
        }
    }
}

impl SessionController {
    /// A controller before lock acquisition: conceptually `Idle`.
    pub fn new() -> (s: SessionController)
        ensures
            s@ == SessionModel::initial(),
            s@.wf(),
    {
        let s = SessionController {
            state: ControllerState::Idle,
            history: Vec::new(),
            exit: None,
            transcribe_issued: false,
        };
        proof {
            assert(s@ =~= SessionModel::initial());
        }
        s
    }

    /// The current state.
    pub fn state(&self) -> (st: ControllerState)
        ensures
            st == self@.state,
    {
        self.state
    }

    /// The full action history issued so far, in order.
    pub fn history(&self) -> (h: &Vec<Action>)
        ensures
            h@ == self@.history,
    {
        &self.history
    }

    /// The process exit code once the session is terminated: 0 for every
    /// normal-completion path, 1 for lock, audio-start, model and
    /// transcription failures.
    pub fn exit_code(&self) -> (c: Option<u8>)
        ensures
            c == Some(0u8) <==> self@.exit == Some(ExitStatus::Success),
            c == Some(1u8) <==> self@.exit == Some(ExitStatus::Failure),
            c is None <==> self@.exit is None,
    {
        match self.exit {
            None => None,
            Some(ExitStatus::Success) => Some(0),
            Some(ExitStatus::Failure) => Some(1),
        }
    }

    /// Feed one event into the controller. The returned actions must be
    /// performed by the caller, in order, before the next event is fed.
    pub fn handle(&mut self, ev: SessionEvent) -> (acts: Vec<Action>)
        requires
            old(self)@.wf(),
            old(self)@.accepts(ev),
        ensures
            final(self)@ == old(self)@.step(ev),
            acts@ == old(self)@.actions_of(ev),
            final(self)@.wf(),
            final(self)@.history == old(self)@.history + acts@,
    {
        let ghost pre = self@;
        let mut acts: Vec<Action> = Vec::new();
        match &ev {
            SessionEvent::LockAcquired => {
                acts.push(Action::PlayStartCue);
                acts.push(Action::StartCapture);
                acts.push(Action::SpawnOverlay);
                acts.push(Action::StartPreload);
                self.state = ControllerState::Recording;
            },
            SessionEvent::CaptureStartFailed => {
                acts.push(Action::TerminateOverlay);
                acts.push(Action::ReleaseLock);
                self.state = ControllerState::Terminated;
                self.exit = Some(ExitStatus::Failure);
            },
            SessionEvent::AbortReceived => {
                acts.push(Action::TerminateOverlay);
                acts.push(Action::DiscardCapture);
                acts.push(Action::ReleaseLock);
                self.state = ControllerState::Terminated;
                self.exit = Some(ExitStatus::Success);
            },
            SessionEvent::ToggleReceived => {
                acts.push(Action::TerminateOverlay);
                acts.push(Action::StopCapture);
                acts.push(Action::PlayStopCue);
                acts.push(Action::JoinPreload);
                self.state = ControllerState::Transcribing;
            },
            SessionEvent::CaptureStopped { sample_count, preload_ok } => {
                if *sample_count == 0 {
                    acts.push(Action::ReleaseLock);
                    self.state = ControllerState::Terminated;
                    self.exit = Some(ExitStatus::Success);
                } else if !*preload_ok {
                    acts.push(Action::ReleaseLock);
                    self.state = ControllerState::Terminated;
                    self.exit = Some(ExitStatus::Failure);
                } else {
                    acts.push(Action::Transcribe);
                    self.transcribe_issued = true;
                }
            },
            SessionEvent::TranscriptionFailed => {
                acts.push(Action::ReleaseLock);
                self.state = ControllerState::Terminated;
                self.exit = Some(ExitStatus::Failure);
            },
            SessionEvent::TranscriptionProduced(text) => {
                if text.as_str().is_empty() {
                    acts.push(Action::ReleaseLock);
                    self.state = ControllerState::Terminated;
                    self.exit = Some(ExitStatus::Success);
                } else {
                    acts.push(Action::DeliverText);
                    self.state = ControllerState::Injecting;
                }
            },
            SessionEvent::DeliveryFinished { .. } => {
                acts.push(Action::ReleaseLock);
                self.state = ControllerState::Terminated;
                self.exit = Some(ExitStatus::Success);
            },
        }
        let mut k: usize = 0;
        while k < acts.len()
            invariant
                0 <= k <= acts.len(),
                self@.state == pre.step(ev).state,
                self@.exit == pre.step(ev).exit,
                self@.transcribe_issued == pre.step(ev).transcribe_issued,
                acts@ == pre.actions_of(ev),
                self@.history == pre.history + acts@.take(k as int),
            decreases acts.len() - k,
        {
            let a = acts[k];
            self.history.push(a);
            k = k + 1;
            proof {
                assert(self@.history =~= pre.history + acts@.take(k as int));
            }
        }
        proof {
            assert(acts@.take(acts@.len() as int) =~= acts@);
            assert(self@ =~= pre.step(ev));
            assert(self@.wf()) by {
                lemma_step_preserves_wf(pre, ev);
            }
        }
        acts
    }
}

/// A legal step from a well-formed model yields a well-formed model.
pub proof fn lemma_step_preserves_wf(s: SessionModel, ev: SessionEvent)
    requires
        s.wf(),
        s.accepts(ev),
    ensures
        s.step(ev).wf(),
{
    let m = s.step(ev);
    match ev {
        SessionEvent::LockAcquired => {
        },
        SessionEvent::CaptureStartFailed => {
            let t = seq![Action::TerminateOverlay, Action::ReleaseLock];
            assert(m.history =~= start_actions() + t);
            lemma_ordering_after_start(m.history, t);
            assert(m.history.last() == Action::ReleaseLock);
        },
        SessionEvent::AbortReceived => {
            assert(m.history =~= start_actions() + abort_actions());
            lemma_ordering_after_start(m.history, abort_actions());
            assert(m.history.last() == Action::ReleaseLock);
        },
        SessionEvent::ToggleReceived => {
        },
        SessionEvent::CaptureStopped { sample_count, preload_ok } => {
            if sample_count == 0 || !preload_ok {
                let t = seq![Action::ReleaseLock];
                assert(m.history =~= start_actions() + toggle_actions() + t);
                lemma_ordering_after_toggle(m.history, t);
                assert(m.history.last() == Action::ReleaseLock);
            }
        },
        SessionEvent::TranscriptionFailed => {
            let t = seq![Action::Transcribe, Action::ReleaseLock];
            assert(m.history =~= start_actions() + toggle_actions() + t);
            lemma_ordering_after_toggle(m.history, t);
            assert(m.history.last() == Action::ReleaseLock);
        },
        SessionEvent::TranscriptionProduced(text) => {
            if text@.len() == 0 {
                let t = seq![Action::Transcribe, Action::ReleaseLock];
                assert(m.history =~= start_actions() + toggle_actions() + t);
                lemma_ordering_after_toggle(m.history, t);
                assert(m.history.last() == Action::ReleaseLock);
            } else {
                assert(m.history =~= start_actions() + toggle_actions() + seq![
                    Action::Transcribe,
                    Action::DeliverText,
                ]);
            }
        },
        SessionEvent::DeliveryFinished { .. } => {
            let t = seq![Action::Transcribe, Action::DeliverText, Action::ReleaseLock];
            assert(m.history =~= start_actions() + toggle_actions() + t);
            lemma_ordering_after_toggle(m.history, t);
            assert(m.history.last() == Action::ReleaseLock);
        },
    }
}

/// The ordering guarantees hold of every well-formed session, whatever
/// path it took: the start cue finishes before capture begins, capture
/// stops before the stop cue plays, the overlay is gone before the stop
/// cue, transcription waits for the preload result, and the lock is
/// released only as the final action.
pub proof fn lemma_session_ordering(s: SessionModel)
    requires
        s.wf(),
    ensures
        start_cue_precedes_capture(s.history),
        capture_stop_precedes_stop_cue(s.history),
        overlay_ends_before_stop_cue(s.history),
        preload_joined_before_transcribe(s.history),
        release_only_last(s.history),
{
    let h = s.history;
    match s.state {
        ControllerState::Idle => {
            assert(h =~= Seq::<Action>::empty());
            lemma_ordering_empty(h);
        },
        ControllerState::Recording => {
            assert(h =~= start_actions() + Seq::<Action>::empty());
            lemma_ordering_after_start(h, Seq::<Action>::empty());
        },
        ControllerState::Transcribing => {
            if s.transcribe_issued {
                lemma_ordering_after_toggle(h, seq![Action::Transcribe]);
            } else {
                assert(h =~= start_actions() + toggle_actions() + Seq::<Action>::empty());
                lemma_ordering_after_toggle(h, Seq::<Action>::empty());
            }
        },
        ControllerState::Injecting => {
            lemma_ordering_after_toggle(h, seq![Action::Transcribe, Action::DeliverText]);
        },
        ControllerState::Terminated => {
        },
    }
}

/// The ordering predicates hold vacuously of the empty history.
proof fn lemma_ordering_empty(h: Seq<Action>)
    requires
        h == Seq::<Action>::empty(),
    ensures
        start_cue_precedes_capture(h),
        capture_stop_precedes_stop_cue(h),
        overlay_ends_before_stop_cue(h),
        preload_joined_before_transcribe(h),
        release_only_last(h),
{
}

/// The ordering predicates for a history that stopped before Toggle: the
/// start batch followed by a teardown tail.
proof fn lemma_ordering_after_start(h: Seq<Action>, t: Seq<Action>)
    requires
        h == start_actions() + t,
        forall|i: int|
            #![trigger t[i]]
            0 <= i < t.len() ==> t[i] == Action::TerminateOverlay || t[i]
                == Action::DiscardCapture || t[i] == Action::ReleaseLock,
        forall|i: int|
            #![trigger t[i]]
            0 <= i < t.len() && t[i] == Action::ReleaseLock ==> i == t.len() - 1,
    ensures
        start_cue_precedes_capture(h),
        capture_stop_precedes_stop_cue(h),
        overlay_ends_before_stop_cue(h),
        preload_joined_before_transcribe(h),
        release_only_last(h),
{
    assert(h.len() == 4 + t.len());
    assert(h[0] == Action::PlayStartCue);
    assert(h[1] == Action::StartCapture);
    assert(h[2] == Action::SpawnOverlay);
    assert(h[3] == Action::StartPreload);
    assert forall|i: int| #![trigger h[i]] 4 <= i < h.len() implies h[i] == t[i - 4] by {}
    assert forall|i: int, j: int|
        0 <= i < h.len() && 0 <= j < h.len() && h[i] == Action::PlayStartCue && h[j]
            == Action::StartCapture implies i < j by {
        if i >= 4 {
            assert(h[i] == t[i - 4]);
            assert(false);
        }
        if j >= 4 {
            assert(h[j] == t[j - 4]);
            assert(false);
        }
        assert(i == 0 || i == 1 || i == 2 || i == 3);
        assert(j == 0 || j == 1 || j == 2 || j == 3);
    }
    assert forall|i: int| 0 <= i < h.len() implies h[i] != Action::PlayStopCue
        && h[i] != Action::StopCapture && h[i] != Action::Transcribe
        && h[i] != Action::JoinPreload by {
        if i >= 4 {
            assert(h[i] == t[i - 4]);
        } else {
            assert(i == 0 || i == 1 || i == 2 || i == 3);
        }
    }
    assert forall|i: int| 0 <= i < h.len() && h[i] == Action::ReleaseLock implies i == h.len()
        - 1 by {
        if i >= 4 {
            assert(h[i] == t[i - 4]);
        } else {
            assert(i == 0 || i == 1 || i == 2 || i == 3);
            assert(false);
        }
    }
}

/// The ordering predicates for a history that went through Toggle: the
/// start and toggle batches followed by a transcription-and-teardown tail.
proof fn lemma_ordering_after_toggle(h: Seq<Action>, t: Seq<Action>)
    requires
        h == start_actions() + toggle_actions() + t,
        forall|i: int|
            #![trigger t[i]]
            0 <= i < t.len() ==> t[i] == Action::Transcribe || t[i] == Action::DeliverText
                || t[i] == Action::ReleaseLock,
        forall|i: int|
            #![trigger t[i]]
            0 <= i < t.len() && t[i] == Action::ReleaseLock ==> i == t.len() - 1,
    ensures
        start_cue_precedes_capture(h),
        capture_stop_precedes_stop_cue(h),
        overlay_ends_before_stop_cue(h),
        preload_joined_before_transcribe(h),
        release_only_last(h),
{
    assert(h.len() == 8 + t.len());
    assert(h[0] == Action::PlayStartCue);
    assert(h[1] == Action::StartCapture);
    assert(h[2] == Action::SpawnOverlay);
    assert(h[3] == Action::StartPreload);
    assert(h[4] == Action::TerminateOverlay);
    assert(h[5] == Action::StopCapture);
    assert(h[6] == Action::PlayStopCue);
    assert(h[7] == Action::JoinPreload);
    assert forall|i: int| #![trigger h[i]] 8 <= i < h.len() implies h[i] == t[i - 8] by {}
    assert forall|i: int, j: int|
        0 <= i < h.len() && 0 <= j < h.len() && h[i] == Action::PlayStartCue && h[j]
            == Action::StartCapture implies i < j by {
        lemma_toggle_index(h, t, i);
        lemma_toggle_index(h, t, j);
    }
    assert forall|i: int, j: int|
        0 <= i < h.len() && 0 <= j < h.len() && h[i] == Action::StopCapture && h[j]
            == Action::PlayStopCue implies i < j by {
        lemma_toggle_index(h, t, i);
        lemma_toggle_index(h, t, j);
    }
    assert forall|i: int, j: int|
        0 <= i < h.len() && 0 <= j < h.len() && h[i] == Action::TerminateOverlay && h[j]
            == Action::PlayStopCue implies i < j by {
        lemma_toggle_index(h, t, i);
        lemma_toggle_index(h, t, j);
    }
    assert forall|i: int, j: int|
        0 <= i < h.len() && 0 <= j < h.len() && h[i] == Action::JoinPreload && h[j]
            == Action::Transcribe implies i < j by {
        lemma_toggle_index(h, t, i);
        lemma_toggle_index(h, t, j);
    }
    assert forall|i: int| 0 <= i < h.len() && h[i] == Action::ReleaseLock implies i == h.len()
        - 1 by {
        lemma_toggle_index(h, t, i);
    }
}

/// Which actions can stand at which index of a toggled history.
proof fn lemma_toggle_index(h: Seq<Action>, t: Seq<Action>, i: int)
    requires
        h == start_actions() + toggle_actions() + t,
        forall|k: int|
            #![trigger t[k]]
            0 <= k < t.len() ==> t[k] == Action::Transcribe || t[k] == Action::DeliverText
                || t[k] == Action::ReleaseLock,
        forall|k: int|
            #![trigger t[k]]
            0 <= k < t.len() && t[k] == Action::ReleaseLock ==> k == t.len() - 1,
        0 <= i < h.len(),
    ensures
        h[i] == Action::PlayStartCue ==> i == 0,
        h[i] == Action::StartCapture ==> i == 1,
        h[i] == Action::TerminateOverlay ==> i == 4,
        h[i] == Action::StopCapture ==> i == 5,
        h[i] == Action::PlayStopCue ==> i == 6,
        h[i] == Action::JoinPreload ==> i == 7,
        h[i] == Action::Transcribe ==> i >= 8,
        h[i] == Action::ReleaseLock ==> i == h.len() - 1,
{
    assert(h.len() == 8 + t.len());
    if i >= 8 {
        assert(h[i] == t[i - 8]);
    } else {
        assert(i == 0 || i == 1 || i == 2 || i == 3 || i == 4 || i == 5 || i == 6 || i == 7);
        assert(h[0] == Action::PlayStartCue);
        assert(h[1] == Action::StartCapture);
        assert(h[2] == Action::SpawnOverlay);
        assert(h[3] == Action::StartPreload);
        assert(h[4] == Action::TerminateOverlay);
        assert(h[5] == Action::StopCapture);
        assert(h[6] == Action::PlayStopCue);
        assert(h[7] == Action::JoinPreload);
    }
}

/// Every terminated session has released the lock, as its final action.
pub proof fn lemma_terminated_releases_lock(s: SessionModel)
    requires
        s.wf(),
        s.state is Terminated,
    ensures
        s.history.len() > 0,
        s.history.last() == Action::ReleaseLock,
{
}

/// A stopped capture with an empty buffer terminates the session without
/// ever invoking the transcription engine, and still exits successfully.
pub proof fn lemma_empty_capture_skips_engine(s: SessionModel, preload_ok: bool)
    requires
        s.wf(),
        s.state is Transcribing,
        !s.transcribe_issued,
    ensures
        ({
            let m = s.step(SessionEvent::CaptureStopped { sample_count: 0, preload_ok });
            &&& m.state is Terminated
            &&& m.exit == Some(ExitStatus::Success)
            &&& forall|i: int|
                #![trigger m.history[i]]
                0 <= i < m.history.len() ==> m.history[i] != Action::Transcribe
        }),
{
}

/// A failed model preload surfaces only when transcription is attempted,
/// and even then the session reaches `Terminated` with the lock released
/// as the final action.
pub proof fn lemma_model_failure_still_releases_lock(s: SessionModel, sample_count: usize)
    requires
        s.wf(),
        s.state is Transcribing,
        !s.transcribe_issued,
        sample_count > 0,
    ensures
        ({
            let m = s.step(
                SessionEvent::CaptureStopped { sample_count, preload_ok: false },
            );
            &&& m.state is Terminated
            &&& m.exit == Some(ExitStatus::Failure)
            &&& m.history.len() > 0
            &&& m.history.last() == Action::ReleaseLock
        }),
{
}

} // verus!
