use whspr_rs::{Action, ControllerState, SessionController, SessionEvent};

fn start_session() -> SessionController {
    let mut s = SessionController::new();
    let acts = s.handle(SessionEvent::LockAcquired);
    assert_eq!(
        acts,
        vec![
            Action::PlayStartCue,
            Action::StartCapture,
            Action::SpawnOverlay,
            Action::StartPreload,
        ]
    );
    assert_eq!(s.state(), ControllerState::Recording);
    s
}

#[test]
fn start_plays_cue_before_capture() {
    let s = start_session();
    let h = s.history();
    let cue = h.iter().position(|a| *a == Action::PlayStartCue).unwrap();
    let cap = h.iter().position(|a| *a == Action::StartCapture).unwrap();
    assert!(cue < cap);
}

#[test]
fn abort_discards_capture_and_releases_lock() {
    let mut s = start_session();
    let acts = s.handle(SessionEvent::AbortReceived);
    assert_eq!(
        acts,
        vec![Action::TerminateOverlay, Action::DiscardCapture, Action::ReleaseLock]
    );
    assert_eq!(s.state(), ControllerState::Terminated);
    assert_eq!(s.exit_code(), Some(0));
    assert!(!s.history().contains(&Action::Transcribe));
}

#[test]
fn toggle_stops_capture_before_stop_cue() {
    let mut s = start_session();
    let acts = s.handle(SessionEvent::ToggleReceived);
    assert_eq!(
        acts,
        vec![
            Action::TerminateOverlay,
            Action::StopCapture,
            Action::PlayStopCue,
            Action::JoinPreload,
        ]
    );
    assert_eq!(s.state(), ControllerState::Transcribing);
    let h = s.history();
    let stop = h.iter().position(|a| *a == Action::StopCapture).unwrap();
    let cue = h.iter().position(|a| *a == Action::PlayStopCue).unwrap();
    let overlay = h.iter().position(|a| *a == Action::TerminateOverlay).unwrap();
    assert!(stop < cue);
    assert!(overlay < cue);
}

#[test]
fn full_session_delivers_text_and_exits_cleanly() {
    let mut s = start_session();
    s.handle(SessionEvent::ToggleReceived);
    let acts = s.handle(SessionEvent::CaptureStopped { sample_count: 48000, preload_ok: true });
    assert_eq!(acts, vec![Action::Transcribe]);
    assert_eq!(s.state(), ControllerState::Transcribing);
    let acts = s.handle(SessionEvent::TranscriptionProduced(String::from("hello world")));
    assert_eq!(acts, vec![Action::DeliverText]);
    assert_eq!(s.state(), ControllerState::Injecting);
    let acts = s.handle(SessionEvent::DeliveryFinished { delivered: true });
    assert_eq!(acts, vec![Action::ReleaseLock]);
    assert_eq!(s.state(), ControllerState::Terminated);
    assert_eq!(s.exit_code(), Some(0));
    assert_eq!(s.history().last(), Some(&Action::ReleaseLock));
}

#[test]
fn empty_capture_skips_transcription_engine() {
    let mut s = start_session();
    s.handle(SessionEvent::ToggleReceived);
    let acts = s.handle(SessionEvent::CaptureStopped { sample_count: 0, preload_ok: true });
    assert_eq!(acts, vec![Action::ReleaseLock]);
    assert_eq!(s.state(), ControllerState::Terminated);
    assert_eq!(s.exit_code(), Some(0));
    assert!(!s.history().contains(&Action::Transcribe));
}

#[test]
fn model_failure_still_releases_lock() {
    let mut s = start_session();
    s.handle(SessionEvent::ToggleReceived);
    let acts = s.handle(SessionEvent::CaptureStopped { sample_count: 48000, preload_ok: false });
    assert_eq!(acts, vec![Action::ReleaseLock]);
    assert_eq!(s.state(), ControllerState::Terminated);
    assert_eq!(s.exit_code(), Some(1));
    assert_eq!(s.history().last(), Some(&Action::ReleaseLock));
    assert!(!s.history().contains(&Action::Transcribe));
}

#[test]
fn capture_start_failure_exits_with_failure() {
    let mut s = start_session();
    let acts = s.handle(SessionEvent::CaptureStartFailed);
    assert_eq!(acts, vec![Action::TerminateOverlay, Action::ReleaseLock]);
    assert_eq!(s.state(), ControllerState::Terminated);
    assert_eq!(s.exit_code(), Some(1));
}

#[test]
fn transcription_failure_exits_with_failure() {
    let mut s = start_session();
    s.handle(SessionEvent::ToggleReceived);
    s.handle(SessionEvent::CaptureStopped { sample_count: 1000, preload_ok: true });
    let acts = s.handle(SessionEvent::TranscriptionFailed);
    assert_eq!(acts, vec![Action::ReleaseLock]);
    assert_eq!(s.exit_code(), Some(1));
}

#[test]
fn empty_transcript_is_success_without_delivery() {
    let mut s = start_session();
    s.handle(SessionEvent::ToggleReceived);
    s.handle(SessionEvent::CaptureStopped { sample_count: 1000, preload_ok: true });
    let acts = s.handle(SessionEvent::TranscriptionProduced(String::new()));
    assert_eq!(acts, vec![Action::ReleaseLock]);
    assert_eq!(s.state(), ControllerState::Terminated);
    assert_eq!(s.exit_code(), Some(0));
    assert!(!s.history().contains(&Action::DeliverText));
}

#[test]
fn failed_delivery_still_exits_cleanly() {
    let mut s = start_session();
    s.handle(SessionEvent::ToggleReceived);
    s.handle(SessionEvent::CaptureStopped { sample_count: 1000, preload_ok: true });
    s.handle(SessionEvent::TranscriptionProduced(String::from("hi")));
    let acts = s.handle(SessionEvent::DeliveryFinished { delivered: false });
    assert_eq!(acts, vec![Action::ReleaseLock]);
    assert_eq!(s.exit_code(), Some(0));
}

#[test]
fn exit_code_is_unset_while_running() {
    let s = start_session();
    assert_eq!(s.exit_code(), None);
}
