use whspr_rs::{
    AcquireOutcome, Action, ControllerState, CreateResult, LockAcquisition, LockPhase,
    PeerValidation, SessionController, SessionEvent, SignalDelivery,
};

#[test]
fn fresh_create_owns_the_lock() {
    let mut m = LockAcquisition::new();
    assert_eq!(m.phase, LockPhase::TryCreate);
    m.observe_create(CreateResult::Created);
    assert!(m.is_done());
    assert_eq!(m.outcome(), Some(AcquireOutcome::Owned));
    assert_eq!(m.toggles_delivered, 0);
}

#[test]
fn live_peer_gets_exactly_one_toggle() {
    let mut m = LockAcquisition::new();
    m.observe_create(CreateResult::AlreadyExists);
    assert_eq!(m.phase, LockPhase::ValidatePeer);
    let remove = m.observe_validation(PeerValidation::LiveValidInstance);
    assert!(!remove);
    assert_eq!(m.phase, LockPhase::SignalPeer);
    let remove = m.observe_signal(SignalDelivery::Delivered);
    assert!(!remove);
    assert_eq!(m.outcome(), Some(AcquireOutcome::SignalSent));
    assert_eq!(m.toggles_delivered, 1);
}

#[test]
fn stale_lock_is_discarded_and_retried_once() {
    let mut m = LockAcquisition::new();
    m.observe_create(CreateResult::AlreadyExists);
    let remove = m.observe_validation(PeerValidation::NotThisProgram);
    assert!(remove);
    assert_eq!(m.phase, LockPhase::TryCreate);
    m.observe_create(CreateResult::Created);
    assert_eq!(m.outcome(), Some(AcquireOutcome::Owned));
}

#[test]
fn unreadable_pid_counts_as_stale() {
    let mut m = LockAcquisition::new();
    m.observe_create(CreateResult::AlreadyExists);
    let remove = m.observe_validation(PeerValidation::NoReadablePid);
    assert!(remove);
    assert_eq!(m.phase, LockPhase::TryCreate);
}

#[test]
fn second_stale_find_is_fatal() {
    let mut m = LockAcquisition::new();
    m.observe_create(CreateResult::AlreadyExists);
    m.observe_validation(PeerValidation::NotThisProgram);
    m.observe_create(CreateResult::AlreadyExists);
    let remove = m.observe_validation(PeerValidation::NotThisProgram);
    assert!(remove);
    assert_eq!(m.outcome(), Some(AcquireOutcome::Failed));
}

#[test]
fn vanished_peer_is_a_race_and_retries() {
    let mut m = LockAcquisition::new();
    m.observe_create(CreateResult::AlreadyExists);
    m.observe_validation(PeerValidation::LiveValidInstance);
    let remove = m.observe_signal(SignalDelivery::NoSuchProcess);
    assert!(remove);
    assert_eq!(m.phase, LockPhase::TryCreate);
    m.observe_create(CreateResult::Created);
    assert_eq!(m.outcome(), Some(AcquireOutcome::Owned));
}

#[test]
fn signal_permission_failure_is_fatal() {
    let mut m = LockAcquisition::new();
    m.observe_create(CreateResult::AlreadyExists);
    m.observe_validation(PeerValidation::LiveValidInstance);
    let remove = m.observe_signal(SignalDelivery::DeliveryError);
    assert!(!remove);
    assert_eq!(m.outcome(), Some(AcquireOutcome::Failed));
}

#[test]
fn create_error_is_fatal() {
    let mut m = LockAcquisition::new();
    m.observe_create(CreateResult::CreateError);
    assert_eq!(m.outcome(), Some(AcquireOutcome::Failed));
}

#[test]
fn second_invocation_toggles_peer_into_transcription() {
    // The peer owns a session and is recording.
    let mut owner = SessionController::new();
    owner.handle(SessionEvent::LockAcquired);

    // A second invocation finds the lock held by a live, valid peer.
    let mut second = LockAcquisition::new();
    second.observe_create(CreateResult::AlreadyExists);
    second.observe_validation(PeerValidation::LiveValidInstance);
    second.observe_signal(SignalDelivery::Delivered);
    assert_eq!(second.outcome(), Some(AcquireOutcome::SignalSent));
    assert_eq!(second.toggles_delivered, 1);

    // The peer receives that Toggle and moves to transcription; the
    // second invocation did no audio or model work of its own.
    let acts = owner.handle(SessionEvent::ToggleReceived);
    assert_eq!(owner.state(), ControllerState::Transcribing);
    assert!(acts.contains(&Action::StopCapture));
}

#[test]
fn parse_pid_reads_plain_and_padded_numbers() {
    assert_eq!(whspr_rs::parse_pid("12345\n"), Some(12345));
    assert_eq!(whspr_rs::parse_pid("  42  "), Some(42));
    assert_eq!(whspr_rs::parse_pid("0"), Some(0));
    assert_eq!(whspr_rs::parse_pid("4294967295"), Some(u32::MAX));
}

#[test]
fn parse_pid_rejects_garbage() {
    assert_eq!(whspr_rs::parse_pid(""), None);
    assert_eq!(whspr_rs::parse_pid("   "), None);
    assert_eq!(whspr_rs::parse_pid("abc"), None);
    assert_eq!(whspr_rs::parse_pid("12a"), None);
    assert_eq!(whspr_rs::parse_pid("-5"), None);
    assert_eq!(whspr_rs::parse_pid("4294967296"), None);
    assert_eq!(whspr_rs::parse_pid("99999999999999999999"), None);
}

#[test]
fn basename_takes_the_part_after_the_last_slash() {
    assert_eq!(whspr_rs::basename("/usr/bin/whspr-rs"), "whspr-rs");
    assert_eq!(whspr_rs::basename("whspr-rs"), "whspr-rs");
    assert_eq!(whspr_rs::basename("/usr/bin/"), "");
    assert_eq!(whspr_rs::basename(""), "");
}

#[test]
fn peer_identity_checks_exe_then_cmdline() {
    // Same canonical executable: a valid instance.
    assert!(whspr_rs::peer_is_this_program(
        true,
        Some("/usr/bin/whspr-rs"),
        Some("/usr/bin/whspr-rs"),
        "whspr-rs",
        None,
    ));
    // Different executable, but the command line names this program.
    assert!(whspr_rs::peer_is_this_program(
        true,
        Some("/usr/bin/whspr-rs"),
        Some("/proc/self/exe"),
        "whspr-rs",
        Some("/opt/tools/whspr-rs"),
    ));
    // A dead process is never valid.
    assert!(!whspr_rs::peer_is_this_program(
        false,
        Some("/usr/bin/whspr-rs"),
        Some("/usr/bin/whspr-rs"),
        "whspr-rs",
        None,
    ));
    // A different program is not a peer.
    assert!(!whspr_rs::peer_is_this_program(
        true,
        Some("/usr/bin/whspr-rs"),
        Some("/usr/bin/other"),
        "whspr-rs",
        Some("/usr/bin/other"),
    ));
    // An empty first argument never matches.
    assert!(!whspr_rs::peer_is_this_program(
        true,
        None,
        None,
        "whspr-rs",
        Some(""),
    ));
}
