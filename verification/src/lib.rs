//! The session lifecycle of a push-button dictation tool.
//!
//! Each invocation of the tool either starts a recording session or tells
//! the running one to stop, transcribe and deliver its text. This crate
//! holds everything that can be decided from plain values and proves it
//! with Verus: the cross-invocation lock protocol, the in-process session
//! state machine with its ordering guarantees, configuration and model
//! path handling, hotkey and capture-configuration decisions, delivery
//! outcome classification, and the overlay's pixel arithmetic. The
//! caller performs the I/O these decisions ask for.

mod audio;
mod config;
mod error;
mod hotkey;
mod inject;
mod lock;
mod model;
mod osd;
mod session;
mod transcribe;

pub use audio::{choose_input_config, config_eligible, config_score, InputConfigDesc, SampleKind};
pub use config::{
    data_dir, default_config_contents, default_config_path, expand_tilde, resolve_config_path,
    update_model_path_in_toml, AudioConfig, Config, FeedbackConfig, InjectConfig, WhisperConfig,
};
pub use error::WhsprError;
pub use hotkey::{
    eq_ignore_ascii_case, parse_key_name, supported_key_names, ComboTracker, HotkeyEvent,
};
pub use model::{
    find_model, model_path, model_path_for_config, model_status, models, path_for_config, str_eq,
    u64_to_string, validated_existing_len, ModelInfo,
};
pub use inject::{classify_wl_copy_result, TextInjector, WlCopyObservation};
pub use lock::{
    basename, parse_pid, peer_is_this_program, AcquireOutcome, CreateResult, LockAcquisition,
    LockPhase, PeerValidation, SignalDelivery,
};
pub use osd::{
    blend_byte, draw_rounded_border, draw_rounded_rect, in_rounded_rect, is_inside_rounded_rect,
    set_pixel_blend,
};
pub use session::{
    Action, ControllerState, ExitStatus, SessionController, SessionEvent, SessionModel,
};
pub use transcribe::{chunk_spans, join_texts};
