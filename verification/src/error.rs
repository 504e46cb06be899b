//! Error taxonomy of the dictation controller.
//!
//! Each variant carries a human-readable message; `message` renders it with
//! the same prefixes the rest of the crate and its callers rely on.

use vstd::prelude::*;
use vstd::string::*;

verus! {

/// The error taxonomy: acquisition, audio, model, delivery and signal
/// failures each have their own variant so callers can tell recoverable
/// conditions from fatal ones.
#[derive(Debug, Clone, PartialEq, Eq)]
pub enum WhsprError {
    Audio(String),
    Transcription(String),
    Injection(String),
    Config(String),
    Feedback(String),
    Download(String),
    Hotkey(String),
    Io(String),
}

impl WhsprError {
    /// The message carried by this error, without its category prefix.
    pub fn detail(&self) -> (r: &String)
        ensures
            r@ == self.detail_spec(),
    {
        match self {
            WhsprError::Audio(m) => m,
            WhsprError::Transcription(m) => m,
            WhsprError::Injection(m) => m,
            WhsprError::Config(m) => m,
            WhsprError::Feedback(m) => m,
            WhsprError::Download(m) => m,
            WhsprError::Hotkey(m) => m,
            WhsprError::Io(m) => m,
        }
    }

    /// The category prefix this error is rendered with.
    pub open spec fn prefix_spec(&self) -> Seq<char> {
        match self {
            WhsprError::Audio(_) => "audio error: "@,
            WhsprError::Transcription(_) => "transcription error: "@,
            WhsprError::Injection(_) => "injection error: "@,
            WhsprError::Config(_) => "config error: "@,
            WhsprError::Feedback(_) => "feedback error: "@,
            WhsprError::Download(_) => "download error: "@,
            WhsprError::Hotkey(_) => "hotkey error: "@,
            WhsprError::Io(_) => "io error: "@,
        }
    }

    /// The full rendering of this error: its category prefix followed by
    /// the carried message.
    pub fn message(&self) -> (r: String)
        ensures
            r@ == self.prefix_spec() + self.detail_spec(),
    {
        let mut r = match self {
            WhsprError::Audio(_) => String::from_str("audio error: "),
            WhsprError::Transcription(_) => String::from_str("transcription error: "),
            WhsprError::Injection(_) => String::from_str("injection error: "),
            WhsprError::Config(_) => String::from_str("config error: "),
            WhsprError::Feedback(_) => String::from_str("feedback error: "),
            WhsprError::Download(_) => String::from_str("download error: "),
            WhsprError::Hotkey(_) => String::from_str("hotkey error: "),
            WhsprError::Io(_) => String::from_str("io error: "),
        };
        r.append(self.detail().as_str());
        r
    }

    /// The message carried by this error, as a sequence of characters.
    pub open spec fn detail_spec(&self) -> Seq<char> {
        match self {
            WhsprError::Audio(m) => m@,
            WhsprError::Transcription(m) => m@,
            WhsprError::Injection(m) => m@,
            WhsprError::Config(m) => m@,
            WhsprError::Feedback(m) => m@,
            WhsprError::Download(m) => m@,
            WhsprError::Hotkey(m) => m@,
            WhsprError::Io(m) => m@,
        }
    }
}

} // verus!
