//! Text delivery planning.
//!
//! The clipboard helper and the virtual keyboard are driven by the
//! caller; this module decides what to run and how each observed outcome
//! is classified, with the exact messages delivery errors carry.

use vstd::prelude::*;
use vstd::string::*;

use crate::error::WhsprError;
use crate::model::{spec_decimal, u64_to_string};

verus! {

/// Delivers text by handing it to a clipboard helper and then emitting a
/// paste key combination.
pub struct TextInjector {
    wl_copy_bin: String,
    wl_copy_args: Vec<String>,
}

impl TextInjector {
    /// The default injector: the `wl-copy` helper with no arguments.
    pub fn new() -> (r: TextInjector)
        ensures
            r.bin_spec() == "wl-copy"@,
            r.args_spec() =~= Seq::<Seq<char>>::empty(),
    {
        TextInjector { wl_copy_bin: String::from_str("wl-copy"), wl_copy_args: Vec::new() }
    }

    /// An injector with an explicit helper command, for tests and
    /// unusual setups.
    pub fn with_wl_copy_command(bin: &str, args: Vec<String>) -> (r: TextInjector)
        ensures
            r.bin_spec() == bin@,
            r.args_spec() == args.deep_view(),
    {
        TextInjector { wl_copy_bin: bin.to_owned(), wl_copy_args: args }
    }

    /// The helper binary.
    pub closed spec fn bin_spec(self) -> Seq<char> {
        self.wl_copy_bin@
    }

    /// The helper's arguments.
    pub closed spec fn args_spec(self) -> Seq<Seq<char>> {
        self.wl_copy_args.deep_view()
    }

    /// The helper binary to run.
    pub fn wl_copy_bin(&self) -> (r: &String)
        ensures
            r@ == self.bin_spec(),
    {
        &self.wl_copy_bin
    }

    /// The arguments to pass to the helper.
    pub fn wl_copy_args(&self) -> (r: &Vec<String>)
        ensures
            r.deep_view() == self.args_spec(),
    {
        &self.wl_copy_args
    }

    /// Whether any delivery work is owed: empty text is a no-op, not an
    /// error.
    pub fn should_inject(&self, text: &str) -> (r: bool)
        ensures
            r == (text@.len() != 0),
    {
        !text.is_empty()
    }
}

/// What the caller observed while running the clipboard helper.
pub enum WlCopyObservation {
    /// The helper could not be spawned; the message is the spawn error.
    SpawnFailed(String),
    /// The helper's standard input could not be taken.
    StdinUnavailable,
    /// Writing the text to the helper failed; the message is the write
    /// error.
    StdinWriteFailed(String),
    /// The helper did not exit within the bounded wait, in milliseconds.
    TimedOut(u64),
    /// The helper exited; `success` is its status, `status` its rendering.
    Exited { success: bool, status: String },
}

/// Classify an observed helper outcome, with the exact message each
/// failure carries.
pub fn classify_wl_copy_result(obs: WlCopyObservation) -> (r: Result<(), WhsprError>)
    ensures
        r is Ok <==> obs matches WlCopyObservation::Exited { success: true, .. },
        r matches Err(e) ==> e is Injection,
        obs matches WlCopyObservation::SpawnFailed(m) ==> r matches Err(e) && e.detail_spec()
            == "failed to spawn wl-copy: "@ + m@,
        obs matches WlCopyObservation::StdinUnavailable ==> r matches Err(e) && e.detail_spec()
            == "wl-copy stdin unavailable"@,
        obs matches WlCopyObservation::StdinWriteFailed(m) ==> r matches Err(e) && e.detail_spec()
            == "wl-copy stdin write: "@ + m@,
        obs matches WlCopyObservation::TimedOut(ms) ==> r matches Err(e) && e.detail_spec()
            == "wl-copy timed out after "@ + spec_decimal(ms as nat) + "ms"@,
        obs matches WlCopyObservation::Exited { success: false, status } ==> r matches Err(e)
            && e.detail_spec() == "wl-copy exited with "@ + status@,
{
    match obs {
        WlCopyObservation::SpawnFailed(m) => {
            let mut msg = String::from_str("failed to spawn wl-copy: ");
            msg.append(m.as_str());
            Err(WhsprError::Injection(msg))
        },
        WlCopyObservation::StdinUnavailable => {
            Err(WhsprError::Injection(String::from_str("wl-copy stdin unavailable")))
        },
        WlCopyObservation::StdinWriteFailed(m) => {
            let mut msg = String::from_str("wl-copy stdin write: ");
            msg.append(m.as_str());
            Err(WhsprError::Injection(msg))
        },
        WlCopyObservation::TimedOut(ms) => {
            let mut msg = String::from_str("wl-copy timed out after ");
            msg.append(u64_to_string(ms).as_str());
            msg.append("ms");
            Err(WhsprError::Injection(msg))
        },
        WlCopyObservation::Exited { success, status } => {
            if success {
                Ok(())
            } else {
                let mut msg = String::from_str("wl-copy exited with ");
                msg.append(status.as_str());
                Err(WhsprError::Injection(msg))
            }
        },
    }
}

} // verus!
