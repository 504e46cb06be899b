//! Configuration data and path resolution.
//!
//! File reading and environment lookups stay with the caller: every
//! function here takes the relevant environment values (`HOME`,
//! `XDG_CONFIG_HOME`, `XDG_DATA_HOME`) as plain optional strings and
//! computes paths and file contents from them alone.

use vstd::prelude::*;
use vstd::string::*;

use crate::error::WhsprError;

verus! {

/// Audio capture settings.
#[derive(Debug, Clone)]
pub struct AudioConfig {
    /// Input device name; empty means the system default.
    pub device: String,
    /// Sample rate in Hz.
    pub sample_rate: u32,
}

/// Transcription engine settings.
#[derive(Debug, Clone)]
pub struct WhisperConfig {
    /// Path to the model file, possibly starting with `~/`.
    pub model_path: String,
    /// Language code, or "auto" to auto-detect.
    pub language: String,
    pub use_gpu: bool,
    pub flash_attn: bool,
}

/// Text delivery settings.
#[derive(Debug, Clone)]
pub struct InjectConfig {}

/// Feedback cue settings.
#[derive(Debug, Clone)]
pub struct FeedbackConfig {
    pub enabled: bool,
    /// Custom start sound path; empty means the bundled sound.
    pub start_sound: String,
    /// Custom stop sound path; empty means the bundled sound.
    pub stop_sound: String,
}

/// The whole configuration.
#[derive(Debug, Clone)]
pub struct Config {
    pub audio: AudioConfig,
    pub whisper: WhisperConfig,
    pub inject: InjectConfig,
    pub feedback: FeedbackConfig,
}

impl Default for AudioConfig {
    /// The default: system default device at 16 kHz.
    fn default() -> (c: AudioConfig)
        ensures
            c.device@ == Seq::<char>::empty(),
            c.sample_rate == 16000u32,
    {
        AudioConfig { device: String::new(), sample_rate: 16000 }
    }
}

impl Default for WhisperConfig {
    /// The default: the recommended model under the user's data directory,
    /// auto-detected language, GPU on.
    fn default() -> (c: WhisperConfig)
        ensures
            c.model_path@ == "~/.local/share/whspr-rs/ggml-large-v3-turbo.bin"@,
            c.language@ == "auto"@,
            c.use_gpu,
            c.flash_attn,
    {
        WhisperConfig {
            model_path: String::from_str("~/.local/share/whspr-rs/ggml-large-v3-turbo.bin"),
            language: String::from_str("auto"),
            use_gpu: true,
            flash_attn: true,
        }
    }
}

impl Default for InjectConfig {
    fn default() -> (c: InjectConfig)
        ensures
            c == (InjectConfig {  }),
    {
        InjectConfig {  }
    }
}

impl Default for FeedbackConfig {
    /// The default: feedback enabled, bundled sounds.
    fn default() -> (c: FeedbackConfig)
        ensures
            c.enabled,
            c.start_sound@ == Seq::<char>::empty(),
            c.stop_sound@ == Seq::<char>::empty(),
    {
        FeedbackConfig {
            enabled: true,
            start_sound: String::new(),
            stop_sound: String::new(),
        }
    }
}

impl Default for Config {
    /// The default configuration: every section at its own default.
    fn default() -> (c: Config)
        ensures
            c.audio.device@ == Seq::<char>::empty(),
            c.audio.sample_rate == 16000u32,
            c.whisper.model_path@ == "~/.local/share/whspr-rs/ggml-large-v3-turbo.bin"@,
            c.whisper.language@ == "auto"@,
            c.whisper.use_gpu,
            c.whisper.flash_attn,
            c.feedback.enabled,
            c.feedback.start_sound@ == Seq::<char>::empty(),
            c.feedback.stop_sound@ == Seq::<char>::empty(),
    {
        Config {
            audio: AudioConfig::default(),
            whisper: WhisperConfig::default(),
            inject: InjectConfig::default(),
            feedback: FeedbackConfig::default(),
        }
    }
}

/// The view of an optional borrowed string.
pub open spec fn opt_str_view(s: Option<&str>) -> Option<Seq<char>> {
    match s {
        Some(x) => Some(x@),
        None => None,
    }
}

/// What tilde expansion yields: `~/rest` and `~` use the home directory
/// when one is known; everything else, including every path when no home
/// directory is set, is returned unchanged.
pub open spec fn expand_tilde_spec(path: Seq<char>, home: Option<Seq<char>>) -> Seq<char> {
    match home {
        Some(h) => {
            if path.len() >= 2 && path[0] == '~' && path[1] == '/' {
                h + seq!['/'] + path.subrange(2, path.len() as int)
            } else if path.len() == 1 && path[0] == '~' {
                h
            } else {
                path
            }
        },
        None => path,
    }
}

/// Expand a leading `~` or `~/` against the given home directory.
pub fn expand_tilde(path: &str, home: Option<&str>) -> (r: String)
    ensures
        r@ == expand_tilde_spec(path@, opt_str_view(home)),
{
    match home {
        None => path.to_owned(),
        Some(h) => {
            let n = path.unicode_len();
            if n >= 2 && path.get_char(0) == '~' && path.get_char(1) == '/' {
                let mut r = h.to_owned();
                r.append("/");
                r.append(path.substring_char(2, n));
                proof {
                    reveal_strlit("/");
                    assert("/"@ =~= seq!['/']);
                    assert(r@ =~= expand_tilde_spec(path@, opt_str_view(home)));
                }
                r
            } else if n == 1 && path.get_char(0) == '~' {
                h.to_owned()
            } else {
                path.to_owned()
            }
        },
    }
}

/// Which directory a base-directory lookup yields: the explicit override
/// when set, the home directory with the conventional suffix otherwise,
/// and `/tmp` when neither is known.
pub open spec fn base_dir_spec(
    primary: Option<Seq<char>>,
    home: Option<Seq<char>>,
    home_suffix: Seq<char>,
) -> Seq<char> {
    match primary {
        Some(p) => p,
        None => match home {
            Some(h) => h + home_suffix,
            None => "/tmp"@,
        },
    }
}

/// Resolve a base directory from an override variable, the home
/// directory, and the conventional suffix under home.
fn base_dir(primary: Option<&str>, home: Option<&str>, home_suffix: &str) -> (r: String)
    ensures
        r@ == base_dir_spec(opt_str_view(primary), opt_str_view(home), home_suffix@),
{
    match primary {
        Some(p) => p.to_owned(),
        None => match home {
            Some(h) => {
                let mut r = h.to_owned();
                r.append(home_suffix);
                r
            },
            None => String::from_str("/tmp"),
        },
    }
}

/// The default configuration file path: the configuration base directory
/// (`XDG_CONFIG_HOME`, or `~/.config`, or `/tmp`) plus
/// `/whspr-rs/config.toml`.
pub fn default_config_path(xdg_config_home: Option<&str>, home: Option<&str>) -> (r: String)
    ensures
        r@ == base_dir_spec(opt_str_view(xdg_config_home), opt_str_view(home), "/.config"@)
            + "/whspr-rs/config.toml"@,
{
    let d = base_dir(xdg_config_home, home, "/.config");
    d.concat("/whspr-rs/config.toml")
}

/// The configuration file path to use: an explicit override, or the
/// default location.
pub fn resolve_config_path(
    path: Option<&str>,
    xdg_config_home: Option<&str>,
    home: Option<&str>,
) -> (r: String)
    ensures
        path matches Some(p) ==> r@ == p@,
        path is None ==> r@ == base_dir_spec(
            opt_str_view(xdg_config_home),
            opt_str_view(home),
            "/.config"@,
        ) + "/whspr-rs/config.toml"@,
{
    match path {
        Some(p) => p.to_owned(),
        None => default_config_path(xdg_config_home, home),
    }
}

/// The data directory: the data base directory (`XDG_DATA_HOME`, or
/// `~/.local/share`, or `/tmp`) plus `/whspr-rs`.
pub fn data_dir(xdg_data_home: Option<&str>, home: Option<&str>) -> (r: String)
    ensures
        r@ == base_dir_spec(opt_str_view(xdg_data_home), opt_str_view(home), "/.local/share"@)
            + "/whspr-rs"@,
{
    let d = base_dir(xdg_data_home, home, "/.local/share");
    d.concat("/whspr-rs")
}

impl Config {
    /// The model path with a leading tilde expanded against the given
    /// home directory.
    pub fn resolved_model_path(&self, home: Option<&str>) -> (r: String)
        ensures
            r@ == expand_tilde_spec(self.whisper.model_path@, opt_str_view(home)),
    {
        expand_tilde(self.whisper.model_path.as_str(), home)
    }
}

/// The text before the model path in a freshly written configuration file.
pub open spec fn config_template_head() -> Seq<char> {
    "# whspr-rs configuration\n#\n# Keybinding is handled by your compositor. Example for Hyprland:\n#   bind = SUPER ALT, D, exec, whspr-rs\n#\n# First invocation starts recording, second invocation stops + transcribes + pastes.\n\n[audio]\n# Input device name (empty = system default)\ndevice = \"\"\n# Sample rate in Hz (whisper requires 16000)\nsample_rate = 16000\n\n[whisper]\n# Path to ggml whisper model file\n# Manage models with: whspr-rs model list / download / select\nmodel_path = \""@
}

/// The text after the model path in a freshly written configuration file.
pub open spec fn config_template_tail() -> Seq<char> {
    "\"\n# Language code (\"en\", \"fr\", \"de\", etc.) or \"auto\" for auto-detect\nlanguage = \"auto\"\n# Enable GPU acceleration (set false to force CPU)\nuse_gpu = true\n# Enable flash attention when GPU is enabled\nflash_attn = true\n\n[feedback]\n# Play sound feedback on start/stop\nenabled = true\n# Custom sound file paths (empty = use bundled sounds)\nstart_sound = \"\"\nstop_sound = \"\"\n"@
}

/// The contents of a freshly written configuration file recording the
/// given model path.
pub fn default_config_contents(model_path: &str) -> (r: String)
    ensures
        r@ == config_template_head() + model_path@ + config_template_tail(),
{
    let mut r = String::from_str(
        "# whspr-rs configuration\n#\n# Keybinding is handled by your compositor. Example for Hyprland:\n#   bind = SUPER ALT, D, exec, whspr-rs\n#\n# First invocation starts recording, second invocation stops + transcribes + pastes.\n\n[audio]\n# Input device name (empty = system default)\ndevice = \"\"\n# Sample rate in Hz (whisper requires 16000)\nsample_rate = 16000\n\n[whisper]\n# Path to ggml whisper model file\n# Manage models with: whspr-rs model list / download / select\nmodel_path = \"",
    );
    r.append(model_path);
    r.append(
        "\"\n# Language code (\"en\", \"fr\", \"de\", etc.) or \"auto\" for auto-detect\nlanguage = \"auto\"\n# Enable GPU acceleration (set false to force CPU)\nuse_gpu = true\n# Enable flash attention when GPU is enabled\nflash_attn = true\n\n[feedback]\n# Play sound feedback on start/stop\nenabled = true\n# Custom sound file paths (empty = use bundled sounds)\nstart_sound = \"\"\nstop_sound = \"\"\n",
    );
    r
}

/// Whether toml_edit parses this text as a TOML document. The result
/// depends on the text alone.
pub uninterp spec fn toml_well_formed(s: Seq<char>) -> bool;

/// Whether the document's `whisper` entry can take a nested assignment:
/// it is absent, a table, or an inline table.
pub uninterp spec fn whisper_slot_editable(d: toml_edit::DocumentMut) -> bool;

#[verifier::external_type_specification]
#[verifier::external_body]
pub struct ExDocumentMut(toml_edit::DocumentMut);

/// Relies on toml_edit: `str::parse::<DocumentMut>` succeeds exactly on
/// well-formed TOML text.
#[verifier::external_body]
fn parse_toml_document(contents: &str) -> (r: Result<toml_edit::DocumentMut, String>)
    ensures
        r is Ok <==> toml_well_formed(contents@),
{
    match contents.parse::<toml_edit::DocumentMut>() {
        Ok(d) => Ok(d),
        Err(e) => Err(format!("{e}")),
    }
}

/// Relies on toml_edit's `Table::get` and `Item::is_table_like`: reports
/// whether the `whisper` entry is absent, a table, or an inline table.
#[verifier::external_body]
fn whisper_slot_check(doc: &toml_edit::DocumentMut) -> (r: bool)
    ensures
        r == whisper_slot_editable(*doc),
{
    match doc.get("whisper") {
        None => true,
        Some(item) => item.is_table_like(),
    }
}

/// Relies on toml_edit's index assignment: sets `whisper.model_path`,
/// creating the `whisper` table when absent. The index implementation
/// panics when `whisper` is present but not table-like, so that case is
/// excluded here.
#[verifier::external_body]
fn set_whisper_model_path(doc: &mut toml_edit::DocumentMut, new_path: &str)
    requires
        whisper_slot_editable(*old(doc)),
{
    doc["whisper"]["model_path"] = toml_edit::value(new_path);
}

/// Relies on toml_edit's `Display` for `DocumentMut`: renders the edited
/// document back to text.
#[verifier::external_body]
fn document_to_string(doc: &toml_edit::DocumentMut) -> (r: String) {
    doc.to_string()
}

/// Rewrite a configuration file's `whisper.model_path` entry, keeping the
/// rest of the text (comments and formatting included) as toml_edit
/// preserves it. Fails exactly when the text is not well-formed TOML, or
/// when its `whisper` entry is not a table.
pub fn update_model_path_in_toml(contents: &str, new_model_path: &str) -> (r: Result<
    String,
    WhsprError,
>)
    ensures
        !toml_well_formed(contents@) ==> r is Err,
        r is Ok ==> toml_well_formed(contents@),
        r matches Err(e) ==> e is Config,
{
    let mut doc = match parse_toml_document(contents) {
        Ok(d) => d,
        Err(msg) => {
            let mut m = String::from_str("failed to parse config: ");
            m.append(msg.as_str());
            return Err(WhsprError::Config(m));
        },
    };
    if !whisper_slot_check(&doc) {
        return Err(
            WhsprError::Config(String::from_str("config whisper entry is not a table")),
        );
    }
    set_whisper_model_path(&mut doc, new_model_path);
    Ok(document_to_string(&doc))
}

} // verus!
