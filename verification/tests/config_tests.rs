use whspr_rs::{Config, WhsprError};

#[test]
fn expand_tilde_uses_home_when_present() {
    assert_eq!(
        whspr_rs::expand_tilde("~/models/ggml.bin", Some("/tmp/whspr-rs-home")),
        "/tmp/whspr-rs-home/models/ggml.bin"
    );
    assert_eq!(whspr_rs::expand_tilde("~", Some("/tmp/whspr-rs-home")), "/tmp/whspr-rs-home");
}

#[test]
fn expand_tilde_without_home_returns_original_path() {
    assert_eq!(whspr_rs::expand_tilde("~/models/ggml.bin", None), "~/models/ggml.bin");
    assert_eq!(whspr_rs::expand_tilde("~", None), "~");
}

#[test]
fn expand_tilde_leaves_plain_paths_alone() {
    assert_eq!(
        whspr_rs::expand_tilde("/var/lib/model.bin", Some("/home/alice")),
        "/var/lib/model.bin"
    );
    assert_eq!(whspr_rs::expand_tilde("~x", Some("/home/alice")), "~x");
}

#[test]
fn default_config_has_documented_values() {
    let c = Config::default();
    assert_eq!(c.audio.sample_rate, 16000);
    assert_eq!(c.audio.device, "");
    assert_eq!(c.whisper.language, "auto");
    assert_eq!(c.whisper.model_path, "~/.local/share/whspr-rs/ggml-large-v3-turbo.bin");
    assert!(c.whisper.use_gpu);
    assert!(c.whisper.flash_attn);
    assert!(c.feedback.enabled);
    assert_eq!(c.feedback.start_sound, "");
}

#[test]
fn resolved_model_path_expands_the_tilde() {
    let c = Config::default();
    assert_eq!(
        c.resolved_model_path(Some("/home/alice")),
        "/home/alice/.local/share/whspr-rs/ggml-large-v3-turbo.bin"
    );
}

#[test]
fn config_paths_follow_environment_overrides() {
    assert_eq!(
        whspr_rs::default_config_path(Some("/xdg/config"), Some("/home/a")),
        "/xdg/config/whspr-rs/config.toml"
    );
    assert_eq!(
        whspr_rs::default_config_path(None, Some("/home/a")),
        "/home/a/.config/whspr-rs/config.toml"
    );
    assert_eq!(whspr_rs::default_config_path(None, None), "/tmp/whspr-rs/config.toml");
    assert_eq!(
        whspr_rs::resolve_config_path(Some("/etc/mine.toml"), None, Some("/home/a")),
        "/etc/mine.toml"
    );
    assert_eq!(
        whspr_rs::resolve_config_path(None, None, Some("/home/a")),
        "/home/a/.config/whspr-rs/config.toml"
    );
    assert_eq!(whspr_rs::data_dir(Some("/xdg/data"), None), "/xdg/data/whspr-rs");
    assert_eq!(whspr_rs::data_dir(None, Some("/home/a")), "/home/a/.local/share/whspr-rs");
    assert_eq!(whspr_rs::data_dir(None, None), "/tmp/whspr-rs");
}

#[test]
fn load_invalid_toml_returns_parse_error() {
    let err = whspr_rs::update_model_path_in_toml("not = [valid = toml", "~/new-model.bin")
        .expect_err("invalid config should fail");
    match err {
        WhsprError::Config(msg) => {
            assert!(msg.contains("failed to parse"), "unexpected message: {msg}");
        }
        other => panic!("unexpected error variant: {other:?}"),
    }
}

#[test]
fn default_contents_and_model_path_update_roundtrip() {
    let contents = whspr_rs::default_config_contents("~/old-model.bin");
    assert!(contents.contains("[audio]"));
    assert!(contents.contains("[whisper]"));
    assert!(contents.contains("model_path = \"~/old-model.bin\""));
    assert!(contents.contains("sample_rate = 16000"));

    let updated = whspr_rs::update_model_path_in_toml(&contents, "~/new-model.bin")
        .expect("update config");
    assert!(updated.contains("model_path = \"~/new-model.bin\""));
    assert!(!updated.contains("~/old-model.bin"));
    assert!(updated.contains("[audio]"));
    assert!(updated.contains("[feedback]"));
}

#[test]
fn update_model_path_rejects_non_table_whisper_entry() {
    let err = whspr_rs::update_model_path_in_toml("whisper = 5\n", "~/m.bin")
        .expect_err("scalar whisper entry should fail");
    match err {
        WhsprError::Config(msg) => {
            assert!(msg.contains("not a table"), "unexpected message: {msg}");
        }
        other => panic!("unexpected error variant: {other:?}"),
    }
}

#[test]
fn update_model_path_creates_missing_whisper_table() {
    let updated = whspr_rs::update_model_path_in_toml("[audio]\nsample_rate = 16000\n", "~/m.bin")
        .expect("update config");
    assert!(updated.contains("model_path"));
    assert!(updated.contains("~/m.bin"));
}
