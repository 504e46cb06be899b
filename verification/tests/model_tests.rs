use whspr_rs::WhsprError;

#[test]
fn path_for_config_uses_tilde_when_under_home() {
    let home = "/home/alice";
    let path = "/home/alice/.local/share/whspr-rs/ggml.bin";
    assert_eq!(
        whspr_rs::path_for_config(path, Some(home)),
        "~/.local/share/whspr-rs/ggml.bin"
    );
}

#[test]
fn path_for_config_keeps_absolute_when_outside_home() {
    let home = "/home/alice";
    let path = "/var/lib/whspr-rs/ggml.bin";
    assert_eq!(whspr_rs::path_for_config(path, Some(home)), "/var/lib/whspr-rs/ggml.bin");
}

#[test]
fn path_for_config_handles_home_itself_and_lookalikes() {
    assert_eq!(whspr_rs::path_for_config("/home/alice", Some("/home/alice")), "~/");
    assert_eq!(
        whspr_rs::path_for_config("/home/alicebob/x", Some("/home/alice")),
        "/home/alicebob/x"
    );
    assert_eq!(whspr_rs::path_for_config("/home/alice/x", None), "/home/alice/x");
}

#[test]
fn validated_existing_len_accepts_partial_content_resume() {
    let len = whspr_rs::validated_existing_len(100, 206).unwrap();
    assert_eq!(len, 100);
}

#[test]
fn validated_existing_len_restarts_on_ok_resume_response() {
    let len = whspr_rs::validated_existing_len(100, 200).unwrap();
    assert_eq!(len, 0);
}

#[test]
fn validated_existing_len_rejects_resume_on_error_status() {
    let err = whspr_rs::validated_existing_len(100, 416);
    assert!(err.is_err());
}

#[test]
fn validated_existing_len_fresh_download_follows_status() {
    assert_eq!(whspr_rs::validated_existing_len(0, 200).unwrap(), 0);
    assert_eq!(whspr_rs::validated_existing_len(0, 204).unwrap(), 0);
    let err = whspr_rs::validated_existing_len(0, 404).expect_err("error status should fail");
    match err {
        WhsprError::Download(msg) => {
            assert_eq!(msg, "download failed with HTTP 404");
        }
        other => panic!("unexpected error variant: {other:?}"),
    }
}

#[test]
fn model_catalog_lookup_finds_known_models() {
    let all = whspr_rs::models();
    assert_eq!(all.len(), 12);
    let tiny = whspr_rs::find_model("tiny").expect("tiny should exist");
    assert_eq!(tiny.filename, "ggml-tiny.bin");
    let turbo = whspr_rs::find_model("large-v3-turbo").expect("turbo should exist");
    assert_eq!(turbo.filename, "ggml-large-v3-turbo.bin");
    assert!(whspr_rs::find_model("no-such-model").is_none());
}

#[test]
fn model_path_joins_data_dir_and_filename() {
    assert_eq!(
        whspr_rs::model_path("ggml-tiny.bin", None, Some("/home/a")),
        "/home/a/.local/share/whspr-rs/ggml-tiny.bin"
    );
    assert_eq!(
        whspr_rs::model_path_for_config("ggml-tiny.bin", None, Some("/home/a")),
        "~/.local/share/whspr-rs/ggml-tiny.bin"
    );
}

#[test]
fn model_status_ranks_active_over_local() {
    assert_eq!(whspr_rs::model_status(true, true), "active");
    assert_eq!(whspr_rs::model_status(true, false), "active");
    assert_eq!(whspr_rs::model_status(false, true), "local");
    assert_eq!(whspr_rs::model_status(false, false), "remote");
}

#[test]
fn u64_rendering_is_plain_decimal() {
    assert_eq!(whspr_rs::u64_to_string(0), "0");
    assert_eq!(whspr_rs::u64_to_string(7), "7");
    assert_eq!(whspr_rs::u64_to_string(416), "416");
    assert_eq!(whspr_rs::u64_to_string(65535), "65535");
    assert_eq!(whspr_rs::u64_to_string(u64::MAX), "18446744073709551615");
}

#[test]
fn str_eq_compares_contents() {
    assert!(whspr_rs::str_eq("abc", "abc"));
    assert!(!whspr_rs::str_eq("abc", "abd"));
    assert!(!whspr_rs::str_eq("abc", "ab"));
    assert!(whspr_rs::str_eq("", ""));
}
