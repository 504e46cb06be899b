use whspr_rs::{
    ComboTracker, HotkeyEvent, InputConfigDesc, SampleKind, TextInjector, WhsprError,
    WlCopyObservation,
};

#[test]
fn injector_defaults_to_wl_copy() {
    let inj = TextInjector::new();
    assert_eq!(inj.wl_copy_bin().as_str(), "wl-copy");
    assert!(inj.wl_copy_args().is_empty());
    assert!(!inj.should_inject(""));
    assert!(inj.should_inject("hello"));
}

#[test]
fn injector_accepts_custom_command() {
    let inj = TextInjector::with_wl_copy_command("/bin/true", vec![String::from("-n")]);
    assert_eq!(inj.wl_copy_bin().as_str(), "/bin/true");
    assert_eq!(inj.wl_copy_args(), &vec![String::from("-n")]);
}

#[test]
fn wl_copy_outcomes_carry_the_expected_messages() {
    let err = whspr_rs::classify_wl_copy_result(WlCopyObservation::SpawnFailed(String::from(
        "No such file or directory (os error 2)",
    )))
    .expect_err("missing binary should fail");
    match err {
        WhsprError::Injection(msg) => {
            assert!(msg.contains("failed to spawn wl-copy"), "unexpected: {msg}");
        }
        other => panic!("unexpected error variant: {other:?}"),
    }

    let err = whspr_rs::classify_wl_copy_result(WlCopyObservation::Exited {
        success: false,
        status: String::from("exit status: 7"),
    })
    .expect_err("non-zero exit should fail");
    match err {
        WhsprError::Injection(msg) => {
            assert!(msg.contains("wl-copy exited"), "unexpected: {msg}");
        }
        other => panic!("unexpected error variant: {other:?}"),
    }

    let err = whspr_rs::classify_wl_copy_result(WlCopyObservation::TimedOut(80))
        .expect_err("timeout should fail");
    match err {
        WhsprError::Injection(msg) => {
            assert_eq!(msg, "wl-copy timed out after 80ms");
        }
        other => panic!("unexpected error variant: {other:?}"),
    }

    assert!(whspr_rs::classify_wl_copy_result(WlCopyObservation::Exited {
        success: true,
        status: String::from("exit status: 0"),
    })
    .is_ok());
}

#[test]
fn error_detail_returns_the_carried_message() {
    let e = WhsprError::Audio(String::from("no default input device found"));
    assert_eq!(e.detail().as_str(), "no default input device found");
    assert_eq!(e.message(), "audio error: no default input device found");
    let e = WhsprError::Config(String::from("failed to parse x"));
    assert_eq!(e.message(), "config error: failed to parse x");
}

#[test]
fn combo_fires_when_all_keys_go_down() {
    // KEY_LEFTMETA is code 125, KEY_D is code 32 on Linux; the tracker
    // only cares that the codes are distinct.
    let mut t = ComboTracker::new(&vec![125, 32]);
    assert_eq!(t.on_key(125, true), None);
    assert_eq!(t.on_key(32, true), Some(HotkeyEvent::Pressed));
    // Further presses of held keys change nothing.
    assert_eq!(t.on_key(32, true), None);
    // Releasing any combo key disengages it once.
    assert_eq!(t.on_key(125, false), Some(HotkeyEvent::Released));
    assert_eq!(t.on_key(32, false), None);
}

#[test]
fn combo_ignores_unconfigured_keys() {
    let mut t = ComboTracker::new(&vec![125]);
    assert_eq!(t.on_key(30, true), None);
    assert_eq!(t.on_key(125, true), Some(HotkeyEvent::Pressed));
}

#[test]
fn key_names_resolve_case_insensitively_with_or_without_prefix() {
    assert_eq!(whspr_rs::parse_key_name("KEY_LEFTMETA"), Some("KEY_LEFTMETA"));
    assert_eq!(whspr_rs::parse_key_name("leftmeta"), Some("KEY_LEFTMETA"));
    assert_eq!(whspr_rs::parse_key_name("key_a"), Some("KEY_A"));
    assert_eq!(whspr_rs::parse_key_name("F12"), Some("KEY_F12"));
    assert_eq!(whspr_rs::parse_key_name("space"), Some("KEY_SPACE"));
    assert_eq!(whspr_rs::parse_key_name("no_such_key"), None);
}

#[test]
fn case_insensitive_comparison_is_ascii_only() {
    assert!(whspr_rs::eq_ignore_ascii_case("Key_A", "kEy_a"));
    assert!(!whspr_rs::eq_ignore_ascii_case("KEY_A", "KEY_B"));
    assert!(!whspr_rs::eq_ignore_ascii_case("KEY_A", "KEY_AB"));
}

#[test]
fn input_config_choice_prefers_mono_float() {
    let configs = vec![
        InputConfigDesc { min_sample_rate: 8000, max_sample_rate: 48000, channels: 2, kind: SampleKind::F32 },
        InputConfigDesc { min_sample_rate: 8000, max_sample_rate: 48000, channels: 1, kind: SampleKind::I16 },
        InputConfigDesc { min_sample_rate: 8000, max_sample_rate: 48000, channels: 1, kind: SampleKind::F32 },
    ];
    assert_eq!(whspr_rs::choose_input_config(&configs, 16000), Some(2));
}

#[test]
fn input_config_choice_requires_a_usable_rate_and_format() {
    let configs = vec![
        InputConfigDesc { min_sample_rate: 44100, max_sample_rate: 48000, channels: 1, kind: SampleKind::F32 },
        InputConfigDesc { min_sample_rate: 8000, max_sample_rate: 48000, channels: 1, kind: SampleKind::Other },
    ];
    assert_eq!(whspr_rs::choose_input_config(&configs, 16000), None);
    assert_eq!(whspr_rs::choose_input_config(&Vec::new(), 16000), None);
}

#[test]
fn short_audio_is_one_chunk() {
    let spans = whspr_rs::chunk_spans(16000, 16000);
    assert_eq!(spans, vec![(0, 16000)]);
}

#[test]
fn long_audio_is_cut_into_overlapping_chunks() {
    // rate 10: chunks of 300 samples overlapping by 10.
    let spans = whspr_rs::chunk_spans(750, 10);
    assert_eq!(spans, vec![(0, 300), (290, 590), (580, 750)]);
}

#[test]
fn chunk_texts_join_with_single_spaces() {
    assert_eq!(
        whspr_rs::join_texts(&vec![
            String::from("hello"),
            String::from("world"),
            String::from("again"),
        ]),
        "hello world again"
    );
    assert_eq!(whspr_rs::join_texts(&Vec::new()), "");
    assert_eq!(whspr_rs::join_texts(&vec![String::from("one")]), "one");
}

#[test]
fn pixel_blend_writes_bgra_at_full_alpha() {
    let mut pixels = vec![0u8; 2 * 2 * 4];
    whspr_rs::set_pixel_blend(&mut pixels, 2, 2, 1, 0, 10, 20, 30, 255);
    assert_eq!(&pixels[4..8], &[30, 20, 10, 255]);
    assert_eq!(&pixels[0..4], &[0, 0, 0, 0]);
    assert_eq!(&pixels[8..16], &[0u8; 8]);
}

#[test]
fn pixel_blend_mixes_at_partial_alpha() {
    let mut pixels = vec![100u8; 4];
    whspr_rs::set_pixel_blend(&mut pixels, 1, 1, 0, 0, 0, 0, 255, 51);
    // blue channel: (51*255 + 204*100) / 255 = 131
    assert_eq!(pixels[0], 131);
    // red and green: (51*0 + 204*100) / 255 = 80
    assert_eq!(pixels[1], 80);
    assert_eq!(pixels[2], 80);
    // alpha: (51*255 + 204*100) / 255 = 131
    assert_eq!(pixels[3], 131);
}

#[test]
fn pixel_blend_ignores_out_of_surface_and_zero_alpha() {
    let mut pixels = vec![7u8; 4];
    whspr_rs::set_pixel_blend(&mut pixels, 1, 1, 5, 0, 1, 2, 3, 255);
    whspr_rs::set_pixel_blend(&mut pixels, 1, 1, 0, 0, 1, 2, 3, 0);
    assert_eq!(pixels, vec![7u8; 4]);
}

#[test]
fn rounded_rect_membership_cuts_the_corners() {
    // A 10x10 rectangle with radius 3: the exact corner is outside, the
    // centre of each edge and the middle are inside.
    assert!(!whspr_rs::is_inside_rounded_rect(0, 0, 10, 10, 3));
    assert!(whspr_rs::is_inside_rounded_rect(5, 0, 10, 10, 3));
    assert!(whspr_rs::is_inside_rounded_rect(0, 5, 10, 10, 3));
    assert!(whspr_rs::is_inside_rounded_rect(5, 5, 10, 10, 3));
    // Radius zero keeps every in-bounds pixel.
    assert!(whspr_rs::is_inside_rounded_rect(0, 0, 10, 10, 0));
}

#[test]
fn rounded_rect_fill_touches_only_the_rectangle() {
    let mut pixels = vec![0u8; 4 * 4 * 4];
    whspr_rs::draw_rounded_rect(&mut pixels, 4, 4, 1, 1, 2, 2, 0, 1, 2, 3, 255);
    // Inside the rect: BGRA written.
    assert_eq!(&pixels[(1 * 4 + 1) * 4..(1 * 4 + 1) * 4 + 4], &[3, 2, 1, 255]);
    assert_eq!(&pixels[(2 * 4 + 2) * 4..(2 * 4 + 2) * 4 + 4], &[3, 2, 1, 255]);
    // Outside: untouched.
    assert_eq!(&pixels[0..4], &[0, 0, 0, 0]);
    assert_eq!(&pixels[(3 * 4 + 3) * 4..(3 * 4 + 3) * 4 + 4], &[0, 0, 0, 0]);
}

#[test]
fn rounded_border_leaves_the_interior_alone() {
    let mut pixels = vec![0u8; 6 * 6 * 4];
    whspr_rs::draw_rounded_border(&mut pixels, 6, 6, 0, 1, 9, 9, 9, 255);
    // An edge pixel is stroked.
    assert_eq!(&pixels[(0 * 6 + 2) * 4..(0 * 6 + 2) * 4 + 4], &[9, 9, 9, 255]);
    // The centre is not.
    assert_eq!(&pixels[(3 * 6 + 3) * 4..(3 * 6 + 3) * 4 + 4], &[0, 0, 0, 0]);
}
