use amanuensis::asr::engine::{
    partial, provider, streaming_config, threads, whole_config, Recording,
};
use amanuensis::asr::fetch::model_paths;
use amanuensis::asr::model::{kind_by_id, registry, spec_by_id, ModelKind};
use amanuensis::audio::{push_all, resample_from, Chunker, Sound, CHUNK_SAMPLES};
use amanuensis::pattern::{rewrite_all, rewrite_first};
use amanuensis::paths::join;
use amanuensis::probe::{
    bmp_bytes, capture_size, color_parts, corners_seen, sample_points, show_plan, title_utf16,
    variant_config,
};
use amanuensis::smoke::{
    check_line, dictation_audio, expected_for_zero, feed_chunk_samples, normalize, run_hold_test,
    run_transcription_check, tail, texts_agree, Hold, HoldVerdict, Partials, SmokeArgs,
    GAP_SAMPLES, GROWTH_LIMIT, MARK_SAMPLES, SPEECH_SAMPLES,
};
use amanuensis::text::{
    decimal, is_blank, joined, parse_i32, same_ignoring_case, same_text, signed_decimal,
    signed_decimal_wide, split, trim, two_digits, width,
};
use amanuensis::words::{le_units, signed_hiword, signed_loword, wide};

#[test]
fn patterns_are_replaced() {
    assert_eq!(rewrite_all("[ \t]{2,}", "a  b   c", " "), "a b c");
    assert_eq!(rewrite_first("[ \t]{2,}", "a  b   c", " "), "a b   c");
    assert_eq!(rewrite_all("(\\w)-(\\w)", "a-b c-d", "${2}${1}"), "ba dc");
    assert_eq!(rewrite_all("(", "a(b", "x"), "a(b");
    assert_eq!(rewrite_first("(", "a(b", "x"), "a(b");
}

#[test]
fn paths_are_joined() {
    assert_eq!(join("C:\\a", "b"), "C:\\a\\b");
    assert_eq!(join("C:\\a\\", "b"), "C:\\a\\b");
    assert_eq!(join("C:", "b"), "C:b");
    assert_eq!(join("", "b"), "b");
}

#[test]
fn texts_are_taken_apart() {
    assert_eq!(decimal(0), "0");
    assert_eq!(decimal(u64::MAX), "18446744073709551615");
    assert_eq!(two_digits(7), "07");
    assert_eq!(two_digits(123), "123");
    assert_eq!(signed_decimal(i32::MIN), "-2147483648");
    assert_eq!(signed_decimal_wide(i64::MIN), "-9223372036854775808");
    assert_eq!(trim("\u{a0} a b\t\n"), "a b");
    assert!(is_blank(" \u{2003}\n"));
    assert!(!is_blank(" x"));
    assert_eq!(split("a,,b", ','), ["a", "", "b"]);
    assert_eq!(split("", ','), [""]);
    assert_eq!(parse_i32("-12"), Some(-12));
    assert_eq!(parse_i32("+5"), Some(5));
    assert_eq!(parse_i32("2147483648"), None);
    assert_eq!(parse_i32(""), None);
    assert_eq!(parse_i32("1x"), None);
    assert!(same_ignoring_case("HeLLo", "hEllO"));
    assert!(!same_ignoring_case("hello", "hell"));
    assert!(same_text("\u{e9}", "\u{e9}"));
    assert_eq!(joined("a", "\u{e9}"), "a\u{e9}");
    assert_eq!([width('a'), width('\u{e9}'), width('\u{20ac}'), width('\u{1f600}')], [1, 2, 3, 4]);
}

#[test]
fn words_of_the_system() {
    assert_eq!(signed_loword(0xffff_fffe), -2);
    assert_eq!(signed_hiword(0xffff_fffe), -1);
    assert_eq!(signed_loword(0x0005_7fff), 32767);
    assert_eq!(signed_hiword(0x0005_7fff), 5);
    assert_eq!(wide("a\u{1f600}"), [0x61, 0xd83d, 0xde00, 0]);
    assert_eq!(le_units(&[0x61, 0, 0x3d, 0xd8]), [0x61, 0xd83d]);
}

#[test]
fn engines_are_found_by_their_id() {
    assert_eq!(registry()[0].id, "nemotron");
    assert_eq!(spec_by_id("nemotron").unwrap().display_name, "Nemotron Streaming");
    assert!(spec_by_id("moonshine").is_none());
    assert_eq!(kind_by_id("nemotron"), Some(ModelKind::Nemotron));
    assert_eq!(kind_by_id("moonshine"), None);
    assert_eq!(ModelKind::Nemotron.spec().size_mb, 632);
    assert_eq!(ModelKind::Moonshine.id(), "moonshine");
}

#[test]
fn the_environment_decides_on_engines() {
    assert_eq!(threads(2, Some("6")), 6);
    assert_eq!(threads(2, Some("many")), 2);
    assert_eq!(threads(2, None), 2);
    assert_eq!(provider(Some("cpu"), Some(" CUDA ")), Some("cuda".to_owned()));
    assert_eq!(provider(Some("cpu"), Some("  ")), Some("cpu".to_owned()));
    assert_eq!(provider(None, None), None);
}

#[test]
fn engines_are_set_up_for_their_files() {
    let streaming = model_paths("nemotron", "C:\\m");
    let config = streaming_config(&streaming, Some("cuda".to_owned()), 3).unwrap();
    assert_eq!((config.sample_rate, config.feature_dim, config.threads), (16000, 128, 3));
    assert_eq!(config.provider.as_deref(), Some("cuda"));
    assert!(config.greedy && !config.endpoint);
    assert!(whole_config(&streaming, None, 3).is_none());
}

#[test]
fn a_recording_is_gathered_while_its_session_is_open() {
    let mut recording: Recording<u16> = Recording::new();
    recording.feed_audio(&[9]);
    assert_eq!(recording.finalize(), Some(vec![9]));
    recording.feed_audio(&[1, 2]);
    assert_eq!(recording.finalize(), None);
    recording.start_session();
    recording.feed_audio(&[1, 2]);
    recording.feed_audio(&[3]);
    assert_eq!(recording.finalize(), Some(vec![1, 2, 3]));
    assert_eq!(recording.finalize(), None);
    assert_eq!(partial(Some(String::new())), None);
    assert_eq!(partial(Some("he".to_owned())), Some("he".to_owned()));
    assert_eq!(partial(None), None);
}

#[test]
fn audio_is_cut_into_pieces() {
    let samples: Vec<u32> = (0..1000).collect();
    let mut whole = Chunker::new();
    let handed = push_all(&mut whole, &samples);
    assert_eq!(handed.len(), 2);
    assert_eq!(handed[1][0], CHUNK_SAMPLES as u32);
    assert_eq!(whole.buffer.len(), 40);
    let mut parts = Chunker::new();
    let mut pieces = push_all(&mut parts, &samples[..300]);
    pieces.extend(push_all(&mut parts, &samples[300..]));
    assert_eq!(pieces, handed);
    assert_eq!(parts.buffer, whole.buffer);
    assert_eq!(resample_from(16000), None);
    assert_eq!(resample_from(48000), Some(48000));
}

#[test]
fn sounds_have_their_files() {
    assert_eq!(Sound::Start.file(), "alert-01.mp3");
    assert_eq!(Sound::Stop.file(), "staplebops-01.mp3");
    assert_eq!(Sound::Cancel.file(), "nope-03.mp3");
    assert_eq!(Sound::Success.file(), "yup-01.mp3");
    assert_eq!(Sound::Failure.file(), "nope-03.mp3");
}

#[test]
fn variants_of_the_window_probe() {
    assert!(variant_config("baseline").popup);
    assert!(!variant_config("normal-opaque").popup);
    assert!(!variant_config("opaque").transparent);
    assert!(variant_config("morph-hide").hide_cycle);
    assert!(variant_config("rawhide-long").long_hide);
    let plan = show_plan("rawhide");
    assert_eq!((plan.hide, plan.wait_ms, plan.morph), (true, 400, false));
    let plan = show_plan("morph-hidden");
    assert_eq!((plan.hide, plan.wait_ms, plan.morph), (true, 3000, true));
    let plan = show_plan("baseline");
    assert_eq!((plan.hide, plan.wait_ms, plan.morph), (false, 0, false));
    assert_eq!(title_utf16("morph"), wide("win-probe-window-morph"));
}

#[test]
fn the_probe_looks_at_the_corners() {
    assert_eq!(capture_size(0, 0, 10, 20), Some((10, 20)));
    assert_eq!(capture_size(5, 0, 5, 20), None);
    assert_eq!(
        sample_points(100, 50),
        [(6, 6), (93, 6), (6, 43), (93, 43), (50, 25)]
    );
    assert_eq!(color_parts(0x0030_20c8), (200, 32, 48));
    let red = (200, 10, 10);
    let blue = (10, 10, 200);
    assert_eq!(corners_seen(&[red, red, red, blue, blue]), (3, true));
    assert_eq!(corners_seen(&[red, red, blue, blue, red]), (2, false));
}

#[test]
fn pictures_are_written_as_bitmaps() {
    let pixels: Vec<u8> = (0..16).collect();
    let bytes = bmp_bytes(2, 2, &pixels);
    assert_eq!(bytes.len(), 70);
    assert_eq!(&bytes[..2], b"BM");
    assert_eq!(bytes[2..6], 70u32.to_le_bytes());
    assert_eq!(bytes[10..14], 54u32.to_le_bytes());
    assert_eq!(bytes[18..22], 2u32.to_le_bytes());
    assert_eq!(&bytes[54..], &pixels[..]);
}

#[test]
fn arguments_of_the_smoke_test() {
    let args = |list: &[&str]| {
        SmokeArgs::parse(&list.iter().map(|a| (*a).to_owned()).collect::<Vec<String>>())
    };
    let plain = args(&[]).unwrap();
    assert_eq!(plain.hold_seconds, 300);
    assert!(!plain.hold_test && !plain.reload_metrics);
    let held = args(&["nemotron", "--hold-test", "--hold-seconds=60"]).unwrap();
    assert!(held.hold_test);
    assert_eq!(held.hold_seconds, 60);
    assert!(args(&["--reload-metrics"]).unwrap().reload_metrics);
    assert!(args(&["--hold-seconds=x"]).is_none());
    assert!(args(&["whisper"]).is_none());
}

#[test]
fn held_audio_has_speech_and_pauses() {
    assert!(dictation_audio(&[], 0, 0u8).is_empty());
    let out = dictation_audio(&[1u8, 2, 3], SPEECH_SAMPLES + GAP_SAMPLES + 2, 0);
    assert_eq!(out.len(), SPEECH_SAMPLES + GAP_SAMPLES + 2);
    assert_eq!(out[..4], [1, 2, 3, 1]);
    assert_eq!(out[SPEECH_SAMPLES], 0);
    assert_eq!(out[SPEECH_SAMPLES + GAP_SAMPLES - 1], 0);
    assert_ne!(out[SPEECH_SAMPLES + GAP_SAMPLES], 0);
}

#[test]
fn expected_transcripts_are_found() {
    assert_eq!(expected_for_zero("1.wav one\n0.wav after early nightfall\n"), "after early nightfall");
    assert_eq!(expected_for_zero("0\tafter early"), "after early");
    assert_eq!(expected_for_zero("\n  only line \n"), "only line");
    assert_eq!(expected_for_zero(""), "");
}

#[test]
fn transcripts_are_compared_by_their_letters() {
    assert_eq!(normalize("After Early, Nightfall!"), "afterearlynightfall");
    assert_eq!(normalize("\u{c9}t\u{e9} 2"), "\u{e9}t\u{e9}2");
    assert!(texts_agree("afterearly", "early"));
    assert!(texts_agree("early", "afterearly"));
    assert!(!texts_agree("early", "late"));
    assert!(!texts_agree("early", ""));
    assert!(run_transcription_check("After early nightfall.", "AFTER EARLY NIGHTFALL"));
    assert!(!run_transcription_check("something else", "AFTER EARLY"));
    assert!(check_line(true, "nemotron").contains("(nemotron): MATCH"));
    assert!(check_line(false, "nemotron").contains("(nemotron): MISMATCH"));
}

#[test]
fn a_hold_is_marked_and_judged() {
    let mut hold = Hold::new();
    assert!(hold.fed(0, 480, Some("a".to_owned()), 100).is_none());
    let mark = hold.fed(MARK_SAMPLES - 480, 480, Some("ab".to_owned()), 200).unwrap();
    assert_eq!((mark.seconds, mark.window_chunks), (30, 2));
    assert_eq!(hold.partials.advances, 2);
    assert_eq!(run_hold_test("text", &hold, 200), HoldVerdict::Bounded);
    assert_eq!(run_hold_test(" ", &hold, 200), HoldVerdict::Fail);
    assert_eq!(run_hold_test("text", &hold, 201 + GROWTH_LIMIT), HoldVerdict::Growth);
    assert_eq!(run_hold_test("text", &Hold::new(), 0), HoldVerdict::Suspect);
    let mut partials = Partials::new();
    partials.note(Some("a".to_owned()), 480);
    partials.note(Some("a".to_owned()), 960);
    assert_eq!((partials.advances, partials.advanced_at), (1, 480));
}

#[test]
fn small_settings_of_the_smoke_test() {
    assert_eq!(feed_chunk_samples(None), Some(480));
    assert_eq!(feed_chunk_samples(Some("960")), Some(960));
    assert_eq!(feed_chunk_samples(Some("x")), None);
    let long = "x".repeat(130);
    assert_eq!(tail(&long).len(), 120);
    assert_eq!(tail("short"), "short");
}
