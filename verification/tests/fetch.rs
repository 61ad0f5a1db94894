use amanuensis::asr::fetch::{
    cache_dir_for, dir_complete, eta_left, file_url, format_seconds, generation_is_current,
    is_model_cached, mb_summary, model_files, model_paths, models_root, progress_status,
    progress_summary, progress_text, sum_known, total_size, Aggregate, DownloadProgress, EtaSample,
    EtaTracker, RateSample, SpeedTracker,
};
use amanuensis::asr::model::{
    kind_by_id, paths_matches_kind, registry, spec_by_id, ModelKind, ModelPaths, REPO_OWNER,
};

const SECOND: u64 = 1_000_000_000;

fn sample(millis_ago: u64, done: u64) -> EtaSample {
    EtaSample { at: 1_000 * SECOND - millis_ago * 1_000_000, done }
}

#[test]
fn file_url_has_expected_shape() {
    let spec = registry()[0];
    assert_eq!(
        file_url(spec, "encoder.int8.onnx"),
        format!(
            "https://huggingface.co/{REPO_OWNER}/{}/resolve/main/encoder.int8.onnx",
            spec.repo
        )
    );
}

#[test]
fn aggregate_math_skip_adds_full_partial_adds_streamed() {
    let mut aggregate = Aggregate::new(700_000_000);
    aggregate.finish_file(462_000_000);
    let mid = aggregate.current("decoder.int8.onnx", 30_000_000, 0);
    assert_eq!(mid.done, 492_000_000);
    assert_eq!(mid.total, 700_000_000);
    aggregate.finish_file(238_000_000);
    let next = aggregate.current("joiner.int8.onnx", 0, 0);
    assert_eq!(next.done, 700_000_000);
}

#[test]
fn mb_summary_handles_unknown_total_and_rounding() {
    assert_eq!(mb_summary(238_000_000, 0), "? MB");
    assert_eq!(mb_summary(238_000_000, 700_000_000), "34% · 238/700 MB");
    assert_eq!(mb_summary(700_500_000, 700_000_000), "100% · 701/700 MB");
    assert_eq!(mb_summary(0, 700_000_000), "0% · 0/700 MB");
}

#[test]
fn aggregate_payload_starts_with_unknown_speed() {
    let mut aggregate = Aggregate::new(700_000_000);
    assert!(aggregate.current("encoder.int8.onnx", 10_000, 0).measured.is_none());
    assert!(aggregate.current("encoder.int8.onnx", 20_000, 0).measured.is_none());
}

#[test]
fn speed_measurements_hide_the_first_and_rapid_samples() {
    let mut tracker = SpeedTracker::new();
    assert!(tracker.push(0, 0).is_none());
    assert!(tracker.push(50_000_000, SECOND / 50).is_none());
    let first = tracker.push(1_000_000, SECOND);
    assert_eq!(first, Some(RateSample { bytes: 1_000_000, nanos: SECOND }));
    assert!(tracker.push(1_400_000, SECOND + SECOND / 20).is_none());
    let second = tracker.push(3_000_000, 2 * SECOND);
    assert_eq!(second, Some(RateSample { bytes: 2_000_000, nanos: SECOND }));
}

#[test]
fn dir_complete_rejects_truncated_files() {
    assert!(dir_complete(&[Some(5), Some(5)]));
    assert!(!dir_complete(&[Some(5), Some(0)]));
    assert!(!dir_complete(&[Some(5), None]));
}

#[test]
fn eta_qualifies_after_two_second_window() {
    let samples = [
        sample(6_000, 100_000_000),
        sample(3_000, 200_000_000),
        sample(0, 300_000_000),
    ];
    assert_eq!(
        eta_left(&samples, 300_000_000, 600_000_000),
        Some("~9s left".to_owned())
    );
}

#[test]
fn eta_none_until_window_spans_two_seconds() {
    let samples = [sample(1_500, 100), sample(0, 200)];
    assert_eq!(eta_left(&samples, 200, 600), None);
    assert_eq!(eta_left(&[sample(0, 100)], 100, 600), None);
    assert_eq!(eta_left(&[], 0, 600), None);
}

#[test]
fn eta_evicts_stale_samples() {
    let samples = [sample(60_000, 10_000_000), sample(500, 11_000_000)];
    assert_eq!(eta_left(&samples, 11_000_000, 700_000_000), None);
}

#[test]
fn eta_formats_minutes_and_seconds() {
    let samples = [sample(4_000, 0), sample(0, 4_000_000)];
    let eta = eta_left(&samples, 4_000_000, 1_000_000_000).unwrap();
    assert_eq!(eta, "~16m 36s left");
    let samples = [sample(4_000, 0), sample(0, 400_000_000)];
    let eta = eta_left(&samples, 400_000_000, 1_000_000_000).unwrap();
    assert_eq!(eta, "~6s left");
}

#[test]
fn eta_none_when_no_progress_in_window() {
    let samples = [sample(6_000, 500), sample(0, 500)];
    assert_eq!(eta_left(&samples, 500, 700_000_000), None);
}

#[test]
fn generation_guard_matches_only_current() {
    assert!(generation_is_current(7, 7));
    assert!(!generation_is_current(6, 7));
}

#[test]
fn eta_tracker_throttles_progress_flood_so_window_qualifies() {
    let t0 = 5 * SECOND;
    let mut tracker = EtaTracker::new();
    tracker.push(0, t0);
    for step in 1..=200_u64 {
        tracker.push(step * 100_000, t0 + step * 1_000_000);
    }
    assert_eq!(tracker.samples.len(), 1);
    assert_eq!(tracker.estimate(200 * 100_000, 700_000_000), None);
    tracker.push(300_000_000, t0 + 3 * SECOND);
    let estimate = tracker
        .estimate(300_000_000, 700_000_000)
        .expect("window spans 3s after throttle");
    assert!(estimate.ends_with("left"));
    assert_eq!(estimate, "~4s left");
}

#[test]
fn eta_tracker_clear_resets_samples() {
    let mut tracker = EtaTracker::new();
    tracker.push(100, SECOND);
    assert!(!tracker.samples.is_empty());
    tracker.clear();
    assert!(tracker.samples.is_empty());
    assert_eq!(tracker.estimate(100, 600), None);
}

#[test]
fn seconds_are_told_as_minutes_from_one_minute_on() {
    assert_eq!(format_seconds(0), "~0s left");
    assert_eq!(format_seconds(59), "~59s left");
    assert_eq!(format_seconds(60), "~1m 0s left");
    assert_eq!(format_seconds(996), "~16m 36s left");
}

#[test]
fn progress_is_told_with_the_parts_that_are_known() {
    let progress = DownloadProgress {
        file: "encoder.int8.onnx".to_owned(),
        done: 238_000_000,
        total: 700_000_000,
        measured: None,
    };
    assert_eq!(
        progress_text("Nemotron", &progress),
        "Downloading Nemotron — 34% · 238/700 MB (encoder.int8.onnx)"
    );
    assert_eq!(
        progress_status("Nemotron", &progress, Some("2.4 MB/s"), None),
        "Downloading Nemotron — 34% · 238/700 MB · 2.4 MB/s (encoder.int8.onnx)"
    );
    assert_eq!(
        progress_summary(238_000_000, 700_000_000, Some("2.4 MB/s"), Some("~9s left")),
        "34% · 238/700 MB · 2.4 MB/s · ~9s left"
    );
}

#[test]
fn sizes_add_up_as_far_as_they_are_known() {
    assert_eq!(sum_known(&[Some(3), None, Some(4)]), 7);
    assert_eq!(total_size(&[Some(3), None, Some(4)]), None);
    assert_eq!(total_size(&[Some(3), Some(4)]), Some(7));
}

#[test]
fn the_registry_lists_one_engine() {
    assert_eq!(spec_by_id("nemotron").unwrap().size_mb, 632);
    assert!(spec_by_id("whisper").is_none());
    assert_eq!(kind_by_id("nemotron"), Some(ModelKind::Nemotron));
    assert_eq!(kind_by_id(""), None);
    assert_eq!(ModelKind::Nemotron.spec().id, ModelKind::Nemotron.id());
    assert_eq!(ModelKind::Moonshine.name(), "Moonshine");
}

#[test]
fn the_files_of_a_model_have_their_paths() {
    assert_eq!(
        model_files("nemotron"),
        vec!["encoder.int8.onnx", "decoder.int8.onnx", "joiner.int8.onnx", "tokens.txt"]
    );
    let paths = model_paths("nemotron", "C:\\models\\nemotron");
    match &paths {
        ModelPaths::Nemotron { encoder, .. } => {
            assert_eq!(encoder, "C:\\models\\nemotron\\encoder.int8.onnx");
        }
        ModelPaths::Moonshine { .. } => panic!("wrong engine"),
    }
    assert!(paths_matches_kind(&paths, ModelKind::Nemotron));
    assert!(!paths_matches_kind(&paths, ModelKind::Moonshine));
    let whole = model_paths("moonshine", "m");
    assert!(paths_matches_kind(&whole, ModelKind::Moonshine));
}

#[test]
fn a_model_counts_as_cached_when_every_file_has_content() {
    assert!(is_model_cached("nemotron", &[Some(1), Some(2), Some(3), Some(4)]));
    assert!(!is_model_cached("nemotron", &[Some(1), Some(2), Some(3), None]));
    assert!(!is_model_cached("whisper", &[Some(1)]));
}

#[test]
fn models_live_next_to_the_settings() {
    assert_eq!(
        cache_dir_for("C:\\m", ModelKind::Nemotron),
        Some("C:\\m\\nemotron".to_owned())
    );
    let root = models_root("C:\\Users\\x\\AppData\\Roaming\\amanuensis", true, None, false);
    assert_eq!(root, Some("C:\\Users\\x\\AppData\\Roaming\\amanuensis\\models".to_owned()));
}
