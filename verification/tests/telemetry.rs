use amanuensis::config::AppConfig;
use amanuensis::telemetry::{
    backend_bench, bundle_name, bundled_files, config_summary_json, consent_event, device_profile,
    device_profile_json, event_file, export_logs, gather_model_info, is_event_file, is_leap,
    iso_timestamp, logs_dir, model_download, now_utc, os_info, select_argument, session_end,
    json_or_failure, pretty_json, telemetry_dir, utc_timestamp, write_event, BackendSelected,
    DeviceFacts, ErrorEvent, ExportFailure, Fallback, RewriteEnd, Telemetry,
};
use serde_json::Value;

fn parsed(line: &str) -> Value {
    assert!(line.ends_with('\n'));
    assert_eq!(line.matches('\n').count(), 1);
    serde_json::from_str(line.trim()).unwrap()
}

fn consenting() -> Telemetry {
    let mut telemetry = Telemetry::new();
    telemetry.set_consent(true);
    assert!(telemetry.consent());
    telemetry
}

fn device() -> DeviceFacts {
    DeviceFacts {
        os_name: "Windows".to_owned(),
        os_version: "11".to_owned(),
        os_build: "26100".to_owned(),
        arch: "x86_64".to_owned(),
        cpu_brand: "Some CPU".to_owned(),
        cpu_threads: 16,
        cpu_cores: None,
        gpu_vendor: "nvidia".to_owned(),
        gpu_name: "RTX".to_owned(),
    }
}

#[test]
fn consent_default_off() {
    let mut telemetry = Telemetry::new();
    assert!(!telemetry.consent());
    telemetry.set_consent(false);
    assert_eq!(telemetry.app_start(0, "x86_64"), None);
}

#[test]
fn consent_gate_events_written() {
    let line = consenting().app_start(0, "x86_64").unwrap();
    let parsed = parsed(&line);
    assert_eq!(parsed["event"], "app_start");
    assert_eq!(parsed["app_version"], "1.0.3");
}

#[test]
fn jsonl_line_is_valid_json() {
    let mut object = backend_bench("cpu-4", "cpu", "test", 1234, true, 0);
    object.insert("rtf".to_owned(), Value::from(0.5));
    object.insert("margin".to_owned(), Value::from(1.1));
    let line = consenting().log_event(&object).unwrap();
    let parsed = parsed(&line);
    assert_eq!(parsed["rtf"], 0.5);
    assert_eq!(parsed["accepted"], true);
}

#[test]
fn multiple_events_append_to_same_file() {
    let telemetry = consenting();
    let mut content = telemetry.app_start(86_400, "x86_64").unwrap();
    content.push_str(&telemetry.log_event(&device_profile(&device(), &[])).unwrap());
    assert_eq!(event_file(86_400), event_file(86_400 + 86_399));
    let lines: Vec<&str> = content.lines().collect();
    assert_eq!(lines.len(), 2);
    let first: Value = serde_json::from_str(lines[0]).unwrap();
    let second: Value = serde_json::from_str(lines[1]).unwrap();
    assert_eq!(first["event"], "app_start");
    assert_eq!(second["event"], "device_profile");
}

#[test]
fn device_profile_contains_required_fields() {
    let mut object = device_profile(&device(), &gather_model_info(true, Some(10), None));
    object.insert("ram_total_gb".to_owned(), Value::from(31.9));
    let line = write_event(&object);
    let parsed = parsed(&line);
    assert_eq!(parsed["event"], "device_profile");
    assert!(parsed["os_name"].is_string());
    assert!(parsed["arch"].is_string());
    assert!(parsed["cpu_brand"].is_string());
    assert_eq!(parsed["cpu_threads"], 16);
    assert_eq!(parsed["cpu_physical_cores"], 16);
    assert!(parsed["ram_total_gb"].is_number());
    assert!(parsed["models"].is_array());
    assert_eq!(parsed["models"][0]["id"], "nemotron");
    assert_eq!(parsed["models"][0]["bytes"], 10);
    assert_eq!(parsed["models"][1]["id"], "moonshine");
    assert_eq!(parsed["models"][1]["cached"], false);
    let bundled = Value::Object(device_profile_json(&device(), &[]));
    assert!(bundled.get("event").is_none());
    assert_eq!(bundled["os_build"], "26100");
    assert_eq!(bundled["models"], Value::Array(Vec::new()));
}

#[test]
fn bundled_descriptions_are_indented() {
    let summary = config_summary_json(&AppConfig::default(), "nvidia");
    let json = pretty_json(&summary, ExportFailure::ConfigJson).unwrap();
    assert!(json.starts_with("{\n  \"model\": \"moonshine\","));
    let back: Value = serde_json::from_str(&json).unwrap();
    assert_eq!(back, Value::Object(summary));
    assert_eq!(
        json_or_failure(Err("odd key".to_owned()), ExportFailure::DeviceJson),
        Err("serializing device info: odd key".to_owned())
    );
}

#[test]
fn every_event_waits_for_consent() {
    let selected = BackendSelected {
        kind: "asr".to_owned(),
        provider: "cpu".to_owned(),
        backend: "sherpa".to_owned(),
        device: "cpu".to_owned(),
        threads: -1,
        decided_by: "bench".to_owned(),
        bench_ref: None,
    };
    let rewritten = RewriteEnd {
        backend: "llama.cpp".to_owned(),
        device: "cpu".to_owned(),
        wall_ms: 9,
        in_tokens: 2,
        out_tokens: 3,
        ok: true,
    };
    let error = ErrorEvent {
        kind: "asr".to_owned(),
        backend: "cpu".to_owned(),
        message: "broke\nhere".to_owned(),
        stderr_tail: String::new(),
    };
    let fallback = Fallback {
        kind: "asr".to_owned(),
        provider: "cuda".to_owned(),
        reason: "missing".to_owned(),
        from: "cuda".to_owned(),
        to: "cpu".to_owned(),
    };
    let silent = Telemetry::new();
    assert_eq!(silent.backend_selected(&selected), None);
    assert_eq!(silent.rewrite_end(&rewritten), None);
    assert_eq!(silent.error(&error), None);
    assert_eq!(silent.fallback(&fallback), None);
    assert_eq!(silent.log_event(&session_end("record", 1, 2, 3)), None);
    let loud = consenting();
    let selected = parsed(&loud.backend_selected(&selected).unwrap());
    assert_eq!(selected["event"], "backend_selected");
    assert_eq!(selected["threads"], -1);
    assert!(selected["bench_ref"].is_null());
    assert_eq!(parsed(&loud.rewrite_end(&rewritten).unwrap())["out_tokens"], 3);
    assert_eq!(parsed(&loud.error(&error).unwrap())["message"], "broke\nhere");
    assert_eq!(parsed(&loud.fallback(&fallback).unwrap())["to"], "cpu");
}

#[test]
fn changes_of_consent_are_always_recorded() {
    let granted = parsed(&consent_event(true, 0));
    assert_eq!(granted["event"], "consent");
    assert_eq!(consent_event(false, 0), consent_event(false, 0));
    assert_ne!(consent_event(false, 0), consent_event(true, 0));
}

#[test]
fn events_have_their_fields() {
    let session = Value::Object(session_end("live", 10, 20, 3));
    assert_eq!(session["event"], "session_end");
    assert_eq!(session["mode"], "live");
    assert_eq!(session["decode_wall_ms"], 10);
    assert_eq!(session["finalize_ms"], 20);
    assert_eq!(session["partials_advanced"], 3);
    let download = Value::Object(model_download("nemotron", 7, "hf"));
    assert_eq!(download["event"], "model_download");
    assert_eq!(download["bytes"], 7);
    let summary = Value::Object(config_summary_json(&AppConfig::default(), "nvidia"));
    assert_eq!(summary["model"], "moonshine");
    assert_eq!(summary["provider"], "nvidia");
    assert_eq!(summary["rewrite_enabled"], true);
}

#[test]
fn days_are_counted_from_the_epoch() {
    assert_eq!(now_utc(0), "1970-01-01");
    assert_eq!(now_utc(86_399), "1970-01-01");
    assert_eq!(now_utc(86_400), "1970-01-02");
    assert_eq!(now_utc(951_782_400), "2000-02-29");
    assert_eq!(now_utc(951_868_800), "2000-03-01");
    assert_eq!(now_utc(1_709_164_800), "2024-02-29");
    assert_eq!(now_utc(4_107_542_400), "2100-03-01");
    assert_eq!(now_utc(1_767_225_599), "2025-12-31");
    assert!(is_leap(2000) && is_leap(2024));
    assert!(!is_leap(1900) && !is_leap(2023));
}

#[test]
fn moments_are_written_in_full() {
    assert_eq!(iso_timestamp(951_868_799), "2000-02-29T23:59:59Z");
    assert_eq!(utc_timestamp(951_868_799), "951868799");
    assert!(event_file(0).contains("1970-01-01"));
    assert!(bundle_name(0).ends_with(".zip"));
}

#[test]
fn directories_follow_the_environment() {
    assert_eq!(telemetry_dir(Some("D:\\t"), Some("C:\\A")), "D:\\t");
    assert_eq!(telemetry_dir(None, Some("C:\\A")), "C:\\A\\amanuensis\\logs\\telemetry");
    assert_eq!(logs_dir(None, None, Some("C:\\A")), "C:\\A\\amanuensis\\logs");
}

#[test]
fn unknown_system_facts_are_left_empty() {
    assert_eq!(
        os_info(Some("Windows".to_owned()), None, Some("26100".to_owned())),
        ("Windows".to_owned(), String::new(), "26100".to_owned())
    );
    assert_eq!(os_info(None, None, None).0, "Windows");
}

#[test]
fn models_report_their_size() {
    let models = gather_model_info(true, Some(10), None);
    assert_eq!(models.len(), 2);
    let nemotron = models.iter().find(|m| m.id == "nemotron").unwrap();
    assert_eq!((nemotron.bytes, nemotron.cached), (10, true));
    let moonshine = models.iter().find(|m| m.id == "moonshine").unwrap();
    assert_eq!((moonshine.bytes, moonshine.cached), (0, false));
    assert!(gather_model_info(false, Some(10), None).is_empty());
}

#[test]
fn bundles_hold_the_log_and_the_events() {
    assert!(is_event_file("events-2026-01-01.jsonl"));
    assert!(!is_event_file("notes.txt"));
    let names = vec!["events-2026-01-01.jsonl".to_owned(), "notes.txt".to_owned()];
    let without = bundled_files(false, &names);
    let with = bundled_files(true, &names);
    assert_eq!(with.len(), without.len() + 1);
    assert!(without.contains(&"events-2026-01-01.jsonl".to_owned()));
    assert!(!without.contains(&"notes.txt".to_owned()));
    assert_eq!(export_logs(true, "C:\\b.zip".to_owned(), ""), Ok("C:\\b.zip".to_owned()));
    let failed = export_logs(false, "C:\\b.zip".to_owned(), "no room\n").unwrap_err();
    assert!(failed.contains("no room"));
    assert_eq!(select_argument("C:\\b.zip"), "/select,C:\\b.zip");
    for failure in [
        ExportFailure::Staging,
        ExportFailure::DeviceJson,
        ExportFailure::DeviceFile,
        ExportFailure::ConfigJson,
        ExportFailure::ConfigFile,
        ExportFailure::Shell,
        ExportFailure::Archive,
    ] {
        assert!(failure.text("denied").ends_with("denied"));
    }
}
