use amanuensis::backend_detect::{
    adapter_key, candidates_for, chrono_string, cpu_vendor, decide_winner, detect_hardware,
    dominant_vendor, enumerate_adapters, env_forces_idle, faster, hash_device, judge_probe, needs_bench, parse_created, parse_matching_id, parse_rtf, parse_speed, probe_child,
    probe_code, query_string, run_backend_bench, text_size, vendor_from_id, vendor_of,
    winner_entry, AdapterEntry, BenchAction, BenchProgress, BenchResult, GpuAdapter,
    HardwareProfile, ProbeVerdict, Vendor, APP_VERSION, RTF_NAN,
};
use amanuensis::config::AsrCacheEntry;

fn cpu_result(threads: i32, rtf: i64) -> BenchResult {
    BenchResult { provider: "cpu".to_owned(), threads, is_gpu: false, rtf }
}

fn gpu_result(rtf: i64) -> BenchResult {
    BenchResult { provider: "cuda".to_owned(), threads: 1, is_gpu: true, rtf }
}

fn profile(vendor: Vendor, label: &str, arch: &str, hash: &str) -> HardwareProfile {
    HardwareProfile {
        vendor,
        gpu_label: label.to_owned(),
        arch: arch.to_owned(),
        os: "windows".to_owned(),
        device_hash: hash.to_owned(),
    }
}

fn entry(hash: &str) -> AsrCacheEntry {
    AsrCacheEntry {
        provider: "cpu".to_owned(),
        threads: 4,
        win_rtf: 8_500,
        app_version: APP_VERSION.to_owned(),
        cached_at: "0".to_owned(),
        device_hash: hash.to_owned(),
    }
}

#[test]
fn gpu_wins_when_1_1x_faster() {
    let results = [cpu_result(2, 9_000), gpu_result(8_000)];
    let winner = decide_winner(&results).unwrap();
    assert_eq!(winner.provider, "cuda");
}

#[test]
fn cpu_wins_when_gpu_not_marginally_faster() {
    let results = [cpu_result(4, 8_400), gpu_result(8_400)];
    let winner = decide_winner(&results).unwrap();
    assert_eq!(winner.provider, "cpu");
}

#[test]
fn cpu_only_falls_back_to_cpu() {
    let results = [
        cpu_result(1, 11_500),
        cpu_result(2, 10_100),
        cpu_result(4, 8_700),
    ];
    let winner = decide_winner(&results).unwrap();
    assert_eq!(winner.provider, "cpu");
    assert_eq!(winner.threads, 4);
}

#[test]
fn no_cpu_but_gpu_available() {
    let winner = decide_winner(&[gpu_result(12_000)]).unwrap();
    assert_eq!(winner.provider, "cuda");
}

#[test]
fn empty_results_no_winner() {
    assert!(decide_winner(&[]).is_none());
}

#[test]
fn vendor_provider_mapping() {
    assert_eq!(Vendor::Nvidia.gpu_provider(), Some("cuda"));
    assert_eq!(Vendor::Amd.gpu_provider(), None);
    assert_eq!(Vendor::Qualcomm.gpu_provider(), None);
    assert_eq!(Vendor::Intel.gpu_provider(), None);
    assert_eq!(Vendor::Cpu.gpu_provider(), None);
}

#[test]
fn candidates_include_cpu_threads_and_gpu() {
    let profile = profile(Vendor::Nvidia, "GeForce", "x86_64", "abc");
    let candidates = candidates_for(&profile);
    let cpu_threads: Vec<i32> = candidates
        .iter()
        .filter(|c| c.provider == "cpu")
        .map(|c| c.threads)
        .collect();
    assert_eq!(cpu_threads, vec![1, 2, 4]);
    assert!(candidates.iter().any(|c| c.provider == "cuda" && c.is_gpu));
}

#[test]
fn snapdragon_probes_no_gpu() {
    let profile = profile(Vendor::Qualcomm, "Adreno", "aarch64", "abc");
    let candidates = candidates_for(&profile);
    assert!(!candidates.is_empty());
    assert!(!candidates.iter().any(|c| c.is_gpu));
    assert!(candidates.iter().all(|c| c.provider == "cpu"));
}

#[test]
fn amd_probes_no_gpu() {
    let profile = profile(Vendor::Amd, "Radeon", "x86_64", "abc");
    let candidates = candidates_for(&profile);
    assert!(!candidates.iter().any(|c| c.is_gpu));
}

#[test]
fn needs_bench_first_run() {
    let profile = profile(Vendor::Nvidia, "g", "x86_64", "h1");
    let empty = AsrCacheEntry::default();
    assert!(needs_bench(&empty, &profile, false));
}

#[test]
fn needs_bench_device_change_invalidates() {
    let profile = profile(Vendor::Nvidia, "g", "x86_64", "h2");
    assert!(needs_bench(&entry("h1"), &profile, false));
}

#[test]
fn needs_bench_up_to_date_is_false() {
    let profile = profile(Vendor::Nvidia, "g", "x86_64", "h1");
    assert!(!needs_bench(&entry("h1"), &profile, false));
}

#[test]
fn a_forced_backend_is_not_measured() {
    assert!(env_forces_idle(true, false, false));
    assert!(env_forces_idle(false, true, false));
    assert!(env_forces_idle(false, false, true));
    assert!(!env_forces_idle(false, false, false));
    let profile = profile(Vendor::Nvidia, "g", "x86_64", "h1");
    assert!(!needs_bench(&AsrCacheEntry::default(), &profile, true));
    for (forced_idle, cached) in [(true, true), (false, false)] {
        let (mut bench, actions) = run_backend_bench(forced_idle, cached, &profile);
        assert!(bench.over);
        assert_eq!(format!("{actions:?}"), "[Return(None)]");
        assert!(bench.next(ProbeVerdict::Measured(1)).is_empty());
    }
}

#[test]
fn a_stored_winner_is_not_measured_again() {
    let profile = profile(Vendor::Nvidia, "g", "x86_64", "h1");
    let stored = winner_entry(&profile, &gpu_result(5_000), 1_700_000_000);
    assert_eq!(stored.provider, "cuda");
    assert_eq!(stored.cached_at, "1700000000");
    assert!(!needs_bench(&stored, &profile, false));
    assert_eq!(chrono_string(12), "12");
}

fn lines(texts: &[&str]) -> Vec<String> {
    texts.iter().map(|text| text.to_string()).collect()
}

#[test]
fn a_probe_is_judged_by_what_it_prints() {
    let created = "__probe_created provider=cpu threads=2";
    assert!(parse_created(&lines(&["noise", created])));
    assert!(!parse_created(&lines(&["noise"])));
    assert_eq!(
        judge_probe(&lines(&[created]), ""),
        ProbeVerdict::NotMeasured
    );
    assert_eq!(parse_rtf(&lines(&["noise"])), None);
    let measured = lines(&[created, "__probe_rtf 0.4321"]);
    assert_eq!(parse_rtf(&measured), Some(4_321));
    assert_eq!(judge_probe(&measured, ""), ProbeVerdict::Measured(4_321));
    let slow = lines(&[created, "__probe_rtf 10.5"]);
    assert_eq!(judge_probe(&slow, ""), ProbeVerdict::TooSlow(105_000));
    for (printed, verdict) in [
        ("10", ProbeVerdict::Measured(100_000)),
        ("10.0000", ProbeVerdict::Measured(100_000)),
        ("10.00004", ProbeVerdict::TooSlow(100_001)),
        ("-1", ProbeVerdict::Measured(-10_000)),
        ("inf", ProbeVerdict::TooSlow(1_000_000_000)),
        ("-Infinity", ProbeVerdict::Measured(-1_000_000_000)),
        ("NaN", ProbeVerdict::Measured(RTF_NAN)),
        ("fast", ProbeVerdict::NotMeasured),
    ] {
        let printed = lines(&[created, &format!("__probe_rtf {printed}")]);
        assert_eq!(judge_probe(&printed, ""), verdict);
    }
}

#[test]
fn speeds_are_decimal_numbers() {
    for (text, speed) in [
        ("0.5", 5_000),
        ("5.", 50_000),
        (".5", 5_000),
        ("+0.5", 5_000),
        ("1e-1", 1_000),
        ("2.5E+1", 250_000),
        ("12345e-4", 12_345),
        ("0.00019", 2),
        ("0.0001", 1),
        ("0.00010", 1),
        ("-0.5", -5_000),
        ("-0.00019", -1),
        ("-0", 0),
        ("INF", 1_000_000_000),
        ("+infinity", 1_000_000_000),
        ("-inf", -1_000_000_000),
        ("nan", RTF_NAN),
        ("-NaN", RTF_NAN),
        ("0e999999999999999999999999999999999999999", 0),
        ("1e-999999999999999999999999999999999999999", 1),
        ("-1e-999999999999999999999999999999999999999", 0),
        ("-1e999999999999999999999999999999999999999", -1_000_000_000),
        ("1e999999999999999999999999999999999999999", 1_000_000_000),
        ("179769313486231570000000000000000000000.0000", 1_000_000_000),
    ] {
        assert_eq!(parse_speed(text), Some(speed), "{text}");
    }
    for text in ["", ".", "+", "-", "e1", ".e1", "1e", "1e+", "1.2.3", "0x1", " 1", "1_000", "--1", "in", "infinit", "nano"] {
        assert_eq!(parse_speed(text), None, "{text}");
    }
}

#[test]
fn a_benchmark_measures_every_candidate() {
    let profile = profile(Vendor::Cpu, "", "x86_64", "h1");
    let (mut bench, actions) = run_backend_bench(false, true, &profile);
    assert_eq!(
        format!("{actions:?}"),
        "[EnsureClip, Report(Measuring { provider: \"cpu\", threads: 1, is_gpu: false }), Probe(0)]"
    );
    let actions = bench.next(ProbeVerdict::Measured(9_000));
    assert!(matches!(
        &actions[..],
        [
            BenchAction::Report(BenchProgress::Measured(BenchResult { rtf: 9_000, threads: 1, .. })),
            BenchAction::Report(BenchProgress::Measuring { threads: 2, .. }),
            BenchAction::Probe(1)
        ]
    ));
    let actions = bench.next(ProbeVerdict::NotMeasured);
    assert!(matches!(
        &actions[..],
        [BenchAction::Report(BenchProgress::Measuring { threads: 4, .. }), BenchAction::Probe(2)]
    ));
    let actions = bench.next(ProbeVerdict::Measured(8_000));
    let [
        BenchAction::Report(BenchProgress::Measured(last)),
        BenchAction::Store(stored),
        BenchAction::Report(BenchProgress::Finished { winner }),
        BenchAction::Return(returned),
    ] = &actions[..]
    else {
        panic!("not finished: {actions:?}");
    };
    assert_eq!((last.rtf, stored.threads, stored.rtf), (8_000, 4, 8_000));
    assert_eq!(winner.as_deref(), Some("cpu"));
    assert_eq!(returned, winner);
    assert!(bench.over);
    assert!(bench.next(ProbeVerdict::Measured(1)).is_empty());
}

#[test]
fn a_benchmark_without_measurements_has_no_winner() {
    let profile = profile(Vendor::Cpu, "", "x86_64", "h1");
    let (mut bench, _) = run_backend_bench(false, true, &profile);
    bench.next(ProbeVerdict::FellBack);
    bench.next(ProbeVerdict::NotCreated);
    let actions = bench.next(ProbeVerdict::NotMeasured);
    assert_eq!(format!("{actions:?}"), "[Report(Finished { winner: None }), Return(None)]");
}

#[test]
fn a_measurement_far_past_real_time_ends_the_benchmark() {
    let profile = profile(Vendor::Cpu, "", "x86_64", "h1");
    let (mut bench, _) = run_backend_bench(false, true, &profile);
    bench.next(ProbeVerdict::Measured(9_000));
    let actions = bench.next(ProbeVerdict::TooSlow(200_000));
    assert_eq!(format!("{actions:?}"), "[Report(Finished { winner: None }), Return(None)]");
    assert!(bench.over);
}

#[test]
fn what_is_no_number_is_neither_faster_nor_slower() {
    assert!(faster(-1, 0) && !faster(0, 0) && !faster(1, 0));
    assert!(!faster(RTF_NAN, 0) && !faster(0, RTF_NAN));
    let first = decide_winner(&[cpu_result(2, RTF_NAN), cpu_result(4, 5_000)]).unwrap();
    assert_eq!(first.threads, 2);
    let kept = decide_winner(&[cpu_result(2, RTF_NAN), gpu_result(5_000)]).unwrap();
    assert_eq!(kept.provider, "cpu");
    let negative = decide_winner(&[cpu_result(2, -100), gpu_result(-110)]).unwrap();
    assert_eq!(negative.provider, "cuda");
}

fn adapter(description: &str, vendor_id: &str) -> GpuAdapter {
    GpuAdapter {
        description: description.to_owned(),
        vendor_id: vendor_id.to_owned(),
        device_id: "1".to_owned(),
        key_name: "0000".to_owned(),
    }
}

#[test]
fn vendors_are_told_by_id_and_name() {
    assert_eq!(vendor_from_id("10DE"), Vendor::Nvidia);
    assert_eq!(vendor_from_id("1002"), Vendor::Amd);
    assert_eq!(vendor_from_id("8086"), Vendor::Intel);
    assert_eq!(vendor_of(&adapter("NVIDIA GeForce", "")), Vendor::Nvidia);
    assert_eq!(cpu_vendor("aarch64"), Vendor::Qualcomm);
    let both = [adapter("Intel UHD", "8086"), adapter("AMD Radeon", "1002")];
    assert_eq!(dominant_vendor(&both), Vendor::Amd);
    let turned = [adapter("AMD Radeon", "1002"), adapter("Intel UHD", "8086")];
    assert_eq!(dominant_vendor(&turned), Vendor::Amd);
}

#[test]
fn machines_are_told_apart_by_a_hash() {
    assert_eq!(hash_device("").len(), 16);
    assert_eq!(hash_device(""), "cbf29ce484222325");
    assert_eq!(hash_device("a"), "af63dc4c8601ec8c");
    let one = detect_hardware("x86_64", "windows", &[adapter("NVIDIA GeForce", "10DE")]);
    let none = detect_hardware("x86_64", "windows", &[]);
    assert_eq!(one.vendor, Vendor::Nvidia);
    assert_eq!(one.gpu_label, "NVIDIA GeForce");
    assert!(one.device_hash != none.device_hash);
}

#[test]
fn hardware_ids_are_read_in_capitals() {
    let (vendor, device) = parse_matching_id(Some("PCI\\VEN_10de&DEV_2684&SUBSYS_1"));
    assert_eq!((vendor.as_str(), device.as_str()), ("10DE", "2684"));
    let (vendor, device) = parse_matching_id(None);
    assert_eq!((vendor.as_str(), device.as_str()), ("", ""));
}

#[test]
fn adapters_without_a_description_are_passed_over() {
    let entries = [
        AdapterEntry {
            key_name: "0000".to_owned(),
            description: None,
            matching: Some("PCI\\VEN_8086&DEV_1".to_owned()),
        },
        AdapterEntry {
            key_name: "0001".to_owned(),
            description: Some("GeForce".to_owned()),
            matching: Some("PCI\\VEN_10DE&DEV_2".to_owned()),
        },
    ];
    let adapters = enumerate_adapters(&entries);
    assert_eq!(adapters.len(), 1);
    assert_eq!(adapters[0].vendor_id, "10DE");
    assert_eq!(adapters[0].device_id, "2");
    assert_eq!(adapters[0].key_name, "0001");
    assert!(adapter_key("0001").ends_with("}\\0001"));
}

#[test]
fn registry_texts_end_at_the_first_zero() {
    let mut bytes = Vec::new();
    for unit in "  GeForce é ".encode_utf16() {
        bytes.extend_from_slice(&unit.to_le_bytes());
    }
    bytes.extend_from_slice(&[0, 0, 65, 0]);
    assert_eq!(query_string(&bytes), "GeForce é");
    let broken: Vec<u8> = [0xd83d_u16, 0x41, 0xdc00, 0xd83d, 0xde00]
        .iter()
        .flat_map(|unit| unit.to_le_bytes())
        .collect();
    assert_eq!(query_string(&broken), "\u{fffd}A\u{fffd}\u{1f600}");
    assert_eq!(text_size(0, 1, 10), Some(10));
    assert_eq!(text_size(0, 4, 10), None);
    assert_eq!(text_size(0, 1, 1), None);
    assert_eq!(text_size(2, 1, 10), None);
}

#[test]
fn a_probe_needs_its_variables() {
    let request = probe_child(Some("cuda".to_owned()), Some("2"), true).unwrap();
    assert_eq!((request.provider.as_str(), request.threads), ("cuda", 2));
    assert_eq!(probe_child(None, Some("2"), true).unwrap_err(), 2);
    assert_eq!(probe_child(Some("cuda".to_owned()), Some("x"), true).unwrap_err(), 2);
    assert_eq!(probe_child(Some("cuda".to_owned()), None, true).unwrap_err(), 2);
    assert_eq!(probe_child(Some("cuda".to_owned()), Some("2"), false).unwrap_err(), 2);
    assert_eq!(probe_code(true), 0);
    assert_eq!(probe_code(false), 1);
}
