use amanuensis::asr::fetch::DownloadProgress;
use amanuensis::backend_detect::{BenchProgress, BenchResult, HardwareProfile, Vendor};
use amanuensis::config::AppConfig;
use amanuensis::onboarding::{
    bench_label, EngineSlot, OnboardingView, PanelRequest, PresetSlot, RevealFailure, Setting,
    SetupOrigin, BLOCKED_NOTICE,
};
use amanuensis::screens::{
    bench_graphics_line, detect_heading, render, render_step, tour_footer, Control, Item, Page,
    Preset, SettingsFacts, Standing, Tag, Tone,
};
use amanuensis::setup_steps::{SetupStep, StepEvent};

fn profile(vendor: Vendor) -> HardwareProfile {
    HardwareProfile {
        vendor,
        gpu_label: "NVIDIA GeForce RTX".to_owned(),
        arch: "x86_64".to_owned(),
        os: "windows".to_owned(),
        device_hash: "0".to_owned(),
    }
}

fn panel(origin: SetupOrigin) -> OnboardingView {
    OnboardingView::new(origin, 16, 8, "nemotron", true, None, profile(Vendor::Nvidia))
}

fn measured(provider: &str, threads: i32, rtf: i64) -> BenchProgress {
    BenchProgress::Measured(BenchResult {
        provider: provider.to_owned(),
        threads,
        is_gpu: provider == "cuda",
        rtf,
    })
}

fn progress(done: u64, total: u64) -> DownloadProgress {
    DownloadProgress { file: "encoder".to_owned(), done, total, measured: None }
}

fn buttons(page: &Page) -> Vec<(Control, bool)> {
    let mut found = Vec::new();
    for item in &page.items {
        if let Item::Button { control, enabled, .. } = item {
            found.push((*control, *enabled));
        }
    }
    found
}

fn lines(page: &Page, wanted: Tone) -> Vec<String> {
    let mut found = Vec::new();
    for item in &page.items {
        if let Item::Line { tone, text } = item {
            if *tone == wanted {
                found.push(text.clone());
            }
        }
    }
    found
}

fn facts() -> SettingsFacts<'static> {
    SettingsFacts { cached: true, dir_exists: true, provider: "cpu", threads: 4, rtf: "0.84" }
}

#[test]
fn the_tour_is_for_the_first_run() {
    assert_eq!(panel(SetupOrigin::FirstRun).step, Some(SetupStep::Welcome));
    for origin in [SetupOrigin::Recovery, SetupOrigin::Settings, SetupOrigin::Respawn] {
        assert!(!panel(origin).step_active());
    }
}

#[test]
fn turning_to_the_measuring_page_begins_the_benchmark_once() {
    let mut view = panel(SetupOrigin::FirstRun);
    view.step = Some(SetupStep::DetectHardware);
    assert_eq!(view.nav(StepEvent::NavNext), Some(PanelRequest::StartBench));
    assert_eq!(view.step, Some(SetupStep::Measuring));
    assert!(view.bench.busy && view.bench.started);
    view.nav(StepEvent::NavBack);
    assert_eq!(view.nav(StepEvent::NavNext), None);
}

#[test]
fn skipping_the_benchmark_keeps_the_cpu() {
    let mut view = panel(SetupOrigin::FirstRun);
    view.step = Some(SetupStep::DetectHardware);
    view.nav(StepEvent::NavNext);
    assert_eq!(view.skip_bench(), Some(PanelRequest::KeepCpu));
    assert_eq!(view.step, Some(SetupStep::Ready));
    assert_eq!(view.skip_bench(), None);
    assert_eq!(view.on_bench_progress(measured("cpu", 2, 9000), 0, 0), None);
    assert!(view.bench.results.is_empty());
    let finished = BenchProgress::Finished { winner: Some("cuda".to_owned()) };
    assert_eq!(view.on_bench_progress(finished, 0, 0), Some(PanelRequest::KeepCpu));
    assert!(view.bench.winner.is_none());
}

#[test]
fn results_are_ranked_as_they_come() {
    let mut view = panel(SetupOrigin::FirstRun);
    let measuring =
        BenchProgress::Measuring { provider: "cpu".to_owned(), threads: 4, is_gpu: false };
    view.on_bench_progress(measuring, 0, 0);
    assert_eq!(view.bench.running, Some(("cpu".to_owned(), 4)));
    view.on_bench_progress(measured("cpu", 4, 9000), 0, 0);
    view.on_bench_progress(measured("cuda", 2, 3000), 0, 0);
    view.on_bench_progress(measured("cpu", 2, 5000), 0, 0);
    view.on_bench_progress(measured("cpu", 1, 5000), 0, 0);
    let order: Vec<(i64, i32)> = view.bench.results.iter().map(|r| (r.rtf, r.threads)).collect();
    assert_eq!(order, [(3000, 2), (5000, 2), (5000, 1), (9000, 4)]);
    let finished = BenchProgress::Finished { winner: Some("cuda".to_owned()) };
    view.on_bench_progress(finished, 0, 3000);
    assert_eq!(view.bench.winner.as_deref(), Some("NVIDIA (GPU)"));
    assert_eq!(view.bench.winner_result.unwrap().threads, 2);
}

#[test]
fn the_pulse_lasts_as_long_as_the_benchmark() {
    let mut view = panel(SetupOrigin::FirstRun);
    assert!(!view.pulse_measuring());
    assert_eq!(view.bench.pulse, 1);
    view.bench.busy = true;
    view.bench.pulse = u64::MAX;
    assert!(view.pulse_measuring());
    assert_eq!(view.bench.pulse, 0);
}

#[test]
fn candidates_are_named() {
    assert_eq!(bench_label("cuda", 2), "NVIDIA (GPU)");
    assert_eq!(bench_label("cpu", 1), "CPU \u{b7} 1 core");
    assert_eq!(bench_label("cpu", 4), "CPU \u{b7} 4 cores");
}

#[test]
fn a_download_runs_its_course() {
    let mut view = panel(SetupOrigin::FirstRun);
    view.step = Some(SetupStep::MicCheck);
    assert!(view.mic_check_active());
    assert_eq!(view.start_clicked(), Some(PanelRequest::StartDownload { purge: false }));
    assert_eq!(
        view.status.as_deref(),
        Some("Checking Nemotron Streaming and preparing the download...")
    );
    assert_eq!(view.step, Some(SetupStep::Downloading));
    assert_eq!(view.start_clicked(), None);
    view.download_progress(progress(50, 100), Some("1.0 MB/s".to_owned()), 5);
    assert_eq!(view.transfer.speed.as_deref(), Some("1.0 MB/s"));
    view.download_cancelled();
    assert_eq!(view.step, Some(SetupStep::MicCheck));
    assert_eq!(view.status.as_deref(), Some("Cancelled. It will resume next time."));
    assert!(view.transfer.speed.is_none());
    view.start_clicked();
    view.download_failed("no network");
    assert_eq!(view.error.as_deref(), Some("no network"));
    assert_eq!(view.step, Some(SetupStep::MicCheck));
    view.start_clicked();
    assert_eq!(view.error, None);
    view.download_finished_step();
    assert_eq!(view.step, Some(SetupStep::DetectHardware));
    assert_eq!(view.status, None);
}

#[test]
fn operations_exclude_each_other() {
    let mut view = panel(SetupOrigin::Settings);
    assert!(view.may_reveal());
    assert_eq!(view.redownload_clicked(false), None);
    assert_eq!(view.delete_clicked(true), Some(PanelRequest::DeleteModel));
    assert_eq!(view.status.as_deref(), Some("releasing model and deleting files \u{2026}"));
    assert!(!view.may_reveal());
    assert_eq!(view.redownload_clicked(true), None);
    assert_eq!(view.start_clicked(), None);
    view.delete_finished(Err("in use"));
    assert_eq!(view.error.as_deref(), Some("in use"));
    assert_eq!(
        view.redownload_clicked(true),
        Some(PanelRequest::StartDownload { purge: true })
    );
    assert_eq!(view.status.as_deref(), Some("re-downloading Nemotron Streaming \u{2026}"));
    let mut unknown =
        OnboardingView::new(SetupOrigin::Settings, 8, 4, "x", false, None, profile(Vendor::Cpu));
    assert_eq!(unknown.start_clicked(), None);
    assert_eq!(unknown.delete_clicked(false), None);
    assert!(!unknown.may_reveal());
}

#[test]
fn choices_are_stored() {
    let mut view = panel(SetupOrigin::Settings);
    assert_eq!(view.set_engine(EngineSlot::Record, "nemotron"), PanelRequest::SaveChoices);
    assert_eq!(view.set_engine(EngineSlot::Live, "moonshine"), PanelRequest::SaveChoices);
    view.set_preset(PresetSlot::Styling, "formal");
    view.set_preset(PresetSlot::Structure, "lists");
    view.set_preset(PresetSlot::Context, "email");
    assert_eq!(view.toggle_telemetry(), PanelRequest::SetConsent(true));
    assert_eq!(view.toggle_preload(), PanelRequest::SaveChoices);
    assert_eq!(view.toggle_tray(), PanelRequest::SetTray(false));
    let stored = view.persist_config(Some(AppConfig {
        model: "kept".to_owned(),
        ..AppConfig::default()
    }));
    assert_eq!(
        stored,
        AppConfig {
            model: "kept".to_owned(),
            record_model: "nemotron".to_owned(),
            live_model: "moonshine".to_owned(),
            rewrite_styling: "formal".to_owned(),
            rewrite_structure: "lists".to_owned(),
            rewrite_context: "email".to_owned(),
            preload_engines: false,
            telemetry_consent: true,
            tray_enabled: false,
            ..AppConfig::default()
        }
    );
    let after = view.config_after_download(None);
    assert_eq!(after.model, "nemotron");
    assert!(after.tray_enabled);
    view.save_failed(Setting::Preset, "disk full");
    assert_eq!(view.error.as_deref(), Some("could not save rewrite choice: disk full"));
}

#[test]
fn messages_of_the_panel() {
    let mut view = panel(SetupOrigin::Settings);
    view.set_blocked_notice();
    assert_eq!(view.notice.as_deref(), Some(BLOCKED_NOTICE));
    view.queue_start();
    assert!(view.start_queued);
    view.logs_exported(Ok("C:\\b.zip"));
    assert_eq!(view.status.as_deref(), Some("Logs saved to C:\\b.zip"));
    view.logs_exported(Err("no room"));
    assert_eq!(view.error.as_deref(), Some("no room"));
    assert_eq!(view.recheck_backend(), Some(PanelRequest::RecheckBackend));
    assert_eq!(view.recheck_backend(), None);
    view.on_bench_finished(Some("cpu"));
    assert_eq!(view.status.as_deref(), Some("Backend test done. Fastest is cpu."));
    view.on_bench_finished(None);
    assert_eq!(view.status.as_deref(), Some("Backend test skipped or gave no result."));
    view.reveal_failed(RevealFailure::NoPath, "none");
    assert_eq!(view.error.as_deref(), Some("cannot resolve model dir: none"));
    view.reveal_failed(RevealFailure::NotUnicode, "");
    assert_eq!(view.error.as_deref(), Some("model dir path is not valid Unicode"));
    view.reveal_failed(RevealFailure::NotLaunched, "denied");
    assert_eq!(view.error.as_deref(), Some("explorer launch failed: denied"));
}

#[test]
fn the_machine_is_described() {
    assert_eq!(
        detect_heading(&profile(Vendor::Nvidia)),
        "I found an NVIDIA graphics card. I'll check whether it can make dictation faster."
    );
    assert_eq!(
        detect_heading(&profile(Vendor::Amd)),
        "I'll tune the engine to make the most of this CPU."
    );
    assert_eq!(bench_graphics_line(&profile(Vendor::Nvidia)), "NVIDIA GeForce RTX");
    assert_eq!(bench_graphics_line(&profile(Vendor::Intel)), "CPU only");
    let unnamed = HardwareProfile { gpu_label: " ".to_owned(), ..profile(Vendor::Nvidia) };
    assert_eq!(bench_graphics_line(&unnamed), "NVIDIA");
}

#[test]
fn every_page_of_the_tour_can_be_left() {
    let view = panel(SetupOrigin::FirstRun);
    for step in [
        SetupStep::Welcome,
        SetupStep::HowItWorks,
        SetupStep::Shortcuts,
        SetupStep::MicCheck,
        SetupStep::DetectHardware,
        SetupStep::Ready,
    ] {
        let page = render_step(&view, step);
        assert!(!buttons(&page).is_empty());
        assert!(!lines(&page, Tone::Title).is_empty());
    }
    let footer = tour_footer("Next");
    assert_eq!(
        buttons(&footer),
        [
            (Control::Nav(StepEvent::NavBack), true),
            (Control::Nav(StepEvent::NavNext), true)
        ]
    );
}

#[test]
fn every_candidate_is_on_the_leaderboard() {
    let mut view = panel(SetupOrigin::FirstRun);
    view.on_bench_progress(measured("cuda", 2, 3000), 0, 0);
    view.on_bench_progress(measured("cpu", 2, 6000), 0, 0);
    let page = render_step(&view, SetupStep::Measuring);
    let mut standings = Vec::new();
    for item in &page.items {
        if let Item::Candidate { name, standing } = item {
            standings.push((name.clone(), *standing));
        }
    }
    assert!(standings.len() >= 2);
    assert!(standings.contains(&(
        "CPU \u{b7} 2 cores".to_owned(),
        Standing::Done { rank: 2, rtf: 6000, fastest: 3000, tag: Tag::Slower }
    )));
    assert!(standings.iter().any(|(_, standing)| *standing == Standing::Waiting));
}

#[test]
fn a_busy_panel_offers_no_operation() {
    let mut view = panel(SetupOrigin::Settings);
    let idle = buttons(&render(&view, &facts()));
    assert!(idle.contains(&(Control::Delete, true)));
    view.delete_clicked(true);
    let busy = buttons(&render(&view, &facts()));
    for (control, enabled) in busy {
        if matches!(control, Control::Delete | Control::Redownload | Control::Start) {
            assert!(!enabled);
        }
    }
}

#[test]
fn presets_have_values_and_labels() {
    let all = [
        (Preset::Casual, "casual"),
        (Preset::SemiCasual, "semi-casual"),
        (Preset::SemiFormal, "semi-formal"),
        (Preset::Formal, "formal"),
        (Preset::Prose, "prose"),
        (Preset::Lists, "lists"),
        (Preset::General, "general"),
        (Preset::Email, "email"),
    ];
    for (preset, value) in all {
        assert_eq!(preset.value(), value);
        assert!(!preset.label().is_empty());
    }
}

#[test]
fn pages_are_built_item_by_item() {
    let mut page = Page::new();
    page.line(Tone::Note, "a");
    let mut other = Page::new();
    other.put(Item::Logo);
    page.extend(other);
    assert_eq!(page.items.len(), 2);
    assert_eq!(lines(&page, Tone::Note), ["a"]);
}
