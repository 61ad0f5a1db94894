use amanuensis::app_root::{
    button_message, hotkey_message, hwnd_resolved, panel_title_utf16, recovered_config,
    s1_chain_needed, selection_from_config, window_title_utf16, AppRoot, AudioRoute, Disk,
    DownloadMessage, RootAction, Screen, UiMessage,
};
use amanuensis::asr::model::ModelKind;
use amanuensis::asr::worker::Event;
use amanuensis::audio::Sound;
use amanuensis::config::{AppConfig, AsrCacheEntry, BackendCache};
use amanuensis::dictation::{HotkeyMessage, PasteResult, Phase};
use amanuensis::onboarding::SetupOrigin;
use amanuensis::pill::PillButton;
use amanuensis::telemetry::Telemetry;
use amanuensis::win_focus::{FocusTarget, Foreground};

fn disk() -> Disk {
    Disk {
        rewrite_record: true,
        s1_model: true,
        s1_runner: true,
        nemotron_cached: true,
        moonshine_cached: true,
        bench_due: false,
        record_engine: Some(ModelKind::Moonshine),
        has_root: true,
    }
}

fn front() -> Foreground {
    Foreground { window: Some(FocusTarget { hwnd: 4 }), own: false }
}

fn shown(actions: &[RootAction]) -> String {
    format!("{actions:?}")
}

fn first_run() -> AppRoot {
    let nothing = Disk { nemotron_cached: false, moonshine_cached: false, ..disk() };
    let (root, actions) = AppRoot::start(None, &nothing);
    assert_eq!(root.screen, Screen::Onboarding(SetupOrigin::FirstRun));
    assert!(matches!(
        actions[0],
        RootAction::OpenPanel { origin: SetupOrigin::FirstRun, .. }
    ));
    root
}

fn working() -> AppRoot {
    let mut root = first_run();
    let actions = root.finish_onboarding(ModelKind::Nemotron, &disk());
    assert_eq!(shown(&actions), "[SaveEngine(Nemotron), SpawnWorker, HidePill]");
    assert_eq!(root.screen, Screen::Dictation);
    root.handle_asr_event(Event::Ready, 1, front());
    assert_eq!(root.dictation.unwrap().phase, Phase::Idle);
    root
}

#[test]
fn a_first_run_downloads_and_records() {
    let mut root = first_run();
    let actions = root.start_download("nemotron", false);
    assert_eq!(shown(&actions), "[DownloadModel { engine: Nemotron, generation: 1, purge: false }]");
    let progress = DownloadMessage::Progress { generation: 1 };
    assert_eq!(shown(&root.handle_download_message(progress, true, &disk())), "[Panel(Progress)]");
    let stale = DownloadMessage::Progress { generation: 0 };
    assert!(root.handle_download_message(stale, true, &disk()).is_empty());
    let done = DownloadMessage::Finished { generation: 1, engine: ModelKind::Nemotron };
    let actions = root.handle_download_message(done, true, &disk());
    assert_eq!(shown(&actions), "[Panel(FinishedStep)]");
    assert!(!root.downloading);
    assert!(root.start_download("whisper", false).is_empty());
}

#[test]
fn a_measurement_that_is_due_begins_with_the_worker() {
    let mut root = first_run();
    let due = Disk { bench_due: true, ..disk() };
    let actions = root.finish_onboarding(ModelKind::Nemotron, &due);
    assert_eq!(shown(&actions), "[SaveEngine(Nemotron), Bench, SpawnWorker, HidePill]");
}

#[test]
fn missing_rewrite_assets_are_fetched_behind_the_engine() {
    let missing = Disk { s1_runner: false, ..disk() };
    assert!(s1_chain_needed(ModelKind::Moonshine, &missing));
    assert!(!s1_chain_needed(ModelKind::Nemotron, &missing));
    assert!(!s1_chain_needed(ModelKind::Moonshine, &Disk { rewrite_record: false, ..missing }));
    let mut root = first_run();
    root.start_download("nemotron", false);
    let done = DownloadMessage::Finished { generation: 1, engine: ModelKind::Moonshine };
    let actions = root.handle_download_message(done, false, &missing);
    assert_eq!(shown(&actions), "[FetchS1 { engine: Moonshine, generation: 1 }]");
    assert!(root.s1_in_flight);
    let failed = DownloadMessage::Failed { generation: 1 };
    let actions = root.handle_download_message(failed, false, &missing);
    assert_eq!(shown(&actions), "[SaveEngine(Moonshine), SpawnWorker, HidePill]");
    assert!(root.s1_failed);
    let (waits, more) = root.ensure_s1_chain(ModelKind::Moonshine, &missing);
    assert!(!waits && more.is_empty());
}

#[test]
fn setup_waits_for_missing_assets() {
    let missing = Disk { s1_model: false, ..disk() };
    let mut root = first_run();
    let actions = root.finish_onboarding(ModelKind::Moonshine, &missing);
    assert_eq!(
        shown(&actions),
        "[SaveEngine(Moonshine), FetchS1 { engine: Moonshine, generation: 1 }]"
    );
    assert!(matches!(root.screen, Screen::Onboarding(_)));
}

#[test]
fn a_failed_engine_download_is_told_to_the_panel() {
    let mut root = first_run();
    root.start_download("nemotron", false);
    let failed = DownloadMessage::Failed { generation: 1 };
    assert_eq!(shown(&root.handle_download_message(failed, true, &disk())), "[Panel(Failed)]");
    root.start_download("nemotron", false);
    let cancelled = DownloadMessage::Cancelled { generation: 2 };
    assert_eq!(
        shown(&root.handle_download_message(cancelled, true, &disk())),
        "[Panel(Cancelled)]"
    );
}

#[test]
fn settings_open_over_the_pill_and_close_to_it() {
    let mut root = working();
    let actions = root.handle_ui_message(UiMessage::OpenSettings, 2, front(), true, &disk());
    assert_eq!(
        shown(&actions),
        "[OpenPanel { origin: Settings, model: Moonshine }, ShowPanel]"
    );
    assert!(root.open_settings(&disk()).is_empty());
    let actions = root.handle_escape(3, &disk());
    assert_eq!(shown(&actions), "[HidePill]");
    assert_eq!(root.screen, Screen::Dictation);
}

#[test]
fn the_record_key_closes_the_settings_and_records() {
    let mut root = working();
    root.open_settings(&disk());
    let key = HotkeyMessage::ToggleRecording;
    let actions = root.handle_hotkey(key, 5, front(), true, &disk());
    assert!(matches!(actions[..], [RootAction::HidePill, RootAction::Dictation(_)]));
    assert_eq!(root.dictation.unwrap().phase, Phase::Recording);
    let actions = root.handle_escape(6, &disk());
    assert!(matches!(actions[..], [RootAction::Dictation(_)]));
    assert!(root.dictation.unwrap().discard_requested);
}

#[test]
fn the_record_key_waits_for_setup() {
    let mut root = first_run();
    let key = HotkeyMessage::ToggleRecording;
    let actions = root.handle_hotkey(key, 5, front(), false, &disk());
    assert_eq!(shown(&actions), "[Panel(Blocked)]");
    let actions = root.handle_hotkey(key, 5, front(), true, &disk());
    assert_eq!(shown(&actions), "[Panel(QueueStart)]");
    assert!(root.pending_start);
    root.finish_onboarding(ModelKind::Nemotron, &disk());
    assert!(root.dictation.unwrap().pending_start);
}

#[test]
fn closing_setup_without_a_dictation_quits() {
    let mut root = first_run();
    assert_eq!(shown(&root.close_panel_to_pill(&disk())), "[Quit]");
    let actions = root.handle_ui_message(UiMessage::Quit, 1, front(), true, &disk());
    assert_eq!(shown(&actions), "[Exit]");
}

#[test]
fn deleting_a_model_releases_it_first() {
    let mut root = working();
    let actions = root.delete_model("nemotron", &disk());
    assert_eq!(shown(&actions), "[ShutdownWorker, DeleteModel(Nemotron)]");
    assert!(!root.worker_live);
    let actions = root.delete_model("nemotron", &Disk { has_root: false, ..disk() });
    assert!(actions.is_empty());
    let mut root = working();
    let actions = root.start_download("nemotron", true);
    assert_eq!(
        shown(&actions),
        "[ShutdownWorker, DownloadModel { engine: Nemotron, generation: 1, purge: true }]"
    );
}

#[test]
fn resetting_setup_starts_over() {
    let mut root = working();
    let actions = root.reset_setup("nemotron");
    assert_eq!(
        shown(&actions),
        "[DeleteConfig, OpenPanel { origin: Respawn, model: Nemotron }]"
    );
    assert_eq!(root.screen, Screen::Onboarding(SetupOrigin::Respawn));
}

#[test]
fn switching_engines_retires_the_worker() {
    let mut root = working();
    root.open_settings(&disk());
    let actions = root.finish_onboarding(ModelKind::Moonshine, &disk());
    assert_eq!(
        shown(&actions),
        "[SaveEngine(Moonshine), SwitchWorker { retire: true }, HidePill]"
    );
}

#[test]
fn tray_and_pill_messages() {
    let mut root = working();
    let actions = root.handle_ui_message(UiMessage::TraySetEnabled(true), 1, front(), true, &disk());
    assert_eq!(shown(&actions), "[SaveTray(true), Tray(SetEnabled(true))]");
    root.handle_ui_message(UiMessage::TrayToggleRecording, 2, front(), true, &disk());
    assert_eq!(root.dictation.unwrap().phase, Phase::Recording);
    let finish = button_message(PillButton::Finish);
    root.handle_ui_message(finish, 3, front(), true, &disk());
    assert_eq!(root.dictation.unwrap().phase, Phase::Transcribing);
    assert_eq!(button_message(PillButton::Discard), UiMessage::PillDiscard);
    assert_eq!(button_message(PillButton::OpenSettings), UiMessage::OpenSettings);
    let cancel = root.handle_ui_message(UiMessage::CancelDownload, 4, front(), true, &disk());
    assert!(cancel.is_empty());
    assert_eq!(root.handle_paste_result(PasteResult::Pasted(3)), Some(Sound::Success));
    assert_eq!(first_run().handle_paste_result(PasteResult::Failed), None);
}

#[test]
fn audio_goes_where_it_is_wanted() {
    let mut root = working();
    let (capture, route, commands) = root.pump_audio(&[480], true, false);
    assert!(!capture && commands.is_empty());
    assert_ne!(route, AudioRoute::Recording);
    root.handle_ui_message(UiMessage::TrayToggleRecording, 2, front(), true, &disk());
    let (capture, route, commands) = root.pump_audio(&[480], true, false);
    assert!(capture);
    assert_eq!(route, AudioRoute::Recording);
    assert_eq!(commands.len(), 2);
    let mut setup = first_run();
    let (capture, route, _) = setup.pump_audio(&[480], true, true);
    assert!(capture);
    assert_eq!(route, AudioRoute::MicCheck);
}

#[test]
fn a_configured_app_starts_with_its_worker() {
    let (root, actions) = AppRoot::start(Some(ModelKind::Nemotron), &disk());
    assert_eq!(root.screen, Screen::Dictation);
    assert!(root.worker_live && root.has_worker);
    assert!(actions.iter().any(|a| matches!(a, RootAction::SpawnWorker)));
    let lost = Disk { nemotron_cached: false, ..disk() };
    let (root, _) = AppRoot::start(Some(ModelKind::Nemotron), &lost);
    assert_eq!(root.screen, Screen::Onboarding(SetupOrigin::Recovery));
}

#[test]
fn a_lost_configuration_is_recovered_from_the_cached_model() {
    assert!(recovered_config(false).is_none());
    let recovered = recovered_config(true).unwrap();
    assert_eq!(recovered.model, "nemotron");
    assert_eq!(selection_from_config(&recovered, &mut Telemetry::new()).record_model, ModelKind::Nemotron);
}

#[test]
fn the_selection_follows_the_configuration() {
    let mut telemetry = Telemetry::new();
    let fresh = selection_from_config(&AppConfig::default(), &mut telemetry);
    assert!(!telemetry.consent());
    assert_eq!(fresh.record_model, ModelKind::Nemotron);
    assert_eq!(fresh.live_model, ModelKind::Nemotron);
    assert_eq!(fresh.provider, None);
    assert_eq!((fresh.threads, fresh.rewrite_threads), (2, 2));
    let config = AppConfig {
        model: "whisper".to_owned(),
        telemetry_consent: true,
        backend_cache: BackendCache {
            asr: AsrCacheEntry {
                provider: "cuda".to_owned(),
                threads: 8,
                ..AsrCacheEntry::default()
            },
            ..BackendCache::default()
        },
        ..AppConfig::default()
    };
    let picked = selection_from_config(&config, &mut telemetry);
    assert!(telemetry.consent());
    assert_eq!(picked.record_model, ModelKind::Moonshine);
    assert_eq!(picked.provider.as_deref(), Some("cuda"));
    assert_eq!((picked.threads, picked.rewrite_threads), (8, 8));
}

#[test]
fn unknown_engines_fall_back_to_the_legacy_one() {
    let config = AppConfig {
        model: "nemotron".to_owned(),
        record_model: "bogus".to_owned(),
        live_model: "bogus".to_owned(),
        rewrite_record: false,
        telemetry_consent: true,
        backend_cache: BackendCache {
            asr: AsrCacheEntry { threads: 1, ..AsrCacheEntry::default() },
            ..BackendCache::default()
        },
        ..AppConfig::default()
    };
    let mut telemetry = Telemetry::new();
    let selection = selection_from_config(&config, &mut telemetry);
    assert_eq!(selection.record_model, ModelKind::Nemotron);
    assert_eq!(selection.live_model, ModelKind::Nemotron);
    assert_eq!(selection.provider, None);
    assert_eq!((selection.threads, selection.rewrite_threads), (1, 2));
    assert!(!selection.rewrite_record);
    assert!(telemetry.consent());
}

#[test]
fn keys_count_when_they_go_down() {
    assert_eq!(hotkey_message(true, 1, 1, 2), Some(HotkeyMessage::ToggleRecording));
    assert_eq!(hotkey_message(true, 2, 1, 2), Some(HotkeyMessage::DebugReload));
    assert_eq!(hotkey_message(true, 3, 1, 2), None);
    assert_eq!(hotkey_message(false, 1, 1, 2), None);
}

#[test]
fn the_main_window_is_found_by_its_title() {
    assert_eq!(hwnd_resolved(Some(3), Some(4), true), Some(3));
    assert_eq!(hwnd_resolved(None, Some(4), true), Some(4));
    assert_eq!(hwnd_resolved(None, Some(4), false), None);
    let mut title: Vec<u16> = "amanuensis-window".encode_utf16().collect();
    title.push(0);
    assert_eq!(window_title_utf16(), title);
    let mut title: Vec<u16> = "Amanuensis Settings".encode_utf16().collect();
    title.push(0);
    assert_eq!(panel_title_utf16(), title);
}
