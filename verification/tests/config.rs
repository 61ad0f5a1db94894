use amanuensis::asr::model::ModelKind;
use amanuensis::config::{
    config_dir, config_path, default_live_model, default_preload_engines, default_record_model,
    default_rewrite_context, default_rewrite_record, default_rewrite_structure,
    default_rewrite_styling, default_tray_enabled, legacy_config_dir, load, set_tray_enabled,
    with_asr_backend, with_cpu_backend, with_engine, AppConfig, AppConfigRaw, AsrCacheEntry, BackendCache,
    NormalizerCacheEntry,
};

/// A stored file with nothing but the engine of a time before there was one for each
/// mode.
fn legacy_file() -> AppConfigRaw {
    AppConfigRaw {
        model: Some("nemotron".to_owned()),
        tray_enabled: true,
        ..AppConfigRaw::default()
    }
}

fn picked() -> AsrCacheEntry {
    AsrCacheEntry {
        provider: "cpu".to_owned(),
        threads: 4,
        win_rtf: 8400,
        app_version: "1.0.3".to_owned(),
        cached_at: "2026-08-29".to_owned(),
        device_hash: "abcdef".to_owned(),
    }
}

#[test]
fn missing_backend_cache_defaults_to_empty() {
    let loaded = AppConfig::from_raw(legacy_file());
    assert_eq!(loaded.backend_cache, BackendCache::default());
}

#[test]
fn load_missing_returns_none() {
    assert_eq!(load(None, None), None);
}

#[test]
fn legacy_model_migrates_to_pipeline() {
    let loaded = AppConfig::from_raw(legacy_file());
    assert_eq!(loaded.record_model, "moonshine");
    assert_eq!(loaded.live_model, "nemotron");
    assert_eq!(loaded.rewrite_record, true);
    assert_eq!(loaded.rewrite_styling, "casual");
    assert_eq!(loaded.rewrite_structure, "prose");
    assert_eq!(loaded.rewrite_context, "general");
    assert!(loaded.preload_engines);
    assert!(!loaded.telemetry_consent);
}

#[test]
fn fresh_default_uses_new_default_profile() {
    let config = AppConfig::default();
    assert_eq!(config.record_model, "moonshine");
    assert_eq!(config.live_model, "nemotron");
    assert_eq!(config.rewrite_record, true);
    assert_eq!(config.rewrite_styling, "casual");
    assert_eq!(config.rewrite_structure, "prose");
    assert_eq!(config.rewrite_context, "general");
    assert!(config.preload_engines);
    assert!(!config.telemetry_consent);
}

#[test]
fn per_mode_fields_override_legacy_model() {
    let loaded = AppConfig::from_raw(AppConfigRaw {
        model: Some("nemotron".to_owned()),
        record_model: Some("moonshine".to_owned()),
        live_model: Some("nemotron".to_owned()),
        rewrite_record: Some(false),
        telemetry_consent: true,
        ..AppConfigRaw::default()
    });
    assert_eq!(loaded.record_model, "moonshine");
    assert_eq!(loaded.live_model, "nemotron");
    assert!(!loaded.rewrite_record);
    assert!(loaded.telemetry_consent);
}

#[test]
fn load_old_two_slot_schema_now_loads_with_nemotron_engines() {
    let loaded = AppConfig::from_raw(AppConfigRaw {
        record_model: Some("nemotron".to_owned()),
        live_model: Some("nemotron".to_owned()),
        ..AppConfigRaw::default()
    });
    assert_eq!(loaded.record_model, "nemotron");
    assert_eq!(loaded.live_model, "nemotron");
}

#[test]
fn every_stored_field_is_kept() {
    let loaded = AppConfig::from_raw(AppConfigRaw {
        model: Some("nemotron".to_owned()),
        record_model: Some("moonshine".to_owned()),
        live_model: Some("nemotron".to_owned()),
        rewrite_record: Some(true),
        rewrite_styling: Some("formal".to_owned()),
        rewrite_structure: Some("bullets".to_owned()),
        rewrite_context: Some("meeting".to_owned()),
        preload_engines: Some(false),
        telemetry_consent: false,
        tray_enabled: true,
        backend_cache: BackendCache { asr: picked(), ..BackendCache::default() },
    });
    let written = AppConfig {
        model: "nemotron".to_owned(),
        record_model: "moonshine".to_owned(),
        live_model: "nemotron".to_owned(),
        rewrite_record: true,
        rewrite_styling: "formal".to_owned(),
        rewrite_structure: "bullets".to_owned(),
        rewrite_context: "meeting".to_owned(),
        preload_engines: false,
        telemetry_consent: false,
        tray_enabled: true,
        backend_cache: BackendCache { asr: picked(), ..BackendCache::default() },
    };
    assert_eq!(loaded, written);
}

#[test]
fn a_stored_file_without_a_tray_setting_has_the_tray() {
    assert!(default_tray_enabled());
    assert!(!AppConfig::default().tray_enabled);
}

#[test]
fn the_own_file_comes_before_the_predecessors() {
    let own = AppConfig { model: "own".to_owned(), ..AppConfig::default() };
    let old = AppConfig { model: "old".to_owned(), ..AppConfig::default() };
    assert_eq!(load(Some(own), Some(old)).unwrap().model, "own");
    let old = AppConfig { model: "old".to_owned(), ..AppConfig::default() };
    assert_eq!(load(None, Some(old)).unwrap().model, "old");
}

#[test]
fn picking_an_engine_keeps_the_rest() {
    let stored = AppConfig {
        live_model: "moonshine".to_owned(),
        rewrite_styling: "formal".to_owned(),
        ..AppConfig::default()
    };
    let config = with_engine(Some(stored), ModelKind::Nemotron);
    assert_eq!(config.model, "nemotron");
    assert_eq!(config.record_model, "nemotron");
    assert_eq!(config.live_model, "moonshine");
    assert_eq!(config.rewrite_styling, "formal");
    assert!(!config.tray_enabled);
    let fresh = with_engine(None, ModelKind::Moonshine);
    assert_eq!(fresh.record_model, "moonshine");
    assert_eq!(fresh.live_model, "nemotron");
    assert!(fresh.tray_enabled);
}

#[test]
fn a_winner_replaces_the_picked_backend_only() {
    let stored = AppConfig {
        backend_cache: BackendCache {
            asr: AsrCacheEntry::default(),
            normalizer: NormalizerCacheEntry {
                backend: "cpu".to_owned(),
                ..NormalizerCacheEntry::default()
            },
        },
        ..AppConfig::default()
    };
    let config = with_asr_backend(Some(stored), picked());
    assert_eq!(config.backend_cache.asr, picked());
    assert_eq!(config.backend_cache.normalizer.backend, "cpu");
    assert_eq!(config.record_model, "moonshine");
}

#[test]
fn skipping_the_benchmark_stores_two_threads() {
    let stored = with_asr_backend(None, picked());
    let config = with_cpu_backend(Some(stored));
    let expected = AsrCacheEntry { threads: 2, ..picked() };
    assert_eq!(config.backend_cache.asr, expected);
}

#[test]
fn the_tray_setting_is_stored_alone() {
    let config = set_tray_enabled(None, true);
    assert_eq!(config, AppConfig { tray_enabled: true, ..AppConfig::default() });
}

#[test]
fn defaults_of_single_fields() {
    assert_eq!(default_record_model(), "moonshine");
    assert_eq!(default_live_model(), "nemotron");
    assert!(default_rewrite_record());
    assert_eq!(default_rewrite_styling(), "casual");
    assert_eq!(default_rewrite_structure(), "prose");
    assert_eq!(default_rewrite_context(), "general");
    assert!(default_preload_engines());
}

#[test]
fn directories_of_the_settings() {
    assert_eq!(config_dir(Some("C:\\A")), Some("C:\\A\\amanuensis".to_owned()));
    assert_eq!(config_dir(None), None);
    assert_eq!(legacy_config_dir(Some("C:\\A")), Some("C:\\A\\raycast-dictation".to_owned()));
    assert_eq!(legacy_config_dir(None), None);
    assert_eq!(config_path("C:\\A\\amanuensis"), "C:\\A\\amanuensis\\config.json");
}
