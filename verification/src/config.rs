//! The configuration of the app: its defaults, how stored files are read, and the
//! changes that setup and the backend benchmark make to it.
use crate::asr::model::ModelKind;
use crate::paths::join;
use crate::text::owned;
use vstd::prelude::*;

verus! {

/// The backend that was picked for speech recognition.
#[derive(Debug, PartialEq)]
pub struct AsrCacheEntry {
    pub provider: String,
    pub threads: i32,
    /// Time per audio time, in ten-thousandths.
    pub win_rtf: i64,
    pub app_version: String,
    pub cached_at: String,
    pub device_hash: String,
}

/// The backend that was picked for the rewrite pass.
#[derive(Debug, PartialEq)]
pub struct NormalizerCacheEntry {
    pub backend: String,
    pub device: String,
    pub win_ms: u64,
    pub app_version: String,
    pub cached_at: String,
    pub device_hash: String,
}

/// The backends that were picked.
#[derive(Debug, PartialEq)]
pub struct BackendCache {
    pub asr: AsrCacheEntry,
    pub normalizer: NormalizerCacheEntry,
}

/// The configuration of the app.
#[derive(Debug, PartialEq)]
pub struct AppConfig {
    /// The engine setting from before there was one per mode.
    pub model: String,
    pub record_model: String,
    pub live_model: String,
    pub rewrite_record: bool,
    pub rewrite_styling: String,
    pub rewrite_structure: String,
    pub rewrite_context: String,
    /// Whether the engine may be loaded ahead of time.
    pub preload_engines: bool,
    pub telemetry_consent: bool,
    pub tray_enabled: bool,
    pub backend_cache: BackendCache,
}

/// A stored configuration: fields that the file does not have are `None`.
#[derive(Debug, PartialEq)]
pub struct AppConfigRaw {
    pub model: Option<String>,
    pub record_model: Option<String>,
    pub live_model: Option<String>,
    pub rewrite_record: Option<bool>,
    pub rewrite_styling: Option<String>,
    pub rewrite_structure: Option<String>,
    pub rewrite_context: Option<String>,
    pub preload_engines: Option<bool>,
    pub telemetry_consent: bool,
    pub tray_enabled: bool,
    pub backend_cache: BackendCache,
}

/// `AsrCacheEntry` as a mathematical value.
#[verifier::ext_equal]
pub ghost struct AsrView {
    pub provider: Seq<char>,
    pub threads: i32,
    pub win_rtf: i64,
    pub app_version: Seq<char>,
    pub cached_at: Seq<char>,
    pub device_hash: Seq<char>,
}

/// `NormalizerCacheEntry` as a mathematical value.
#[verifier::ext_equal]
pub ghost struct NormalizerView {
    pub backend: Seq<char>,
    pub device: Seq<char>,
    pub win_ms: u64,
    pub app_version: Seq<char>,
    pub cached_at: Seq<char>,
    pub device_hash: Seq<char>,
}

/// `BackendCache` as a mathematical value.
#[verifier::ext_equal]
pub ghost struct CacheView {
    pub asr: AsrView,
    pub normalizer: NormalizerView,
}

/// `AppConfig` as a mathematical value.
#[verifier::ext_equal]
pub ghost struct ConfigView {
    pub model: Seq<char>,
    pub record_model: Seq<char>,
    pub live_model: Seq<char>,
    pub rewrite_record: bool,
    pub rewrite_styling: Seq<char>,
    pub rewrite_structure: Seq<char>,
    pub rewrite_context: Seq<char>,
    pub preload_engines: bool,
    pub telemetry_consent: bool,
    pub tray_enabled: bool,
    pub backend_cache: CacheView,
}

impl View for AsrCacheEntry {
    type V = AsrView;

    open spec fn view(&self) -> AsrView {
        AsrView {
            provider: self.provider@,
            threads: self.threads,
            win_rtf: self.win_rtf,
            app_version: self.app_version@,
            cached_at: self.cached_at@,
            device_hash: self.device_hash@,
        }
    }
}

impl View for NormalizerCacheEntry {
    type V = NormalizerView;

    open spec fn view(&self) -> NormalizerView {
        NormalizerView {
            backend: self.backend@,
            device: self.device@,
            win_ms: self.win_ms,
            app_version: self.app_version@,
            cached_at: self.cached_at@,
            device_hash: self.device_hash@,
        }
    }
}

impl View for BackendCache {
    type V = CacheView;

    open spec fn view(&self) -> CacheView {
        CacheView { asr: self.asr@, normalizer: self.normalizer@ }
    }
}

impl View for AppConfig {
    type V = ConfigView;

    open spec fn view(&self) -> ConfigView {
        ConfigView {
            model: self.model@,
            record_model: self.record_model@,
            live_model: self.live_model@,
            rewrite_record: self.rewrite_record,
            rewrite_styling: self.rewrite_styling@,
            rewrite_structure: self.rewrite_structure@,
            rewrite_context: self.rewrite_context@,
            preload_engines: self.preload_engines,
            telemetry_consent: self.telemetry_consent,
            tray_enabled: self.tray_enabled,
            backend_cache: self.backend_cache@,
        }
    }
}

/// No backend picked.
pub open spec fn empty_cache() -> CacheView {
    CacheView {
        asr: AsrView {
            provider: Seq::empty(),
            threads: 0,
            win_rtf: 0,
            app_version: Seq::empty(),
            cached_at: Seq::empty(),
            device_hash: Seq::empty(),
        },
        normalizer: NormalizerView {
            backend: Seq::empty(),
            device: Seq::empty(),
            win_ms: 0,
            app_version: Seq::empty(),
            cached_at: Seq::empty(),
            device_hash: Seq::empty(),
        },
    }
}

/// The configuration of a new installation.
pub open spec fn default_config() -> ConfigView {
    ConfigView {
        model: "nemotron"@,
        record_model: "moonshine"@,
        live_model: "nemotron"@,
        rewrite_record: true,
        rewrite_styling: "casual"@,
        rewrite_structure: "prose"@,
        rewrite_context: "general"@,
        preload_engines: true,
        telemetry_consent: false,
        tray_enabled: false,
        backend_cache: empty_cache(),
    }
}

impl Default for AsrCacheEntry {
    fn default() -> (entry: AsrCacheEntry)
        ensures
            entry@ == empty_cache().asr,
    {
        AsrCacheEntry {
            provider: String::new(),
            threads: 0,
            win_rtf: 0,
            app_version: String::new(),
            cached_at: String::new(),
            device_hash: String::new(),
        }
    }
}

impl Default for NormalizerCacheEntry {
    fn default() -> (entry: NormalizerCacheEntry)
        ensures
            entry@ == empty_cache().normalizer,
    {
        NormalizerCacheEntry {
            backend: String::new(),
            device: String::new(),
            win_ms: 0,
            app_version: String::new(),
            cached_at: String::new(),
            device_hash: String::new(),
        }
    }
}

impl Default for BackendCache {
    fn default() -> (cache: BackendCache)
        ensures
            cache@ == empty_cache(),
    {
        BackendCache { asr: AsrCacheEntry::default(), normalizer: NormalizerCacheEntry::default() }
    }
}

pub fn default_record_model() -> (s: String)
    ensures
        s@ == "moonshine"@,
{
    owned("moonshine")
}

pub fn default_live_model() -> (s: String)
    ensures
        s@ == "nemotron"@,
{
    owned("nemotron")
}

pub fn default_rewrite_record() -> (b: bool)
    ensures
        b,
{
    true
}

pub fn default_rewrite_styling() -> (s: String)
    ensures
        s@ == "casual"@,
{
    owned("casual")
}

pub fn default_rewrite_structure() -> (s: String)
    ensures
        s@ == "prose"@,
{
    owned("prose")
}

pub fn default_rewrite_context() -> (s: String)
    ensures
        s@ == "general"@,
{
    owned("general")
}

pub fn default_preload_engines() -> (b: bool)
    ensures
        b,
{
    true
}

/// The tray setting of a stored file that has none.
pub fn default_tray_enabled() -> (b: bool)
    ensures
        b,
{
    true
}

/// A text of a stored file, or what stands for it where the file does not have it.
pub open spec fn stored_or(field: Option<String>, other: Seq<char>) -> Seq<char> {
    match field {
        Some(text) => text@,
        None => other,
    }
}

/// A flag of a stored file, or what stands for it where the file does not have it.
pub open spec fn flag_or(field: Option<bool>, other: bool) -> bool {
    match field {
        Some(flag) => flag,
        None => other,
    }
}

/// The configuration that a stored file gives: a field that it does not have takes
/// its default, whatever the others are.
pub open spec fn resolved(raw: AppConfigRaw) -> ConfigView {
    let d = default_config();
    ConfigView {
        model: stored_or(raw.model, d.model),
        record_model: stored_or(raw.record_model, d.record_model),
        live_model: stored_or(raw.live_model, d.live_model),
        rewrite_record: flag_or(raw.rewrite_record, d.rewrite_record),
        rewrite_styling: stored_or(raw.rewrite_styling, d.rewrite_styling),
        rewrite_structure: stored_or(raw.rewrite_structure, d.rewrite_structure),
        rewrite_context: stored_or(raw.rewrite_context, d.rewrite_context),
        preload_engines: flag_or(raw.preload_engines, d.preload_engines),
        telemetry_consent: raw.telemetry_consent,
        tray_enabled: raw.tray_enabled,
        backend_cache: raw.backend_cache@,
    }
}

impl Default for AppConfigRaw {
    fn default() -> (raw: AppConfigRaw)
        ensures
            raw.model is None,
            raw.record_model is None,
            raw.live_model is None,
            raw.rewrite_record is None,
            raw.rewrite_styling is None,
            raw.rewrite_structure is None,
            raw.rewrite_context is None,
            raw.preload_engines is None,
            !raw.telemetry_consent,
            !raw.tray_enabled,
            raw.backend_cache@ == empty_cache(),
    {
        AppConfigRaw {
            model: None,
            record_model: None,
            live_model: None,
            rewrite_record: None,
            rewrite_styling: None,
            rewrite_structure: None,
            rewrite_context: None,
            preload_engines: None,
            telemetry_consent: false,
            tray_enabled: false,
            backend_cache: BackendCache::default(),
        }
    }
}

impl AppConfig {
    /// The configuration that a stored file gives.
    pub fn from_raw(raw: AppConfigRaw) -> (config: AppConfig)
        ensures
            config@ == resolved(raw),
    {
        AppConfig {
            model: match raw.model {
                Some(text) => text,
                None => owned("nemotron"),
            },
            record_model: match raw.record_model {
                Some(text) => text,
                None => default_record_model(),
            },
            live_model: match raw.live_model {
                Some(text) => text,
                None => default_live_model(),
            },
            rewrite_record: match raw.rewrite_record {
                Some(flag) => flag,
                None => default_rewrite_record(),
            },
            rewrite_styling: match raw.rewrite_styling {
                Some(text) => text,
                None => default_rewrite_styling(),
            },
            rewrite_structure: match raw.rewrite_structure {
                Some(text) => text,
                None => default_rewrite_structure(),
            },
            rewrite_context: match raw.rewrite_context {
                Some(text) => text,
                None => default_rewrite_context(),
            },
            preload_engines: match raw.preload_engines {
                Some(flag) => flag,
                None => default_preload_engines(),
            },
            telemetry_consent: raw.telemetry_consent,
            tray_enabled: raw.tray_enabled,
            backend_cache: raw.backend_cache,
        }
    }
}

impl Default for AppConfig {
    fn default() -> (config: AppConfig)
        ensures
            config@ == default_config(),
    {
        AppConfig::from_raw(AppConfigRaw::default())
    }
}

/// A file from before there was an engine per mode lands on the default engines:
/// its own engine is kept for reference and not taken over.
pub proof fn legacy_engines_are_not_inherited(raw: AppConfigRaw)
    requires
        raw.record_model is None,
        raw.live_model is None,
    ensures
        resolved(raw).record_model == "moonshine"@,
        resolved(raw).live_model == "nemotron"@,
        raw.model matches Some(model) ==> resolved(raw).model == model@,
{
}

/// What a file says is kept: reading it never replaces a field that it has.
pub proof fn stored_fields_are_kept(raw: AppConfigRaw)
    ensures
        raw.record_model matches Some(s) ==> resolved(raw).record_model == s@,
        raw.live_model matches Some(s) ==> resolved(raw).live_model == s@,
        raw.rewrite_record matches Some(b) ==> resolved(raw).rewrite_record == b,
        raw.rewrite_styling matches Some(s) ==> resolved(raw).rewrite_styling == s@,
        raw.rewrite_structure matches Some(s) ==> resolved(raw).rewrite_structure == s@,
        raw.rewrite_context matches Some(s) ==> resolved(raw).rewrite_context == s@,
        raw.preload_engines matches Some(b) ==> resolved(raw).preload_engines == b,
        resolved(raw).telemetry_consent == raw.telemetry_consent,
        resolved(raw).tray_enabled == raw.tray_enabled,
        resolved(raw).backend_cache == raw.backend_cache@,
{
}

/// The directory of the configuration, where the application data directory is
/// known.
pub fn config_dir(appdata: Option<&str>) -> (dir: Option<String>)
    ensures
        crate::text::opt_text(dir) == (match appdata {
            Some(base) => Some(crate::paths::path_in(base@, "amanuensis"@)),
            None => None,
        }),
{
    match appdata {
        Some(base) => Some(join(base, "amanuensis")),
        None => None,
    }
}

/// The directory that the predecessor kept its configuration in.
pub fn legacy_config_dir(appdata: Option<&str>) -> (dir: Option<String>)
    ensures
        crate::text::opt_text(dir) == (match appdata {
            Some(base) => Some(crate::paths::path_in(base@, "raycast-dictation"@)),
            None => None,
        }),
{
    match appdata {
        Some(base) => Some(join(base, "raycast-dictation")),
        None => None,
    }
}

/// The configuration file in a configuration directory.
pub fn config_path(dir: &str) -> (path: String)
    ensures
        path@ == crate::paths::path_in(dir@, "config.json"@),
{
    join(dir, "config.json")
}

/// The configuration that counts: the app's own file, or else its predecessor's.
pub fn load(current: Option<AppConfig>, legacy: Option<AppConfig>) -> (config: Option<AppConfig>)
    ensures
        config == (if current is Some {
            current
        } else {
            legacy
        }),
{
    match current {
        Some(config) => Some(config),
        None => legacy,
    }
}

/// The configuration that is changed: the stored one, or the default one.
pub open spec fn base_config(existing: Option<AppConfig>) -> ConfigView {
    match existing {
        Some(config) => config@,
        None => default_config(),
    }
}

fn base(existing: Option<AppConfig>) -> (config: AppConfig)
    ensures
        config@ == base_config(existing),
{
    match existing {
        Some(config) => config,
        None => AppConfig::default(),
    }
}

/// The configuration with the tray switched on or off.
pub fn set_tray_enabled(existing: Option<AppConfig>, enabled: bool) -> (config: AppConfig)
    ensures
        config@ == (ConfigView { tray_enabled: enabled, ..base_config(existing) }),
{
    let mut config = base(existing);
    config.tray_enabled = enabled;
    config
}

/// The configuration after setup picked an engine for recordings. The live engine
/// and the tray setting are kept; without a stored configuration the tray is on.
pub open spec fn onboarded(existing: Option<AppConfig>, model: ModelKind) -> ConfigView {
    ConfigView {
        record_model: model.id_text(),
        live_model: match existing {
            Some(config) => config.live_model@,
            None => "nemotron"@,
        },
        model: model.id_text(),
        tray_enabled: match existing {
            Some(config) => config.tray_enabled,
            None => true,
        },
        ..base_config(existing)
    }
}

/// The configuration after setup picked an engine for recordings.
pub fn with_engine(existing: Option<AppConfig>, model: ModelKind) -> (config: AppConfig)
    ensures
        config@ == onboarded(existing, model),
{
    let fresh = existing.is_none();
    let mut config = base(existing);
    config.record_model = owned(model.id());
    config.model = owned(model.id());
    if fresh {
        config.live_model = owned("nemotron");
        config.tray_enabled = true;
    }
    config
}

/// The configuration with two threads on the CPU as the backend: what is kept where
/// measuring is skipped.
pub fn with_cpu_backend(existing: Option<AppConfig>) -> (config: AppConfig)
    ensures
        config@ == (ConfigView {
            backend_cache: CacheView {
                asr: AsrView {
                    provider: "cpu"@,
                    threads: 2,
                    ..base_config(existing).backend_cache.asr
                },
                ..base_config(existing).backend_cache
            },
            ..base_config(existing)
        }),
{
    let mut config = base(existing);
    config.backend_cache.asr.provider = owned("cpu");
    config.backend_cache.asr.threads = 2;
    config
}

/// The configuration with another speech backend picked.
pub fn with_asr_backend(existing: Option<AppConfig>, entry: AsrCacheEntry) -> (config: AppConfig)
    ensures
        config@ == (ConfigView {
            backend_cache: CacheView {
                asr: entry@,
                ..base_config(existing).backend_cache
            },
            ..base_config(existing)
        }),
{
    let mut config = base(existing);
    config.backend_cache.asr = entry;
    config
}

/// Changes that one part of the app makes leave the settings of the others alone:
/// picking an engine keeps the presets, the consent and the picked backends.
pub proof fn picking_an_engine_keeps_other_settings(existing: AppConfig, model: ModelKind)
    ensures
        ({
            let next = onboarded(Some(existing), model);
            &&& next.live_model == existing@.live_model
            &&& next.rewrite_record == existing@.rewrite_record
            &&& next.rewrite_styling == existing@.rewrite_styling
            &&& next.rewrite_structure == existing@.rewrite_structure
            &&& next.rewrite_context == existing@.rewrite_context
            &&& next.preload_engines == existing@.preload_engines
            &&& next.telemetry_consent == existing@.telemetry_consent
            &&& next.tray_enabled == existing@.tray_enabled
            &&& next.backend_cache == existing@.backend_cache
        }),
{
}

/// Fields that a stored file does not have get their defaults: the engines, the rewrite
/// pass switched on with its presets, and engines loaded ahead. A machine without a file
/// has the same, no consent and no tray icon.
pub proof fn unset_fields_have_their_defaults(raw: AppConfigRaw)
    ensures
        raw.model is None ==> resolved(raw).model == "nemotron"@,
        raw.record_model is None ==> resolved(raw).record_model == "moonshine"@,
        raw.live_model is None ==> resolved(raw).live_model == "nemotron"@,
        raw.rewrite_record is None ==> resolved(raw).rewrite_record,
        raw.rewrite_styling is None ==> resolved(raw).rewrite_styling == "casual"@,
        raw.rewrite_structure is None ==> resolved(raw).rewrite_structure == "prose"@,
        raw.rewrite_context is None ==> resolved(raw).rewrite_context == "general"@,
        raw.preload_engines is None ==> resolved(raw).preload_engines,
        !base_config(None).telemetry_consent && !base_config(None).tray_enabled,
        base_config(None).rewrite_record && base_config(None).preload_engines,
        base_config(None).record_model == "moonshine"@,
        base_config(None).live_model == "nemotron"@,
        base_config(None).model == "nemotron"@,
        base_config(None).rewrite_styling == "casual"@,
        base_config(None).rewrite_structure == "prose"@,
        base_config(None).rewrite_context == "general"@,
        ({
            let cache = base_config(None).backend_cache;
            &&& cache.asr.provider.len() == 0 && cache.asr.threads == 0 && cache.asr.win_rtf == 0
            &&& cache.asr.app_version.len() == 0 && cache.asr.device_hash.len() == 0
            &&& cache.normalizer.backend.len() == 0 && cache.normalizer.win_ms == 0
        }),
{
}

/// The engine that was picked is the one for recordings from then on; the tray icon is on
/// where nothing was stored yet, and what was stored is otherwise taken over.
pub proof fn picked_engines_record(existing: Option<AppConfig>, model: ModelKind)
    ensures
        ({
            let next = onboarded(existing, model);
            &&& next.record_model == model.id_text()
            &&& next.model == model.id_text()
            &&& existing is None ==> next.tray_enabled && next.live_model == "nemotron"@
            &&& existing is None ==> next.telemetry_consent == false && next.rewrite_record
            &&& existing matches Some(config) ==> base_config(existing) == config@
        }),
{
}

/// The configuration is the current one where there is one, and else the old one.
pub proof fn current_configurations_count_first(
    current: Option<AppConfig>,
    legacy: Option<AppConfig>,
    config: Option<AppConfig>,
)
    requires
        call_ensures(load, (current, legacy), config),
    ensures
        current is Some ==> config == current,
        current is None ==> config == legacy,
{
}

/// Switching the tray changes that alone.
pub proof fn switching_the_tray_changes_that_alone(
    existing: AppConfig,
    enabled: bool,
    config: AppConfig,
)
    requires
        call_ensures(set_tray_enabled, (Some(existing), enabled), config),
    ensures
        config@ == (ConfigView { tray_enabled: enabled, ..existing@ }),
{
}

} // verus!
