//! Setup and settings: what the panel knows, and what the user's choices do to it.
use crate::asr::fetch::{DownloadProgress, EtaTracker};
use crate::asr::model::{kind_by_id, spec_by_id};
use crate::backend_detect::{faster, BenchProgress, BenchResult, HardwareProfile};
use crate::config::AppConfig;
use crate::setup_steps::{next_step, SetupStep, StepEvent};
use crate::text::{joined, owned, same_text, signed_decimal};
use vstd::prelude::*;

verus! {

/// Why the panel is open.
#[derive(Clone, Copy, Debug, PartialEq, Eq, Structural)]
pub enum SetupOrigin {
    FirstRun,
    /// The configured model is missing.
    Recovery,
    Settings,
    /// Setup was asked for again.
    Respawn,
}

pub const RECOVERY_NOTICE: &'static str = "Cached model not found. Download it below to continue.";

pub const BLOCKED_NOTICE: &'static str = "Model not downloaded. Download it in setup first.";

/// The settings that the user makes on the panel.
#[derive(Debug)]
pub struct Choices {
    pub record_model: String,
    pub live_model: String,
    pub rewrite_styling: String,
    pub rewrite_structure: String,
    pub rewrite_context: String,
    pub telemetry_consent: bool,
    pub preload_engines: bool,
    pub tray_enabled: bool,
}

/// A download that the panel shows.
#[derive(Debug)]
pub struct Transfer {
    /// An operation is under way.
    pub busy: bool,
    /// The operation is a download.
    pub downloading: bool,
    pub cancel_requested: bool,
    pub progress: Option<DownloadProgress>,
    /// The speed of the download as text.
    pub speed: Option<String>,
    pub eta: EtaTracker,
}

/// The benchmark that the panel shows.
#[derive(Debug)]
pub struct BenchBoard {
    /// A benchmark was asked for from the settings.
    pub rechecking: bool,
    /// The results so far, the fastest first.
    pub results: Vec<BenchResult>,
    /// The name of the winner.
    pub winner: Option<String>,
    pub winner_result: Option<BenchResult>,
    pub busy: bool,
    pub skipped: bool,
    pub started: bool,
    /// The provider and the threads that are being measured.
    pub running: Option<(String, i32)>,
    pub pulse: u64,
}

/// The panel.
#[derive(Debug)]
pub struct OnboardingView {
    pub origin: SetupOrigin,
    pub model_id: String,
    pub ram_gb: u32,
    pub cores: usize,
    pub status: Option<String>,
    pub error: Option<String>,
    pub notice: Option<String>,
    /// The page of the tour, while it is on.
    pub step: Option<SetupStep>,
    /// The record key was pressed during setup.
    pub start_queued: bool,
    pub choices: Choices,
    pub transfer: Transfer,
    pub bench: BenchBoard,
    pub profile: HardwareProfile,
}

/// What the panel asks of the app.
#[derive(Clone, Copy, Debug, PartialEq, Eq, Structural)]
pub enum PanelRequest {
    /// Download the model; the files on disk are removed first if `purge`.
    StartDownload { purge: bool },
    DeleteModel,
    SetTray(bool),
    RecheckBackend,
    /// Measure the backends on behalf of the tour.
    StartBench,
    /// Store the CPU with two threads as the backend.
    KeepCpu,
    /// Store the choices.
    SaveChoices,
    /// Store the consent and tell telemetry.
    SetConsent(bool),
}

/// Which engine setting is changed.
#[derive(Clone, Copy, Debug, PartialEq, Eq, Structural)]
pub enum EngineSlot {
    Record,
    Live,
}

/// Which preset is changed.
#[derive(Clone, Copy, Debug, PartialEq, Eq, Structural)]
pub enum PresetSlot {
    Styling,
    Structure,
    Context,
}

/// Which setting could not be stored.
#[derive(Clone, Copy, Debug, PartialEq, Eq, Structural)]
pub enum Setting {
    Engine,
    Preset,
    Telemetry,
    Preload,
}

impl Setting {
    /// The name of the setting in messages.
    pub open spec fn name(self) -> Seq<char> {
        match self {
            Setting::Engine => "engine"@,
            Setting::Preset => "rewrite"@,
            Setting::Telemetry => "telemetry"@,
            Setting::Preload => "preload"@,
        }
    }
}

/// Why a folder could not be shown.
#[derive(Clone, Copy, Debug, PartialEq, Eq, Structural)]
pub enum RevealFailure {
    NoPath,
    NotUnicode,
    NotLaunched,
}

/// Whether results are in order, the fastest first.
pub open spec fn ranked(results: Seq<BenchResult>) -> bool {
    forall|i: int, j: int|
        0 <= i <= j < results.len() ==> !crate::backend_detect::is_faster(
            (#[trigger] results[j]).rtf,
            (#[trigger] results[i]).rtf,
        )
}

/// How many results, from the first on, `rtf` is no faster than.
pub open spec fn rank_of(results: Seq<BenchResult>, rtf: i64) -> int
    decreases results.len(),
{
    if results.len() == 0 {
        0
    } else if !crate::backend_detect::is_faster(rtf, results[0].rtf) {
        1 + rank_of(results.drop_first(), rtf)
    } else {
        0
    }
}

proof fn rank_is_in_range(results: Seq<BenchResult>, rtf: i64)
    ensures
        0 <= rank_of(results, rtf) <= results.len(),
        forall|i: int|
            0 <= i < rank_of(results, rtf) ==> !crate::backend_detect::is_faster(
                rtf,
                (#[trigger] results[i]).rtf,
            ),
        rank_of(results, rtf) < results.len() ==> crate::backend_detect::is_faster(
            rtf,
            results[rank_of(results, rtf)].rtf,
        ),
    decreases results.len(),
{
    if results.len() > 0 && !crate::backend_detect::is_faster(rtf, results[0].rtf) {
        let rest = results.drop_first();
        rank_is_in_range(rest, rtf);
        assert forall|i: int|
            0 <= i < rank_of(results, rtf) implies !crate::backend_detect::is_faster(
            rtf,
            (#[trigger] results[i]).rtf,
        ) by {
            if i > 0 {
                assert(rest[i - 1] == results[i]);
            }
        }
    }
}

/// Entering a result behind those that it is no faster than keeps the results in
/// order.
pub proof fn entering_a_result_keeps_the_order(results: Seq<BenchResult>, result: BenchResult)
    requires
        ranked(results),
    ensures
        0 <= rank_of(results, result.rtf) <= results.len(),
        ranked(results.insert(rank_of(results, result.rtf), result)),
{
    rank_is_in_range(results, result.rtf);
    let k = rank_of(results, result.rtf);
    let all = results.insert(k, result);
    assert forall|i: int, j: int|
        0 <= i <= j < all.len() implies !crate::backend_detect::is_faster(
        (#[trigger] all[j]).rtf,
        (#[trigger] all[i]).rtf,
    ) by {
        if i < k {
            assert(all[i] == results[i]);
        } else if i > k {
            assert(all[i] == results[i - 1]);
        }
        if j < k {
            assert(all[j] == results[j]);
        } else if j > k {
            assert(all[j] == results[j - 1]);
            if k < results.len() {
                assert(!crate::backend_detect::is_faster(results[j - 1].rtf, results[k].rtf));
            }
        }
    }
}

/// The wording of a candidate on the leaderboard.
pub open spec fn engine_text(provider: Seq<char>, threads: i32) -> Seq<char> {
    if provider == "cuda"@ {
        "NVIDIA (GPU)"@
    } else if threads == 1 {
        "CPU \u{b7} "@ + "1 core"@
    } else {
        "CPU \u{b7} "@ + (crate::text::signed_decimal_of(threads as int) + " cores"@)
    }
}

/// The wording of a candidate on the leaderboard.
pub fn bench_label(provider: &str, threads: i32) -> (text: String)
    ensures
        text@ == engine_text(provider@, threads),
{
    if same_text(provider, "cuda") {
        owned("NVIDIA (GPU)")
    } else if threads == 1 {
        joined("CPU \u{b7} ", "1 core")
    } else {
        joined("CPU \u{b7} ", joined(signed_decimal(threads).as_str(), " cores").as_str())
    }
}

/// The step that the tour goes to on `event`, where the tour is on.
pub open spec fn toured(step: Option<SetupStep>, event: StepEvent) -> Option<SetupStep> {
    match step {
        Some(step) => crate::setup_steps::step_after(step, event),
        None => None,
    }
}

fn go_on(step: Option<SetupStep>, event: StepEvent) -> (next: Option<SetupStep>)
    ensures
        next == toured(step, event),
{
    match step {
        Some(step) => next_step(step, event),
        None => None,
    }
}

impl Transfer {
    /// No operation under way.
    pub open spec fn idle(self) -> bool {
        &&& !self.busy
        &&& !self.downloading
        &&& !self.cancel_requested
        &&& self.progress is None
        &&& self.speed is None
        &&& self.eta@.len() == 0
    }

    /// A download under way of which nothing is known yet.
    pub open spec fn fresh(self) -> bool {
        &&& self.busy
        &&& self.downloading
        &&& !self.cancel_requested
        &&& self.progress is None
        &&& self.speed is None
        &&& self.eta@.len() == 0
    }

    fn rest(&mut self)
        ensures
            final(self).idle(),
    {
        self.busy = false;
        self.downloading = false;
        self.cancel_requested = false;
        self.progress = None;
        self.speed = None;
        self.eta.clear();
    }

    fn begin(&mut self)
        ensures
            final(self).fresh(),
    {
        self.busy = true;
        self.downloading = true;
        self.cancel_requested = false;
        self.progress = None;
        self.speed = None;
        self.eta.clear();
    }
}

/// The choices that a configuration holds.
pub open spec fn choices_of(c: Choices, config: crate::config::ConfigView, tray: bool) -> bool {
    &&& c.record_model@ == config.record_model
    &&& c.live_model@ == config.live_model
    &&& c.rewrite_styling@ == config.rewrite_styling
    &&& c.rewrite_structure@ == config.rewrite_structure
    &&& c.rewrite_context@ == config.rewrite_context
    &&& c.telemetry_consent == config.telemetry_consent
    &&& c.preload_engines == config.preload_engines
    &&& c.tray_enabled == tray
}

impl OnboardingView {
    /// What holds of the panel all the time: the leaderboard is in order, and the
    /// progress of a download can be told in percent.
    pub open spec fn well_formed(self) -> bool {
        &&& ranked(self.bench.results@)
        &&& self.transfer.progress matches Some(p) ==> p.done * 100 <= u64::MAX
    }

    /// A panel with the choices of the stored configuration. The tour is on in the
    /// first run only.
    pub fn new(
        origin: SetupOrigin,
        ram_gb: u32,
        cores: usize,
        model_id: &str,
        tray_enabled: bool,
        stored: Option<&AppConfig>,
        profile: HardwareProfile,
    ) -> (view: OnboardingView)
        ensures
            view.well_formed(),
            view.origin == origin,
            view.model_id@ == model_id@,
            view.ram_gb == ram_gb,
            view.cores == cores,
            view.status is None,
            view.error is None,
            view.notice is None,
            view.step == (if origin == SetupOrigin::FirstRun {
                Some(SetupStep::Welcome)
            } else {
                None
            }),
            !view.start_queued,
            choices_of(
                view.choices,
                match stored {
                    Some(config) => config@,
                    None => crate::config::default_config(),
                },
                tray_enabled,
            ),
            view.transfer.idle(),
            !view.bench.rechecking,
            view.bench.results@.len() == 0,
            view.bench.winner is None,
            view.bench.winner_result is None,
            !view.bench.busy,
            !view.bench.skipped,
            !view.bench.started,
            view.bench.running is None,
            view.bench.pulse == 0,
            view.profile == profile,
    {
        let choices = match stored {
            Some(config) => Choices {
                record_model: config.record_model.clone(),
                live_model: config.live_model.clone(),
                rewrite_styling: config.rewrite_styling.clone(),
                rewrite_structure: config.rewrite_structure.clone(),
                rewrite_context: config.rewrite_context.clone(),
                telemetry_consent: config.telemetry_consent,
                preload_engines: config.preload_engines,
                tray_enabled,
            },
            None => {
                let config = AppConfig::default();
                Choices {
                    record_model: config.record_model,
                    live_model: config.live_model,
                    rewrite_styling: config.rewrite_styling,
                    rewrite_structure: config.rewrite_structure,
                    rewrite_context: config.rewrite_context,
                    telemetry_consent: config.telemetry_consent,
                    preload_engines: config.preload_engines,
                    tray_enabled,
                }
            },
        };
        let step = match origin {
            SetupOrigin::FirstRun => Some(SetupStep::Welcome),
            _ => None,
        };
        OnboardingView {
            origin,
            model_id: owned(model_id),
            ram_gb,
            cores,
            status: None,
            error: None,
            notice: None,
            step,
            start_queued: false,
            choices,
            transfer: Transfer {
                busy: false,
                downloading: false,
                cancel_requested: false,
                progress: None,
                speed: None,
                eta: EtaTracker::new(),
            },
            bench: BenchBoard {
                rechecking: false,
                results: Vec::new(),
                winner: None,
                winner_result: None,
                busy: false,
                skipped: false,
                started: false,
                running: None,
                pulse: 0,
            },
            profile,
        }
    }

    /// The stored configuration with the choices of the panel in it.
    pub fn persist_config(&self, existing: Option<AppConfig>) -> (config: AppConfig)
        ensures
            config@ == (crate::config::ConfigView {
                record_model: self.choices.record_model@,
                live_model: self.choices.live_model@,
                rewrite_styling: self.choices.rewrite_styling@,
                rewrite_structure: self.choices.rewrite_structure@,
                rewrite_context: self.choices.rewrite_context@,
                telemetry_consent: self.choices.telemetry_consent,
                preload_engines: self.choices.preload_engines,
                tray_enabled: self.choices.tray_enabled,
                ..crate::config::base_config(existing)
            }),
    {
        let mut config = match existing {
            Some(config) => config,
            None => AppConfig::default(),
        };
        config.record_model = self.choices.record_model.clone();
        config.live_model = self.choices.live_model.clone();
        config.rewrite_styling = self.choices.rewrite_styling.clone();
        config.rewrite_structure = self.choices.rewrite_structure.clone();
        config.rewrite_context = self.choices.rewrite_context.clone();
        config.telemetry_consent = self.choices.telemetry_consent;
        config.preload_engines = self.choices.preload_engines;
        config.tray_enabled = self.choices.tray_enabled;
        config
    }

    /// Switches the tray icon on or off.
    pub fn toggle_tray(&mut self) -> (request: PanelRequest)
        ensures
            *final(self) == (OnboardingView {
                choices: Choices {
                    tray_enabled: !old(self).choices.tray_enabled,
                    ..old(self).choices
                },
                ..*old(self)
            }),
            request == PanelRequest::SetTray(final(self).choices.tray_enabled),
    {
        self.choices.tray_enabled = !self.choices.tray_enabled;
        PanelRequest::SetTray(self.choices.tray_enabled)
    }

    /// Picks an engine.
    pub fn set_engine(&mut self, slot: EngineSlot, id: &str) -> (request: PanelRequest)
        ensures
            request == PanelRequest::SaveChoices,
            match slot {
                EngineSlot::Record => {
                    &&& final(self).choices.record_model@ == id@
                    &&& *final(self) == (OnboardingView {
                        choices: Choices {
                            record_model: final(self).choices.record_model,
                            ..old(self).choices
                        },
                        ..*old(self)
                    })
                },
                EngineSlot::Live => {
                    &&& final(self).choices.live_model@ == id@
                    &&& *final(self) == (OnboardingView {
                        choices: Choices {
                            live_model: final(self).choices.live_model,
                            ..old(self).choices
                        },
                        ..*old(self)
                    })
                },
            },
    {
        match slot {
            EngineSlot::Record => {
                self.choices.record_model = owned(id);
            },
            EngineSlot::Live => {
                self.choices.live_model = owned(id);
            },
        }
        PanelRequest::SaveChoices
    }

    /// Picks a preset of the rewrite pass.
    pub fn set_preset(&mut self, slot: PresetSlot, value: &str) -> (request: PanelRequest)
        ensures
            request == PanelRequest::SaveChoices,
            match slot {
                PresetSlot::Styling => {
                    &&& final(self).choices.rewrite_styling@ == value@
                    &&& *final(self) == (OnboardingView {
                        choices: Choices {
                            rewrite_styling: final(self).choices.rewrite_styling,
                            ..old(self).choices
                        },
                        ..*old(self)
                    })
                },
                PresetSlot::Structure => {
                    &&& final(self).choices.rewrite_structure@ == value@
                    &&& *final(self) == (OnboardingView {
                        choices: Choices {
                            rewrite_structure: final(self).choices.rewrite_structure,
                            ..old(self).choices
                        },
                        ..*old(self)
                    })
                },
                PresetSlot::Context => {
                    &&& final(self).choices.rewrite_context@ == value@
                    &&& *final(self) == (OnboardingView {
                        choices: Choices {
                            rewrite_context: final(self).choices.rewrite_context,
                            ..old(self).choices
                        },
                        ..*old(self)
                    })
                },
            },
    {
        match slot {
            PresetSlot::Styling => {
                self.choices.rewrite_styling = owned(value);
            },
            PresetSlot::Structure => {
                self.choices.rewrite_structure = owned(value);
            },
            PresetSlot::Context => {
                self.choices.rewrite_context = owned(value);
            },
        }
        PanelRequest::SaveChoices
    }

    /// Gives or takes back the consent to telemetry.
    pub fn toggle_telemetry(&mut self) -> (request: PanelRequest)
        ensures
            *final(self) == (OnboardingView {
                choices: Choices {
                    telemetry_consent: !old(self).choices.telemetry_consent,
                    ..old(self).choices
                },
                ..*old(self)
            }),
            request == PanelRequest::SetConsent(final(self).choices.telemetry_consent),
    {
        self.choices.telemetry_consent = !self.choices.telemetry_consent;
        PanelRequest::SetConsent(self.choices.telemetry_consent)
    }

    /// Switches loading ahead on or off.
    pub fn toggle_preload(&mut self) -> (request: PanelRequest)
        ensures
            *final(self) == (OnboardingView {
                choices: Choices {
                    preload_engines: !old(self).choices.preload_engines,
                    ..old(self).choices
                },
                ..*old(self)
            }),
            request == PanelRequest::SaveChoices,
    {
        self.choices.preload_engines = !self.choices.preload_engines;
        PanelRequest::SaveChoices
    }

    /// A setting could not be stored: the panel says so.
    pub fn save_failed(&mut self, setting: Setting, detail: &str)
        ensures
            crate::text::opt_text(final(self).error) == Some(
                "could not save "@ + setting.name() + " choice: "@ + detail@,
            ),
            *final(self) == (OnboardingView { error: final(self).error, ..*old(self) }),
    {
        let mut text = owned("could not save ");
        match setting {
            Setting::Engine => text.push_str("engine"),
            Setting::Preset => text.push_str("rewrite"),
            Setting::Telemetry => text.push_str("telemetry"),
            Setting::Preload => text.push_str("preload"),
        }
        text.push_str(" choice: ");
        text.push_str(detail);
        self.error = Some(text);
    }

    /// The logs were bundled into a file, or could not be.
    pub fn logs_exported(&mut self, outcome: Result<&str, &str>)
        ensures
            match outcome {
                Ok(path) => {
                    &&& crate::text::opt_text(final(self).status) == Some(
                        "Logs saved to "@ + path@,
                    )
                    &&& *final(self) == (OnboardingView {
                        status: final(self).status,
                        error: None,
                        ..*old(self)
                    })
                },
                Err(detail) => {
                    &&& crate::text::opt_text(final(self).error) == Some(detail@)
                    &&& *final(self) == (OnboardingView {
                        error: final(self).error,
                        ..*old(self)
                    })
                },
            },
    {
        match outcome {
            Ok(path) => {
                self.status = Some(joined("Logs saved to ", path));
                self.error = None;
            },
            Err(detail) => {
                self.error = Some(owned(detail));
            },
        }
    }

    /// Asks for the benchmark from the settings, unless one runs already.
    pub fn recheck_backend(&mut self) -> (request: Option<PanelRequest>)
        ensures
            request == (if old(self).bench.rechecking {
                None
            } else {
                Some(PanelRequest::RecheckBackend)
            }),
            *final(self) == (OnboardingView {
                bench: BenchBoard { rechecking: true, ..old(self).bench },
                ..*old(self)
            }),
    {
        if self.bench.rechecking {
            return None;
        }
        self.bench.rechecking = true;
        Some(PanelRequest::RecheckBackend)
    }

    /// The benchmark from the settings ended.
    pub fn on_bench_finished(&mut self, winner: Option<&str>)
        ensures
            crate::text::opt_text(final(self).status) == Some(
                match winner {
                    Some(provider) => "Backend test done. Fastest is "@ + provider@ + "."@,
                    None => "Backend test skipped or gave no result."@,
                },
            ),
            *final(self) == (OnboardingView {
                status: final(self).status,
                bench: BenchBoard { rechecking: false, ..old(self).bench },
                ..*old(self)
            }),
    {
        self.bench.rechecking = false;
        self.status = Some(
            match winner {
                Some(provider) => joined(
                    joined("Backend test done. Fastest is ", provider).as_str(),
                    ".",
                ),
                None => owned("Backend test skipped or gave no result."),
            },
        );
    }

    /// Whether the tour is on.
    pub fn step_active(&self) -> (r: bool)
        ensures
            r == (self.step is Some),
    {
        self.step.is_some()
    }

    /// Whether the microphone is being checked.
    pub fn mic_check_active(&self) -> (r: bool)
        ensures
            r == (self.step == Some(SetupStep::MicCheck)),
    {
        match self.step {
            Some(SetupStep::MicCheck) => true,
            _ => false,
        }
    }

    /// Says that the model has to be downloaded first, unless something is said there
    /// already.
    pub fn set_blocked_notice(&mut self)
        ensures
            old(self).notice is Some ==> *final(self) == *old(self),
            old(self).notice is None ==> {
                &&& crate::text::opt_text(final(self).notice) == Some(BLOCKED_NOTICE@)
                &&& *final(self) == (OnboardingView { notice: final(self).notice, ..*old(self) })
            },
    {
        if self.notice.is_none() {
            self.notice = Some(owned(BLOCKED_NOTICE));
        }
    }

    /// The record key was pressed during setup.
    pub fn queue_start(&mut self)
        ensures
            *final(self) == (OnboardingView { start_queued: true, ..*old(self) }),
    {
        self.start_queued = true;
    }

    /// Whether the tour's benchmark may begin: it begins once, and not after it was
    /// skipped.
    pub open spec fn bench_may_start(self) -> bool {
        !self.bench.started && !self.bench.skipped
    }

    /// The leaderboard of a benchmark that begins.
    pub open spec fn is_fresh_board(board: BenchBoard, before: BenchBoard) -> bool {
        &&& board.rechecking == before.rechecking
        &&& board.results@.len() == 0
        &&& board.winner is None
        &&& board.winner_result is None
        &&& board.busy
        &&& board.skipped == before.skipped
        &&& board.started
        &&& board.running is None
        &&& board.pulse == 0
    }

    /// Turns a page of the tour. Turning to the measuring page begins the benchmark.
    pub fn nav(&mut self, event: StepEvent) -> (request: Option<PanelRequest>)
        ensures
            final(self).step == toured(old(self).step, event),
            ({
                let starts = final(self).step == Some(SetupStep::Measuring) && old(
                    self,
                ).bench_may_start();
                &&& request == (if starts {
                    Some(PanelRequest::StartBench)
                } else {
                    None
                })
                &&& !starts ==> *final(self) == (OnboardingView {
                    step: final(self).step,
                    ..*old(self)
                })
                &&& starts ==> {
                    &&& OnboardingView::is_fresh_board(final(self).bench, old(self).bench)
                    &&& *final(self) == (OnboardingView {
                        step: final(self).step,
                        bench: final(self).bench,
                        ..*old(self)
                    })
                }
            }),
    {
        let next = go_on(self.step, event);
        let mut request: Option<PanelRequest> = None;
        if let Some(SetupStep::Measuring) = next {
            if !self.bench.started && !self.bench.skipped {
                self.bench.started = true;
                self.bench.busy = true;
                self.bench.winner = None;
                self.bench.winner_result = None;
                self.bench.results = Vec::new();
                self.bench.running = None;
                self.bench.pulse = 0;
                request = Some(PanelRequest::StartBench);
            }
        }
        self.step = next;
        request
    }

    /// Leaves the benchmark for the default backend; once is enough.
    pub fn skip_bench(&mut self) -> (request: Option<PanelRequest>)
        ensures
            request == (if old(self).bench.skipped {
                None
            } else {
                Some(PanelRequest::KeepCpu)
            }),
            *final(self) == (if old(self).bench.skipped {
                *old(self)
            } else {
                OnboardingView {
                    step: toured(old(self).step, StepEvent::NavNext),
                    bench: BenchBoard {
                        skipped: true,
                        busy: false,
                        running: None,
                        ..old(self).bench
                    },
                    ..*old(self)
                }
            }),
    {
        if self.bench.skipped {
            return None;
        }
        self.bench.skipped = true;
        self.bench.busy = false;
        self.bench.running = None;
        self.step = go_on(self.step, StepEvent::NavNext);
        Some(PanelRequest::KeepCpu)
    }

    /// Another beat of the measuring page; whether there will be one more. The beat
    /// that finds the benchmark over still counts.
    pub fn pulse_measuring(&mut self) -> (again: bool)
        ensures
            again == old(self).bench.busy,
            *final(self) == (OnboardingView {
                bench: BenchBoard {
                    pulse: if old(self).bench.pulse == u64::MAX {
                        0
                    } else {
                        (old(self).bench.pulse + 1) as u64
                    },
                    ..old(self).bench
                },
                ..*old(self)
            }),
    {
        if self.bench.pulse == u64::MAX {
            self.bench.pulse = 0;
        } else {
            self.bench.pulse = self.bench.pulse + 1;
        }
        self.bench.busy
    }

    /// The benchmark of the tour got on. `threads` and `win_rtf` are those of the
    /// stored backend. After a skip nothing is taken in any more, except that its end
    /// has the default backend stored again.
    pub fn on_bench_progress(&mut self, progress: BenchProgress, threads: i32, win_rtf: i64) -> (
        request: Option<PanelRequest>)
        requires
            old(self).well_formed(),
        ensures
            final(self).well_formed(),
            request == (if old(self).bench.skipped && progress is Finished {
                Some(PanelRequest::KeepCpu)
            } else {
                None
            }),
            *final(self) == (OnboardingView { bench: final(self).bench, ..*old(self) }),
            old(self).bench.skipped ==> *final(self) == *old(self),
            !old(self).bench.skipped ==> match progress {
                BenchProgress::Measuring { provider, threads: t, .. } => final(self).bench == (
                BenchBoard { busy: true, running: Some((provider, t)), ..old(self).bench }),
                BenchProgress::Measured(result) => {
                    &&& final(self).bench.results@ == old(self).bench.results@.insert(
                        rank_of(old(self).bench.results@, result.rtf),
                        result,
                    )
                    &&& final(self).bench == (BenchBoard {
                        running: None,
                        results: final(self).bench.results,
                        ..old(self).bench
                    })
                },
                BenchProgress::Finished { winner } => {
                    let used = if threads > 0 {
                        threads
                    } else {
                        2
                    };
                    &&& final(self).bench == (BenchBoard {
                        busy: false,
                        running: None,
                        winner: final(self).bench.winner,
                        winner_result: final(self).bench.winner_result,
                        ..old(self).bench
                    })
                    &&& match winner {
                        Some(provider) => {
                            &&& crate::text::opt_text(final(self).bench.winner) == Some(
                                engine_text(provider@, used),
                            )
                            &&& final(self).bench.winner_result matches Some(r) && r.provider@
                                == provider@ && r.threads == used && r.is_gpu == (provider@
                                == "cuda"@) && r.rtf == win_rtf
                        },
                        None => final(self).bench.winner is None
                            && final(self).bench.winner_result is None,
                    }
                },
            },
    {
        if self.bench.skipped {
            return match progress {
                BenchProgress::Finished { .. } => Some(PanelRequest::KeepCpu),
                _ => None,
            };
        }
        match progress {
            BenchProgress::Measuring { provider, threads: t, .. } => {
                self.bench.busy = true;
                self.bench.running = Some((provider, t));
            },
            BenchProgress::Measured(result) => {
                self.bench.running = None;
                self.enter_result(result);
            },
            BenchProgress::Finished { winner } => {
                self.bench.busy = false;
                self.bench.running = None;
                match winner {
                    Some(provider) => {
                        let used: i32 = if threads > 0 {
                            threads
                        } else {
                            2
                        };
                        self.bench.winner = Some(bench_label(provider.as_str(), used));
                        let is_gpu = same_text(provider.as_str(), "cuda");
                        self.bench.winner_result = Some(
                            BenchResult { provider, threads: used, is_gpu, rtf: win_rtf },
                        );
                    },
                    None => {
                        self.bench.winner = None;
                        self.bench.winner_result = None;
                    },
                }
            },
        }
        None
    }

    fn enter_result(&mut self, result: BenchResult)
        requires
            ranked(old(self).bench.results@),
        ensures
            final(self).bench.results@ == old(self).bench.results@.insert(
                rank_of(old(self).bench.results@, result.rtf),
                result,
            ),
            ranked(final(self).bench.results@),
            *final(self) == (OnboardingView {
                bench: BenchBoard { results: final(self).bench.results, ..old(self).bench },
                ..*old(self)
            }),
    {
        let ghost before = self.bench.results@;
        let rtf: i64 = result.rtf;
        let n: usize = self.bench.results.len();
        let mut k: usize = 0;
        assert(before =~= before.subrange(0, before.len() as int));
        while k < n && !faster(rtf, self.bench.results[k].rtf)
            invariant
                k <= n,
                n == before.len(),
                self.bench.results@ == before,
                *self == *old(self),
                rank_of(before, rtf) == k + rank_of(
                    before.subrange(k as int, before.len() as int),
                    rtf,
                ),
            decreases n - k,
        {
            proof {
                let rest = before.subrange(k as int, before.len() as int);
                assert(rest.drop_first() =~= before.subrange(k + 1, before.len() as int));
                assert(rest[0] == before[k as int]);
            }
            k += 1;
        }
        proof {
            let rest = before.subrange(k as int, before.len() as int);
            if k < n {
                assert(rest[0] == before[k as int]);
            }
            assert(rank_of(before, rtf) == k);
            entering_a_result_keeps_the_order(before, result);
        }
        self.bench.results.insert(k, result);
    }

    /// A download got on. `speed` is its speed as text.
    pub fn download_progress(
        &mut self,
        progress: DownloadProgress,
        speed: Option<String>,
        now: u64,
    )
        requires
            old(self).well_formed(),
            progress.done * 100 <= u64::MAX,
        ensures
            final(self).well_formed(),
            final(self).transfer.progress == Some(progress),
            final(self).transfer.speed == speed,
            final(self).transfer.eta@ == crate::asr::fetch::kept_with(
                old(self).transfer.eta@,
                progress.done,
                now,
            ),
            *final(self) == (OnboardingView {
                transfer: Transfer {
                    progress: final(self).transfer.progress,
                    speed: final(self).transfer.speed,
                    eta: final(self).transfer.eta,
                    ..old(self).transfer
                },
                ..*old(self)
            }),
    {
        self.transfer.eta.push(progress.done, now);
        self.transfer.progress = Some(progress);
        self.transfer.speed = speed;
    }

    /// A download was cancelled: the panel says that it can be resumed.
    pub fn download_cancelled(&mut self)
        ensures
            final(self).transfer.idle(),
            final(self).step == toured(old(self).step, StepEvent::DownloadCancelled),
            crate::text::opt_text(final(self).status) == Some(
                if old(self).step is Some {
                    "Cancelled. It will resume next time."@
                } else {
                    "Cancelled. Progress is saved. The next Start picks up where it stopped."@
                },
            ),
            *final(self) == (OnboardingView {
                transfer: final(self).transfer,
                step: final(self).step,
                status: final(self).status,
                ..*old(self)
            }),
    {
        self.transfer.rest();
        self.status = Some(
            if self.step.is_some() {
                owned("Cancelled. It will resume next time.")
            } else {
                owned("Cancelled. Progress is saved. The next Start picks up where it stopped.")
            },
        );
        self.step = go_on(self.step, StepEvent::DownloadCancelled);
    }

    /// A download failed: the panel says why.
    pub fn download_failed(&mut self, detail: &str)
        ensures
            final(self).transfer.idle(),
            final(self).step == toured(old(self).step, StepEvent::DownloadFailed),
            crate::text::opt_text(final(self).error) == Some(detail@),
            *final(self) == (OnboardingView {
                transfer: final(self).transfer,
                step: final(self).step,
                error: final(self).error,
                ..*old(self)
            }),
    {
        self.transfer.rest();
        self.step = go_on(self.step, StepEvent::DownloadFailed);
        self.error = Some(owned(detail));
    }

    /// The download of the tour is done.
    pub fn download_finished_step(&mut self)
        ensures
            final(self).transfer.idle(),
            final(self).step == toured(old(self).step, StepEvent::DownloadFinished),
            final(self).status is None,
            *final(self) == (OnboardingView {
                transfer: final(self).transfer,
                step: final(self).step,
                status: None,
                ..*old(self)
            }),
    {
        self.transfer.rest();
        self.step = go_on(self.step, StepEvent::DownloadFinished);
        self.status = None;
    }

    /// The configuration once the model of the tour is downloaded.
    pub fn config_after_download(&self, existing: Option<AppConfig>) -> (config: AppConfig)
        ensures
            config@ == (crate::config::ConfigView {
                model: self.model_id@,
                tray_enabled: match existing {
                    Some(config) => config.tray_enabled,
                    None => true,
                },
                ..crate::config::base_config(existing)
            }),
    {
        let fresh = existing.is_none();
        let mut config = match existing {
            Some(config) => config,
            None => AppConfig::default(),
        };
        config.model = self.model_id.clone();
        if fresh {
            config.tray_enabled = true;
        }
        config
    }

    /// The model was deleted, or could not be.
    pub fn delete_finished(&mut self, outcome: Result<(), &str>)
        ensures
            match outcome {
                Ok(_) => {
                    &&& crate::text::opt_text(final(self).status) == Some(
                        "Deleted. Use Download again or Start dictating to re-fetch it."@,
                    )
                    &&& final(self).error == old(self).error
                },
                Err(detail) => {
                    &&& crate::text::opt_text(final(self).error) == Some(detail@)
                    &&& final(self).status == old(self).status
                },
            },
            *final(self) == (OnboardingView {
                transfer: Transfer { busy: false, ..old(self).transfer },
                status: final(self).status,
                error: final(self).error,
                ..*old(self)
            }),
    {
        self.transfer.busy = false;
        match outcome {
            Ok(_) => {
                self.status = Some(
                    owned("Deleted. Use Download again or Start dictating to re-fetch it."),
                );
            },
            Err(detail) => {
                self.error = Some(owned(detail));
            },
        }
    }

    /// Whether the user can start an operation on the model now: none is under way,
    /// and the model is one that the registry knows.
    pub open spec fn may_act(self) -> bool {
        !self.transfer.busy && crate::asr::model::kind_of_id(self.model_id@) is Some
    }

    /// Starts the download of the model; nothing happens while an operation is under
    /// way.
    pub fn start_clicked(&mut self) -> (request: Option<PanelRequest>)
        ensures
            request == (if old(self).may_act() {
                Some(PanelRequest::StartDownload { purge: false })
            } else {
                None
            }),
            !old(self).may_act() ==> *final(self) == *old(self),
            old(self).may_act() ==> {
                &&& final(self).transfer.fresh()
                &&& final(self).step == toured(old(self).step, StepEvent::StartDownload)
                &&& crate::text::opt_text(final(self).status) == Some(
                    "Checking "@ + "Nemotron Streaming"@ + " and preparing the download..."@,
                )
                &&& *final(self) == (OnboardingView {
                    transfer: final(self).transfer,
                    step: final(self).step,
                    status: final(self).status,
                    error: None,
                    notice: None,
                    ..*old(self)
                })
            },
    {
        if self.transfer.busy {
            return None;
        }
        match spec_by_id(self.model_id.as_str()) {
            Some(spec) => {
                self.transfer.begin();
                self.error = None;
                self.notice = None;
                self.status = Some(
                    joined(
                        joined("Checking ", spec.display_name).as_str(),
                        " and preparing the download...",
                    ),
                );
                self.step = go_on(self.step, StepEvent::StartDownload);
                Some(PanelRequest::StartDownload { purge: false })
            },
            None => None,
        }
    }

    /// Whether the folder of the model may be shown now.
    pub fn may_reveal(&self) -> (r: bool)
        ensures
            r == self.may_act(),
    {
        !self.transfer.busy && kind_by_id(self.model_id.as_str()).is_some()
    }

    /// The folder of the model could not be shown: the panel says why.
    pub fn reveal_failed(&mut self, failure: RevealFailure, detail: &str)
        ensures
            crate::text::opt_text(final(self).error) == Some(
                match failure {
                    RevealFailure::NoPath => "cannot resolve model dir: "@ + detail@,
                    RevealFailure::NotUnicode => "model dir path is not valid Unicode"@,
                    RevealFailure::NotLaunched => "explorer launch failed: "@ + detail@,
                },
            ),
            *final(self) == (OnboardingView { error: final(self).error, ..*old(self) }),
    {
        self.error = Some(
            match failure {
                RevealFailure::NoPath => joined("cannot resolve model dir: ", detail),
                RevealFailure::NotUnicode => owned("model dir path is not valid Unicode"),
                RevealFailure::NotLaunched => joined("explorer launch failed: ", detail),
            },
        );
    }

    /// Deletes the model; nothing happens while an operation is under way. `ready` is
    /// whether the model is downloaded.
    pub fn delete_clicked(&mut self, ready: bool) -> (request: Option<PanelRequest>)
        ensures
            request == (if old(self).may_act() {
                Some(PanelRequest::DeleteModel)
            } else {
                None
            }),
            !old(self).may_act() ==> *final(self) == *old(self),
            old(self).may_act() ==> {
                &&& crate::text::opt_text(final(self).status) == Some(
                    if ready {
                        "releasing model and deleting files \u{2026}"@
                    } else {
                        "deleting model files \u{2026}"@
                    },
                )
                &&& *final(self) == (OnboardingView {
                    transfer: Transfer { busy: true, ..old(self).transfer },
                    status: final(self).status,
                    error: None,
                    ..*old(self)
                })
            },
    {
        if self.transfer.busy {
            return None;
        }
        match spec_by_id(self.model_id.as_str()) {
            Some(_) => {
                self.transfer.busy = true;
                self.error = None;
                self.status = Some(
                    if ready {
                        owned("releasing model and deleting files \u{2026}")
                    } else {
                        owned("deleting model files \u{2026}")
                    },
                );
                Some(PanelRequest::DeleteModel)
            },
            None => None,
        }
    }

    /// Downloads the model once more; nothing happens while an operation is under way,
    /// or where there is no folder that the model could go to.
    pub fn redownload_clicked(&mut self, has_dir: bool) -> (request: Option<PanelRequest>)
        ensures
            request == (if old(self).may_act() && has_dir {
                Some(PanelRequest::StartDownload { purge: true })
            } else {
                None
            }),
            !(old(self).may_act() && has_dir) ==> *final(self) == *old(self),
            old(self).may_act() && has_dir ==> {
                &&& final(self).transfer.fresh()
                &&& crate::text::opt_text(final(self).status) == Some(
                    "re-downloading "@ + "Nemotron Streaming"@ + " \u{2026}"@,
                )
                &&& *final(self) == (OnboardingView {
                    transfer: final(self).transfer,
                    status: final(self).status,
                    error: None,
                    notice: None,
                    ..*old(self)
                })
            },
    {
        if self.transfer.busy || !has_dir {
            return None;
        }
        match spec_by_id(self.model_id.as_str()) {
            Some(spec) => {
                self.transfer.begin();
                self.error = None;
                self.notice = None;
                self.status = Some(
                    joined(joined("re-downloading ", spec.display_name).as_str(), " \u{2026}"),
                );
                Some(PanelRequest::StartDownload { purge: true })
            },
            None => None,
        }
    }
}

/// Every choice of the panel is saved, each under its own name, and all else that was saved
/// stays.
pub proof fn every_choice_is_saved(view: OnboardingView, existing: AppConfig, saved: AppConfig)
    requires
        call_ensures(OnboardingView::persist_config, (&view, Some(existing)), saved),
    ensures
        choices_of(view.choices, saved@, saved@.tray_enabled),
        saved@.tray_enabled == view.choices.tray_enabled,
        saved@.model == existing@.model,
        saved@.rewrite_record == existing@.rewrite_record,
        saved@.backend_cache == existing@.backend_cache,
{
}

/// A download that is over is saved as the engine, and all else that was saved stays.
pub proof fn the_fetched_engine_is_saved(
    view: OnboardingView,
    existing: AppConfig,
    saved: AppConfig,
)
    requires
        call_ensures(OnboardingView::config_after_download, (&view, Some(existing)), saved),
    ensures
        saved@ == (crate::config::ConfigView { model: view.model_id@, ..existing@ }),
{
}

/// A choice that is saved is what the panel shows when it opens again.
pub proof fn saved_choices_are_shown(
    view: OnboardingView,
    existing: Option<AppConfig>,
    saved: AppConfig,
    origin: SetupOrigin,
    ram_gb: u32,
    cores: usize,
    model_id: &str,
    profile: HardwareProfile,
    reopened: OnboardingView,
)
    requires
        call_ensures(OnboardingView::persist_config, (&view, existing), saved),
        call_ensures(
            OnboardingView::new,
            (origin, ram_gb, cores, model_id, saved.tray_enabled, Some(&saved), profile),
            reopened,
        ),
    ensures
        ({
            let (a, b) = (view.choices, reopened.choices);
            &&& a.record_model@ == b.record_model@ && a.live_model@ == b.live_model@
            &&& a.rewrite_styling@ == b.rewrite_styling@
            &&& a.rewrite_structure@ == b.rewrite_structure@
            &&& a.rewrite_context@ == b.rewrite_context@
            &&& a.telemetry_consent == b.telemetry_consent
            &&& a.preload_engines == b.preload_engines
            &&& a.tray_enabled == b.tray_enabled
        }),
        reopened.model_id@ == model_id@,
        origin == SetupOrigin::FirstRun <==> reopened.step == Some(SetupStep::Welcome),
        origin != SetupOrigin::FirstRun ==> reopened.step is None,
        !reopened.transfer.busy && !reopened.bench.busy && reopened.error is None,
{
}

/// A switch changes its own choice and no other, and what is asked for is the new one.
pub proof fn switches_change_their_choice()
    ensures
        forall|view: &mut OnboardingView, request: PanelRequest| #[trigger]
            call_ensures(OnboardingView::toggle_tray, (view,), request) ==> {
                &&& request == PanelRequest::SetTray(!view.choices.tray_enabled)
                &&& final(view).choices.tray_enabled != view.choices.tray_enabled
                &&& final(view).choices.telemetry_consent == view.choices.telemetry_consent
                &&& final(view).choices.preload_engines == view.choices.preload_engines
                &&& final(view).transfer == view.transfer && final(view).bench == view.bench
            },
        forall|view: &mut OnboardingView, request: PanelRequest| #[trigger]
            call_ensures(OnboardingView::toggle_telemetry, (view,), request) ==> {
                &&& request == PanelRequest::SetConsent(!view.choices.telemetry_consent)
                &&& final(view).choices.telemetry_consent != view.choices.telemetry_consent
                &&& final(view).choices.tray_enabled == view.choices.tray_enabled
                &&& final(view).choices.preload_engines == view.choices.preload_engines
                &&& final(view).transfer == view.transfer && final(view).bench == view.bench
            },
        forall|view: &mut OnboardingView, request: PanelRequest| #[trigger]
            call_ensures(OnboardingView::toggle_preload, (view,), request) ==> {
                &&& request == PanelRequest::SaveChoices
                &&& final(view).choices.preload_engines != view.choices.preload_engines
                &&& final(view).choices.tray_enabled == view.choices.tray_enabled
                &&& final(view).choices.telemetry_consent == view.choices.telemetry_consent
                &&& final(view).transfer == view.transfer && final(view).bench == view.bench
            },
{
}

/// A pick is put where it was made, for recordings or for live mode, for the style, the
/// structure or the context, and is saved; the other picks stay.
pub proof fn picks_go_where_they_were_made()
    ensures
        forall|view: &mut OnboardingView, slot: EngineSlot, id: &str, request: PanelRequest|
            #[trigger] call_ensures(OnboardingView::set_engine, (view, slot, id), request) ==> {
                let (was, next) = (view.choices, final(view).choices);
                &&& request == PanelRequest::SaveChoices
                &&& next.record_model@ == (if slot == EngineSlot::Record {
                    id@
                } else {
                    was.record_model@
                })
                &&& next.live_model@ == (if slot == EngineSlot::Live {
                    id@
                } else {
                    was.live_model@
                })
            },
        forall|view: &mut OnboardingView, slot: PresetSlot, value: &str, request: PanelRequest|
            #[trigger] call_ensures(OnboardingView::set_preset, (view, slot, value), request) ==> {
                let (was, next) = (view.choices, final(view).choices);
                &&& request == PanelRequest::SaveChoices
                &&& next.rewrite_styling@ == (if slot == PresetSlot::Styling {
                    value@
                } else {
                    was.rewrite_styling@
                })
                &&& next.rewrite_structure@ == (if slot == PresetSlot::Structure {
                    value@
                } else {
                    was.rewrite_structure@
                })
                &&& next.rewrite_context@ == (if slot == PresetSlot::Context {
                    value@
                } else {
                    was.rewrite_context@
                })
            },
{
}

/// The engines are measured once: as the page for it is first reached, unless that was
/// skipped. A skip goes on to the next page and keeps to the processor.
pub proof fn engines_are_measured_once()
    ensures
        forall|view: &mut OnboardingView, event: StepEvent, request: Option<PanelRequest>|
            #[trigger] call_ensures(OnboardingView::nav, (view, event), request) ==> {
                &&& request is Some ==> request == Some(PanelRequest::StartBench)
                &&& request is Some <==> final(view).step == Some(SetupStep::Measuring)
                    && !view.bench.started && !view.bench.skipped
                &&& request is Some ==> final(view).bench.started && final(view).bench.busy
                    && final(view).bench.results@.len() == 0 && final(view).bench.winner is None
                    && final(view).bench.pulse == 0 && final(view).bench.rechecking
                    == view.bench.rechecking
                &&& request is None ==> final(view).bench == view.bench
                &&& final(view).choices == view.choices && final(view).transfer == view.transfer
            },
        forall|view: &mut OnboardingView, request: Option<PanelRequest>| #[trigger]
            call_ensures(OnboardingView::skip_bench, (view,), request) ==> {
                &&& request is Some <==> !view.bench.skipped
                &&& request is Some ==> request == Some(PanelRequest::KeepCpu)
                &&& request is Some ==> final(view).bench.skipped && !final(view).bench.busy
                    && final(view).step == toured(view.step, StepEvent::NavNext)
                &&& request is None ==> *final(view) == *view
            },
        forall|view: &mut OnboardingView, request: Option<PanelRequest>| #[trigger]
            call_ensures(OnboardingView::recheck_backend, (view,), request) ==> {
                &&& final(view).bench.rechecking
                &&& request is Some <==> !view.bench.rechecking
                &&& request is Some ==> request == Some(PanelRequest::RecheckBackend)
            },
{
}

/// What was measured is entered, and the rest stays; the fastest is named with what it
/// runs on. Once measuring was skipped nothing is shown any more, and the processor is kept.
pub proof fn measurements_are_entered()
    ensures
        forall|
            view: &mut OnboardingView,
            progress: BenchProgress,
            threads: i32,
            win_rtf: i64,
            request: Option<PanelRequest>,
        | #[trigger]
            call_ensures(
                OnboardingView::on_bench_progress,
                (view, progress, threads, win_rtf),
                request,
            ) ==> {
                let (was, next) = (view.bench, final(view).bench);
                &&& was.skipped ==> next == was && (request is Some <==> progress is Finished)
                &&& !was.skipped ==> request is None
                &&& !was.skipped && progress is Measuring ==> next.busy && next.results == was.results
                    && next.running is Some
                &&& !was.skipped && progress is Measured ==> next.results@.len() == was.results@.len()
                    + 1 && next.results@.contains(progress->Measured_0) && next.running is None
                &&& !was.skipped && progress is Finished ==> !next.busy && next.running is None
                    && next.results == was.results && (next.winner is Some <==> progress->winner is Some)
                    && (next.winner_result is Some <==> progress->winner is Some)
                &&& !was.skipped && progress is Finished && progress->winner is Some
                    ==> next.winner_result->0.rtf == win_rtf && next.winner_result->0.provider@
                    == progress->winner->0@ && next.winner_result->0.threads == (if threads > 0 {
                    threads
                } else {
                    2
                })
            },
{
    assert forall|
        view: &mut OnboardingView,
        progress: BenchProgress,
        threads: i32,
        win_rtf: i64,
        request: Option<PanelRequest>,
    | #[trigger]
        call_ensures(
            OnboardingView::on_bench_progress,
            (view, progress, threads, win_rtf),
            request,
        ) && !view.bench.skipped && progress is Measured implies {
        let (was, next) = (view.bench, final(view).bench);
        next.results@.len() == was.results@.len() + 1 && next.results@.contains(progress->Measured_0)
    } by {
        let (was, next) = (view.bench, final(view).bench);
        let result = progress->Measured_0;
        rank_is_in_range(was.results@, result.rtf);
        assert(next.results@[rank_of(was.results@, result.rtf)] == result);
    }
}

/// A download, a new one or a removal can be asked for exactly while nothing runs and the
/// engine is one that setup offers; else the panel stays as it is.
pub proof fn idle_panels_take_requests()
    ensures
        forall|view: &mut OnboardingView, request: Option<PanelRequest>| #[trigger]
            call_ensures(OnboardingView::start_clicked, (view,), request) ==> {
                &&& request is Some <==> !view.transfer.busy && view.model_id@ == "nemotron"@
                &&& request is Some ==> request == Some(
                    PanelRequest::StartDownload { purge: false },
                ) && final(view).transfer.busy && final(view).transfer.downloading
                    && final(view).transfer.progress is None && final(view).transfer.eta@.len() == 0
                    && final(view).error is None && final(view).notice is None
                    && final(view).step == toured(view.step, StepEvent::StartDownload)
                &&& request is None ==> *final(view) == *view
                &&& final(view).choices == view.choices
            },
        forall|view: &mut OnboardingView, has_dir: bool, request: Option<PanelRequest>| #[trigger]
            call_ensures(OnboardingView::redownload_clicked, (view, has_dir), request) ==> {
                &&& request is Some <==> !view.transfer.busy && view.model_id@ == "nemotron"@
                    && has_dir
                &&& request is Some ==> request == Some(
                    PanelRequest::StartDownload { purge: true },
                ) && final(view).transfer.busy && final(view).transfer.downloading
                    && final(view).error is None
                &&& request is None ==> *final(view) == *view
                &&& final(view).choices == view.choices && final(view).step == view.step
            },
        forall|view: &mut OnboardingView, ready: bool, request: Option<PanelRequest>| #[trigger]
            call_ensures(OnboardingView::delete_clicked, (view, ready), request) ==> {
                &&& request is Some <==> !view.transfer.busy && view.model_id@ == "nemotron"@
                &&& request is Some ==> request == Some(PanelRequest::DeleteModel)
                    && final(view).transfer.busy && final(view).error is None
                &&& request is None ==> *final(view) == *view
                &&& final(view).choices == view.choices && final(view).step == view.step
            },
{
}

/// However a download ends, the panel is idle again and takes requests; a failure is shown,
/// and a cancelled one is said to go on later. The choices stay.
pub proof fn ended_downloads_leave_the_panel_idle()
    ensures
        forall|view: &mut OnboardingView, r: ()| #[trigger]
            call_ensures(OnboardingView::download_cancelled, (view,), r) ==> {
                &&& final(view).transfer.idle() && final(view).status is Some
                &&& final(view).error == view.error && final(view).choices == view.choices
                &&& final(view).step == toured(view.step, StepEvent::DownloadCancelled)
            },
        forall|view: &mut OnboardingView, detail: &str, r: ()| #[trigger]
            call_ensures(OnboardingView::download_failed, (view, detail), r) ==> {
                &&& final(view).transfer.idle()
                &&& final(view).error is Some && final(view).error->0@ == detail@
                &&& final(view).choices == view.choices
                &&& final(view).step == toured(view.step, StepEvent::DownloadFailed)
            },
        forall|view: &mut OnboardingView, r: ()| #[trigger]
            call_ensures(OnboardingView::download_finished_step, (view,), r) ==> {
                &&& final(view).transfer.idle() && final(view).status is None
                &&& final(view).error == view.error && final(view).choices == view.choices
                &&& final(view).step == toured(view.step, StepEvent::DownloadFinished)
            },
        forall|view: &mut OnboardingView, outcome: Result<(), &str>, r: ()| #[trigger]
            call_ensures(OnboardingView::delete_finished, (view, outcome), r) ==> {
                &&& !final(view).transfer.busy
                &&& outcome is Ok ==> final(view).status is Some && final(view).error == view.error
                &&& outcome is Err ==> final(view).error is Some && final(view).error->0@
                    == outcome->Err_0@ && final(view).status == view.status
                &&& final(view).choices == view.choices
            },
{
}

/// How far a download has come is shown as it was reported, and nothing else changes but
/// the speed and the time that is left.
pub proof fn progress_is_shown_as_reported()
    ensures
        forall|
            view: &mut OnboardingView,
            progress: DownloadProgress,
            speed: Option<String>,
            now: u64,
            r: (),
        | #[trigger]
            call_ensures(OnboardingView::download_progress, (view, progress, speed, now), r) ==> {
                &&& final(view).transfer.progress == Some(progress)
                &&& final(view).transfer.speed == speed
                &&& final(view).transfer.busy == view.transfer.busy
                &&& final(view).transfer.downloading == view.transfer.downloading
                &&& final(view).transfer.cancel_requested == view.transfer.cancel_requested
                &&& final(view).step == view.step && final(view).error == view.error
            },
        forall|view: &mut OnboardingView, r: ()| #[trigger]
            call_ensures(OnboardingView::set_blocked_notice, (view,), r) ==> {
                &&& final(view).notice is Some
                &&& view.notice is Some ==> final(view).notice == view.notice
                &&& final(view).error == view.error && final(view).transfer == view.transfer
            },
        forall|view: &mut OnboardingView, r: ()| #[trigger]
            call_ensures(OnboardingView::queue_start, (view,), r) ==> final(view).start_queued
                && final(view).transfer == view.transfer && final(view).step == view.step,
{
}

/// A page of setup is up exactly while there is a step, and the microphone is listened to
/// on the page for it only.
pub proof fn the_microphone_is_checked_on_its_page(
    view: OnboardingView,
    active: bool,
    listening: bool,
)
    requires
        call_ensures(OnboardingView::step_active, (&view,), active),
        call_ensures(OnboardingView::mic_check_active, (&view,), listening),
    ensures
        active <==> view.step is Some,
        listening <==> view.step is Some && view.step->0 is MicCheck,
{
}

/// The graphics card is named as such, and the processor with its number of cores.
pub proof fn engines_are_named_by_what_they_run_on(provider: Seq<char>, threads: i32)
    ensures
        provider == "cuda"@ ==> engine_text(provider, threads) == "NVIDIA (GPU)"@,
        provider != "cuda"@ ==> crate::text::begins(engine_text(provider, threads), "CPU "@),
        provider != "cuda"@ && threads != 1 ==> crate::text::has_text(
            engine_text(provider, threads),
            crate::text::signed_decimal_of(threads as int) + " cores"@,
        ),
        provider != "cuda"@ && threads == 1 ==> engine_text(provider, threads)
            == "CPU \u{b7} 1 core"@,
{
    reveal_strlit("CPU ");
    reveal_strlit("CPU \u{b7} ");
    reveal_strlit("1 core");
    reveal_strlit("CPU \u{b7} 1 core");
    let text = engine_text(provider, threads);
    if provider != "cuda"@ {
        assert(text.subrange(0, 4) =~= "CPU "@);
        if threads != 1 {
            let cores = crate::text::signed_decimal_of(threads as int) + " cores"@;
            assert(text.subrange(6, (6 + cores.len()) as int) =~= cores);
            assert(crate::text::occurs_at(text, cores, 6));
            crate::text::found_texts_stand_somewhere(text, cores);
        } else {
            assert(text =~= "CPU \u{b7} 1 core"@);
        }
    }
}

} // verus!
