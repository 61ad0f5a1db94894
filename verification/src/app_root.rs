//! The app as a whole: which screen is up, which download runs, and what the messages
//! of the other parts lead to.
use crate::asr::model::{kind_by_id, ModelKind};
use crate::asr::worker::{Command, Event, ModelSelection};
use crate::audio::Sound;
use crate::config::AppConfig;
use crate::dictation::{
    capture_wanted, Dictation, Effect, HotkeyMessage, PasteResult, Phase,
};
use crate::onboarding::SetupOrigin;
use crate::pill::PillButton;
use crate::telemetry::Telemetry;
use crate::tray::TrayCommand;
use crate::win_focus::Foreground;
use crate::words::wide;
use vstd::prelude::*;

verus! {

/// The title by which the main window is found.
pub const WINDOW_TITLE: &'static str = "amanuensis-window";

/// The title of the panel.
pub const PANEL_TITLE: &'static str = "Amanuensis Settings";

/// What the main window shows.
#[derive(Clone, Copy, Debug, PartialEq, Eq, Structural)]
pub enum Screen {
    Onboarding(SetupOrigin),
    Dictation,
}

/// The app.
#[derive(Clone, Copy, Debug, PartialEq, Eq, Structural)]
pub struct AppRoot {
    pub screen: Screen,
    pub dictation: Option<Dictation>,
    /// There is a channel to a worker.
    pub has_worker: bool,
    /// A start was asked for during setup.
    pub pending_start: bool,
    /// The number of the last download.
    pub download_generation: u64,
    /// A download that can be cancelled is in flight.
    pub downloading: bool,
    /// The worker of the channel has not been told to end.
    pub worker_live: bool,
    /// The download in flight is that of the rewrite assets.
    pub s1_in_flight: bool,
    /// The rewrite assets could not be downloaded since the last engine download.
    pub s1_failed: bool,
}

/// What is on disk and in the configuration.
#[derive(Clone, Copy, Debug, PartialEq, Eq, Structural)]
pub struct Disk {
    /// Recordings are rewritten; also where there is no configuration.
    pub rewrite_record: bool,
    pub s1_model: bool,
    pub s1_runner: bool,
    pub nemotron_cached: bool,
    pub moonshine_cached: bool,
    /// The stored backend is out of date.
    pub bench_due: bool,
    /// The engine that the configuration names for recordings, if there is a
    /// configuration and the registry knows the name.
    pub record_engine: Option<ModelKind>,
    /// There is a place for models.
    pub has_root: bool,
}

impl Disk {
    /// Whether the files of an engine are complete.
    pub open spec fn has(self, kind: ModelKind) -> bool {
        match kind {
            ModelKind::Nemotron => self.nemotron_cached,
            ModelKind::Moonshine => self.moonshine_cached,
        }
    }

    /// Whether the files of an engine are complete.
    pub fn cached(&self, kind: ModelKind) -> (r: bool)
        ensures
            r == self.has(kind),
    {
        match kind {
            ModelKind::Nemotron => self.nemotron_cached,
            ModelKind::Moonshine => self.moonshine_cached,
        }
    }
}

/// A message of the user interface.
#[derive(Clone, Copy, Debug, PartialEq, Eq)]
pub enum UiMessage {
    OpenSettings,
    TrayToggleRecording,
    TraySetEnabled(bool),
    Quit,
    PanelClosed,
    StartDownload { captured_model: &'static str, purge: bool },
    CancelDownload,
    FinishOnboarding { captured_model: &'static str },
    DeleteRequest { captured_model: &'static str },
    ResetSetup { captured_model: &'static str },
    DeleteFinished,
    RecheckBackend,
    BenchProgress,
    BackendBenchFinished,
    PillDiscard,
    PillFinish,
    QueueDictationStart,
}

/// A message of a download.
#[derive(Clone, Copy, Debug, PartialEq, Eq, Structural)]
pub enum DownloadMessage {
    Progress { generation: u64 },
    /// The engine whose download is done.
    Finished { generation: u64, engine: ModelKind },
    Failed { generation: u64 },
    Cancelled { generation: u64 },
}

/// What is told to the panel.
#[derive(Clone, Copy, Debug, PartialEq, Eq, Structural)]
pub enum PanelCall {
    QueueStart,
    Blocked,
    Progress,
    Failed,
    Cancelled,
    FinishedStep,
    DeleteFinished,
    BenchProgress,
    BenchFinished,
}

/// What has to be done.
#[derive(Debug)]
pub enum RootAction {
    /// The effects of a dictation, in order.
    Dictation(Vec<Effect>),
    /// Hide the window behind the idle pill.
    HidePill,
    ShowPanel,
    /// Make a panel for this model.
    OpenPanel { origin: SetupOrigin, model: ModelKind },
    Panel(PanelCall),
    /// Leave the event loop.
    Quit,
    /// End the process.
    Exit,
    /// Download the model of an engine; its files are removed first if `purge`.
    DownloadModel { engine: ModelKind, generation: u64, purge: bool },
    /// Download the rewrite assets on behalf of an engine.
    FetchS1 { engine: ModelKind, generation: u64 },
    CancelDownload,
    /// Tell the worker to end.
    ShutdownWorker,
    /// Start a worker with the stored selection.
    SpawnWorker,
    /// Start a worker with the stored selection, hand it to the dictation, and tell
    /// the one before to end if there is one.
    SwitchWorker { retire: bool },
    /// Store the engine as the one that setup picked.
    SaveEngine(ModelKind),
    SaveTray(bool),
    Tray(TrayCommand),
    DeleteConfig,
    /// Remove the files of the engine.
    DeleteModel(ModelKind),
    /// Measure the backends in the background.
    Bench,
    /// Measure the backends and report.
    Recheck,
}

/// `RootAction` as a mathematical value.
#[verifier::ext_equal]
pub ghost enum RootActionView {
    Dictation(Seq<crate::dictation::EffectView>),
    HidePill,
    ShowPanel,
    OpenPanel { origin: SetupOrigin, model: ModelKind },
    Panel(PanelCall),
    Quit,
    Exit,
    DownloadModel { engine: ModelKind, generation: u64, purge: bool },
    FetchS1 { engine: ModelKind, generation: u64 },
    CancelDownload,
    ShutdownWorker,
    SpawnWorker,
    SwitchWorker { retire: bool },
    SaveEngine(ModelKind),
    SaveTray(bool),
    Tray(TrayCommand),
    DeleteConfig,
    DeleteModel(ModelKind),
    Bench,
    Recheck,
}

impl View for RootAction {
    type V = RootActionView;

    open spec fn view(&self) -> RootActionView {
        match *self {
            RootAction::Dictation(effects) => RootActionView::Dictation(
                crate::dictation::views(effects@),
            ),
            RootAction::HidePill => RootActionView::HidePill,
            RootAction::ShowPanel => RootActionView::ShowPanel,
            RootAction::OpenPanel { origin, model } => RootActionView::OpenPanel { origin, model },
            RootAction::Panel(call) => RootActionView::Panel(call),
            RootAction::Quit => RootActionView::Quit,
            RootAction::Exit => RootActionView::Exit,
            RootAction::DownloadModel { engine, generation, purge } => {
                RootActionView::DownloadModel { engine, generation, purge }
            },
            RootAction::FetchS1 { engine, generation } => RootActionView::FetchS1 {
                engine,
                generation,
            },
            RootAction::CancelDownload => RootActionView::CancelDownload,
            RootAction::ShutdownWorker => RootActionView::ShutdownWorker,
            RootAction::SpawnWorker => RootActionView::SpawnWorker,
            RootAction::SwitchWorker { retire } => RootActionView::SwitchWorker { retire },
            RootAction::SaveEngine(kind) => RootActionView::SaveEngine(kind),
            RootAction::SaveTray(on) => RootActionView::SaveTray(on),
            RootAction::Tray(command) => RootActionView::Tray(command),
            RootAction::DeleteConfig => RootActionView::DeleteConfig,
            RootAction::DeleteModel(kind) => RootActionView::DeleteModel(kind),
            RootAction::Bench => RootActionView::Bench,
            RootAction::Recheck => RootActionView::Recheck,
        }
    }
}

/// The actions of a list as mathematical values.
pub open spec fn views(actions: Seq<RootAction>) -> Seq<RootActionView> {
    actions.map_values(|a: RootAction| a@)
}

fn put(actions: &mut Vec<RootAction>, action: RootAction)
    ensures
        views(final(actions)@) == views(old(actions)@).push(action@),
{
    actions.push(action);
    assert(views(actions@) =~= views(old(actions)@).push(action@));
}

fn nothing() -> (actions: Vec<RootAction>)
    ensures
        views(actions@) == Seq::<RootActionView>::empty(),
{
    let actions: Vec<RootAction> = Vec::new();
    assert(views(actions@) =~= Seq::<RootActionView>::empty());
    actions
}

fn only(action: RootAction) -> (actions: Vec<RootAction>)
    ensures
        views(actions@) == seq![action@],
{
    let mut actions = nothing();
    put(&mut actions, action);
    actions
}

/// Whether the rewrite assets have to be there before recordings by this engine are
/// possible as configured: only Moonshine's are rewritten, and only if the
/// configuration says so.
pub open spec fn needs_s1(engine: ModelKind, disk: Disk) -> bool {
    engine == ModelKind::Moonshine && disk.rewrite_record && !(disk.s1_model && disk.s1_runner)
}

/// Whether the rewrite assets are needed and missing.
pub fn s1_chain_needed(engine: ModelKind, disk: &Disk) -> (r: bool)
    ensures
        r == needs_s1(engine, *disk),
{
    match engine {
        ModelKind::Moonshine => disk.rewrite_record && (!disk.s1_model || !disk.s1_runner),
        ModelKind::Nemotron => false,
    }
}

impl AppRoot {
    /// The rewrite assets are being downloaded.
    pub open spec fn fetching(self, engine: ModelKind, generation: u64) -> (
        AppRoot,
        Seq<RootActionView>,
    ) {
        (
            AppRoot {
                s1_in_flight: true,
                downloading: true,
                download_generation: generation,
                ..self
            },
            seq![RootActionView::FetchS1 { engine, generation }],
        )
    }

    /// Whether a download of the rewrite assets has to begin now: none runs, none
    /// failed, they are missing, and the engine itself is there.
    pub open spec fn chain_starts(self, record: ModelKind, disk: Disk) -> bool {
        !self.s1_in_flight && !self.s1_failed && needs_s1(record, disk) && disk.has(record)
    }

    /// Whether recording has to wait for the rewrite assets.
    pub open spec fn chain_blocks(self, record: ModelKind, disk: Disk) -> bool {
        self.s1_in_flight || self.chain_starts(record, disk)
    }

    /// The rewrite assets are seen to.
    pub open spec fn chained(self, record: ModelKind, disk: Disk) -> (
        AppRoot,
        Seq<RootActionView>,
    ) {
        if self.chain_starts(record, disk) {
            self.fetching(record, (self.download_generation + 1) as u64)
        } else {
            (self, seq![])
        }
    }

    /// The panel is closed: back to the pill where there is a dictation, else the app
    /// ends. A settings change can have made the rewrite assets necessary.
    pub open spec fn closed(self, disk: Disk) -> (AppRoot, Seq<RootActionView>) {
        match self.screen {
            Screen::Onboarding(origin) => match self.dictation {
                Some(d) => {
                    let idle = AppRoot {
                        screen: Screen::Dictation,
                        dictation: Some(
                            if origin == SetupOrigin::Settings {
                                Dictation { pending_start: false, ..d }
                            } else {
                                d
                            },
                        ),
                        ..self
                    };
                    match disk.record_engine {
                        Some(kind) if !self.downloading => {
                            let (next, more) = idle.chained(kind, disk);
                            (next, seq![RootActionView::HidePill] + more)
                        },
                        _ => (idle, seq![RootActionView::HidePill]),
                    }
                },
                None => (self, seq![RootActionView::Quit]),
            },
            Screen::Dictation => (self, seq![RootActionView::HidePill]),
        }
    }

    /// Setup or the settings are done with this engine.
    pub open spec fn finished(self, model: ModelKind, disk: Disk) -> (
        AppRoot,
        Seq<RootActionView>,
    ) {
        let save = RootActionView::SaveEngine(model);
        if self.chain_blocks(model, disk) {
            let (next, more) = self.chained(model, disk);
            (next, seq![save] + more)
        } else if self.worker_live {
            (
                AppRoot {
                    has_worker: self.has_worker || disk.has(model),
                    pending_start: false,
                    screen: Screen::Dictation,
                    ..self
                },
                seq![save] + (if disk.has(model) {
                    seq![RootActionView::SwitchWorker { retire: self.has_worker }]
                } else {
                    seq![]
                }) + seq![RootActionView::HidePill],
            )
        } else {
            (
                AppRoot {
                    worker_live: true,
                    has_worker: true,
                    dictation: Some(fresh_dictation(self.pending_start)),
                    pending_start: false,
                    screen: Screen::Dictation,
                    ..self
                },
                seq![save] + (if disk.nemotron_cached && disk.bench_due {
                    seq![RootActionView::Bench]
                } else {
                    seq![]
                }) + seq![RootActionView::SpawnWorker, RootActionView::HidePill],
            )
        }
    }

    /// The engine, and the rewrite assets where they belong to it, are there.
    pub open spec fn readied(self, model: ModelKind, step_active: bool, disk: Disk) -> (
        AppRoot,
        Seq<RootActionView>,
    ) {
        if self.screen is Onboarding && step_active {
            (self, seq![RootActionView::Panel(PanelCall::FinishedStep)])
        } else {
            self.finished(model, disk)
        }
    }

    /// Something that only a panel can be told.
    pub open spec fn told_panel(self, call: PanelCall) -> Seq<RootActionView> {
        match self.screen {
            Screen::Onboarding(_) => seq![RootActionView::Panel(call)],
            Screen::Dictation => seq![],
        }
    }

    /// A download reported something. What is not of the last download is dropped.
    pub open spec fn on_download(self, message: DownloadMessage, step_active: bool, disk: Disk) -> (
        AppRoot,
        Seq<RootActionView>,
    ) {
        let over = AppRoot { downloading: false, s1_in_flight: false, ..self };
        match message {
            DownloadMessage::Progress { generation } => if generation
                != self.download_generation {
                (self, seq![])
            } else {
                (self, self.told_panel(PanelCall::Progress))
            },
            DownloadMessage::Finished { generation, engine } => if generation
                != self.download_generation {
                (self, seq![])
            } else if !self.s1_in_flight && needs_s1(engine, disk) {
                over.fetching(engine, generation)
            } else {
                over.readied(engine, step_active, disk)
            },
            DownloadMessage::Failed { generation } => if generation != self.download_generation {
                (self, seq![])
            } else if self.s1_in_flight {
                AppRoot { s1_failed: true, ..over }.readied(
                    ModelKind::Moonshine,
                    step_active,
                    disk,
                )
            } else {
                (over, self.told_panel(PanelCall::Failed))
            },
            DownloadMessage::Cancelled { generation } => if generation
                != self.download_generation {
                (self, seq![])
            } else {
                (over, self.told_panel(PanelCall::Cancelled))
            },
        }
    }

    /// The worker is told to end, where it was not already.
    pub open spec fn released(self) -> (AppRoot, Seq<RootActionView>) {
        (
            AppRoot { worker_live: false, ..self },
            if self.worker_live && self.has_worker {
                seq![RootActionView::ShutdownWorker]
            } else {
                seq![]
            },
        )
    }

    /// The files of an engine are deleted, after the worker was told to end.
    pub open spec fn deleting(self, id: Seq<char>, disk: Disk) -> (AppRoot, Seq<RootActionView>) {
        if disk.has_root {
            let (free, more) = self.released();
            (free, more + seq![RootActionView::DeleteModel(engine_or_nemotron(id))])
        } else {
            (self, seq![])
        }
    }

    /// The download of an engine begins. The files of a loaded model are released
    /// before they are removed.
    pub open spec fn started(self, named: Option<ModelKind>, purge: bool) -> (
        AppRoot,
        Seq<RootActionView>,
    ) {
        match named {
            None => (self, seq![]),
            Some(engine) => {
                let (free, more) = if purge {
                    self.released()
                } else {
                    (self, seq![])
                };
                let generation = (self.download_generation + 1) as u64;
                (
                    AppRoot {
                        download_generation: generation,
                        s1_in_flight: false,
                        s1_failed: false,
                        downloading: true,
                        ..free
                    },
                    more + seq![RootActionView::DownloadModel { engine, generation, purge }],
                )
            },
        }
    }

    /// A start is asked for during setup: it is queued if there is, or will be, a
    /// worker to record with.
    pub open spec fn queued(self, model_ready: bool) -> (AppRoot, Seq<RootActionView>) {
        if model_ready || self.worker_live {
            (
                AppRoot { pending_start: true, ..self },
                seq![RootActionView::Panel(PanelCall::QueueStart)],
            )
        } else {
            (self, seq![RootActionView::Panel(PanelCall::Blocked)])
        }
    }

    /// The dictation does something, where there is one.
    pub open spec fn toggled(self, now: u64, current: Foreground) -> (
        AppRoot,
        Seq<RootActionView>,
    ) {
        match self.dictation {
            Some(d) => {
                let (next, effects) = d.toggled(now, current.window);
                (
                    AppRoot { dictation: Some(next), ..self },
                    seq![RootActionView::Dictation(effects)],
                )
            },
            None => (self, seq![]),
        }
    }

    /// The dictation is discarded, where there is one.
    pub open spec fn discarded(self, now: u64) -> (AppRoot, Seq<RootActionView>) {
        match self.dictation {
            Some(d) => {
                let (next, effects) = d.discarded(now);
                (
                    AppRoot { dictation: Some(next), ..self },
                    seq![RootActionView::Dictation(effects)],
                )
            },
            None => (self, seq![]),
        }
    }

    /// The dictation is finished, where there is one.
    pub open spec fn stopped(self, now: u64) -> (AppRoot, Seq<RootActionView>) {
        match self.dictation {
            Some(d) => {
                let (next, effects) = d.finished(now);
                (
                    AppRoot { dictation: Some(next), ..self },
                    seq![RootActionView::Dictation(effects)],
                )
            },
            None => (self, seq![]),
        }
    }

    /// A key that the app reacts to from anywhere.
    pub open spec fn keyed(
        self,
        message: HotkeyMessage,
        now: u64,
        current: Foreground,
        model_ready: bool,
        disk: Disk,
    ) -> (AppRoot, Seq<RootActionView>) {
        match self.screen {
            Screen::Dictation => match self.dictation {
                Some(d) => {
                    let (next, effects) = d.keyed(message, now, current.window);
                    (
                        AppRoot { dictation: Some(next), ..self },
                        seq![RootActionView::Dictation(effects)],
                    )
                },
                None => (self, seq![]),
            },
            Screen::Onboarding(origin) => match message {
                HotkeyMessage::DebugReload => (self, seq![]),
                HotkeyMessage::ToggleRecording => match origin {
                    SetupOrigin::Settings | SetupOrigin::Respawn => if self.dictation is Some {
                        let (idle, shown) = self.closed(disk);
                        let (next, started) = idle.toggled(now, current);
                        (next, shown + started)
                    } else {
                        (self, seq![])
                    },
                    SetupOrigin::FirstRun | SetupOrigin::Recovery => self.queued(model_ready),
                },
            },
        }
    }

    /// Escape in the main window.
    pub open spec fn escaped(self, now: u64, disk: Disk) -> (AppRoot, Seq<RootActionView>) {
        match self.screen {
            Screen::Dictation => self.discarded(now),
            Screen::Onboarding(SetupOrigin::Settings) => self.closed(disk),
            Screen::Onboarding(_) => (self, seq![]),
        }
    }

    /// The settings are opened; nothing happens while a panel is up.
    pub open spec fn opened(self, disk: Disk) -> (AppRoot, Seq<RootActionView>) {
        match self.screen {
            Screen::Onboarding(_) => (self, seq![]),
            Screen::Dictation => (
                AppRoot {
                    screen: Screen::Onboarding(SetupOrigin::Settings),
                    dictation: match self.dictation {
                        Some(d) => Some(Dictation { pending_start: false, ..d }),
                        None => None,
                    },
                    ..self
                },
                seq![
                    RootActionView::OpenPanel {
                        origin: SetupOrigin::Settings,
                        model: match disk.record_engine {
                            Some(kind) => kind,
                            None => ModelKind::Moonshine,
                        },
                    },
                    RootActionView::ShowPanel,
                ],
            ),
        }
    }

    /// A message of the user interface.
    pub open spec fn on_ui(
        self,
        message: UiMessage,
        now: u64,
        current: Foreground,
        model_ready: bool,
        disk: Disk,
    ) -> (AppRoot, Seq<RootActionView>) {
        match message {
            UiMessage::OpenSettings => self.opened(disk),
            UiMessage::TrayToggleRecording => self.toggled(now, current),
            UiMessage::TraySetEnabled(on) => (
                self,
                seq![
                    RootActionView::SaveTray(on),
                    RootActionView::Tray(TrayCommand::SetEnabled(on)),
                ],
            ),
            UiMessage::Quit => (self, seq![RootActionView::Exit]),
            UiMessage::PanelClosed => self.closed(disk),
            UiMessage::StartDownload { captured_model, purge } => self.started(
                crate::asr::model::kind_of_id(captured_model@),
                purge,
            ),
            UiMessage::CancelDownload => (
                self,
                if self.downloading {
                    seq![RootActionView::CancelDownload]
                } else {
                    seq![]
                },
            ),
            UiMessage::FinishOnboarding { captured_model } => self.finished(
                engine_or_nemotron(captured_model@),
                disk,
            ),
            UiMessage::DeleteRequest { captured_model } => self.deleting(captured_model@, disk),
            UiMessage::ResetSetup { captured_model } => (
                AppRoot { screen: Screen::Onboarding(SetupOrigin::Respawn), ..self },
                seq![
                    RootActionView::DeleteConfig,
                    RootActionView::OpenPanel {
                        origin: SetupOrigin::Respawn,
                        model: engine_or_nemotron(captured_model@),
                    },
                ],
            ),
            UiMessage::DeleteFinished => (self, self.told_panel(PanelCall::DeleteFinished)),
            UiMessage::RecheckBackend => (self, seq![RootActionView::Recheck]),
            UiMessage::BenchProgress => (self, self.told_panel(PanelCall::BenchProgress)),
            UiMessage::BackendBenchFinished => (self, self.told_panel(PanelCall::BenchFinished)),
            UiMessage::PillDiscard => self.discarded(now),
            UiMessage::PillFinish => self.stopped(now),
            UiMessage::QueueDictationStart => match self.screen {
                Screen::Onboarding(SetupOrigin::FirstRun | SetupOrigin::Recovery) => self.queued(
                    model_ready,
                ),
                _ => (self, seq![]),
            },
        }
    }
}

/// The engine that the registry lists under this id, or else Nemotron.
pub open spec fn engine_or_nemotron(id: Seq<char>) -> ModelKind {
    match crate::asr::model::kind_of_id(id) {
        Some(kind) => kind,
        None => ModelKind::Nemotron,
    }
}

/// A dictation whose engine is loading.
pub open spec fn fresh_dictation(pending_start: bool) -> Dictation {
    Dictation {
        phase: Phase::Loading,
        mode: crate::asr::Mode::Record,
        pending_start,
        transcribing_since: None,
        focus: None,
        recording_started: None,
        discard_requested: false,
        flash_since: None,
        start_sent: false,
        epoch: 0,
    }
}

fn engine_named(id: &str) -> (kind: ModelKind)
    ensures
        kind == engine_or_nemotron(id@),
{
    match kind_by_id(id) {
        Some(kind) => kind,
        None => ModelKind::Nemotron,
    }
}

impl AppRoot {
    fn start_s1_fetch(&mut self, engine: ModelKind, generation: u64) -> (actions: Vec<RootAction>)
        ensures
            (*final(self), views(actions@)) == old(self).fetching(engine, generation),
    {
        self.s1_in_flight = true;
        self.downloading = true;
        self.download_generation = generation;
        only(RootAction::FetchS1 { engine, generation })
    }

    /// Sees to the rewrite assets of a record engine. Whether recording has to wait for
    /// them.
    pub fn ensure_s1_chain(&mut self, record: ModelKind, disk: &Disk) -> (r: (
        bool,
        Vec<RootAction>,
    ))
        requires
            old(self).download_generation < u64::MAX,
        ensures
            r.0 == old(self).chain_blocks(record, *disk),
            (*final(self), views(r.1@)) == old(self).chained(record, *disk),
    {
        if self.s1_in_flight {
            return (true, nothing());
        }
        if self.s1_failed || !s1_chain_needed(record, disk) || !disk.cached(record) {
            return (false, nothing());
        }
        let generation: u64 = self.download_generation + 1;
        (true, self.start_s1_fetch(record, generation))
    }

    /// Closes the panel.
    pub fn close_panel_to_pill(&mut self, disk: &Disk) -> (actions: Vec<RootAction>)
        requires
            old(self).download_generation < u64::MAX,
        ensures
            (*final(self), views(actions@)) == old(self).closed(*disk),
    {
        match self.screen {
            Screen::Onboarding(origin) => {
                match self.dictation {
                    Some(d) => {
                        let mut d = d;
                        if origin == SetupOrigin::Settings {
                            d.cancel_pending_start();
                        }
                        self.dictation = Some(d);
                        self.screen = Screen::Dictation;
                        let mut actions = only(RootAction::HidePill);
                        if let Some(kind) = disk.record_engine {
                            if !self.downloading {
                                let (_, mut more) = self.ensure_s1_chain(kind, disk);
                                let ghost lead = actions@;
                                let ghost tail = more@;
                                actions.append(&mut more);
                                assert(views(actions@) =~= views(lead) + views(tail));
                            }
                        }
                        actions
                    },
                    None => only(RootAction::Quit),
                }
            },
            Screen::Dictation => only(RootAction::HidePill),
        }
    }

    /// Leaves setup with an engine: the choice is stored, the rewrite assets are seen
    /// to, and a worker is started or switched.
    pub fn finish_onboarding(&mut self, model: ModelKind, disk: &Disk) -> (actions: Vec<RootAction>)
        requires
            old(self).download_generation < u64::MAX,
        ensures
            (*final(self), views(actions@)) == old(self).finished(model, *disk),
    {
        let mut actions = only(RootAction::SaveEngine(model));
        let (blocked, mut more) = self.ensure_s1_chain(model, disk);
        if blocked {
            let ghost lead = actions@;
            let ghost tail = more@;
            actions.append(&mut more);
            assert(views(actions@) =~= views(lead) + views(tail));
            return actions;
        }
        if self.worker_live {
            if disk.cached(model) {
                put(&mut actions, RootAction::SwitchWorker { retire: self.has_worker });
                self.has_worker = true;
            }
        } else {
            if disk.nemotron_cached && disk.bench_due {
                put(&mut actions, RootAction::Bench);
            }
            put(&mut actions, RootAction::SpawnWorker);
            self.worker_live = true;
            self.has_worker = true;
            self.dictation = Some(Dictation::new(self.pending_start));
        }
        self.pending_start = false;
        self.screen = Screen::Dictation;
        put(&mut actions, RootAction::HidePill);
        assert(views(actions@) =~= old(self).finished(model, *disk).1);
        actions
    }

    /// The engine, and the rewrite assets where they belong to it, are there.
    pub fn engine_ready(&mut self, model: ModelKind, step_active: bool, disk: &Disk) -> (actions:
        Vec<RootAction>)
        requires
            old(self).download_generation < u64::MAX,
        ensures
            (*final(self), views(actions@)) == old(self).readied(model, step_active, *disk),
    {
        if let Screen::Onboarding(_) = self.screen {
            if step_active {
                return only(RootAction::Panel(PanelCall::FinishedStep));
            }
        }
        self.finish_onboarding(model, disk)
    }

    fn tell_panel(&self, call: PanelCall) -> (actions: Vec<RootAction>)
        ensures
            views(actions@) == self.told_panel(call),
    {
        match self.screen {
            Screen::Onboarding(_) => only(RootAction::Panel(call)),
            Screen::Dictation => nothing(),
        }
    }

    /// A download reported something.
    pub fn handle_download_message(
        &mut self,
        message: DownloadMessage,
        step_active: bool,
        disk: &Disk,
    ) -> (actions: Vec<RootAction>)
        requires
            old(self).download_generation < u64::MAX,
        ensures
            (*final(self), views(actions@)) == old(self).on_download(message, step_active, *disk),
    {
        match message {
            DownloadMessage::Progress { generation } => {
                if generation != self.download_generation {
                    return nothing();
                }
                self.tell_panel(PanelCall::Progress)
            },
            DownloadMessage::Finished { generation, engine } => {
                if generation != self.download_generation {
                    return nothing();
                }
                let chained = self.s1_in_flight;
                self.downloading = false;
                self.s1_in_flight = false;
                if !chained && s1_chain_needed(engine, disk) {
                    self.start_s1_fetch(engine, generation)
                } else {
                    self.engine_ready(engine, step_active, disk)
                }
            },
            DownloadMessage::Failed { generation } => {
                if generation != self.download_generation {
                    return nothing();
                }
                let chained = self.s1_in_flight;
                self.downloading = false;
                self.s1_in_flight = false;
                if chained {
                    self.s1_failed = true;
                    self.engine_ready(ModelKind::Moonshine, step_active, disk)
                } else {
                    self.tell_panel(PanelCall::Failed)
                }
            },
            DownloadMessage::Cancelled { generation } => {
                if generation != self.download_generation {
                    return nothing();
                }
                self.downloading = false;
                self.s1_in_flight = false;
                self.tell_panel(PanelCall::Cancelled)
            },
        }
    }

    fn release_worker(&mut self) -> (actions: Vec<RootAction>)
        ensures
            (*final(self), views(actions@)) == old(self).released(),
    {
        let live = self.worker_live;
        self.worker_live = false;
        if live && self.has_worker {
            only(RootAction::ShutdownWorker)
        } else {
            nothing()
        }
    }

    /// Starts the download of an engine.
    pub fn start_download(&mut self, captured_model: &str, purge: bool) -> (actions: Vec<RootAction>)
        requires
            old(self).download_generation < u64::MAX,
        ensures
            (*final(self), views(actions@)) == old(self).started(
                crate::asr::model::kind_of_id(captured_model@),
                purge,
            ),
    {
        let engine = match kind_by_id(captured_model) {
            Some(engine) => engine,
            None => {
                return nothing();
            },
        };
        let mut actions = if purge {
            self.release_worker()
        } else {
            nothing()
        };
        self.download_generation = self.download_generation + 1;
        self.s1_in_flight = false;
        self.s1_failed = false;
        self.downloading = true;
        put(
            &mut actions,
            RootAction::DownloadModel { engine, generation: self.download_generation, purge },
        );
        assert(views(actions@) =~= old(self).started(Some(engine), purge).1);
        actions
    }

    fn queue_dictation_start(&mut self, model_ready: bool) -> (actions: Vec<RootAction>)
        ensures
            (*final(self), views(actions@)) == old(self).queued(model_ready),
    {
        if model_ready || self.worker_live {
            self.pending_start = true;
            only(RootAction::Panel(PanelCall::QueueStart))
        } else {
            only(RootAction::Panel(PanelCall::Blocked))
        }
    }

    fn toggle(&mut self, now: u64, current: Foreground) -> (actions: Vec<RootAction>)
        ensures
            (*final(self), views(actions@)) == old(self).toggled(now, current),
    {
        match self.dictation {
            Some(d) => {
                let mut d = d;
                let effects = d.toggle_recording(now, current.window);
                self.dictation = Some(d);
                only(RootAction::Dictation(effects))
            },
            None => nothing(),
        }
    }

    fn discard(&mut self, now: u64) -> (actions: Vec<RootAction>)
        ensures
            (*final(self), views(actions@)) == old(self).discarded(now),
    {
        match self.dictation {
            Some(d) => {
                let mut d = d;
                let effects = d.discard_clicked(now);
                self.dictation = Some(d);
                only(RootAction::Dictation(effects))
            },
            None => nothing(),
        }
    }

    fn stop(&mut self, now: u64) -> (actions: Vec<RootAction>)
        ensures
            (*final(self), views(actions@)) == old(self).stopped(now),
    {
        match self.dictation {
            Some(d) => {
                let mut d = d;
                let effects = d.done_clicked(now);
                self.dictation = Some(d);
                only(RootAction::Dictation(effects))
            },
            None => nothing(),
        }
    }

    /// The worker reported something: the dictation hears of it, where there is one.
    pub fn handle_asr_event(&mut self, event: Event, now: u64, current: Foreground) -> (actions: Vec<
        RootAction,
    >)
        ensures
            match old(self).dictation {
                Some(d) => {
                    let (next, effects) = d.told(event@, now, current);
                    &&& *final(self) == (AppRoot { dictation: Some(next), ..*old(self) })
                    &&& views(actions@) == seq![RootActionView::Dictation(effects)]
                },
                None => *final(self) == *old(self) && actions@.len() == 0,
            },
    {
        match self.dictation {
            Some(d) => {
                let mut d = d;
                let effects = d.handle_asr_event(event, now, current);
                self.dictation = Some(d);
                only(RootAction::Dictation(effects))
            },
            None => Vec::new(),
        }
    }

    /// A key that the app reacts to from anywhere. `model_ready` is whether the model of
    /// the panel is complete.
    pub fn handle_hotkey(
        &mut self,
        message: HotkeyMessage,
        now: u64,
        current: Foreground,
        model_ready: bool,
        disk: &Disk,
    ) -> (actions: Vec<RootAction>)
        requires
            old(self).download_generation < u64::MAX,
        ensures
            (*final(self), views(actions@)) == old(self).keyed(
                message,
                now,
                current,
                model_ready,
                *disk,
            ),
    {
        match self.screen {
            Screen::Dictation => match self.dictation {
                Some(d) => {
                    let mut d = d;
                    let effects = d.handle_hotkey(message, now, current.window);
                    self.dictation = Some(d);
                    only(RootAction::Dictation(effects))
                },
                None => nothing(),
            },
            Screen::Onboarding(origin) => match message {
                HotkeyMessage::DebugReload => nothing(),
                HotkeyMessage::ToggleRecording => match origin {
                    SetupOrigin::Settings | SetupOrigin::Respawn => {
                        if self.dictation.is_none() {
                            return nothing();
                        }
                        let mut actions = self.close_panel_to_pill(disk);
                        let mut more = self.toggle(now, current);
                        let ghost lead = actions@;
                        let ghost tail = more@;
                        actions.append(&mut more);
                        assert(views(actions@) =~= views(lead) + views(tail));
                        actions
                    },
                    SetupOrigin::FirstRun | SetupOrigin::Recovery => self.queue_dictation_start(
                        model_ready,
                    ),
                },
            },
        }
    }

    /// Escape in the main window: discards a recording, or closes the settings.
    pub fn handle_escape(&mut self, now: u64, disk: &Disk) -> (actions: Vec<RootAction>)
        requires
            old(self).download_generation < u64::MAX,
        ensures
            (*final(self), views(actions@)) == old(self).escaped(now, *disk),
    {
        match self.screen {
            Screen::Dictation => self.discard(now),
            Screen::Onboarding(SetupOrigin::Settings) => self.close_panel_to_pill(disk),
            Screen::Onboarding(_) => nothing(),
        }
    }

    /// The sound that tells how pasting went, where there is a dictation.
    pub fn handle_paste_result(&self, result: PasteResult) -> (sound: Option<Sound>)
        ensures
            sound == (match self.dictation {
                Some(_) => Some(
                    match result {
                        PasteResult::Pasted(_) => Sound::Success,
                        PasteResult::Failed => Sound::Failure,
                    },
                ),
                None => None,
            }),
    {
        match self.dictation {
            Some(d) => Some(d.handle_paste_result(result)),
            None => None,
        }
    }

    /// Opens the settings.
    pub fn open_settings(&mut self, disk: &Disk) -> (actions: Vec<RootAction>)
        ensures
            (*final(self), views(actions@)) == old(self).opened(*disk),
    {
        if let Screen::Onboarding(_) = self.screen {
            return nothing();
        }
        if let Some(d) = self.dictation {
            let mut d = d;
            d.cancel_pending_start();
            self.dictation = Some(d);
        }
        self.screen = Screen::Onboarding(SetupOrigin::Settings);
        let model = match disk.record_engine {
            Some(kind) => kind,
            None => ModelKind::Moonshine,
        };
        let mut actions = only(RootAction::OpenPanel { origin: SetupOrigin::Settings, model });
        put(&mut actions, RootAction::ShowPanel);
        assert(views(actions@) =~= old(self).opened(*disk).1);
        actions
    }

    /// A message of the user interface. `model_ready` is whether the model of the panel
    /// is complete.
    pub fn handle_ui_message(
        &mut self,
        message: UiMessage,
        now: u64,
        current: Foreground,
        model_ready: bool,
        disk: &Disk,
    ) -> (actions: Vec<RootAction>)
        requires
            old(self).download_generation < u64::MAX,
        ensures
            (*final(self), views(actions@)) == old(self).on_ui(
                message,
                now,
                current,
                model_ready,
                *disk,
            ),
    {
        match message {
            UiMessage::OpenSettings => self.open_settings(disk),
            UiMessage::TrayToggleRecording => self.toggle(now, current),
            UiMessage::TraySetEnabled(on) => {
                let mut actions = only(RootAction::SaveTray(on));
                put(&mut actions, RootAction::Tray(TrayCommand::SetEnabled(on)));
                assert(views(actions@) =~= seq![
                    RootActionView::SaveTray(on),
                    RootActionView::Tray(TrayCommand::SetEnabled(on)),
                ]);
                actions
            },
            UiMessage::Quit => only(RootAction::Exit),
            UiMessage::PanelClosed => self.close_panel_to_pill(disk),
            UiMessage::StartDownload { captured_model, purge } => self.start_download(
                captured_model,
                purge,
            ),
            UiMessage::CancelDownload => if self.downloading {
                only(RootAction::CancelDownload)
            } else {
                nothing()
            },
            UiMessage::FinishOnboarding { captured_model } => self.finish_onboarding(
                engine_named(captured_model),
                disk,
            ),
            UiMessage::DeleteRequest { captured_model } => self.delete_model(
                captured_model,
                disk,
            ),
            UiMessage::ResetSetup { captured_model } => self.reset_setup(captured_model),
            UiMessage::DeleteFinished => self.tell_panel(PanelCall::DeleteFinished),
            UiMessage::RecheckBackend => only(RootAction::Recheck),
            UiMessage::BenchProgress => self.tell_panel(PanelCall::BenchProgress),
            UiMessage::BackendBenchFinished => self.tell_panel(PanelCall::BenchFinished),
            UiMessage::PillDiscard => self.discard(now),
            UiMessage::PillFinish => self.stop(now),
            UiMessage::QueueDictationStart => match self.screen {
                Screen::Onboarding(SetupOrigin::FirstRun | SetupOrigin::Recovery) =>
                    self.queue_dictation_start(model_ready),
                _ => nothing(),
            },
        }
    }

    /// Deletes the files of an engine, after the worker was told to end.
    pub fn delete_model(&mut self, captured_model: &str, disk: &Disk) -> (actions: Vec<RootAction>)
        ensures
            (*final(self), views(actions@)) == old(self).deleting(captured_model@, *disk),
    {
        if !disk.has_root {
            return nothing();
        }
        let mut actions = self.release_worker();
        put(&mut actions, RootAction::DeleteModel(engine_named(captured_model)));
        assert(views(actions@) =~= old(self).deleting(captured_model@, *disk).1);
        actions
    }

    /// Runs setup once more, with nothing stored.
    pub fn reset_setup(&mut self, captured_model: &str) -> (actions: Vec<RootAction>)
        ensures
            *final(self) == (AppRoot {
                screen: Screen::Onboarding(SetupOrigin::Respawn),
                ..*old(self)
            }),
            views(actions@) == seq![
                RootActionView::DeleteConfig,
                RootActionView::OpenPanel {
                    origin: SetupOrigin::Respawn,
                    model: engine_or_nemotron(captured_model@),
                },
            ],
    {
        self.screen = Screen::Onboarding(SetupOrigin::Respawn);
        let mut actions = only(RootAction::DeleteConfig);
        put(
            &mut actions,
            RootAction::OpenPanel {
                origin: SetupOrigin::Respawn,
                model: engine_named(captured_model),
            },
        );
        assert(views(actions@) =~= seq![
            RootActionView::DeleteConfig,
            RootActionView::OpenPanel {
                origin: SetupOrigin::Respawn,
                model: engine_or_nemotron(captured_model@),
            },
        ]);
        actions
    }
}

/// What becomes of captured audio.
#[derive(Clone, Copy, Debug, PartialEq, Eq, Structural)]
pub enum AudioRoute {
    /// The levels are shown and the audio goes to the worker.
    Recording,
    /// The levels are shown by the microphone check; the audio is dropped.
    MicCheck,
    /// The audio is dropped; levels, if any, stay.
    KeepLevels,
    /// Both are dropped.
    Drop,
}

impl AppRoot {
    /// The phase that decides on the microphone: none while a panel is up.
    pub open spec fn phase_shown(self) -> Option<Phase> {
        match (self.screen, self.dictation) {
            (Screen::Dictation, Some(d)) => Some(d.phase),
            _ => None,
        }
    }

    /// What becomes of captured audio.
    pub open spec fn route(self, mic_check_active: bool, has_levels: bool) -> AudioRoute {
        match self.screen {
            Screen::Dictation => if self.phase_shown() == Some(Phase::Recording) {
                AudioRoute::Recording
            } else {
                AudioRoute::Drop
            },
            Screen::Onboarding(_) => if mic_check_active && has_levels {
                AudioRoute::MicCheck
            } else {
                AudioRoute::KeepLevels
            },
        }
    }

    /// Sees to the microphone and to what it captured: whether it is to be captured,
    /// where the audio goes, and what the worker is sent. `chunks` are the sizes of the
    /// captured pieces; `mic_check_active` is whether the panel checks the microphone.
    pub fn pump_audio(&mut self, chunks: &[u64], has_levels: bool, mic_check_active: bool) -> (r: (
        bool,
        AudioRoute,
        Vec<Command>,
    ))
        ensures
            r.0 == crate::dictation::capturing(
                old(self).phase_shown(),
                old(self).screen is Onboarding && mic_check_active,
            ),
            r.1 == old(self).route(mic_check_active, has_levels),
            match old(self).dictation {
                Some(d) if r.1 == AudioRoute::Recording => {
                    let (next, commands) = d.forwarded(chunks@);
                    &&& *final(self) == (AppRoot { dictation: Some(next), ..*old(self) })
                    &&& r.2@ == commands
                },
                _ => *final(self) == *old(self) && r.2@.len() == 0,
            },
    {
        match self.screen {
            Screen::Dictation => {
                let phase = match self.dictation {
                    Some(d) => Some(d.phase),
                    None => None,
                };
                let capture = capture_wanted(phase, false);
                if let Some(d) = self.dictation {
                    if d.phase == Phase::Recording {
                        let mut d = d;
                        let commands = d.forward_audio(chunks);
                        self.dictation = Some(d);
                        return (capture, AudioRoute::Recording, commands);
                    }
                }
                (capture, AudioRoute::Drop, Vec::new())
            },
            Screen::Onboarding(_) => {
                let capture = capture_wanted(None, mic_check_active);
                if mic_check_active && has_levels {
                    (capture, AudioRoute::MicCheck, Vec::new())
                } else {
                    (capture, AudioRoute::KeepLevels, Vec::new())
                }
            },
        }
    }

    /// The app as it starts, and what it does first: the dictation where the engine for
    /// recordings is there, and else setup, for the first time or again.
    pub open spec fn begun(record: Option<ModelKind>, disk: Disk) -> (AppRoot, Seq<RootActionView>) {
        let ready = record is Some && disk.has(record->0);
        let bench = if disk.nemotron_cached && disk.bench_due {
            seq![RootActionView::Bench]
        } else {
            seq![]
        };
        (
            AppRoot {
                screen: match record {
                    Some(_) => if ready {
                        Screen::Dictation
                    } else {
                        Screen::Onboarding(SetupOrigin::Recovery)
                    },
                    None => Screen::Onboarding(SetupOrigin::FirstRun),
                },
                dictation: if ready {
                    Some(fresh_dictation(false))
                } else {
                    None
                },
                has_worker: ready,
                pending_start: false,
                download_generation: 0,
                downloading: false,
                worker_live: ready,
                s1_in_flight: false,
                s1_failed: false,
            },
            bench + match record {
                Some(kind) => if ready {
                    seq![RootActionView::SpawnWorker, RootActionView::HidePill]
                } else {
                    seq![
                        RootActionView::OpenPanel { origin: SetupOrigin::Recovery, model: kind },
                        RootActionView::ShowPanel,
                    ]
                },
                None => seq![
                    RootActionView::OpenPanel {
                        origin: SetupOrigin::FirstRun,
                        model: ModelKind::Nemotron,
                    },
                    RootActionView::ShowPanel,
                ],
            },
        )
    }

    /// The app as it starts: with a dictation if the configured engine is there, or else
    /// with a panel. `record` is the configured engine, if there is a configuration.
    pub fn start(record: Option<ModelKind>, disk: &Disk) -> (r: (AppRoot, Vec<RootAction>))
        ensures
            (r.0, views(r.1@)) == AppRoot::begun(record, *disk),
    {
        let mut actions = nothing();
        if disk.nemotron_cached && disk.bench_due {
            put(&mut actions, RootAction::Bench);
        }
        let mut root = AppRoot {
            screen: Screen::Onboarding(SetupOrigin::FirstRun),
            dictation: None,
            has_worker: false,
            pending_start: false,
            download_generation: 0,
            downloading: false,
            worker_live: false,
            s1_in_flight: false,
            s1_failed: false,
        };
        match record {
            Some(kind) => {
                if disk.cached(kind) {
                    root.screen = Screen::Dictation;
                    root.dictation = Some(Dictation::new(false));
                    root.has_worker = true;
                    root.worker_live = true;
                    put(&mut actions, RootAction::SpawnWorker);
                    put(&mut actions, RootAction::HidePill);
                } else {
                    root.screen = Screen::Onboarding(SetupOrigin::Recovery);
                    put(
                        &mut actions,
                        RootAction::OpenPanel { origin: SetupOrigin::Recovery, model: kind },
                    );
                    put(&mut actions, RootAction::ShowPanel);
                }
            },
            None => {
                put(
                    &mut actions,
                    RootAction::OpenPanel {
                        origin: SetupOrigin::FirstRun,
                        model: ModelKind::Nemotron,
                    },
                );
                put(&mut actions, RootAction::ShowPanel);
            },
        }
        (root, actions)
    }
}

/// The configuration that stands in for a lost one: a complete model is enough.
pub fn recovered_config(nemotron_cached: bool) -> (config: Option<AppConfig>)
    ensures
        match config {
            Some(config) => nemotron_cached && config@ == (crate::config::ConfigView {
                model: "nemotron"@,
                tray_enabled: true,
                ..crate::config::default_config()
            }),
            None => !nemotron_cached,
        },
{
    if !nemotron_cached {
        return None;
    }
    let mut config = AppConfig::default();
    config.model = crate::text::owned(ModelKind::Nemotron.id());
    config.tray_enabled = true;
    Some(config)
}

/// The engine under this id, or the one under the legacy id, or else `other`.
pub open spec fn engine_or(id: Seq<char>, legacy: Seq<char>, other: ModelKind) -> ModelKind {
    match crate::asr::model::kind_of_id(id) {
        Some(kind) => kind,
        None => match crate::asr::model::kind_of_id(legacy) {
            Some(kind) => kind,
            None => other,
        },
    }
}

fn engine_of(id: &str, legacy: &str, other: ModelKind) -> (kind: ModelKind)
    ensures
        kind == engine_or(id@, legacy@, other),
{
    match kind_by_id(id) {
        Some(kind) => kind,
        None => match kind_by_id(legacy) {
            Some(kind) => kind,
            None => other,
        },
    }
}

/// The engine for recordings that a configuration selects.
pub open spec fn record_engine_of(config: crate::config::ConfigView) -> ModelKind {
    engine_or(config.record_model, config.model, ModelKind::Moonshine)
}

/// The engine for live mode.
pub open spec fn live_engine_of(config: crate::config::ConfigView) -> ModelKind {
    engine_or(config.live_model, config.model, ModelKind::Nemotron)
}

/// The provider that was picked for this machine, if any.
pub open spec fn provider_of(config: crate::config::ConfigView) -> Option<Seq<char>> {
    if config.backend_cache.asr.provider.len() > 0 {
        Some(config.backend_cache.asr.provider)
    } else {
        None
    }
}

/// The number of threads of the recogniser.
pub open spec fn threads_of(config: crate::config::ConfigView) -> i32 {
    if config.backend_cache.asr.threads > 0 {
        config.backend_cache.asr.threads
    } else {
        2
    }
}

/// The number of threads of the rewrite pass.
pub open spec fn rewrite_threads_of(config: crate::config::ConfigView) -> i32 {
    if config.backend_cache.asr.threads > 2 {
        config.backend_cache.asr.threads
    } else {
        2
    }
}

/// The backend that was picked is used as it is: its provider wherever one was picked, and
/// its threads, at least one for the recogniser and two for the rewrite pass; two threads
/// where none were picked.
pub proof fn picked_backends_are_used(config: crate::config::ConfigView)
    ensures
        ({
            let asr = config.backend_cache.asr;
            &&& asr.provider.len() > 0 ==> provider_of(config) == Some(asr.provider)
            &&& asr.provider.len() == 0 ==> provider_of(config) is None
            &&& asr.threads >= 1 ==> threads_of(config) == asr.threads
            &&& asr.threads <= 0 ==> threads_of(config) == 2
            &&& asr.threads >= 2 ==> rewrite_threads_of(config) == asr.threads
            &&& asr.threads < 2 ==> rewrite_threads_of(config) == 2
        }),
{
}

/// A mode has the engine that its own setting names; where that names none, the one of the
/// old setting, and without both recordings have Moonshine and live mode Nemotron.
pub proof fn modes_have_the_engines_of_their_settings(config: crate::config::ConfigView)
    ensures
        config.record_model == "nemotron"@ ==> record_engine_of(config) == ModelKind::Nemotron,
        config.live_model == "nemotron"@ ==> live_engine_of(config) == ModelKind::Nemotron,
        config.record_model != "nemotron"@ && config.model == "nemotron"@ ==> record_engine_of(
            config,
        ) == ModelKind::Nemotron,
        config.record_model != "nemotron"@ && config.model != "nemotron"@ ==> record_engine_of(
            config,
        ) == ModelKind::Moonshine,
        live_engine_of(config) == ModelKind::Nemotron,
{
}

/// The selection of a configuration: unknown engines fall back to the legacy one, and
/// a stored backend counts as far as there is one. The configuration also says whether
/// usage may be recorded from now on.
pub fn selection_from_config(config: &AppConfig, telemetry: &mut Telemetry) -> (selection:
    ModelSelection)
    ensures
        final(telemetry).consented == config.telemetry_consent,
        selection.record_model == record_engine_of(config@),
        selection.live_model == live_engine_of(config@),
        crate::text::opt_text(selection.provider) == provider_of(config@),
        selection.threads == threads_of(config@),
        selection.rewrite_record == config.rewrite_record,
        selection.rewrite_threads == rewrite_threads_of(config@),
{
    telemetry.set_consent(config.telemetry_consent);
    let cached = &config.backend_cache.asr;
    let provider = if cached.provider.as_str().unicode_len() > 0 {
        Some(cached.provider.clone())
    } else {
        None
    };
    let model = config.model.as_str();
    ModelSelection {
        record_model: engine_of(config.record_model.as_str(), model, ModelKind::Moonshine),
        live_model: engine_of(config.live_model.as_str(), model, ModelKind::Nemotron),
        provider,
        threads: if cached.threads > 0 {
            cached.threads
        } else {
            2
        },
        rewrite_record: config.rewrite_record,
        rewrite_threads: if cached.threads > 2 {
            cached.threads
        } else {
            2
        },
    }
}

/// The message of a key: the record key and the reload key count when they go down.
pub fn hotkey_message(pressed: bool, id: u32, toggle_id: u32, debug_id: u32) -> (message: Option<
    HotkeyMessage,
>)
    ensures
        message == (if !pressed {
            None
        } else if id == toggle_id {
            Some(HotkeyMessage::ToggleRecording)
        } else if id == debug_id {
            Some(HotkeyMessage::DebugReload)
        } else {
            None
        }),
{
    if !pressed {
        None
    } else if id == toggle_id {
        Some(HotkeyMessage::ToggleRecording)
    } else if id == debug_id {
        Some(HotkeyMessage::DebugReload)
    } else {
        None
    }
}

/// The message of a button of the pill.
pub fn button_message(button: PillButton) -> (message: UiMessage)
    ensures
        message == (match button {
            PillButton::Discard => UiMessage::PillDiscard,
            PillButton::Finish => UiMessage::PillFinish,
            PillButton::OpenSettings => UiMessage::OpenSettings,
        }),
{
    match button {
        PillButton::Discard => UiMessage::PillDiscard,
        PillButton::Finish => UiMessage::PillFinish,
        PillButton::OpenSettings => UiMessage::OpenSettings,
    }
}

/// The main window: the one found earlier, or one with the title that belongs to this
/// process.
pub fn hwnd_resolved(known: Option<isize>, found: Option<isize>, own: bool) -> (hwnd: Option<isize>)
    ensures
        hwnd == (if known is Some {
            known
        } else if own {
            found
        } else {
            None
        }),
{
    match known {
        Some(hwnd) => Some(hwnd),
        None => if own {
            found
        } else {
            None
        },
    }
}

/// The title of the main window for the system.
pub fn window_title_utf16() -> (units: Vec<u16>)
    ensures
        units@ == crate::words::encoded(WINDOW_TITLE@).push(0),
{
    wide(WINDOW_TITLE)
}

/// The title of the panel for the system.
pub fn panel_title_utf16() -> (units: Vec<u16>)
    ensures
        units@ == crate::words::encoded(PANEL_TITLE@).push(0),
{
    wide(PANEL_TITLE)
}

/// Messages of a download that is not the last one change nothing.
pub proof fn stale_downloads_are_ignored(
    root: AppRoot,
    message: DownloadMessage,
    step_active: bool,
    disk: Disk,
)
    requires
        match message {
            DownloadMessage::Progress { generation } => generation != root.download_generation,
            DownloadMessage::Finished { generation, .. } => generation
                != root.download_generation,
            DownloadMessage::Failed { generation } => generation != root.download_generation,
            DownloadMessage::Cancelled { generation } => generation != root.download_generation,
        },
    ensures
        root.on_download(message, step_active, disk) == (root, Seq::<RootActionView>::empty()),
{
}

/// Whether the rewrite assets are fetched by one of the actions.
pub open spec fn fetches_s1(actions: Seq<RootActionView>) -> bool {
    exists|i: int| 0 <= i < actions.len() && (#[trigger] actions[i]) is FetchS1
}

/// After the rewrite assets could not be downloaded, nothing downloads them again
/// until an engine is downloaded anew: setup goes on without them.
pub proof fn failed_assets_are_not_fetched_again(
    root: AppRoot,
    message: UiMessage,
    key: HotkeyMessage,
    now: u64,
    current: Foreground,
    model_ready: bool,
    disk: Disk,
)
    requires
        root.s1_failed,
        !root.s1_in_flight,
    ensures
        !fetches_s1(root.on_ui(message, now, current, model_ready, disk).1),
        !fetches_s1(root.keyed(key, now, current, model_ready, disk).1),
        !fetches_s1(root.escaped(now, disk).1),
        !(message is StartDownload) ==> root.on_ui(
            message,
            now,
            current,
            model_ready,
            disk,
        ).0.s1_failed,
        root.keyed(key, now, current, model_ready, disk).0.s1_failed,
{
}

/// A failed download of the rewrite assets does not keep the app from recording: it
/// ends as a finished one does, with the engine alone.
pub proof fn failed_assets_do_not_block(root: AppRoot, step_active: bool, disk: Disk)
    requires
        root.s1_in_flight,
        !(root.screen is Onboarding && step_active),
    ensures
        ({
            let next = root.on_download(
                DownloadMessage::Failed { generation: root.download_generation },
                step_active,
                disk,
            ).0;
            next.screen == Screen::Dictation && next.worker_live && !next.downloading
        }),
{
}

/// Setup is left for the pill only once the rewrite assets are there, or not wanted,
/// or could not be had.
pub proof fn setup_waits_for_the_assets(root: AppRoot, model: ModelKind, disk: Disk)
    requires
        root.screen is Onboarding,
        !root.s1_failed,
        needs_s1(model, disk),
        disk.has(model),
    ensures
        root.finished(model, disk).0.screen == root.screen,
        root.finished(model, disk).0.s1_in_flight,
        root.finished(model, disk).0.worker_live == root.worker_live,
{
}

/// The engine that setup picks is the one that recordings are made with.
pub proof fn setup_selects_the_picked_engine(existing: Option<AppConfig>, model: ModelKind)
    ensures
        record_engine_of(crate::config::onboarded(existing, model)) == model,
{
    reveal_strlit("nemotron");
    reveal_strlit("moonshine");
    assert("nemotron"@[0] != "moonshine"@[0]);
}

/// A record key never starts a recording while setup has nothing to record with.
pub proof fn setup_does_not_record(
    root: AppRoot,
    key: HotkeyMessage,
    now: u64,
    current: Foreground,
    model_ready: bool,
    disk: Disk,
)
    requires
        root.screen == Screen::Onboarding(SetupOrigin::FirstRun) || root.screen
            == Screen::Onboarding(SetupOrigin::Recovery),
    ensures
        root.keyed(key, now, current, model_ready, disk).0.dictation == root.dictation,
        root.keyed(key, now, current, model_ready, disk).0.pending_start ==> root.pending_start
            || model_ready || root.worker_live,
{
}

/// The files of a loaded model are not removed before the worker was told to end.
pub proof fn loaded_models_are_released_first(
    root: AppRoot,
    id: Seq<char>,
    engine: ModelKind,
    disk: Disk,
)
    requires
        root.worker_live,
        root.has_worker,
        disk.has_root,
    ensures
        root.deleting(id, disk).1 == seq![
            RootActionView::ShutdownWorker,
            RootActionView::DeleteModel(engine_or_nemotron(id)),
        ],
        root.started(Some(engine), true).1 == seq![
            RootActionView::ShutdownWorker,
            RootActionView::DownloadModel {
                engine,
                generation: (root.download_generation + 1) as u64,
                purge: true,
            },
        ],
{
    assert(root.deleting(id, disk).1 =~= seq![
        RootActionView::ShutdownWorker,
        RootActionView::DeleteModel(engine_or_nemotron(id)),
    ]);
    assert(root.started(Some(engine), true).1 =~= seq![
        RootActionView::ShutdownWorker,
        RootActionView::DownloadModel {
            engine,
            generation: (root.download_generation + 1) as u64,
            purge: true,
        },
    ]);
}

/// The app is never without a dictation while no panel is up, and never has a live
/// worker without a channel to it.
pub open spec fn sound(root: AppRoot) -> bool {
    &&& root.screen == Screen::Dictation ==> root.dictation is Some
    &&& root.worker_live ==> root.has_worker && root.dictation is Some
}

/// Every message keeps the app sound.
pub proof fn the_app_stays_sound(
    root: AppRoot,
    message: UiMessage,
    key: HotkeyMessage,
    download: DownloadMessage,
    step_active: bool,
    now: u64,
    current: Foreground,
    model_ready: bool,
    disk: Disk,
)
    requires
        sound(root),
    ensures
        sound(root.on_ui(message, now, current, model_ready, disk).0),
        sound(root.keyed(key, now, current, model_ready, disk).0),
        sound(root.escaped(now, disk).0),
        sound(root.on_download(download, step_active, disk).0),
{
}

/// While the dictation is up, the record key, the tray and the buttons of the pill go to
/// it, and what it asks for is done; nothing else of the app changes.
pub proof fn the_dictation_gets_keys_and_buttons(
    root: AppRoot,
    d: Dictation,
    key: HotkeyMessage,
    now: u64,
    current: Foreground,
    model_ready: bool,
    disk: Disk,
)
    requires
        root.screen == Screen::Dictation,
        root.dictation == Some(d),
    ensures
        root.keyed(key, now, current, model_ready, disk) == (
            AppRoot { dictation: Some(d.keyed(key, now, current.window).0), ..root },
            seq![RootActionView::Dictation(d.keyed(key, now, current.window).1)],
        ),
        root.on_ui(UiMessage::TrayToggleRecording, now, current, model_ready, disk) == root.keyed(
            HotkeyMessage::ToggleRecording,
            now,
            current,
            model_ready,
            disk,
        ),
        root.escaped(now, disk) == (
            AppRoot { dictation: Some(d.discarded(now).0), ..root },
            seq![RootActionView::Dictation(d.discarded(now).1)],
        ),
        root.on_ui(UiMessage::PillDiscard, now, current, model_ready, disk) == root.escaped(
            now,
            disk,
        ),
        root.on_ui(UiMessage::PillFinish, now, current, model_ready, disk) == (
            AppRoot { dictation: Some(d.finished(now).0), ..root },
            seq![RootActionView::Dictation(d.finished(now).1)],
        ),
{
}

/// The record key closes the settings and begins a recording; during setup it is kept for
/// later where an engine is there, and the panel says so, or that there is none.
pub proof fn the_record_key_leaves_the_settings(
    root: AppRoot,
    d: Dictation,
    now: u64,
    current: Foreground,
    model_ready: bool,
    disk: Disk,
)
    ensures
        root.screen == Screen::Onboarding(SetupOrigin::Settings) && root.dictation == Some(d)
            && d.phase == Phase::Idle ==> {
            let (next, actions) = root.keyed(
                HotkeyMessage::ToggleRecording,
                now,
                current,
                model_ready,
                disk,
            );
            &&& next.screen == Screen::Dictation
            &&& next.dictation matches Some(n) && n.phase == Phase::Recording && n.focus
                == current.window
            &&& actions[0] == RootActionView::HidePill
            &&& actions.last() matches RootActionView::Dictation(effects) && effects.contains(
                crate::dictation::EffectView::Play(Sound::Start),
            )
        },
        root.screen == Screen::Onboarding(SetupOrigin::FirstRun) || root.screen
            == Screen::Onboarding(SetupOrigin::Recovery) ==> {
            let (next, actions) = root.keyed(
                HotkeyMessage::ToggleRecording,
                now,
                current,
                model_ready,
                disk,
            );
            let queues = model_ready || root.worker_live;
            &&& next == (AppRoot { pending_start: root.pending_start || queues, ..root })
            &&& actions == seq![
                RootActionView::Panel(
                    if queues {
                        PanelCall::QueueStart
                    } else {
                        PanelCall::Blocked
                    },
                ),
            ]
        },
{
    if root.screen == Screen::Onboarding(SetupOrigin::Settings) && root.dictation == Some(d)
        && d.phase == Phase::Idle {
        let (idle, shown) = root.closed(disk);
        let (next, started) = idle.toggled(now, current);
        let effects = idle.dictation->0.toggled(now, current.window).1;
        assert(effects[1] == crate::dictation::EffectView::Play(Sound::Start));
        assert((shown + started).last() == RootActionView::Dictation(effects));
        assert((shown + started)[0] == shown[0]);
    }
}

/// Escape closes the settings and is ignored during setup; closing the panel goes back to
/// the dictation where there is one, and else ends the app.
pub proof fn panels_close_to_the_dictation(
    root: AppRoot,
    origin: SetupOrigin,
    now: u64,
    current: Foreground,
    model_ready: bool,
    disk: Disk,
)
    requires
        root.screen == Screen::Onboarding(origin),
    ensures
        ({
            let (next, actions) = root.on_ui(
                UiMessage::PanelClosed,
                now,
                current,
                model_ready,
                disk,
            );
            &&& root.dictation is None ==> next == root && actions == seq![RootActionView::Quit]
            &&& root.dictation matches Some(d) ==> {
                &&& next.screen == Screen::Dictation
                &&& next.dictation matches Some(n) && n.phase == d.phase && n.epoch == d.epoch
                &&& actions[0] == RootActionView::HidePill
                &&& next.worker_live == root.worker_live && next.has_worker == root.has_worker
            }
            &&& origin == SetupOrigin::Settings ==> root.escaped(now, disk) == (next, actions)
            &&& origin != SetupOrigin::Settings ==> root.escaped(now, disk) == (
                root,
                Seq::<RootActionView>::empty(),
            )
        }),
{
}

/// A download that is asked for gets a number that no earlier one has, and is begun for the
/// engine that was asked for; one for an unknown engine is not begun. It is cancelled only
/// while it runs.
pub proof fn downloads_are_begun_with_new_numbers(
    root: AppRoot,
    purge: bool,
    now: u64,
    current: Foreground,
    model_ready: bool,
    disk: Disk,
)
    requires
        root.download_generation < u64::MAX,
    ensures
        ({
            let (next, actions) = root.started(Some(ModelKind::Nemotron), purge);
            let cancel = root.on_ui(UiMessage::CancelDownload, now, current, model_ready, disk);
            &&& next.download_generation == root.download_generation + 1
            &&& next.downloading && !next.s1_in_flight && !next.s1_failed
            &&& actions.last() == (RootActionView::DownloadModel {
                engine: ModelKind::Nemotron,
                generation: next.download_generation,
                purge,
            })
            &&& !purge ==> actions.len() == 1 && next.worker_live == root.worker_live
            &&& root.started(None, purge) == (root, Seq::<RootActionView>::empty())
            &&& cancel.0 == root
            &&& root.downloading ==> cancel.1 == seq![RootActionView::CancelDownload]
            &&& !root.downloading ==> cancel.1.len() == 0
        }),
{
}

/// A download that is finished leads on: to the assets of the rewrite pass, under the same
/// number, where they are needed and are not what was fetched; to the next page of setup
/// while that is up; and else to the engine, which is saved first and then run.
pub proof fn finished_downloads_lead_on(
    root: AppRoot,
    engine: ModelKind,
    step_active: bool,
    disk: Disk,
)
    ensures
        ({
            let (next, actions) = root.on_download(
                DownloadMessage::Finished { generation: root.download_generation, engine },
                step_active,
                disk,
            );
            let assets = engine == ModelKind::Moonshine && disk.rewrite_record && !(disk.s1_model
                && disk.s1_runner);
            let page = root.screen is Onboarding && step_active;
            &&& assets && !root.s1_in_flight ==> {
                &&& actions == seq![
                    RootActionView::FetchS1 { engine, generation: root.download_generation },
                ]
                &&& next.downloading && next.s1_in_flight
                &&& next.download_generation == root.download_generation
                &&& next.screen == root.screen
            }
            &&& !assets && page ==> {
                &&& actions == seq![RootActionView::Panel(PanelCall::FinishedStep)]
                &&& next.screen == root.screen
                &&& !next.downloading && !next.s1_in_flight
            }
            &&& !assets && !page ==> {
                &&& actions[0] == RootActionView::SaveEngine(engine)
                &&& next.screen == Screen::Dictation
                &&& next.worker_live && !next.downloading && !next.s1_in_flight
                &&& !next.pending_start
                &&& !root.worker_live ==> actions.contains(RootActionView::SpawnWorker)
                    && next.has_worker && (next.dictation matches Some(d) && d.phase
                    == Phase::Loading && d.pending_start == root.pending_start)
                &&& !root.worker_live ==> (actions[1] == RootActionView::Bench
                    <==> disk.nemotron_cached && disk.bench_due)
                &&& root.worker_live && disk.has(engine) ==> actions.contains(
                    RootActionView::SwitchWorker { retire: root.has_worker },
                ) && next.dictation == root.dictation
            }
        }),
{
    let (next, actions) = root.on_download(
        DownloadMessage::Finished { generation: root.download_generation, engine },
        step_active,
        disk,
    );
    let assets = engine == ModelKind::Moonshine && disk.rewrite_record && !(disk.s1_model
        && disk.s1_runner);
    if !assets && !(root.screen is Onboarding && step_active) {
        assert(actions[0] == RootActionView::SaveEngine(engine));
        if root.worker_live {
            if disk.has(engine) {
                assert(actions[1] == (RootActionView::SwitchWorker { retire: root.has_worker }));
            }
        } else {
            assert(actions[actions.len() - 2] == RootActionView::SpawnWorker);
        }
    }
}

/// A download that failed or was cancelled is over, and the panel that is up is told; the
/// rest of the app stays. How far one has come is told while it runs.
pub proof fn failed_downloads_are_told(root: AppRoot, step_active: bool, disk: Disk)
    ensures
        ({
            let generation = root.download_generation;
            let failed = root.on_download(
                DownloadMessage::Failed { generation },
                step_active,
                disk,
            );
            let cancelled = root.on_download(
                DownloadMessage::Cancelled { generation },
                step_active,
                disk,
            );
            let progress = root.on_download(
                DownloadMessage::Progress { generation },
                step_active,
                disk,
            );
            let over = AppRoot { downloading: false, s1_in_flight: false, ..root };
            &&& !root.s1_in_flight ==> failed.0 == over
            &&& cancelled.0 == over && progress.0 == root
            &&& root.screen is Onboarding ==> {
                &&& !root.s1_in_flight ==> failed.1 == seq![
                    RootActionView::Panel(PanelCall::Failed),
                ]
                &&& cancelled.1 == seq![RootActionView::Panel(PanelCall::Cancelled)]
                &&& progress.1 == seq![RootActionView::Panel(PanelCall::Progress)]
            }
        }),
{
}

/// The settings open from the dictation, for the engine of recordings, and drop a start
/// that was kept; the other messages of the panel and the tray do what they name.
pub proof fn messages_do_what_they_name(
    root: AppRoot,
    on: bool,
    now: u64,
    current: Foreground,
    model_ready: bool,
    disk: Disk,
)
    ensures
        root.screen == Screen::Dictation ==> {
            let (next, actions) = root.on_ui(
                UiMessage::OpenSettings,
                now,
                current,
                model_ready,
                disk,
            );
            &&& next.screen == Screen::Onboarding(SetupOrigin::Settings)
            &&& next.dictation matches Some(d) ==> !d.pending_start
            &&& root.dictation is Some <==> next.dictation is Some
            &&& actions[0] == (RootActionView::OpenPanel {
                origin: SetupOrigin::Settings,
                model: match disk.record_engine {
                    Some(kind) => kind,
                    None => ModelKind::Moonshine,
                },
            })
            &&& actions[1] == RootActionView::ShowPanel
        },
        root.on_ui(UiMessage::TraySetEnabled(on), now, current, model_ready, disk) == (
            root,
            seq![
                RootActionView::SaveTray(on),
                RootActionView::Tray(TrayCommand::SetEnabled(on)),
            ],
        ),
        root.on_ui(UiMessage::Quit, now, current, model_ready, disk) == (
            root,
            seq![RootActionView::Exit],
        ),
        root.on_ui(UiMessage::RecheckBackend, now, current, model_ready, disk) == (
            root,
            seq![RootActionView::Recheck],
        ),
{
}

/// The app starts with the dictation where the engine for recordings is on disk, and with
/// setup where it is not: for that engine, or for the first time where none was chosen.
/// The backends are measured first where that is due and possible.
pub proof fn the_app_starts_where_its_engine_is(record: Option<ModelKind>, disk: Disk)
    ensures
        ({
            let (root, actions) = AppRoot::begun(record, disk);
            let ready = record matches Some(kind) && match kind {
                ModelKind::Nemotron => disk.nemotron_cached,
                ModelKind::Moonshine => disk.moonshine_cached,
            };
            &&& disk.nemotron_cached && disk.bench_due <==> actions[0] == RootActionView::Bench
            &&& ready ==> {
                &&& root.screen == Screen::Dictation && root.worker_live && root.has_worker
                &&& root.dictation matches Some(d) && d.phase == Phase::Loading
                    && !d.pending_start
                &&& actions.contains(RootActionView::SpawnWorker)
            }
            &&& !ready ==> {
                &&& root.dictation is None && !root.worker_live && !root.has_worker
                &&& actions.last() == RootActionView::ShowPanel
                &&& record matches Some(kind) ==> root.screen == Screen::Onboarding(
                    SetupOrigin::Recovery,
                ) && actions.contains(
                    RootActionView::OpenPanel { origin: SetupOrigin::Recovery, model: kind },
                )
                &&& record is None ==> root.screen == Screen::Onboarding(SetupOrigin::FirstRun)
                    && actions.contains(
                    RootActionView::OpenPanel {
                        origin: SetupOrigin::FirstRun,
                        model: ModelKind::Nemotron,
                    },
                )
            }
            &&& !root.downloading && !root.s1_in_flight && !root.s1_failed && !root.pending_start
        }),
{
    let (root, actions) = AppRoot::begun(record, disk);
    let n = actions.len();
    assert(actions[n - 2] == actions[n - 2]);
    assert(actions[n - 1] == actions[n - 1]);
}

/// Captured audio goes to the recording while one runs, and its levels to the microphone
/// check while that is up; all else is dropped, but for levels that setup has still to
/// show.
pub proof fn audio_goes_where_it_is_wanted(root: AppRoot, mic_check_active: bool, has_levels: bool)
    ensures
        root.route(mic_check_active, has_levels) == AudioRoute::Recording <==> root.screen
            == Screen::Dictation && (root.dictation matches Some(d) && d.phase
            == Phase::Recording),
        root.route(mic_check_active, has_levels) == AudioRoute::MicCheck <==> root.screen
            is Onboarding && mic_check_active && has_levels,
        root.route(mic_check_active, has_levels) == AudioRoute::Drop <==> root.screen
            == Screen::Dictation && !(root.dictation matches Some(d) && d.phase
            == Phase::Recording),
{
}

/// The rewrite pass needs its assets fetched exactly for Moonshine with the pass switched
/// on and one of them missing.
pub proof fn assets_are_needed_for_rewriting_only(engine: ModelKind, disk: Disk)
    ensures
        needs_s1(engine, disk) <==> engine == ModelKind::Moonshine && disk.rewrite_record && (
        !disk.s1_model || !disk.s1_runner),
{
}

/// The assets of the rewrite pass are fetched after setup where they are needed and the
/// engine for recordings is there, once: not while they are fetched, and not again where
/// that failed. What waits for them waits exactly as long.
pub proof fn missing_assets_are_fetched_once(root: AppRoot, record: ModelKind, disk: Disk)
    requires
        root.download_generation < u64::MAX,
    ensures
        ({
            let wanted = record == ModelKind::Moonshine && disk.rewrite_record && !(disk.s1_model
                && disk.s1_runner) && disk.moonshine_cached;
            let (next, actions) = root.chained(record, disk);
            let starts = wanted && !root.s1_in_flight && !root.s1_failed;
            &&& starts ==> actions == seq![
                RootActionView::FetchS1 {
                    engine: record,
                    generation: (root.download_generation + 1) as u64,
                },
            ] && next.s1_in_flight && next.downloading
            &&& !starts ==> next == root && actions.len() == 0
            &&& root.chain_blocks(record, disk) <==> root.s1_in_flight || starts
        }),
{
}

/// An engine that is there ends the page of setup that waits for it; else it is saved, and
/// setup ends where nothing is left to fetch.
pub proof fn engines_that_are_there_are_used(
    root: AppRoot,
    model: ModelKind,
    step_active: bool,
    disk: Disk,
)
    ensures
        root.screen is Onboarding && step_active ==> root.readied(model, step_active, disk) == (
            root,
            seq![RootActionView::Panel(PanelCall::FinishedStep)],
        ),
        !(root.screen is Onboarding && step_active) ==> {
            let (next, actions) = root.readied(model, step_active, disk);
            &&& actions[0] == RootActionView::SaveEngine(model)
            &&& root.chain_blocks(model, disk) ==> next.screen == root.screen
            &&& !root.chain_blocks(model, disk) ==> next.screen == Screen::Dictation
                && next.worker_live
        },
{
}

/// A paste is heard to have gone well or not, as long as there is a dictation.
pub proof fn pastes_are_heard(root: AppRoot, result: PasteResult, sound: Option<Sound>)
    requires
        call_ensures(AppRoot::handle_paste_result, (&root, result), sound),
    ensures
        sound is Some <==> root.dictation is Some,
        sound is Some ==> (sound->0 == Sound::Success <==> result is Pasted),
        sound is Some ==> (sound->0 == Sound::Failure <==> result is Failed),
{
}

/// The microphone is open while a recording runs or the check for it is up, and what is
/// captured goes to the recording, all of it.
pub proof fn recordings_get_what_is_captured()
    ensures
        forall|
            root: &mut AppRoot,
            chunks: &[u64],
            has_levels: bool,
            checking: bool,
            r: (bool, AudioRoute, Vec<Command>),
        | #[trigger]
            call_ensures(AppRoot::pump_audio, (root, chunks, has_levels, checking), r) ==> {
                let recording = root.screen == Screen::Dictation && root.dictation is Some
                    && root.dictation->0.phase == Phase::Recording;
                let listening = root.screen is Onboarding && checking;
                &&& r.0 <==> recording || listening
                &&& recording ==> r.2@ == root.dictation->0.forwarded(chunks@).1
                &&& recording ==> final(root).dictation == Some(
                    root.dictation->0.forwarded(chunks@).0,
                )
                &&& !recording ==> *final(root) == *root && r.2@.len() == 0
            },
{
}

/// A lost configuration is made anew where the model is still there, with that model.
pub proof fn lost_configurations_are_recovered(cached: bool, config: Option<AppConfig>)
    requires
        call_ensures(recovered_config, (cached,), config),
    ensures
        config is Some <==> cached,
        cached ==> config->0@.model == "nemotron"@ && config->0@.tray_enabled,
{
}

/// A key counts as it goes down, and does what it was set up for.
pub proof fn keys_do_what_they_were_set_up_for(
    pressed: bool,
    id: u32,
    toggle_id: u32,
    debug_id: u32,
    message: Option<HotkeyMessage>,
)
    requires
        toggle_id != debug_id,
        call_ensures(hotkey_message, (pressed, id, toggle_id, debug_id), message),
    ensures
        message == Some(HotkeyMessage::ToggleRecording) <==> pressed && id == toggle_id,
        message == Some(HotkeyMessage::DebugReload) <==> pressed && id == debug_id,
        message is Some ==> pressed && (id == toggle_id || id == debug_id),
{
}

/// A button of the pill asks for what it shows.
pub proof fn buttons_ask_for_what_they_show(button: PillButton, message: UiMessage)
    requires
        call_ensures(button_message, (button,), message),
    ensures
        message is PillDiscard <==> button == PillButton::Discard,
        message is PillFinish <==> button == PillButton::Finish,
        message is OpenSettings <==> button == PillButton::OpenSettings,
{
}

/// What is on disk is told for each engine on its own.
pub proof fn engines_are_found_on_disk(disk: Disk)
    ensures
        disk.has(ModelKind::Nemotron) <==> disk.nemotron_cached,
        disk.has(ModelKind::Moonshine) <==> disk.moonshine_cached,
{
}

} // verus!
