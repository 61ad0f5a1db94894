//! The recogniser worker as a state machine. The thread that owns the engine
//! reads one input at a time (a command while it serves, or the outcome of the
//! work it was asked to do) and performs the actions that `step` returns.
use crate::asr::fetch::{progress_text, DownloadProgress};
use crate::asr::model::{paths_matches_kind, ModelKind, ModelPaths};
use crate::asr::rewrite::RewriteResult;
use crate::asr::Mode;
use crate::text::{is_blank, joined, owned, same_text};
use vstd::prelude::*;

verus! {

/// The audio rate of a session, in samples per second.
pub const SESSION_SAMPLE_RATE: u64 = 16000;

/// What the worker is told to do.
#[derive(Clone, Copy, Debug, PartialEq, Eq, Structural)]
pub enum Command {
    /// Open a session for the recording `epoch`.
    Start { epoch: u64 },
    /// Close the session of the recording `epoch` and commit its text.
    Stop { epoch: u64 },
    /// Audio of the current session: the number of samples handed over.
    Chunk { samples: u64 },
    Shutdown,
    ReloadForDebug,
    SwitchMode(Mode),
}

/// Which engines the worker runs, and how.
#[derive(Debug)]
pub struct ModelSelection {
    /// Engine for record mode.
    pub record_model: ModelKind,
    /// Engine for live mode.
    pub live_model: ModelKind,
    /// Execution provider; `None` means the default (cpu).
    pub provider: Option<String>,
    /// Thread count for the recogniser.
    pub threads: i32,
    /// Whether record-mode transcripts run through the rewrite pass.
    pub rewrite_record: bool,
    /// Thread count for the rewrite pass.
    pub rewrite_threads: i32,
}

impl Default for ModelSelection {
    fn default() -> (selection: ModelSelection)
        ensures
            selection.record_model == ModelKind::Moonshine,
            selection.live_model == ModelKind::Nemotron,
            selection.provider is None,
            selection.threads == 2,
            selection.rewrite_record,
            selection.rewrite_threads == 2,
    {
        ModelSelection {
            record_model: ModelKind::Moonshine,
            live_model: ModelKind::Nemotron,
            provider: None,
            threads: 2,
            rewrite_record: true,
            rewrite_threads: 2,
        }
    }
}

/// A note on how far loading has come.
#[derive(Clone, Copy, Debug, PartialEq, Eq, Structural)]
pub enum LoadNote {
    CheckingModel(ModelKind),
    FetchFailed,
    LoadingRecognizer,
    LoadingEngine(ModelKind),
    LoadFailed,
}

impl LoadNote {
    /// The wording of the note.
    pub open spec fn wording(self) -> Seq<char> {
        match self {
            LoadNote::CheckingModel(kind) => "checking "@ + kind.display_text() + " model"@,
            LoadNote::FetchFailed => "model fetch failed"@,
            LoadNote::LoadingRecognizer => "loading recognizer"@,
            LoadNote::LoadingEngine(kind) => "loading "@ + kind.name_text() + " recognizer"@,
            LoadNote::LoadFailed => "load failed"@,
        }
    }

    /// The wording of the note.
    pub fn text(self) -> (text: String)
        ensures
            text@ == self.wording(),
    {
        match self {
            LoadNote::CheckingModel(kind) => joined(
                joined("checking ", kind.display_name()).as_str(),
                " model",
            ),
            LoadNote::FetchFailed => owned("model fetch failed"),
            LoadNote::LoadingRecognizer => owned("loading recognizer"),
            LoadNote::LoadingEngine(kind) => joined(
                joined("loading ", kind.name()).as_str(),
                " recognizer",
            ),
            LoadNote::LoadFailed => owned("load failed"),
        }
    }
}

/// What the worker reports.
#[derive(Debug)]
pub enum Event {
    LoadingProgress(String),
    Ready,
    ModelReady(Mode),
    Partial(String),
    /// The text of a recording, with the number of samples it was made from.
    Committed { text: String, samples: u64, epoch: u64, rewritten: bool },
}

/// An event as a mathematical value.
pub ghost enum EventView {
    LoadingProgress(Seq<char>),
    Ready,
    ModelReady(Mode),
    Partial(Seq<char>),
    Committed { text: Seq<char>, samples: u64, epoch: u64, rewritten: bool },
}

impl View for Event {
    type V = EventView;

    open spec fn view(&self) -> EventView {
        match *self {
            Event::LoadingProgress(text) => EventView::LoadingProgress(text@),
            Event::Ready => EventView::Ready,
            Event::ModelReady(mode) => EventView::ModelReady(mode),
            Event::Partial(text) => EventView::Partial(text@),
            Event::Committed { text, samples, epoch, rewritten } => EventView::Committed {
                text: text@,
                samples,
                epoch,
                rewritten,
            },
        }
    }
}

/// The engine that a mode wants.
pub open spec fn wanted_model(record: ModelKind, live: ModelKind, mode: Mode) -> ModelKind {
    match mode {
        Mode::Record => record,
        Mode::Live => live,
    }
}

/// The engine that a mode wants.
pub fn model_for_mode(record: ModelKind, live: ModelKind, mode: Mode) -> (kind: ModelKind)
    ensures
        kind == wanted_model(record, live, mode),
{
    match mode {
        Mode::Record => record,
        Mode::Live => live,
    }
}

/// Why a model is fetched and loaded.
#[derive(Clone, Copy, Debug, PartialEq, Eq, Structural)]
pub enum Purpose {
    /// The first load after the worker starts.
    Startup,
    /// A swap to the engine of another mode.
    Swap(Mode),
}

/// Why a session is closed.
#[derive(Clone, Copy, Debug, PartialEq, Eq, Structural)]
pub enum Closing {
    /// The recording ended.
    Stop,
    /// Another mode takes over, with another engine.
    Swap(Mode),
}

/// What the worker is waiting for.
#[derive(Debug)]
pub enum Stage {
    /// The files of an engine.
    Fetching { purpose: Purpose, kind: ModelKind },
    /// A recogniser made from files.
    Loading { purpose: Purpose, kind: ModelKind },
    /// The next command.
    Serving,
    /// The engine taking in audio.
    Feeding,
    /// The text of the closed session.
    Finalizing(Closing),
    /// The rewritten form of a text.
    Rewriting { raw: String },
    /// A recogniser made again from the same files.
    Reloading,
    /// Nothing: the worker has ended.
    Stopped,
}

/// How fetching the files of an engine went.
#[derive(Debug)]
pub enum Fetch {
    Found(ModelPaths),
    Cancelled,
    Failed,
}

/// One thing that happened to the worker.
#[derive(Debug)]
pub enum Input {
    Command(Command),
    /// The command channel was closed.
    Disconnected,
    /// The download of the files got on.
    Progress(DownloadProgress),
    Fetched(Fetch),
    /// The recogniser was made, and its files; or it was not made.
    Loaded(Option<ModelPaths>),
    /// The engine took in a chunk in so many nanoseconds.
    Fed { samples: u64, nanos: u64, partial: Option<String> },
    Finalized(String),
    /// The outcome of the rewrite pass, and how long it took in milliseconds.
    Rewritten { result: Option<RewriteResult>, wall_ms: u64 },
}

/// What the worker thread does next.
#[derive(Debug)]
pub enum Action {
    Send(Event),
    Fetch(ModelKind),
    Load(ModelPaths),
    Unload,
    /// The new recogniser replaces the old one.
    Install,
    StartSession,
    Feed { samples: u64 },
    Finalize,
    Rewrite { text: String, threads: i32 },
    /// The first engine is loaded: report which.
    ReportBackend { mode: Mode, kind: ModelKind },
    /// The rewrite pass was used: report what it cost.
    ReportRewrite { wall_ms: u64, in_tokens: u64, out_tokens: u64 },
    /// A session ended: report its totals.
    ReportSession { mode: Mode, samples: u64, feeds: u64, decode_nanos: u64 },
    Exit,
}

/// An action as a mathematical value.
pub ghost enum ActionView {
    Send(EventView),
    Fetch(ModelKind),
    Load(ModelPaths),
    Unload,
    Install,
    StartSession,
    Feed { samples: u64 },
    Finalize,
    Rewrite { text: Seq<char>, threads: i32 },
    ReportBackend { mode: Mode, kind: ModelKind },
    ReportRewrite { wall_ms: u64, in_tokens: u64, out_tokens: u64 },
    ReportSession { mode: Mode, samples: u64, feeds: u64, decode_nanos: u64 },
    Exit,
}

impl View for Action {
    type V = ActionView;

    open spec fn view(&self) -> ActionView {
        match *self {
            Action::Send(event) => ActionView::Send(event@),
            Action::Fetch(kind) => ActionView::Fetch(kind),
            Action::Load(paths) => ActionView::Load(paths),
            Action::Unload => ActionView::Unload,
            Action::Install => ActionView::Install,
            Action::StartSession => ActionView::StartSession,
            Action::Feed { samples } => ActionView::Feed { samples },
            Action::Finalize => ActionView::Finalize,
            Action::Rewrite { text, threads } => ActionView::Rewrite { text: text@, threads },
            Action::ReportBackend { mode, kind } => ActionView::ReportBackend { mode, kind },
            Action::ReportRewrite { wall_ms, in_tokens, out_tokens } => ActionView::ReportRewrite {
                wall_ms,
                in_tokens,
                out_tokens,
            },
            Action::ReportSession { mode, samples, feeds, decode_nanos } => {
                ActionView::ReportSession { mode, samples, feeds, decode_nanos }
            },
            Action::Exit => ActionView::Exit,
        }
    }
}

/// The actions of a list as mathematical values.
pub open spec fn views(actions: Seq<Action>) -> Seq<ActionView> {
    actions.map_values(|a: Action| a@)
}

/// The report of a note.
pub open spec fn noted(note: LoadNote) -> ActionView {
    ActionView::Send(EventView::LoadingProgress(note.wording()))
}

fn note_action(note: LoadNote) -> (action: Action)
    ensures
        action@ == noted(note),
{
    Action::Send(Event::LoadingProgress(note.text()))
}

/// What the worker is waiting for, as a mathematical value.
pub ghost enum StageView {
    Fetching { purpose: Purpose, kind: ModelKind },
    Loading { purpose: Purpose, kind: ModelKind },
    Serving,
    Feeding,
    Finalizing(Closing),
    Rewriting { raw: Seq<char> },
    Reloading,
    Stopped,
}

/// The worker's state.
#[derive(Debug)]
pub struct Worker {
    pub selection: ModelSelection,
    pub stage: Stage,
    pub mode: Mode,
    /// The engine that is taken to be resident.
    pub loaded: ModelKind,
    /// Whether a session is open.
    pub active: bool,
    /// The recording that the open session belongs to.
    pub epoch: u64,
    pub session_samples: u64,
    pub session_feeds: u64,
    pub decode_nanos: u64,
    /// The partial transcript sent last in this session.
    pub last_partial: String,
    /// The files of the resident engine.
    pub cached: Option<ModelPaths>,
}

/// The worker's state as a mathematical value.
pub ghost struct WorkerView {
    pub record_model: ModelKind,
    pub live_model: ModelKind,
    pub provider: Option<Seq<char>>,
    pub threads: i32,
    pub rewrite_record: bool,
    pub rewrite_threads: i32,
    pub stage: StageView,
    pub mode: Mode,
    pub loaded: ModelKind,
    pub active: bool,
    pub epoch: u64,
    pub session_samples: u64,
    pub session_feeds: u64,
    pub decode_nanos: u64,
    pub last_partial: Seq<char>,
    pub cached: Option<ModelPaths>,
}

impl View for Stage {
    type V = StageView;

    open spec fn view(&self) -> StageView {
        match *self {
            Stage::Fetching { purpose, kind } => StageView::Fetching { purpose, kind },
            Stage::Loading { purpose, kind } => StageView::Loading { purpose, kind },
            Stage::Serving => StageView::Serving,
            Stage::Feeding => StageView::Feeding,
            Stage::Finalizing(closing) => StageView::Finalizing(closing),
            Stage::Rewriting { raw } => StageView::Rewriting { raw: raw@ },
            Stage::Reloading => StageView::Reloading,
            Stage::Stopped => StageView::Stopped,
        }
    }
}

impl View for Worker {
    type V = WorkerView;

    open spec fn view(&self) -> WorkerView {
        WorkerView {
            record_model: self.selection.record_model,
            live_model: self.selection.live_model,
            provider: crate::text::opt_text(self.selection.provider),
            threads: self.selection.threads,
            rewrite_record: self.selection.rewrite_record,
            rewrite_threads: self.selection.rewrite_threads,
            stage: self.stage@,
            mode: self.mode,
            loaded: self.loaded,
            active: self.active,
            epoch: self.epoch,
            session_samples: self.session_samples,
            session_feeds: self.session_feeds,
            decode_nanos: self.decode_nanos,
            last_partial: self.last_partial@,
            cached: self.cached,
        }
    }
}

impl WorkerView {
    /// The engine that `mode` wants.
    pub open spec fn wanted(self, mode: Mode) -> ModelKind {
        wanted_model(self.record_model, self.live_model, mode)
    }

    /// The answer to the end of a session.
    pub open spec fn commit(self, text: Seq<char>, rewritten: bool) -> ActionView {
        ActionView::Send(
            EventView::Committed {
                text,
                samples: self.session_samples,
                epoch: self.epoch,
                rewritten,
            },
        )
    }

    /// The report on the session that has ended.
    pub open spec fn session_report(self) -> ActionView {
        ActionView::ReportSession {
            mode: self.mode,
            samples: self.session_samples,
            feeds: self.session_feeds,
            decode_nanos: self.decode_nanos,
        }
    }

    /// Going on to the engine of `target` once the old session is closed: its
    /// cached files are loaded if they are that engine's, or else fetched. The old
    /// engine is released before the new one is loaded.
    pub open spec fn swapping(self, target: Mode, sent: Seq<ActionView>) -> (
        WorkerView,
        Seq<ActionView>,
    ) {
        let kind = self.wanted(target);
        let purpose = Purpose::Swap(target);
        if self.cached is Some && (self.cached->0).kind() == kind {
            (
                WorkerView { stage: StageView::Loading { purpose, kind }, cached: None, ..self },
                sent + seq![
                    noted(LoadNote::LoadingEngine(kind)),
                    ActionView::Unload,
                    ActionView::Load(self.cached->0),
                ],
            )
        } else {
            (
                WorkerView { stage: StageView::Fetching { purpose, kind }, cached: None, ..self },
                sent + seq![
                    noted(LoadNote::CheckingModel(kind)),
                    ActionView::Fetch(kind),
                ],
            )
        }
    }

    /// How the worker answers a command.
    pub open spec fn on_command(self, command: Command) -> (WorkerView, Seq<ActionView>) {
        match command {
            Command::Start { epoch } => (
                WorkerView {
                    active: true,
                    epoch,
                    session_samples: 0,
                    session_feeds: 0,
                    decode_nanos: 0,
                    last_partial: Seq::empty(),
                    ..self
                },
                seq![ActionView::StartSession],
            ),
            Command::Chunk { samples } => if self.active {
                (
                    WorkerView { stage: StageView::Feeding, ..self },
                    seq![ActionView::Feed { samples }],
                )
            } else {
                (self, seq![])
            },
            Command::Stop { epoch } => if self.active {
                (
                    WorkerView {
                        active: false,
                        stage: StageView::Finalizing(Closing::Stop),
                        ..self
                    },
                    seq![ActionView::Finalize],
                )
            } else {
                (
                    self,
                    seq![
                        ActionView::Send(
                            EventView::Committed {
                                text: Seq::empty(),
                                samples: 0,
                                epoch,
                                rewritten: false,
                            },
                        ),
                    ],
                )
            },
            Command::ReloadForDebug => if self.cached is Some {
                (
                    WorkerView { stage: StageView::Reloading, cached: None, ..self },
                    seq![ActionView::Unload, ActionView::Load(self.cached->0)],
                )
            } else {
                (
                    WorkerView { stage: StageView::Stopped, ..self },
                    seq![ActionView::Unload, ActionView::Exit],
                )
            },
            Command::SwitchMode(target) => if self.wanted(target) == self.loaded {
                (
                    WorkerView { mode: target, ..self },
                    seq![ActionView::Send(EventView::ModelReady(target))],
                )
            } else if self.active {
                (
                    WorkerView {
                        active: false,
                        stage: StageView::Finalizing(Closing::Swap(target)),
                        ..self
                    },
                    seq![ActionView::Finalize],
                )
            } else {
                self.swapping(target, seq![])
            },
            Command::Shutdown => (
                WorkerView { stage: StageView::Stopped, ..self },
                seq![ActionView::Exit],
            ),
        }
    }

    /// How the worker goes on when the files of an engine came or did not come.
    pub open spec fn on_fetched(self, purpose: Purpose, kind: ModelKind, fetch: Fetch) -> (
        WorkerView,
        Seq<ActionView>,
    ) {
        let note = match fetch {
            Fetch::Failed => seq![
                noted(LoadNote::FetchFailed),
            ],
            _ => seq![],
        };
        match fetch {
            Fetch::Found(paths) => {
                let note = match purpose {
                    Purpose::Startup => LoadNote::LoadingRecognizer,
                    Purpose::Swap(_) => LoadNote::LoadingEngine(kind),
                };
                let told = seq![noted(note)];
                let released = match purpose {
                    Purpose::Startup => told,
                    Purpose::Swap(_) => told.push(ActionView::Unload),
                };
                (
                    WorkerView { stage: StageView::Loading { purpose, kind }, ..self },
                    released.push(ActionView::Load(paths)),
                )
            },
            _ => match purpose {
                Purpose::Startup => (
                    WorkerView { stage: StageView::Stopped, ..self },
                    note.push(ActionView::Exit),
                ),
                Purpose::Swap(target) => (
                    WorkerView { stage: StageView::Serving, mode: target, loaded: kind, ..self },
                    note,
                ),
            },
        }
    }

    /// How the worker goes on when a recogniser was made or not made.
    pub open spec fn on_loaded(self, purpose: Purpose, kind: ModelKind, made: Option<ModelPaths>)
        -> (WorkerView, Seq<ActionView>) {
        match (purpose, made) {
            (Purpose::Startup, Some(paths)) => (
                WorkerView {
                    stage: StageView::Serving,
                    loaded: kind,
                    cached: Some(paths),
                    ..self
                },
                seq![
                    ActionView::Install,
                    ActionView::ReportBackend { mode: self.mode, kind },
                    ActionView::Send(EventView::Ready),
                ],
            ),
            (Purpose::Startup, None) => (
                WorkerView { stage: StageView::Stopped, ..self },
                seq![
                    noted(LoadNote::LoadFailed),
                    ActionView::Exit,
                ],
            ),
            (Purpose::Swap(target), Some(paths)) => (
                WorkerView {
                    stage: StageView::Serving,
                    loaded: kind,
                    mode: target,
                    last_partial: Seq::empty(),
                    cached: Some(paths),
                    ..self
                },
                seq![ActionView::Install, ActionView::Send(EventView::ModelReady(target))],
            ),
            (Purpose::Swap(_), None) => (
                WorkerView { stage: StageView::Stopped, ..self },
                seq![ActionView::Exit],
            ),
        }
    }

    /// How the worker goes on when the engine took in audio.
    pub open spec fn on_fed(self, samples: u64, nanos: u64, partial: Option<Seq<char>>) -> (
        WorkerView,
        Seq<ActionView>,
    ) {
        let fed = WorkerView {
            stage: StageView::Serving,
            session_samples: (self.session_samples + samples) as u64,
            session_feeds: (self.session_feeds + 1) as u64,
            decode_nanos: (self.decode_nanos + nanos) as u64,
            ..self
        };
        match partial {
            Some(text) if self.mode == Mode::Live && text != self.last_partial => (
                WorkerView { last_partial: text, ..fed },
                seq![ActionView::Send(EventView::Partial(text))],
            ),
            _ => (fed, seq![]),
        }
    }

    /// How the worker goes on with the text of a closed session.
    pub open spec fn on_finalized(self, closing: Closing, text: Seq<char>) -> (
        WorkerView,
        Seq<ActionView>,
    ) {
        match closing {
            Closing::Swap(target) => self.swapping(target, seq![self.commit(text, false)]),
            Closing::Stop => if self.mode == Mode::Record && self.rewrite_record
                && !crate::text::blank(text) {
                (
                    WorkerView { stage: StageView::Rewriting { raw: text }, ..self },
                    seq![ActionView::Rewrite { text, threads: self.rewrite_threads }],
                )
            } else {
                (
                    WorkerView { stage: StageView::Serving, ..self },
                    seq![self.session_report(), self.commit(text, false)],
                )
            },
        }
    }

    /// How the worker goes on after the rewrite pass: the rewritten text is
    /// committed if it is usable, or else the raw text.
    pub open spec fn on_rewritten(self, raw: Seq<char>, result: Option<RewriteResult>, wall_ms: u64)
        -> (WorkerView, Seq<ActionView>) {
        let served = WorkerView { stage: StageView::Serving, ..self };
        match result {
            Some(result) if result.ok && result.text@.len() > 0 => (
                served,
                seq![
                    ActionView::ReportRewrite {
                        wall_ms,
                        in_tokens: result.in_tokens,
                        out_tokens: result.out_tokens,
                    },
                    self.session_report(),
                    self.commit(result.text@, true),
                ],
            ),
            _ => (served, seq![self.session_report(), self.commit(raw, false)]),
        }
    }

    /// The next state and what is done on the way, for every state and input.
    /// An input that the worker is not waiting for changes nothing.
    pub open spec fn after(self, input: Input) -> (WorkerView, Seq<ActionView>) {
        match (self.stage, input) {
            (StageView::Serving, Input::Command(command)) => self.on_command(command),
            (StageView::Serving, Input::Disconnected) => (
                WorkerView { stage: StageView::Stopped, ..self },
                seq![ActionView::Exit],
            ),
            (StageView::Fetching { kind, .. }, Input::Progress(progress)) => (
                self,
                seq![
                    ActionView::Send(
                        EventView::LoadingProgress(
                            crate::asr::fetch::progress_wording(kind.display_text(), progress),
                        ),
                    ),
                ],
            ),
            (StageView::Fetching { purpose, kind }, Input::Fetched(fetch)) => self.on_fetched(
                purpose,
                kind,
                fetch,
            ),
            (StageView::Loading { purpose, kind }, Input::Loaded(made)) => self.on_loaded(
                purpose,
                kind,
                made,
            ),
            (StageView::Reloading, Input::Loaded(made)) => match made {
                Some(paths) => (
                    WorkerView { stage: StageView::Serving, cached: Some(paths), ..self },
                    seq![ActionView::Install, ActionView::Send(EventView::Ready)],
                ),
                None => (
                    WorkerView { stage: StageView::Stopped, ..self },
                    seq![ActionView::Exit],
                ),
            },
            (StageView::Feeding, Input::Fed { samples, nanos, partial }) => self.on_fed(
                samples,
                nanos,
                crate::text::opt_text(partial),
            ),
            (StageView::Finalizing(closing), Input::Finalized(text)) => self.on_finalized(
                closing,
                text@,
            ),
            (StageView::Rewriting { raw }, Input::Rewritten { result, wall_ms }) =>
                self.on_rewritten(raw, result, wall_ms),
            _ => (self, seq![]),
        }
    }
}


impl Worker {
    /// A worker that has just started, and its first actions.
    pub fn new(selection: ModelSelection) -> (r: (Worker, Vec<Action>))
        ensures
            r.0.selection == selection,
            r.0@ == (WorkerView {
                record_model: selection.record_model,
                live_model: selection.live_model,
                provider: crate::text::opt_text(selection.provider),
                threads: selection.threads,
                rewrite_record: selection.rewrite_record,
                rewrite_threads: selection.rewrite_threads,
                stage: StageView::Fetching {
                    purpose: Purpose::Startup,
                    kind: selection.record_model,
                },
                mode: Mode::Record,
                loaded: selection.record_model,
                active: false,
                epoch: 0,
                session_samples: 0,
                session_feeds: 0,
                decode_nanos: 0,
                last_partial: Seq::empty(),
                cached: None,
            }),
            views(r.1@) == seq![
                noted(LoadNote::CheckingModel(selection.record_model)),
                ActionView::Fetch(selection.record_model),
            ],
    {
        let mode = Mode::Record;
        let kind = model_for_mode(selection.record_model, selection.live_model, mode);
        let actions = vec![
            note_action(LoadNote::CheckingModel(kind)),
            Action::Fetch(kind),
        ];
        let worker = Worker {
            selection,
            stage: Stage::Fetching { purpose: Purpose::Startup, kind },
            mode,
            loaded: kind,
            active: false,
            epoch: 0,
            session_samples: 0,
            session_feeds: 0,
            decode_nanos: 0,
            last_partial: String::new(),
            cached: None,
        };
        assert(views(actions@) =~= seq![
            noted(LoadNote::CheckingModel(selection.record_model)),
            ActionView::Fetch(selection.record_model),
        ]);
        (worker, actions)
    }

    fn swap(&mut self, target: Mode, sent: Vec<Action>) -> (actions: Vec<Action>)
        ensures
            final(self).selection == old(self).selection,
            (final(self)@, views(actions@)) == old(self)@.swapping(target, views(sent@)),
    {
        let mut actions = sent;
        let kind = model_for_mode(self.selection.record_model, self.selection.live_model, target);
        let purpose = Purpose::Swap(target);
        match self.cached.take() {
            Some(paths) => {
                if paths_matches_kind(&paths, kind) {
                    self.stage = Stage::Loading { purpose, kind };
                    actions.push(note_action(LoadNote::LoadingEngine(kind)));
                    actions.push(Action::Unload);
                    actions.push(Action::Load(paths));
                } else {
                    self.stage = Stage::Fetching { purpose, kind };
                    actions.push(note_action(LoadNote::CheckingModel(kind)));
                    actions.push(Action::Fetch(kind));
                }
            },
            None => {
                self.stage = Stage::Fetching { purpose, kind };
                actions.push(note_action(LoadNote::CheckingModel(kind)));
                actions.push(Action::Fetch(kind));
            },
        }
        assert(views(actions@) =~= old(self)@.swapping(target, views(sent@)).1);
        actions
    }

    fn commit(&self, text: String, rewritten: bool) -> (action: Action)
        ensures
            action@ == self@.commit(text@, rewritten),
    {
        Action::Send(
            Event::Committed {
                text,
                samples: self.session_samples,
                epoch: self.epoch,
                rewritten,
            },
        )
    }

    fn session_report(&self) -> (action: Action)
        ensures
            action@ == self@.session_report(),
    {
        Action::ReportSession {
            mode: self.mode,
            samples: self.session_samples,
            feeds: self.session_feeds,
            decode_nanos: self.decode_nanos,
        }
    }

    fn command(&mut self, command: Command) -> (actions: Vec<Action>)
        requires
            old(self).stage is Serving,
        ensures
            final(self).selection == old(self).selection,
            (final(self)@, views(actions@)) == old(self)@.on_command(command),
    {
        let mut actions: Vec<Action> = Vec::new();
        match command {
            Command::Start { epoch } => {
                self.active = true;
                self.epoch = epoch;
                self.session_samples = 0;
                self.session_feeds = 0;
                self.decode_nanos = 0;
                self.last_partial = String::new();
                actions.push(Action::StartSession);
            },
            Command::Chunk { samples } => {
                if self.active {
                    self.stage = Stage::Feeding;
                    actions.push(Action::Feed { samples });
                }
            },
            Command::Stop { epoch } => {
                if self.active {
                    self.active = false;
                    self.stage = Stage::Finalizing(Closing::Stop);
                    actions.push(Action::Finalize);
                } else {
                    actions.push(
                        Action::Send(
                            Event::Committed {
                                text: String::new(),
                                samples: 0,
                                epoch,
                                rewritten: false,
                            },
                        ),
                    );
                }
            },
            Command::ReloadForDebug => {
                actions.push(Action::Unload);
                match self.cached.take() {
                    Some(paths) => {
                        self.stage = Stage::Reloading;
                        actions.push(Action::Load(paths));
                    },
                    None => {
                        self.stage = Stage::Stopped;
                        actions.push(Action::Exit);
                    },
                }
            },
            Command::SwitchMode(target) => {
                let wanted = model_for_mode(
                    self.selection.record_model,
                    self.selection.live_model,
                    target,
                );
                if wanted == self.loaded {
                    self.mode = target;
                    actions.push(Action::Send(Event::ModelReady(target)));
                } else if self.active {
                    self.active = false;
                    self.stage = Stage::Finalizing(Closing::Swap(target));
                    actions.push(Action::Finalize);
                } else {
                    assert(views(actions@) =~= seq![]);
                    return self.swap(target, actions);
                }
            },
            Command::Shutdown => {
                self.stage = Stage::Stopped;
                actions.push(Action::Exit);
            },
        }
        assert(views(actions@) =~= old(self)@.on_command(command).1);
        actions
    }

    fn fetched(&mut self, purpose: Purpose, kind: ModelKind, fetch: Fetch) -> (actions: Vec<
        Action,
    >)
        ensures
            final(self).selection == old(self).selection,
            (final(self)@, views(actions@)) == old(self)@.on_fetched(purpose, kind, fetch),
    {
        let mut actions: Vec<Action> = Vec::new();
        match fetch {
            Fetch::Found(paths) => {
                let note = match purpose {
                    Purpose::Startup => LoadNote::LoadingRecognizer,
                    Purpose::Swap(_) => LoadNote::LoadingEngine(kind),
                };
                self.stage = Stage::Loading { purpose, kind };
                actions.push(note_action(note));
                if let Purpose::Swap(_) = purpose {
                    actions.push(Action::Unload);
                }
                actions.push(Action::Load(paths));
                assert(views(actions@) =~= old(self)@.on_fetched(purpose, kind, fetch).1);
                return actions;
            },
            Fetch::Failed => {
                actions.push(note_action(LoadNote::FetchFailed));
            },
            Fetch::Cancelled => {},
        }
        match purpose {
            Purpose::Startup => {
                self.stage = Stage::Stopped;
                actions.push(Action::Exit);
            },
            Purpose::Swap(target) => {
                self.stage = Stage::Serving;
                self.mode = target;
                self.loaded = kind;
            },
        }
        assert(views(actions@) =~= old(self)@.on_fetched(purpose, kind, fetch).1);
        actions
    }

    fn loaded(&mut self, purpose: Purpose, kind: ModelKind, made: Option<ModelPaths>) -> (actions:
        Vec<Action>)
        ensures
            final(self).selection == old(self).selection,
            (final(self)@, views(actions@)) == old(self)@.on_loaded(purpose, kind, made),
    {
        let mut actions: Vec<Action> = Vec::new();
        match (purpose, made) {
            (Purpose::Startup, Some(paths)) => {
                self.stage = Stage::Serving;
                self.loaded = kind;
                self.cached = Some(paths);
                actions.push(Action::Install);
                actions.push(Action::ReportBackend { mode: self.mode, kind });
                actions.push(Action::Send(Event::Ready));
            },
            (Purpose::Startup, None) => {
                self.stage = Stage::Stopped;
                actions.push(note_action(LoadNote::LoadFailed));
                actions.push(Action::Exit);
            },
            (Purpose::Swap(target), Some(paths)) => {
                self.stage = Stage::Serving;
                self.loaded = kind;
                self.mode = target;
                self.last_partial = String::new();
                self.cached = Some(paths);
                actions.push(Action::Install);
                actions.push(Action::Send(Event::ModelReady(target)));
            },
            (Purpose::Swap(_), None) => {
                self.stage = Stage::Stopped;
                actions.push(Action::Exit);
            },
        }
        assert(views(actions@) =~= old(self)@.on_loaded(purpose, kind, made).1);
        actions
    }

    fn fed(&mut self, samples: u64, nanos: u64, partial: Option<String>) -> (actions: Vec<Action>)
        requires
            old(self).session_samples + samples <= u64::MAX,
            old(self).session_feeds < u64::MAX,
            old(self).decode_nanos + nanos <= u64::MAX,
        ensures
            final(self).selection == old(self).selection,
            (final(self)@, views(actions@)) == old(self)@.on_fed(
                samples,
                nanos,
                crate::text::opt_text(partial),
            ),
    {
        let mut actions: Vec<Action> = Vec::new();
        self.stage = Stage::Serving;
        self.session_samples = self.session_samples + samples;
        self.session_feeds = self.session_feeds + 1;
        self.decode_nanos = self.decode_nanos + nanos;
        let ghost told = crate::text::opt_text(partial);
        if let Some(text) = partial {
            if self.mode == Mode::Live && !same_text(text.as_str(), self.last_partial.as_str()) {
                self.last_partial = text.clone();
                actions.push(Action::Send(Event::Partial(text)));
            }
        }
        assert(views(actions@) =~= old(self)@.on_fed(samples, nanos, told).1);
        actions
    }

    fn finalized(&mut self, closing: Closing, text: String) -> (actions: Vec<Action>)
        ensures
            final(self).selection == old(self).selection,
            (final(self)@, views(actions@)) == old(self)@.on_finalized(closing, text@),
    {
        match closing {
            Closing::Swap(target) => {
                let sent = vec![self.commit(text, false)];
                assert(views(sent@) =~= seq![self@.commit(text@, false)]);
                self.swap(target, sent)
            },
            Closing::Stop => {
                if self.mode == Mode::Record && self.selection.rewrite_record && !is_blank(
                    text.as_str(),
                ) {
                    self.stage = Stage::Rewriting { raw: text.clone() };
                    let actions = vec![
                        Action::Rewrite { text, threads: self.selection.rewrite_threads },
                    ];
                    assert(views(actions@) =~= old(self)@.on_finalized(closing, text@).1);
                    actions
                } else {
                    self.stage = Stage::Serving;
                    let actions = vec![self.session_report(), self.commit(text, false)];
                    assert(views(actions@) =~= old(self)@.on_finalized(closing, text@).1);
                    actions
                }
            },
        }
    }

    fn rewritten(&mut self, raw: String, result: Option<RewriteResult>, wall_ms: u64) -> (actions:
        Vec<Action>)
        ensures
            final(self).selection == old(self).selection,
            (final(self)@, views(actions@)) == old(self)@.on_rewritten(raw@, result, wall_ms),
    {
        self.stage = Stage::Serving;
        let ghost told = result;
        if let Some(result) = result {
            if result.ok && !result.text.as_str().is_empty() {
                let report = Action::ReportRewrite {
                    wall_ms,
                    in_tokens: result.in_tokens,
                    out_tokens: result.out_tokens,
                };
                let actions = vec![report, self.session_report(), self.commit(result.text, true)];
                assert(views(actions@) =~= old(self)@.on_rewritten(raw@, told, wall_ms).1);
                return actions;
            }
        }
        let actions = vec![self.session_report(), self.commit(raw, false)];
        assert(views(actions@) =~= old(self)@.on_rewritten(raw@, told, wall_ms).1);
        actions
    }

    /// Takes one input: moves to the next state and returns what the worker
    /// thread does, in order.
    pub fn step(&mut self, input: Input) -> (actions: Vec<Action>)
        requires
            input matches Input::Fed { samples, nanos, .. } ==> {
                &&& old(self).session_samples + samples <= u64::MAX
                &&& old(self).session_feeds < u64::MAX
                &&& old(self).decode_nanos + nanos <= u64::MAX
            },
            input matches Input::Progress(progress) ==> progress.done * 100 <= u64::MAX,
        ensures
            final(self).selection == old(self).selection,
            (final(self)@, views(actions@)) == old(self)@.after(input),
    {
        match (&self.stage, input) {
            (Stage::Serving, Input::Command(command)) => self.command(command),
            (Stage::Serving, Input::Disconnected) => {
                self.stage = Stage::Stopped;
                let actions = vec![Action::Exit];
                assert(views(actions@) =~= seq![ActionView::Exit]);
                actions
            },
            (Stage::Fetching { kind, .. }, Input::Progress(progress)) => {
                let text = progress_text(kind.display_name(), &progress);
                let actions = vec![Action::Send(Event::LoadingProgress(text))];
                assert(views(actions@) =~= old(self)@.after(input).1);
                actions
            },
            (Stage::Fetching { purpose, kind }, Input::Fetched(fetch)) => {
                let (purpose, kind) = (*purpose, *kind);
                self.fetched(purpose, kind, fetch)
            },
            (Stage::Loading { purpose, kind }, Input::Loaded(made)) => {
                let (purpose, kind) = (*purpose, *kind);
                self.loaded(purpose, kind, made)
            },
            (Stage::Reloading, Input::Loaded(made)) => {
                let mut actions: Vec<Action> = Vec::new();
                match made {
                    Some(paths) => {
                        self.stage = Stage::Serving;
                        self.cached = Some(paths);
                        actions.push(Action::Install);
                        actions.push(Action::Send(Event::Ready));
                    },
                    None => {
                        self.stage = Stage::Stopped;
                        actions.push(Action::Exit);
                    },
                }
                assert(views(actions@) =~= old(self)@.after(input).1);
                actions
            },
            (Stage::Feeding, Input::Fed { samples, nanos, partial }) => self.fed(
                samples,
                nanos,
                partial,
            ),
            (Stage::Finalizing(closing), Input::Finalized(text)) => {
                let closing = *closing;
                self.finalized(closing, text)
            },
            (Stage::Rewriting { raw }, Input::Rewritten { result, wall_ms }) => {
                let raw = raw.clone();
                self.rewritten(raw, result, wall_ms)
            },
            _ => {
                let actions: Vec<Action> = Vec::new();
                assert(views(actions@) =~= seq![]);
                actions
            },
        }
    }
}

/// Whether an action commits a text.
pub open spec fn is_commit(action: ActionView) -> bool {
    action matches ActionView::Send(EventView::Committed { .. })
}

/// How many texts a list of actions commits.
pub open spec fn commits(actions: Seq<ActionView>) -> nat
    decreases actions.len(),
{
    if actions.len() == 0 {
        0
    } else {
        commits(actions.drop_last()) + if is_commit(actions.last()) {
            1nat
        } else {
            0
        }
    }
}

/// Every Stop is answered by exactly one committed text, after which the worker
/// serves again: at once where no session is open, or else once the text of the
/// session came and, where the rewrite pass is asked for, the outcome of that.
/// The answer names the recording it belongs to.
pub proof fn every_stop_is_answered(
    worker: WorkerView,
    epoch: u64,
    text: String,
    result: Option<RewriteResult>,
    wall_ms: u64,
)
    requires
        worker.stage is Serving,
    ensures
        ({
            let (closed, sent) = worker.after(Input::Command(Command::Stop { epoch }));
            let (done, committed) = closed.after(Input::Finalized(text));
            let (last, rewritten) = done.after(Input::Rewritten { result, wall_ms });
            if !worker.active {
                &&& closed == worker
                &&& sent == seq![
                    ActionView::Send(
                        EventView::Committed {
                            text: Seq::empty(),
                            samples: 0,
                            epoch,
                            rewritten: false,
                        },
                    ),
                ]
            } else if done.stage is Rewriting {
                &&& commits(sent) + commits(committed) == 0
                &&& commits(rewritten) == 1
                &&& last.stage is Serving
                &&& rewritten.last() matches ActionView::Send(
                    EventView::Committed { samples, epoch: named, .. },
                ) && samples == worker.session_samples && named == worker.epoch
            } else {
                &&& commits(sent) == 0
                &&& commits(committed) == 1
                &&& done.stage is Serving
                &&& committed.last() == worker.commit(text@, false)
            }
        }),
{
    reveal_with_fuel(commits, 4);
}

/// Audio that arrives while no session is open is dropped.
pub proof fn audio_outside_a_session_is_dropped(worker: WorkerView, samples: u64)
    requires
        !worker.active,
    ensures
        worker.after(Input::Command(Command::Chunk { samples })) == (
            worker,
            Seq::<ActionView>::empty(),
        ),
{
}

/// A worker that has ended does nothing more.
pub proof fn an_ended_worker_stays_ended(worker: WorkerView, input: Input)
    requires
        worker.stage is Stopped,
    ensures
        worker.after(input) == (worker, Seq::<ActionView>::empty()),
{
}

proof fn swaps_send_no_partial(worker: WorkerView, target: Mode, sent: Seq<ActionView>, i: int)
    requires
        sent.len() <= 1,
        sent.len() == 1 ==> !(sent[0] matches ActionView::Send(EventView::Partial(_))),
        0 <= i < worker.swapping(target, sent).1.len(),
    ensures
        !(worker.swapping(target, sent).1[i] matches ActionView::Send(EventView::Partial(_))),
{
}

/// A partial transcript is sent in live mode only, and never the same one twice
/// in a row.
#[verifier::rlimit(40)]
pub proof fn partials_are_live_and_new(worker: WorkerView, input: Input, i: int)
    requires
        0 <= i < worker.after(input).1.len(),
        worker.after(input).1[i] matches ActionView::Send(EventView::Partial(_)),
    ensures
        worker.mode == Mode::Live,
        worker.after(input).1[i] matches ActionView::Send(EventView::Partial(text)) && text
            != worker.last_partial && worker.after(input).0.last_partial == text,
{
    match (worker.stage, input) {
        (StageView::Serving, Input::Command(command)) => {
            match command {
                Command::SwitchMode(target) => {
                    swaps_send_no_partial(worker, target, seq![], i);
                },
                _ => {},
            }
        },
        (StageView::Fetching { .. }, Input::Fetched(fetch)) => {
            match fetch {
                Fetch::Found(_) => {},
                _ => {},
            }
        },
        (StageView::Finalizing(closing), Input::Finalized(text)) => {
            match closing {
                Closing::Swap(target) => {
                    swaps_send_no_partial(worker, target, seq![worker.commit(text@, false)], i);
                },
                Closing::Stop => {},
            }
        },
        _ => {},
    }
}

/// The rewrite pass is asked for in record mode only, only where it is switched
/// on, and never for a text without content.
#[verifier::rlimit(40)]
pub proof fn rewriting_is_for_recordings_with_content(worker: WorkerView, input: Input, i: int)
    requires
        0 <= i < worker.after(input).1.len(),
        worker.after(input).1[i] is Rewrite,
    ensures
        worker.mode == Mode::Record,
        worker.rewrite_record,
        worker.after(input).1[i] matches ActionView::Rewrite { text, .. } && !crate::text::blank(
            text,
        ),
{
}

/// A rewrite that failed or came back empty leaves the raw transcript.
pub proof fn failed_rewrites_keep_the_transcript(
    worker: WorkerView,
    raw: Seq<char>,
    result: Option<RewriteResult>,
    wall_ms: u64,
)
    requires
        worker.stage == (StageView::Rewriting { raw }),
        result matches Some(r) ==> !r.ok || r.text@.len() == 0,
    ensures
        worker.after(Input::Rewritten { result, wall_ms }).1.last() == worker.commit(raw, false),
{
}

/// A request for a mode whose engine is resident keeps the engine and any open
/// session, and is answered at once.
pub proof fn a_resident_engine_is_kept(worker: WorkerView, target: Mode)
    requires
        worker.stage is Serving,
        worker.wanted(target) == worker.loaded,
    ensures
        worker.after(Input::Command(Command::SwitchMode(target))) == (
            WorkerView { mode: target, ..worker },
            seq![ActionView::Send(EventView::ModelReady(target))],
        ),
{
}

/// A swap of engines commits the text of an open session first, and ends with
/// the wanted engine resident in the wanted mode when its files are found and
/// its recogniser is made.
pub proof fn a_swap_ends_in_the_wanted_mode(
    worker: WorkerView,
    target: Mode,
    text: String,
    files: ModelPaths,
)
    requires
        worker.stage is Serving,
        worker.wanted(target) != worker.loaded,
        files.kind() == worker.wanted(target),
    ensures
        ({
            let asked = worker.after(Input::Command(Command::SwitchMode(target)));
            let closed = if worker.active {
                asked.0.after(Input::Finalized(text))
            } else {
                asked
            };
            let found = if closed.0.stage is Fetching {
                closed.0.after(Input::Fetched(Fetch::Found(files)))
            } else {
                closed
            };
            let made = found.0.after(Input::Loaded(Some(files)));
            &&& worker.active ==> asked.1 == seq![ActionView::Finalize] && closed.1[0]
                == worker.commit(text@, false)
            &&& made.0.stage is Serving
            &&& made.0.mode == target
            &&& made.0.loaded == worker.wanted(target)
            &&& made.0.cached == Some(files)
            &&& made.1.last() == ActionView::Send(EventView::ModelReady(target))
        }),
{
}

impl WorkerView {
    /// How many engines are in memory while the worker waits: none before the first one
    /// is made, and none while another one is.
    pub open spec fn resident(self) -> nat {
        match self.stage {
            StageView::Fetching { purpose: Purpose::Startup, .. } => 0,
            StageView::Loading { .. } => 0,
            StageView::Reloading => 0,
            _ => 1,
        }
    }
}

/// How many engines are in memory after an action, given how many are before. `None` if
/// an engine is made or installed while another one is still there, and from then on.
pub open spec fn engines_next(before: Option<nat>, action: ActionView) -> Option<nat> {
    match (before, action) {
        (None, _) => None,
        (Some(_), ActionView::Unload) => Some(0),
        (Some(n), ActionView::Load(_)) => if n == 0 {
            Some(0)
        } else {
            None
        },
        (Some(n), ActionView::Install) => if n == 0 {
            Some(1)
        } else {
            None
        },
        (n, _) => n,
    }
}

/// How many engines are in memory after a list of actions, given how many are before.
pub open spec fn engines_after(before: nat, actions: Seq<ActionView>) -> Option<nat>
    decreases actions.len(),
{
    if actions.len() == 0 {
        Some(before)
    } else {
        engines_next(engines_after(before, actions.drop_last()), actions.last())
    }
}

proof fn engines_after_few(before: nat, actions: Seq<ActionView>)
    requires
        actions.len() <= 4,
    ensures
        ({
            let one = engines_next(Some(before), actions[0]);
            let two = engines_next(one, actions[1]);
            let three = engines_next(two, actions[2]);
            &&& actions.len() == 0 ==> engines_after(before, actions) == Some(before)
            &&& actions.len() == 1 ==> engines_after(before, actions) == one
            &&& actions.len() == 2 ==> engines_after(before, actions) == two
            &&& actions.len() == 3 ==> engines_after(before, actions) == three
            &&& actions.len() == 4 ==> engines_after(before, actions) == engines_next(
                three,
                actions[3],
            )
        }),
    decreases actions.len(),
{
    if actions.len() > 0 {
        engines_after_few(before, actions.drop_last());
    }
}

/// No engine is made while another one is in memory, whatever happens: an engine is
/// released before the next one is loaded, on a swap as on a reload. A worker that has
/// not ended holds as many engines as its actions leave.
#[verifier::rlimit(40)]
pub proof fn one_engine_is_resident(worker: WorkerView, input: Input)
    ensures
        ({
            let (next, actions) = worker.after(input);
            let left = engines_after(worker.resident(), actions);
            &&& left is Some
            &&& next.stage !is Stopped ==> left == Some(next.resident())
        }),
{
    let before = worker.resident();
    let (next, actions) = worker.after(input);
    match (worker.stage, input) {
        (StageView::Serving, Input::Command(command)) => {
            match command {
                Command::SwitchMode(_) => {
                    assert(actions.len() <= 3);
                    engines_after_few(before, actions);
                },
                _ => {
                    assert(actions.len() <= 2);
                    engines_after_few(before, actions);
                },
            }
        },
        (StageView::Fetching { purpose, .. }, Input::Fetched(fetch)) => {
            match fetch {
                Fetch::Found(_) => {
                    assert(actions.len() <= 3);
                    engines_after_few(before, actions);
                },
                _ => {
                    assert(actions.len() <= 2);
                    engines_after_few(before, actions);
                },
            }
        },
        (StageView::Finalizing(closing), Input::Finalized(_)) => {
            match closing {
                Closing::Swap(_) => {
                    assert(actions.len() <= 4);
                    engines_after_few(before, actions);
                },
                Closing::Stop => {
                    assert(actions.len() <= 2);
                    engines_after_few(before, actions);
                },
            }
        },
        _ => {
            assert(actions.len() <= 3);
            engines_after_few(before, actions);
        },
    }
}

/// A chunk of audio that the engine took in: how many samples, in how many nanoseconds,
/// and the partial transcript after it.
pub ghost struct FedChunk {
    pub samples: u64,
    pub nanos: u64,
    pub partial: Option<String>,
}

/// The state after the engine took in a run of chunks.
pub open spec fn after_feeding(worker: WorkerView, chunks: Seq<FedChunk>) -> WorkerView
    decreases chunks.len(),
{
    if chunks.len() == 0 {
        worker
    } else {
        let before = after_feeding(worker, chunks.drop_last());
        let chunk = chunks.last();
        let asked = before.after(Input::Command(Command::Chunk { samples: chunk.samples })).0;
        asked.after(
            Input::Fed { samples: chunk.samples, nanos: chunk.nanos, partial: chunk.partial },
        ).0
    }
}

/// How many samples a run of chunks has.
pub open spec fn total_samples(chunks: Seq<FedChunk>) -> nat
    decreases chunks.len(),
{
    if chunks.len() == 0 {
        0
    } else {
        total_samples(chunks.drop_last()) + chunks.last().samples as nat
    }
}

/// How long the engine took over a run of chunks.
pub open spec fn total_nanos(chunks: Seq<FedChunk>) -> nat
    decreases chunks.len(),
{
    if chunks.len() == 0 {
        0
    } else {
        total_nanos(chunks.drop_last()) + chunks.last().nanos as nat
    }
}

/// What is reported of a recording and committed with its text counts exactly the audio
/// that was fed between its Start and its Stop, whatever partial transcripts came
/// meanwhile, and the time that the engine took over it.
pub proof fn a_session_counts_its_audio(worker: WorkerView, epoch: u64, chunks: Seq<FedChunk>)
    requires
        worker.stage is Serving,
        total_samples(chunks) <= u64::MAX,
        total_nanos(chunks) <= u64::MAX,
        chunks.len() <= u64::MAX,
    ensures
        ({
            let started = worker.after(Input::Command(Command::Start { epoch })).0;
            let fed = after_feeding(started, chunks);
            &&& fed == (WorkerView {
                active: true,
                epoch,
                session_samples: total_samples(chunks) as u64,
                session_feeds: chunks.len() as u64,
                decode_nanos: total_nanos(chunks) as u64,
                last_partial: fed.last_partial,
                ..worker
            })
            &&& fed.session_report() == (ActionView::ReportSession {
                mode: worker.mode,
                samples: total_samples(chunks) as u64,
                feeds: chunks.len() as u64,
                decode_nanos: total_nanos(chunks) as u64,
            })
            &&& forall|text: Seq<char>, rewritten: bool| #[trigger]
                fed.commit(text, rewritten) == ActionView::Send(
                    EventView::Committed {
                        text,
                        samples: total_samples(chunks) as u64,
                        epoch,
                        rewritten,
                    },
                )
        }),
    decreases chunks.len(),
{
    if chunks.len() > 0 {
        a_session_counts_its_audio(worker, epoch, chunks.drop_last());
    }
}

/// A rewrite that went well and has a text replaces the transcript, whatever the two look
/// like: its text is committed as rewritten, with the audio and the number of the
/// recording, after reports on the pass and the session, and the worker serves again.
pub proof fn usable_rewrites_are_committed(
    worker: WorkerView,
    raw: Seq<char>,
    result: RewriteResult,
    wall_ms: u64,
)
    requires
        worker.stage == (StageView::Rewriting { raw }),
        result.ok,
        result.text@.len() > 0,
    ensures
        ({
            let (next, actions) = worker.after(
                Input::Rewritten { result: Some(result), wall_ms },
            );
            &&& next == (WorkerView { stage: StageView::Serving, ..worker })
            &&& actions.len() == 3
            &&& actions[0] == (ActionView::ReportRewrite {
                wall_ms,
                in_tokens: result.in_tokens,
                out_tokens: result.out_tokens,
            })
            &&& actions[1] == (ActionView::ReportSession {
                mode: worker.mode,
                samples: worker.session_samples,
                feeds: worker.session_feeds,
                decode_nanos: worker.decode_nanos,
            })
            &&& actions[2] == ActionView::Send(
                EventView::Committed {
                    text: result.text@,
                    samples: worker.session_samples,
                    epoch: worker.epoch,
                    rewritten: true,
                },
            )
        }),
{
}

/// A rewrite that failed, is empty or did not come leaves the transcript as it is, with
/// the audio and the number of the recording, after the report on the session.
pub proof fn transcripts_survive_unusable_rewrites(
    worker: WorkerView,
    raw: Seq<char>,
    result: Option<RewriteResult>,
    wall_ms: u64,
)
    requires
        worker.stage == (StageView::Rewriting { raw }),
        result matches Some(r) ==> !r.ok || r.text@.len() == 0,
    ensures
        ({
            let (next, actions) = worker.after(Input::Rewritten { result, wall_ms });
            &&& next == (WorkerView { stage: StageView::Serving, ..worker })
            &&& actions.len() == 2
            &&& actions[0] is ReportSession
            &&& actions[1] == ActionView::Send(
                EventView::Committed {
                    text: raw,
                    samples: worker.session_samples,
                    epoch: worker.epoch,
                    rewritten: false,
                },
            )
        }),
{
}

/// The transcript of a recording that is stopped goes through the rewrite pass, as a
/// whole and with the threads that were chosen for it, exactly where it was recorded in
/// record mode, the pass is switched on and anything but white space is in it. Otherwise
/// it is committed at once as it is.
pub proof fn stopped_recordings_are_rewritten_or_committed(worker: WorkerView, text: String)
    requires
        worker.stage == StageView::Finalizing(Closing::Stop),
    ensures
        ({
            let (next, actions) = worker.after(Input::Finalized(text));
            let content = exists|i: int|
                0 <= i < text@.len() && !crate::text::is_white(#[trigger] text@[i]);
            if worker.mode == Mode::Record && worker.rewrite_record && content {
                &&& next == (WorkerView { stage: StageView::Rewriting { raw: text@ }, ..worker })
                &&& actions == seq![
                    ActionView::Rewrite { text: text@, threads: worker.rewrite_threads },
                ]
            } else {
                &&& next == (WorkerView { stage: StageView::Serving, ..worker })
                &&& actions.len() == 2
                &&& actions[0] == (ActionView::ReportSession {
                    mode: worker.mode,
                    samples: worker.session_samples,
                    feeds: worker.session_feeds,
                    decode_nanos: worker.decode_nanos,
                })
                &&& actions[1] == ActionView::Send(
                    EventView::Committed {
                        text: text@,
                        samples: worker.session_samples,
                        epoch: worker.epoch,
                        rewritten: false,
                    },
                )
            }
        }),
{
    let (next, actions) = worker.after(Input::Finalized(text));
    if worker.mode == Mode::Record && worker.rewrite_record && !crate::text::blank(text@) {
        assert(actions =~= seq![
            ActionView::Rewrite { text: text@, threads: worker.rewrite_threads },
        ]);
    }
}

/// A start opens a session for its recording from nothing, audio of an open session goes
/// to the engine as it came, and a stop closes the session and asks for its text.
pub proof fn sessions_take_their_commands(worker: WorkerView, epoch: u64, samples: u64)
    requires
        worker.stage is Serving,
    ensures
        ({
            let (started, opening) = worker.after(Input::Command(Command::Start { epoch }));
            let (fed, feeding) = worker.after(Input::Command(Command::Chunk { samples }));
            let (stopped, closing) = worker.after(Input::Command(Command::Stop { epoch }));
            &&& opening == seq![ActionView::StartSession]
            &&& started == (WorkerView {
                active: true,
                epoch,
                session_samples: 0,
                session_feeds: 0,
                decode_nanos: 0,
                last_partial: Seq::empty(),
                ..worker
            })
            &&& worker.active ==> {
                &&& feeding == seq![ActionView::Feed { samples }]
                &&& fed == (WorkerView { stage: StageView::Feeding, ..worker })
                &&& closing == seq![ActionView::Finalize]
                &&& stopped == (WorkerView {
                    active: false,
                    stage: StageView::Finalizing(Closing::Stop),
                    ..worker
                })
            }
        }),
{
}

/// In live mode every partial transcript that differs from the last one sent is sent as a
/// whole, and is the last one sent from then on; in record mode none is. Either way the
/// chunk is counted, and the worker serves again.
pub proof fn new_partials_are_sent(worker: WorkerView, samples: u64, nanos: u64, partial: String)
    requires
        worker.stage is Feeding,
        worker.session_samples + samples <= u64::MAX,
        worker.session_feeds < u64::MAX,
        worker.decode_nanos + nanos <= u64::MAX,
    ensures
        ({
            let (next, actions) = worker.after(
                Input::Fed { samples, nanos, partial: Some(partial) },
            );
            &&& next == (WorkerView {
                stage: StageView::Serving,
                session_samples: (worker.session_samples + samples) as u64,
                session_feeds: (worker.session_feeds + 1) as u64,
                decode_nanos: (worker.decode_nanos + nanos) as u64,
                last_partial: if worker.mode == Mode::Live {
                    partial@
                } else {
                    worker.last_partial
                },
                ..worker
            })
            &&& actions == (if worker.mode == Mode::Live && partial@ != worker.last_partial {
                seq![ActionView::Send(EventView::Partial(partial@))]
            } else {
                Seq::empty()
            })
        }),
{
}

/// A worker that starts up loads the files that were found, tells that it is ready once
/// its recogniser is made, and keeps the files; without files or a recogniser it says so
/// and ends.
pub proof fn startups_serve_or_end(worker: WorkerView, kind: ModelKind, files: ModelPaths)
    requires
        worker.stage == (StageView::Fetching { purpose: Purpose::Startup, kind }),
    ensures
        ({
            let (found, loading) = worker.after(Input::Fetched(Fetch::Found(files)));
            let (made, serving) = found.after(Input::Loaded(Some(files)));
            let (unmade, failing) = found.after(Input::Loaded(None));
            let (missing, ending) = worker.after(Input::Fetched(Fetch::Failed));
            &&& loading == seq![
                ActionView::Send(EventView::LoadingProgress("loading recognizer"@)),
                ActionView::Load(files),
            ]
            &&& serving == seq![
                ActionView::Install,
                ActionView::ReportBackend { mode: worker.mode, kind },
                ActionView::Send(EventView::Ready),
            ]
            &&& made == (WorkerView {
                stage: StageView::Serving,
                loaded: kind,
                cached: Some(files),
                ..worker
            })
            &&& unmade.stage is Stopped && failing == seq![
                ActionView::Send(EventView::LoadingProgress("load failed"@)),
                ActionView::Exit,
            ]
            &&& missing.stage is Stopped && ending == seq![
                ActionView::Send(EventView::LoadingProgress("model fetch failed"@)),
                ActionView::Exit,
            ]
        }),
{
    let (found, loading) = worker.after(Input::Fetched(Fetch::Found(files)));
    let (missing, ending) = worker.after(Input::Fetched(Fetch::Failed));
    assert(loading =~= seq![
        ActionView::Send(EventView::LoadingProgress("loading recognizer"@)),
        ActionView::Load(files),
    ]);
    assert(ending =~= seq![
        ActionView::Send(EventView::LoadingProgress("model fetch failed"@)),
        ActionView::Exit,
    ]);
}

/// A reload makes a recogniser again from the files that are at hand and serves with it
/// as before, with any session still open; a shutdown, a closed channel, or a reload
/// without files ends the worker.
pub proof fn reloads_keep_the_engine(worker: WorkerView, files: ModelPaths)
    requires
        worker.stage is Serving,
    ensures
        ({
            let (asked, loading) = worker.after(Input::Command(Command::ReloadForDebug));
            let (made, serving) = asked.after(Input::Loaded(Some(files)));
            &&& worker.cached == Some(files) ==> {
                &&& loading == seq![ActionView::Unload, ActionView::Load(files)]
                &&& made == worker
                &&& serving == seq![ActionView::Install, ActionView::Send(EventView::Ready)]
            }
            &&& worker.cached is None ==> asked.stage is Stopped && loading.last()
                == ActionView::Exit
            &&& worker.after(Input::Command(Command::Shutdown)) == (
                WorkerView { stage: StageView::Stopped, ..worker },
                seq![ActionView::Exit],
            )
            &&& worker.after(Input::Disconnected) == (
                WorkerView { stage: StageView::Stopped, ..worker },
                seq![ActionView::Exit],
            )
        }),
{
}

/// A request for a mode whose engine is not resident closes an open session first, and is
/// otherwise taken up at once: with the files at hand where they are that engine's, and
/// else by fetching the engine that the mode is set to. An engine that cannot be fetched
/// leaves the worker serving in the wanted mode.
pub proof fn swaps_ask_for_the_wanted_engine(worker: WorkerView, target: Mode)
    requires
        worker.stage is Serving,
        (match target {
            Mode::Record => worker.record_model,
            Mode::Live => worker.live_model,
        }) != worker.loaded,
    ensures
        ({
            let kind = match target {
                Mode::Record => worker.record_model,
                Mode::Live => worker.live_model,
            };
            let purpose = Purpose::Swap(target);
            let (asked, actions) = worker.after(Input::Command(Command::SwitchMode(target)));
            let (failed, telling) = asked.after(Input::Fetched(Fetch::Failed));
            &&& worker.active ==> asked == (WorkerView {
                active: false,
                stage: StageView::Finalizing(Closing::Swap(target)),
                ..worker
            }) && actions == seq![ActionView::Finalize]
            &&& !worker.active ==> match worker.cached {
                Some(files) if files.kind() == kind => {
                    &&& asked.stage == (StageView::Loading { purpose, kind })
                    &&& actions.len() == 3
                    &&& actions[1] == ActionView::Unload
                    &&& actions[2] == ActionView::Load(files)
                },
                _ => {
                    &&& asked.stage == (StageView::Fetching { purpose, kind })
                    &&& actions.last() == ActionView::Fetch(kind)
                    &&& failed.stage is Serving && failed.mode == target
                    &&& telling == seq![
                        ActionView::Send(EventView::LoadingProgress("model fetch failed"@)),
                    ]
                },
            }
        }),
{
}

/// Each mode has its own engine.
pub proof fn modes_have_their_engines(record: ModelKind, live: ModelKind)
    ensures
        wanted_model(record, live, Mode::Record) == record,
        wanted_model(record, live, Mode::Live) == live,
{
}

} // verus!
