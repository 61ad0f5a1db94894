//! The assets of the rewrite pass: the model file and the archive with the runner.
//! What is there already is not fetched again.
use crate::asr::fetch::Aggregate;
use crate::asr::rewrite::S1_GGUF_BYTES;
use crate::paths::join;
use crate::text::{chars_of, joined, owned, text_of};
use vstd::prelude::*;

verus! {

/// The file name of the model.
pub const S1_GGUF_NAME: &'static str = "s1-mini-q4_k_m.gguf";

/// The file name of the runner.
pub const LLAMA_CLI_NAME: &'static str = "llama-cli.exe";

/// What follows the last slash.
pub open spec fn last_segment(url: Seq<char>) -> Seq<char>
    decreases url.len(),
{
    if url.len() == 0 || url.last() == '/' {
        Seq::empty()
    } else {
        last_segment(url.drop_last()).push(url.last())
    }
}

/// The file name of the archive at `url`: what follows the last slash, or a fixed
/// name where nothing does.
pub fn zip_name(url: &str) -> (name: String)
    ensures
        name@ == (if last_segment(url@).len() == 0 {
            "llama-cli.zip"@
        } else {
            last_segment(url@)
        }),
{
    let chars = chars_of(url);
    let n: usize = chars.len();
    let mut from: usize = 0;
    let mut i: usize = 0;
    assert(url@.subrange(0, 0) =~= Seq::empty());
    while i < n
        invariant
            from <= i <= n,
            n == chars.len(),
            chars@ == url@,
            last_segment(url@.subrange(0, i as int)) == url@.subrange(from as int, i as int),
        decreases n - i,
    {
        assert(url@.subrange(0, i + 1).drop_last() =~= url@.subrange(0, i as int));
        if chars[i] == '/' {
            from = i + 1;
        }
        i += 1;
        assert(last_segment(url@.subrange(0, i as int)) =~= url@.subrange(from as int, i as int));
    }
    assert(url@.subrange(0, n as int) =~= url@);
    if from == n {
        owned("llama-cli.zip")
    } else {
        text_of(&chars.as_slice()[from..n])
    }
}

/// Why the assets are not there.
#[derive(Clone, Copy, Debug, PartialEq, Eq, Structural)]
pub enum AssetsFailure {
    CreateDir,
    Model,
    Archive,
    Expand,
    /// The archive did not hold the runner.
    RunnerMissing,
}

/// How fetching the assets ended.
#[derive(Clone, Copy, Debug, PartialEq, Eq, Structural)]
pub enum AssetsOutcome {
    Ready,
    Cancelled,
    Failed(AssetsFailure),
}

/// How the download of one asset went.
#[derive(Clone, Copy, Debug, PartialEq, Eq, Structural)]
pub enum Fetched {
    Ready,
    Cancelled,
    Failed,
}

/// What fetching the assets waits for.
#[derive(Clone, Copy, Debug, PartialEq, Eq, Structural)]
pub enum AssetsStage {
    Rooting,
    Sizing,
    InspectingModel,
    FetchingModel,
    LookingForRunner,
    FetchingArchive,
    MeasuringArchive,
    Expanding { archive: u64 },
    CheckingRunner { archive: u64 },
    Ended(AssetsOutcome),
}

/// What came of an action.
#[derive(Clone, Copy, Debug, PartialEq, Eq, Structural)]
pub enum AssetsInput {
    RootMade(bool),
    ArchiveSize(Option<u64>),
    /// The length of the model file, or `None` where it is missing or not a file.
    ModelLength(Option<u64>),
    Fetched(Fetched),
    Runner { present: bool, cancelled: bool },
    /// The length of the archive, nothing where it cannot be told.
    ArchiveLength(u64),
    Expanded(bool),
}

/// What is done for the assets.
#[derive(Clone, Copy, Debug, PartialEq, Eq, Structural)]
pub enum AssetsAction {
    MakeRoot,
    AskArchiveSize,
    InspectModel,
    FetchModel,
    LookForRunner,
    FetchArchive { expected: Option<u64> },
    MeasureArchive,
    Expand,
    RemoveArchive,
    Return(AssetsOutcome),
}

/// Fetching the assets.
#[derive(Clone, Copy, Debug, PartialEq, Eq, Structural)]
pub struct AssetsFetch {
    pub stage: AssetsStage,
    /// The size that the server reports of the archive.
    pub archive_size: Option<u64>,
    pub aggregate: Aggregate,
}

/// A size that may not be known, with what stands for it then.
pub open spec fn size_or(size: Option<u64>, other: u64) -> u64 {
    match size {
        Some(n) => n,
        None => other,
    }
}

fn known_or(size: Option<u64>, other: u64) -> (n: u64)
    ensures
        n == size_or(size, other),
{
    match size {
        Some(n) => n,
        None => other,
    }
}

impl AssetsFetch {
    /// Fetching that has ended.
    pub open spec fn over(self, outcome: AssetsOutcome) -> (AssetsFetch, Seq<AssetsAction>) {
        (
            AssetsFetch { stage: AssetsStage::Ended(outcome), ..self },
            seq![AssetsAction::Return(outcome)],
        )
    }

    /// The stage that follows, with one action.
    pub open spec fn on_to(self, stage: AssetsStage, action: AssetsAction) -> (
        AssetsFetch,
        Seq<AssetsAction>,
    ) {
        (AssetsFetch { stage, ..self }, seq![action])
    }

    /// With another asset of `bytes` bytes there.
    pub open spec fn with(self, bytes: u64) -> AssetsFetch {
        AssetsFetch {
            aggregate: Aggregate {
                completed: (self.aggregate.completed + bytes) as u64,
                ..self.aggregate
            },
            ..self
        }
    }

    /// The next stage and what is done, for every stage and input.
    pub open spec fn after(self, input: AssetsInput) -> (AssetsFetch, Seq<AssetsAction>) {
        match (self.stage, input) {
            (AssetsStage::Rooting, AssetsInput::RootMade(ok)) => if ok {
                self.on_to(AssetsStage::Sizing, AssetsAction::AskArchiveSize)
            } else {
                self.over(AssetsOutcome::Failed(AssetsFailure::CreateDir))
            },
            (AssetsStage::Sizing, AssetsInput::ArchiveSize(size)) => AssetsFetch {
                archive_size: size,
                aggregate: Aggregate {
                    total: (S1_GGUF_BYTES + size_or(size, 0)) as u64,
                    ..self.aggregate
                },
                ..self
            }.on_to(AssetsStage::InspectingModel, AssetsAction::InspectModel),
            (AssetsStage::InspectingModel, AssetsInput::ModelLength(length)) => if length == Some(
                S1_GGUF_BYTES,
            ) {
                self.with(S1_GGUF_BYTES).on_to(
                    AssetsStage::LookingForRunner,
                    AssetsAction::LookForRunner,
                )
            } else {
                self.on_to(AssetsStage::FetchingModel, AssetsAction::FetchModel)
            },
            (AssetsStage::FetchingModel, AssetsInput::Fetched(fetched)) => match fetched {
                Fetched::Ready => self.with(S1_GGUF_BYTES).on_to(
                    AssetsStage::LookingForRunner,
                    AssetsAction::LookForRunner,
                ),
                Fetched::Cancelled => self.over(AssetsOutcome::Cancelled),
                Fetched::Failed => self.over(AssetsOutcome::Failed(AssetsFailure::Model)),
            },
            (AssetsStage::LookingForRunner, AssetsInput::Runner { present, cancelled }) =>
                if present {
                    self.with(size_or(self.archive_size, 0)).over(AssetsOutcome::Ready)
                } else if cancelled {
                    self.over(AssetsOutcome::Cancelled)
                } else {
                    self.on_to(
                        AssetsStage::FetchingArchive,
                        AssetsAction::FetchArchive { expected: self.archive_size },
                    )
                },
            (AssetsStage::FetchingArchive, AssetsInput::Fetched(fetched)) => match fetched {
                Fetched::Ready => self.on_to(
                    AssetsStage::MeasuringArchive,
                    AssetsAction::MeasureArchive,
                ),
                Fetched::Cancelled => self.over(AssetsOutcome::Cancelled),
                Fetched::Failed => self.over(AssetsOutcome::Failed(AssetsFailure::Archive)),
            },
            (AssetsStage::MeasuringArchive, AssetsInput::ArchiveLength(archive)) => self.on_to(
                AssetsStage::Expanding { archive },
                AssetsAction::Expand,
            ),
            (AssetsStage::Expanding { archive }, AssetsInput::Expanded(ok)) => if ok {
                (
                    AssetsFetch { stage: AssetsStage::CheckingRunner { archive }, ..self },
                    seq![AssetsAction::RemoveArchive, AssetsAction::LookForRunner],
                )
            } else {
                self.over(AssetsOutcome::Failed(AssetsFailure::Expand))
            },
            (AssetsStage::CheckingRunner { archive }, AssetsInput::Runner { present, .. }) =>
                if present {
                    self.with(size_or(self.archive_size, archive)).over(AssetsOutcome::Ready)
                } else {
                    self.over(AssetsOutcome::Failed(AssetsFailure::RunnerMissing))
                },
            _ => (self, seq![]),
        }
    }

    /// Whether the sizes that an input reports can be added up.
    pub open spec fn fits(self, input: AssetsInput) -> bool {
        &&& input matches AssetsInput::ArchiveSize(size) ==> S1_GGUF_BYTES + size_or(size, 0)
            <= u64::MAX
        &&& match self.stage {
            AssetsStage::InspectingModel | AssetsStage::FetchingModel => self.aggregate.completed
                + S1_GGUF_BYTES <= u64::MAX,
            AssetsStage::LookingForRunner => self.aggregate.completed + size_or(
                self.archive_size,
                0,
            ) <= u64::MAX,
            AssetsStage::CheckingRunner { archive } => self.aggregate.completed + size_or(
                self.archive_size,
                archive,
            ) <= u64::MAX,
            _ => true,
        }
    }

    /// Begins to fetch the assets.
    pub fn begin(cancelled: bool) -> (r: (AssetsFetch, Vec<AssetsAction>))
        ensures
            r.0.archive_size is None,
            r.0.aggregate.completed == 0,
            r.0.aggregate.total == 0,
            r.0.aggregate.speed.last is None,
            cancelled ==> r.0.stage == AssetsStage::Ended(AssetsOutcome::Cancelled) && r.1@
                == seq![AssetsAction::Return(AssetsOutcome::Cancelled)],
            !cancelled ==> r.0.stage == AssetsStage::Rooting && r.1@ == seq![
                AssetsAction::MakeRoot,
            ],
    {
        let aggregate = Aggregate::new(0);
        if cancelled {
            (
                AssetsFetch {
                    stage: AssetsStage::Ended(AssetsOutcome::Cancelled),
                    archive_size: None,
                    aggregate,
                },
                vec![AssetsAction::Return(AssetsOutcome::Cancelled)],
            )
        } else {
            (
                AssetsFetch { stage: AssetsStage::Rooting, archive_size: None, aggregate },
                vec![AssetsAction::MakeRoot],
            )
        }
    }

    fn end(&mut self, outcome: AssetsOutcome) -> (actions: Vec<AssetsAction>)
        ensures
            (*final(self), actions@) == old(self).over(outcome),
    {
        self.stage = AssetsStage::Ended(outcome);
        vec![AssetsAction::Return(outcome)]
    }

    fn go(&mut self, stage: AssetsStage, action: AssetsAction) -> (actions: Vec<AssetsAction>)
        ensures
            (*final(self), actions@) == old(self).on_to(stage, action),
    {
        self.stage = stage;
        vec![action]
    }

    /// Takes in what came of an action, and says what is done next.
    pub fn step(&mut self, input: AssetsInput) -> (actions: Vec<AssetsAction>)
        requires
            old(self).fits(input),
        ensures
            (*final(self), actions@) == old(self).after(input),
    {
        match (self.stage, input) {
            (AssetsStage::Rooting, AssetsInput::RootMade(ok)) => if ok {
                self.go(AssetsStage::Sizing, AssetsAction::AskArchiveSize)
            } else {
                self.end(AssetsOutcome::Failed(AssetsFailure::CreateDir))
            },
            (AssetsStage::Sizing, AssetsInput::ArchiveSize(size)) => {
                self.archive_size = size;
                self.aggregate.total = S1_GGUF_BYTES + known_or(size, 0);
                self.go(AssetsStage::InspectingModel, AssetsAction::InspectModel)
            },
            (AssetsStage::InspectingModel, AssetsInput::ModelLength(length)) => {
                let there = match length {
                    Some(n) => n == S1_GGUF_BYTES,
                    None => false,
                };
                if there {
                    self.aggregate.finish_file(S1_GGUF_BYTES);
                    self.go(AssetsStage::LookingForRunner, AssetsAction::LookForRunner)
                } else {
                    self.go(AssetsStage::FetchingModel, AssetsAction::FetchModel)
                }
            },
            (AssetsStage::FetchingModel, AssetsInput::Fetched(fetched)) => match fetched {
                Fetched::Ready => {
                    self.aggregate.finish_file(S1_GGUF_BYTES);
                    self.go(AssetsStage::LookingForRunner, AssetsAction::LookForRunner)
                },
                Fetched::Cancelled => self.end(AssetsOutcome::Cancelled),
                Fetched::Failed => self.end(AssetsOutcome::Failed(AssetsFailure::Model)),
            },
            (AssetsStage::LookingForRunner, AssetsInput::Runner { present, cancelled }) => {
                if present {
                    self.aggregate.finish_file(known_or(self.archive_size, 0));
                    self.end(AssetsOutcome::Ready)
                } else if cancelled {
                    self.end(AssetsOutcome::Cancelled)
                } else {
                    let expected = self.archive_size;
                    self.go(AssetsStage::FetchingArchive, AssetsAction::FetchArchive { expected })
                }
            },
            (AssetsStage::FetchingArchive, AssetsInput::Fetched(fetched)) => match fetched {
                Fetched::Ready => self.go(
                    AssetsStage::MeasuringArchive,
                    AssetsAction::MeasureArchive,
                ),
                Fetched::Cancelled => self.end(AssetsOutcome::Cancelled),
                Fetched::Failed => self.end(AssetsOutcome::Failed(AssetsFailure::Archive)),
            },
            (AssetsStage::MeasuringArchive, AssetsInput::ArchiveLength(archive)) => self.go(
                AssetsStage::Expanding { archive },
                AssetsAction::Expand,
            ),
            (AssetsStage::Expanding { archive }, AssetsInput::Expanded(ok)) => if ok {
                self.stage = AssetsStage::CheckingRunner { archive };
                vec![AssetsAction::RemoveArchive, AssetsAction::LookForRunner]
            } else {
                self.end(AssetsOutcome::Failed(AssetsFailure::Expand))
            },
            (AssetsStage::CheckingRunner { archive }, AssetsInput::Runner { present, .. }) => {
                if present {
                    self.aggregate.finish_file(known_or(self.archive_size, archive));
                    self.end(AssetsOutcome::Ready)
                } else {
                    self.end(AssetsOutcome::Failed(AssetsFailure::RunnerMissing))
                }
            },
            _ => Vec::new(),
        }
    }
}

/// The assets are ready only if the runner was found, and the stage in which it is
/// looked for is reached only with a model file of the exact size or a finished
/// download of it.
pub proof fn ready_assets_are_there(fetch: AssetsFetch, input: AssetsInput)
    requires
        fetch.stage !is Ended,
    ensures
        fetch.after(input).0.stage == AssetsStage::Ended(AssetsOutcome::Ready) ==> {
            &&& fetch.stage is LookingForRunner || fetch.stage is CheckingRunner
            &&& input matches AssetsInput::Runner { present, .. } && present
        },
        fetch.stage !is LookingForRunner && fetch.after(input).0.stage is LookingForRunner ==> {
            ||| input == AssetsInput::ModelLength(Some(S1_GGUF_BYTES))
            ||| fetch.stage is FetchingModel && input == AssetsInput::Fetched(Fetched::Ready)
        },
{
}

/// A model file of any other size is fetched again.
pub proof fn inexact_models_are_fetched_again(fetch: AssetsFetch, length: Option<u64>)
    requires
        fetch.stage is InspectingModel,
        length != Some(S1_GGUF_BYTES),
    ensures
        fetch.after(AssetsInput::ModelLength(length)).1 == seq![AssetsAction::FetchModel],
{
}

/// The message that an archive did not hold the runner.
pub fn runner_missing_text(zip_name: &str) -> (text: String)
    ensures
        text@ == "llama-cli.exe missing after extracting "@ + zip_name@,
{
    joined("llama-cli.exe missing after extracting ", zip_name)
}

/// The message for a failure, given what the failed step said.
pub open spec fn failure_wording(failure: AssetsFailure, detail: Seq<char>, zip_name: Seq<char>) -> Seq<
    char,
> {
    match failure {
        AssetsFailure::CreateDir => "creating models dir: "@ + detail,
        AssetsFailure::RunnerMissing => "llama-cli.exe missing after extracting "@ + zip_name,
        _ => detail,
    }
}

/// What fetching the assets comes to: whether they are there, not where it was
/// cancelled; or the message for a failure.
pub fn ensure_s1_assets(outcome: AssetsOutcome, detail: &str, zip_name: &str) -> (r: Result<
    bool,
    String,
>)
    ensures
        match outcome {
            AssetsOutcome::Ready => r == Ok::<bool, String>(true),
            AssetsOutcome::Cancelled => r == Ok::<bool, String>(false),
            AssetsOutcome::Failed(failure) => r matches Err(message) && message@
                == failure_wording(failure, detail@, zip_name@),
        },
{
    match outcome {
        AssetsOutcome::Ready => Ok(true),
        AssetsOutcome::Cancelled => Ok(false),
        AssetsOutcome::Failed(AssetsFailure::CreateDir) => Err(
            joined("creating models dir: ", detail),
        ),
        AssetsOutcome::Failed(AssetsFailure::RunnerMissing) => Err(runner_missing_text(zip_name)),
        AssetsOutcome::Failed(_) => Err(owned(detail)),
    }
}

/// The path of the asset `name` under the directory of the models, where there is such
/// a directory and the asset is in it.
pub open spec fn asset_path(root: Option<Seq<char>>, present: bool, name: Seq<char>) -> Option<
    Seq<char>,
> {
    match root {
        Some(root) if present => Some(crate::paths::path_in(root, name)),
        _ => None,
    }
}

/// The path of the model, where it is there.
pub fn s1_model_path(root: Option<&str>, present: bool) -> (path: Option<String>)
    ensures
        crate::text::opt_text(path) == asset_path(
            crate::text::opt_view(root),
            present,
            S1_GGUF_NAME@,
        ),
{
    match root {
        Some(root) => if present {
            Some(join(root, S1_GGUF_NAME))
        } else {
            None
        },
        None => None,
    }
}

/// The path of the runner, where it is there.
pub fn s1_llama_cli_path(root: Option<&str>, present: bool) -> (path: Option<String>)
    ensures
        crate::text::opt_text(path) == asset_path(
            crate::text::opt_view(root),
            present,
            LLAMA_CLI_NAME@,
        ),
{
    match root {
        Some(root) => if present {
            Some(join(root, LLAMA_CLI_NAME))
        } else {
            None
        },
        None => None,
    }
}

/// The paths of the runner and of the model, where both are there: without either, the
/// rewrite pass does nothing.
pub fn s1_paths(root: Option<&str>, model: bool, runner: bool) -> (paths: Option<(String, String)>)
    ensures
        paths is Some <==> root is Some && model && runner,
        paths matches Some((cli, gguf)) ==> {
            &&& Some(cli@) == asset_path(crate::text::opt_view(root), runner, LLAMA_CLI_NAME@)
            &&& Some(gguf@) == asset_path(crate::text::opt_view(root), model, S1_GGUF_NAME@)
        },
{
    match (s1_llama_cli_path(root, runner), s1_model_path(root, model)) {
        (Some(cli), Some(gguf)) => Some((cli, gguf)),
        _ => None,
    }
}

/// How many of the two assets are there.
pub open spec fn readiness(model: bool, runner: bool) -> u64 {
    let a = if model {
        1int
    } else {
        0
    };
    let b = if runner {
        1int
    } else {
        0
    };
    (a + b) as u64
}

/// How many of the two assets are there, and how many there are.
pub fn assets_ready(model: bool, runner: bool) -> (r: (u64, u64))
    ensures
        r == (readiness(model, runner), 2u64),
{
    let a: u64 = if model {
        1
    } else {
        0
    };
    let b: u64 = if runner {
        1
    } else {
        0
    };
    (a + b, 2)
}

/// The name under which the assets are reported.
pub const ASSETS_LABEL: &'static str = "s1-mini";

/// What bringing the assets about asks for.
#[derive(Debug)]
pub enum EnsureAction {
    /// So many of the assets are there.
    Report { label: &'static str, ready: u64, total: u64 },
    /// What is missing is to be fetched, and how that ended handed back, with what is
    /// there by now.
    Fetch,
    /// Whether the rewrite pass can run, or why the fetch failed.
    Return(Result<bool, String>),
}

/// The report on the two assets.
pub open spec fn told(model: bool, runner: bool) -> EnsureAction {
    EnsureAction::Report { label: ASSETS_LABEL, ready: readiness(model, runner), total: 2 }
}

/// How bringing the assets about begins: with a report and the fetch.
pub open spec fn ensure_begun(model: bool, runner: bool) -> Seq<EnsureAction> {
    seq![told(model, runner), EnsureAction::Fetch]
}

/// How it ends. A failed fetch is handed on as it is. After any other there is a second
/// report, and the rewrite pass can run where the fetch was not cancelled and both
/// assets are there.
pub open spec fn ensure_ended(fetched: Result<bool, String>, model: bool, runner: bool) -> Seq<
    EnsureAction,
> {
    match fetched {
        Ok(done) => seq![
            told(model, runner),
            EnsureAction::Return(Ok(done && readiness(model, runner) == 2)),
        ],
        Err(error) => seq![EnsureAction::Return(Err(error))],
    }
}

fn tell(model: bool, runner: bool) -> (action: EnsureAction)
    ensures
        action == told(model, runner),
{
    let (ready, total) = assets_ready(model, runner);
    EnsureAction::Report { label: ASSETS_LABEL, ready, total }
}

/// Begins to bring the assets of the rewrite pass about, with what is there of them.
pub fn begin_rewrite_assets(model: bool, runner: bool) -> (actions: Vec<EnsureAction>)
    ensures
        actions@ == ensure_begun(model, runner),
{
    let actions = vec![tell(model, runner), EnsureAction::Fetch];
    assert(actions@ =~= ensure_begun(model, runner));
    actions
}

/// Ends it once the fetch is over, with what is there of the assets by now.
pub fn ensure_rewrite_assets(fetched: Result<bool, String>, model: bool, runner: bool) -> (actions:
    Vec<EnsureAction>)
    ensures
        actions@ == ensure_ended(fetched, model, runner),
{
    let mut actions: Vec<EnsureAction> = Vec::new();
    match fetched {
        Ok(done) => {
            let (ready, total) = assets_ready(model, runner);
            actions.push(tell(model, runner));
            actions.push(EnsureAction::Return(Ok(done && ready == total)));
        },
        Err(error) => {
            actions.push(EnsureAction::Return(Err(error)));
        },
    }
    assert(actions@ =~= ensure_ended(fetched, model, runner));
    actions
}

/// The assets are reported once before the fetch and, unless it failed, once after it,
/// each time as so many of two. The rewrite pass can run exactly where the fetch went
/// through and both assets are there after it, and a failed fetch is handed on.
pub proof fn assets_are_told_before_and_after(
    had_model: bool,
    had_runner: bool,
    fetched: Result<bool, String>,
    model: bool,
    runner: bool,
)
    ensures
        ({
            let all = ensure_begun(had_model, had_runner) + ensure_ended(fetched, model, runner);
            &&& all.filter(|action: EnsureAction| action is Report) == match fetched {
                Ok(_) => seq![told(had_model, had_runner), told(model, runner)],
                Err(_) => seq![told(had_model, had_runner)],
            }
            &&& all[0] is Report && all[1] is Fetch
            &&& all.last() == EnsureAction::Return(
                match fetched {
                    Ok(done) => Ok(done && model && runner),
                    Err(error) => Err(error),
                },
            )
        }),
{
    let begun = ensure_begun(had_model, had_runner);
    let ended = ensure_ended(fetched, model, runner);
    let is_report = |action: EnsureAction| action is Report;
    reveal_with_fuel(Seq::filter, 5);
    let all = begun + ended;
    assert(all.drop_last() =~= begun + ended.drop_last());
    match fetched {
        Ok(_) => {
            assert(ended.drop_last() =~= seq![told(model, runner)]);
            assert(all.drop_last().drop_last() =~= begun);
        },
        Err(_) => {
            assert(all.drop_last() =~= begun);
        },
    }
    assert(begun.drop_last() =~= seq![told(had_model, had_runner)]);
    assert(begun.drop_last().drop_last() =~= Seq::empty());
}

/// A model file of exactly 484219808 bytes is there and is not fetched; the total of both
/// assets counts it and the archive, where the size of that is known.
pub proof fn exact_models_are_kept(fetch: AssetsFetch, size: Option<u64>)
    requires
        fetch.stage is Sizing,
        size matches Some(n) ==> n <= u64::MAX - 484_219_808,
    ensures
        ({
            let (sized, inspecting) = fetch.after(AssetsInput::ArchiveSize(size));
            let (kept, looking) = sized.after(AssetsInput::ModelLength(Some(484_219_808)));
            &&& sized.archive_size == size
            &&& sized.aggregate.total == 484_219_808 + (match size {
                Some(n) => n as int,
                None => 0,
            })
            &&& inspecting == seq![AssetsAction::InspectModel]
            &&& looking == seq![AssetsAction::LookForRunner]
            &&& kept.stage is LookingForRunner
            &&& fetch.aggregate.completed + 484_219_808 <= u64::MAX ==> kept.aggregate.completed
                == fetch.aggregate.completed + 484_219_808
        }),
{
}

/// A runner that is there makes the assets ready without its archive. One that is missing
/// is taken out of the archive, which is fetched with the size that was asked for and
/// removed once it is expanded; the assets are ready if the runner is there after that.
pub proof fn missing_runners_are_unpacked(fetch: AssetsFetch, length: u64)
    requires
        fetch.stage is LookingForRunner,
    ensures
        ({
            let there = fetch.after(AssetsInput::Runner { present: true, cancelled: false });
            let gone = fetch.after(AssetsInput::Runner { present: false, cancelled: false });
            let fetched = gone.0.after(AssetsInput::Fetched(Fetched::Ready));
            let measured = fetched.0.after(AssetsInput::ArchiveLength(length));
            let expanded = measured.0.after(AssetsInput::Expanded(true));
            let ready = expanded.0.after(AssetsInput::Runner { present: true, cancelled: false });
            let missing = expanded.0.after(
                AssetsInput::Runner { present: false, cancelled: false },
            );
            &&& there.1 == seq![AssetsAction::Return(AssetsOutcome::Ready)]
            &&& gone.1 == seq![AssetsAction::FetchArchive { expected: fetch.archive_size }]
            &&& fetched.1 == seq![AssetsAction::MeasureArchive]
            &&& measured.1 == seq![AssetsAction::Expand]
            &&& expanded.1 == seq![AssetsAction::RemoveArchive, AssetsAction::LookForRunner]
            &&& ready.1 == seq![AssetsAction::Return(AssetsOutcome::Ready)]
            &&& missing.1 == seq![
                AssetsAction::Return(AssetsOutcome::Failed(AssetsFailure::RunnerMissing)),
            ]
        }),
{
}

/// A model that was fetched leads on to the runner. What is cancelled ends so, and each
/// step that fails ends the fetch with a failure that names it.
pub proof fn failed_asset_steps_are_named(fetch: AssetsFetch)
    ensures
        fetch.stage is Rooting ==> {
            &&& fetch.after(AssetsInput::RootMade(true)).1 == seq![AssetsAction::AskArchiveSize]
            &&& fetch.after(AssetsInput::RootMade(false)).1 == seq![
                AssetsAction::Return(AssetsOutcome::Failed(AssetsFailure::CreateDir)),
            ]
        },
        fetch.stage is FetchingModel ==> {
            &&& fetch.after(AssetsInput::Fetched(Fetched::Ready)).1 == seq![
                AssetsAction::LookForRunner,
            ]
            &&& fetch.after(AssetsInput::Fetched(Fetched::Cancelled)).1 == seq![
                AssetsAction::Return(AssetsOutcome::Cancelled),
            ]
            &&& fetch.after(AssetsInput::Fetched(Fetched::Failed)).1 == seq![
                AssetsAction::Return(AssetsOutcome::Failed(AssetsFailure::Model)),
            ]
        },
        fetch.stage is FetchingArchive ==> {
            &&& fetch.after(AssetsInput::Fetched(Fetched::Cancelled)).1 == seq![
                AssetsAction::Return(AssetsOutcome::Cancelled),
            ]
            &&& fetch.after(AssetsInput::Fetched(Fetched::Failed)).1 == seq![
                AssetsAction::Return(AssetsOutcome::Failed(AssetsFailure::Archive)),
            ]
        },
        fetch.stage is Expanding ==> fetch.after(AssetsInput::Expanded(false)).1 == seq![
            AssetsAction::Return(AssetsOutcome::Failed(AssetsFailure::Expand)),
        ],
        fetch.stage is LookingForRunner ==> fetch.after(
            AssetsInput::Runner { present: false, cancelled: true },
        ).1 == seq![AssetsAction::Return(AssetsOutcome::Cancelled)],
{
}

/// The last segment of an address is what follows its last slash.
pub proof fn segments_follow_the_last_slash(head: Seq<char>, name: Seq<char>)
    requires
        forall|i: int| 0 <= i < name.len() ==> #[trigger] name[i] != '/',
    ensures
        last_segment(head.push('/') + name) == name,
    decreases name.len(),
{
    let url = head.push('/') + name;
    if name.len() == 0 {
        assert(url =~= head.push('/'));
    } else {
        assert(url.drop_last() =~= head.push('/') + name.drop_last());
        assert(url.last() == name[name.len() - 1]);
        assert forall|i: int| 0 <= i < name.len() - 1 implies #[trigger] name.drop_last()[i]
            != '/' by {
            assert(name.drop_last()[i] == name[i]);
        }
        segments_follow_the_last_slash(head, name.drop_last());
        assert(name.drop_last().push(name.last()) =~= name);
    }
}

/// Each of the two assets that is there counts one, and an asset has a path, its name
/// under the directory of the models, exactly where it is there and the directory is
/// known.
pub proof fn assets_count_and_have_paths(
    model: bool,
    runner: bool,
    root: Option<Seq<char>>,
    name: Seq<char>,
)
    ensures
        readiness(model, runner) == 2 <==> model && runner,
        readiness(model, runner) == 0 <==> !model && !runner,
        readiness(model, runner) <= 2,
        asset_path(root, model, name) is Some <==> model && root is Some,
        model && root is Some ==> asset_path(root, model, name) == Some(
            crate::paths::path_in(root->0, name),
        ),
{
}

/// The assets are there, or were cancelled, or are told to have failed, with what failed.
pub proof fn outcomes_are_told(
    outcome: AssetsOutcome,
    detail: &str,
    zip_name: &str,
    r: Result<bool, String>,
)
    requires
        call_ensures(ensure_s1_assets, (outcome, detail, zip_name), r),
    ensures
        outcome is Ready <==> r == Ok::<bool, String>(true),
        outcome is Cancelled <==> r == Ok::<bool, String>(false),
        outcome is Failed <==> r is Err,
        outcome == AssetsOutcome::Failed(AssetsFailure::CreateDir) ==> r->Err_0@
            == "creating models dir: "@ + detail@,
        outcome == AssetsOutcome::Failed(AssetsFailure::RunnerMissing) ==> r->Err_0@
            == "llama-cli.exe missing after extracting "@ + zip_name@,
{
}

/// Fetching the assets begins with their folder, unless it was cancelled before.
pub proof fn assets_begin_with_their_folder(cancelled: bool, r: (AssetsFetch, Vec<AssetsAction>))
    requires
        call_ensures(AssetsFetch::begin, (cancelled,), r),
    ensures
        !cancelled ==> r.1@ == seq![AssetsAction::MakeRoot],
        cancelled ==> r.1@ == seq![AssetsAction::Return(AssetsOutcome::Cancelled)],
        r.0.aggregate.completed == 0,
{
}

} // verus!
