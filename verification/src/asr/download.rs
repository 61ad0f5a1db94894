//! Downloads as state machines: one file with resume and exact size checks, the
//! files of a model, and the assets of the rewrite pass. The code that owns the
//! connection performs each action and reports back what came of it.
use crate::asr::fetch::{cached_model_dir, file_url, sum_known, Aggregate};
use crate::asr::model::ModelSpec;
use crate::paths::join;
use crate::text::{decimal, joined, owned};
use vstd::prelude::*;

verus! {

/// Why a file could not be downloaded.
#[derive(Clone, Copy, Debug, PartialEq, Eq, Structural)]
pub enum Failure {
    CreateDir,
    Request,
    OpenPart,
    CreatePart,
    Write,
    Stream,
    Flush,
    /// The file has another size than it should.
    Size { done: u64, expected: u64 },
    Promote,
}

impl Failure {
    /// The wording of a failure: `label` names the file, `path` the place of it,
    /// `detail` is what the system said.
    pub open spec fn wording(self, label: Seq<char>, path: Seq<char>, detail: Seq<char>) -> Seq<
        char,
    > {
        match self {
            Failure::CreateDir | Failure::CreatePart => "creating "@ + path + ": "@ + detail,
            Failure::Request => detail,
            Failure::OpenPart => "opening "@ + path + ": "@ + detail,
            Failure::Write => "writing "@ + path + ": "@ + detail,
            Failure::Stream => "streaming "@ + label + ": "@ + detail,
            Failure::Flush => "flushing "@ + label + ": "@ + detail,
            Failure::Size { done, expected } => label + ": downloaded "@ + crate::text::decimal_of(
                done as nat,
            ) + " bytes, expected "@ + crate::text::decimal_of(expected as nat),
            Failure::Promote => "promoting "@ + label + ": "@ + detail,
        }
    }

    /// The wording of a failure.
    pub fn text(self, label: &str, path: &str, detail: &str) -> (text: String)
        ensures
            text@ == self.wording(label@, path@, detail@),
    {
        match self {
            Failure::CreateDir | Failure::CreatePart => said("creating ", path, detail),
            Failure::Request => owned(detail),
            Failure::OpenPart => said("opening ", path, detail),
            Failure::Write => said("writing ", path, detail),
            Failure::Stream => said("streaming ", label, detail),
            Failure::Flush => said("flushing ", label, detail),
            Failure::Size { done, expected } => {
                let mut text = joined(label, ": downloaded ");
                text.push_str(decimal(done).as_str());
                text.push_str(" bytes, expected ");
                text.push_str(decimal(expected).as_str());
                text
            },
            Failure::Promote => said("promoting ", label, detail),
        }
    }
}

fn said(what: &str, name: &str, detail: &str) -> (text: String)
    ensures
        text@ == what@ + name@ + ": "@ + detail@,
{
    let mut text = joined(what, name);
    text.push_str(": ");
    text.push_str(detail);
    text
}

/// How a download ended.
#[derive(Clone, Copy, Debug, PartialEq, Eq, Structural)]
pub enum Outcome {
    Ready,
    Cancelled,
    Failed(Failure),
}

/// What a download is waiting for.
#[derive(Clone, Copy, Debug, PartialEq, Eq, Structural)]
pub enum Stage {
    /// The size that the server reports.
    Sizing,
    /// The directory of the file.
    Preparing,
    /// The length of the file, if it is there already.
    Inspecting,
    /// The length of what an earlier attempt left.
    Probing,
    /// The answer to a request for the rest of the file.
    Resuming { from: u64 },
    /// The answer to a request for the whole file.
    Requesting,
    /// The part file.
    Opening { from: u64 },
    /// More bytes.
    Reading { done: u64 },
    /// The bytes on disk.
    Writing { done: u64, n: u64 },
    Flushing { done: u64 },
    /// The part file under its final name.
    Promoting { done: u64 },
    Ended(Outcome),
}

/// What came of an action.
#[derive(Clone, Copy, Debug, PartialEq, Eq, Structural)]
pub enum Input {
    Sized(Option<u64>),
    Prepared(bool),
    /// The length of the file, or `None` where it is missing or not a file.
    Existing(Option<u64>),
    Partial(Option<u64>),
    /// The status of the answer, or `None` where the request failed.
    Answer(Option<u16>),
    Opened(bool),
    /// So many bytes came in; none at the end of the stream.
    Bytes { n: u64, cancelled: bool },
    StreamBroke,
    Written(bool),
    Flushed(bool),
    Promoted(bool),
}

/// What is done for a download.
#[derive(Clone, Copy, Debug, PartialEq, Eq, Structural)]
pub enum Action {
    AskSize,
    PrepareDir,
    InspectFile,
    ProbePart,
    RequestFrom(u64),
    RemovePart,
    Request,
    AppendPart,
    CreatePart,
    Read,
    Write { n: u64 },
    /// So many bytes of the file are there.
    Report(u64),
    Flush,
    Promote,
    Return(Outcome),
}

/// The download of one file.
#[derive(Clone, Copy, Debug, PartialEq, Eq, Structural)]
pub struct Download {
    /// The size of the file, where it is known.
    pub expected: Option<u64>,
    pub stage: Stage,
}

/// Whether a file that is there already is taken as it is: it has the expected size,
/// or, where that is not known, it is not empty.
pub open spec fn accepted(expected: Option<u64>, length: Option<u64>) -> bool {
    match length {
        Some(n) => match expected {
            Some(size) => n == size,
            None => n > 0,
        },
        None => false,
    }
}

impl Download {
    /// A download that has ended.
    pub open spec fn over(self, outcome: Outcome) -> (Download, Seq<Action>) {
        (Download { stage: Stage::Ended(outcome), ..self }, seq![Action::Return(outcome)])
    }

    /// The stage that follows, with one action.
    pub open spec fn on_to(self, stage: Stage, action: Action) -> (Download, Seq<Action>) {
        (Download { stage, ..self }, seq![action])
    }

    /// The next stage and what is done, for every stage and input. An input that the
    /// download is not waiting for changes nothing.
    pub open spec fn after(self, input: Input) -> (Download, Seq<Action>) {
        match (self.stage, input) {
            (Stage::Sizing, Input::Sized(size)) => Download { expected: size, ..self }.on_to(
                Stage::Preparing,
                Action::PrepareDir,
            ),
            (Stage::Preparing, Input::Prepared(ok)) => if ok {
                self.on_to(Stage::Inspecting, Action::InspectFile)
            } else {
                self.over(Outcome::Failed(Failure::CreateDir))
            },
            (Stage::Inspecting, Input::Existing(length)) => if accepted(self.expected, length) {
                self.over(Outcome::Ready)
            } else {
                self.on_to(Stage::Probing, Action::ProbePart)
            },
            (Stage::Probing, Input::Partial(length)) => match length {
                Some(from) if from > 0 => self.on_to(
                    Stage::Resuming { from },
                    Action::RequestFrom(from),
                ),
                _ => self.on_to(Stage::Requesting, Action::Request),
            },
            (Stage::Resuming { from }, Input::Answer(status)) => if status == Some(206u16) {
                self.on_to(Stage::Opening { from }, Action::AppendPart)
            } else {
                (
                    Download { stage: Stage::Requesting, ..self },
                    seq![Action::RemovePart, Action::Request],
                )
            },
            (Stage::Requesting, Input::Answer(status)) => if status is Some {
                self.on_to(Stage::Opening { from: 0 }, Action::CreatePart)
            } else {
                self.over(Outcome::Failed(Failure::Request))
            },
            (Stage::Opening { from }, Input::Opened(ok)) => if ok {
                self.on_to(Stage::Reading { done: from }, Action::Read)
            } else if from > 0 {
                self.over(Outcome::Failed(Failure::OpenPart))
            } else {
                self.over(Outcome::Failed(Failure::CreatePart))
            },
            (Stage::Reading { done }, Input::Bytes { n, cancelled }) => if n == 0 {
                self.on_to(Stage::Flushing { done }, Action::Flush)
            } else if cancelled {
                self.over(Outcome::Cancelled)
            } else {
                self.on_to(Stage::Writing { done, n }, Action::Write { n })
            },
            (Stage::Reading { .. }, Input::StreamBroke) => self.over(
                Outcome::Failed(Failure::Stream),
            ),
            (Stage::Writing { done, n }, Input::Written(ok)) => if ok {
                (
                    Download { stage: Stage::Reading { done: (done + n) as u64 }, ..self },
                    seq![Action::Report((done + n) as u64), Action::Read],
                )
            } else {
                self.over(Outcome::Failed(Failure::Write))
            },
            (Stage::Flushing { done }, Input::Flushed(ok)) => if !ok {
                self.over(Outcome::Failed(Failure::Flush))
            } else if self.expected is Some && self.expected->0 != done {
                let failure = Failure::Size { done, expected: self.expected->0 };
                (
                    self.over(Outcome::Failed(failure)).0,
                    seq![Action::RemovePart, Action::Return(Outcome::Failed(failure))],
                )
            } else {
                self.on_to(Stage::Promoting { done }, Action::Promote)
            },
            (Stage::Promoting { .. }, Input::Promoted(ok)) => if ok {
                self.over(Outcome::Ready)
            } else {
                self.over(Outcome::Failed(Failure::Promote))
            },
            _ => (self, seq![]),
        }
    }

    /// A download that begins, with its first action: the size is asked for where it
    /// is not known.
    pub open spec fn begun(expected: Option<u64>, cancelled: bool) -> (Download, Seq<Action>) {
        let fresh = Download { expected, stage: Stage::Sizing };
        if cancelled {
            fresh.over(Outcome::Cancelled)
        } else if expected is Some {
            fresh.on_to(Stage::Preparing, Action::PrepareDir)
        } else {
            (fresh, seq![Action::AskSize])
        }
    }

    /// Begins the download of a file.
    pub fn begin(expected: Option<u64>, cancelled: bool) -> (r: (Download, Vec<Action>))
        ensures
            (r.0, r.1@) == Download::begun(expected, cancelled),
    {
        if cancelled {
            (
                Download { expected, stage: Stage::Ended(Outcome::Cancelled) },
                vec![Action::Return(Outcome::Cancelled)],
            )
        } else if expected.is_some() {
            (Download { expected, stage: Stage::Preparing }, vec![Action::PrepareDir])
        } else {
            (Download { expected, stage: Stage::Sizing }, vec![Action::AskSize])
        }
    }

    fn end(&mut self, outcome: Outcome) -> (actions: Vec<Action>)
        ensures
            (*final(self), actions@) == old(self).over(outcome),
    {
        self.stage = Stage::Ended(outcome);
        vec![Action::Return(outcome)]
    }

    fn go(&mut self, stage: Stage, action: Action) -> (actions: Vec<Action>)
        ensures
            (*final(self), actions@) == old(self).on_to(stage, action),
    {
        self.stage = stage;
        vec![action]
    }

    /// Takes in what came of an action, and says what is done next.
    pub fn step(&mut self, input: Input) -> (actions: Vec<Action>)
        requires
            old(self).stage matches Stage::Writing { done, n } ==> done + n <= u64::MAX,
        ensures
            (*final(self), actions@) == old(self).after(input),
    {
        match (self.stage, input) {
            (Stage::Sizing, Input::Sized(size)) => {
                self.expected = size;
                self.go(Stage::Preparing, Action::PrepareDir)
            },
            (Stage::Preparing, Input::Prepared(ok)) => if ok {
                self.go(Stage::Inspecting, Action::InspectFile)
            } else {
                self.end(Outcome::Failed(Failure::CreateDir))
            },
            (Stage::Inspecting, Input::Existing(length)) => {
                let taken = match length {
                    Some(n) => match self.expected {
                        Some(size) => n == size,
                        None => n > 0,
                    },
                    None => false,
                };
                if taken {
                    self.end(Outcome::Ready)
                } else {
                    self.go(Stage::Probing, Action::ProbePart)
                }
            },
            (Stage::Probing, Input::Partial(length)) => match length {
                Some(from) => if from > 0 {
                    self.go(Stage::Resuming { from }, Action::RequestFrom(from))
                } else {
                    self.go(Stage::Requesting, Action::Request)
                },
                None => self.go(Stage::Requesting, Action::Request),
            },
            (Stage::Resuming { from }, Input::Answer(status)) => {
                let partial = match status {
                    Some(code) => code == 206,
                    None => false,
                };
                if partial {
                    self.go(Stage::Opening { from }, Action::AppendPart)
                } else {
                    self.stage = Stage::Requesting;
                    vec![Action::RemovePart, Action::Request]
                }
            },
            (Stage::Requesting, Input::Answer(status)) => if status.is_some() {
                self.go(Stage::Opening { from: 0 }, Action::CreatePart)
            } else {
                self.end(Outcome::Failed(Failure::Request))
            },
            (Stage::Opening { from }, Input::Opened(ok)) => if ok {
                self.go(Stage::Reading { done: from }, Action::Read)
            } else if from > 0 {
                self.end(Outcome::Failed(Failure::OpenPart))
            } else {
                self.end(Outcome::Failed(Failure::CreatePart))
            },
            (Stage::Reading { done }, Input::Bytes { n, cancelled }) => if n == 0 {
                self.go(Stage::Flushing { done }, Action::Flush)
            } else if cancelled {
                self.end(Outcome::Cancelled)
            } else {
                self.go(Stage::Writing { done, n }, Action::Write { n })
            },
            (Stage::Reading { .. }, Input::StreamBroke) => self.end(
                Outcome::Failed(Failure::Stream),
            ),
            (Stage::Writing { done, n }, Input::Written(ok)) => if ok {
                let there: u64 = done + n;
                self.stage = Stage::Reading { done: there };
                vec![Action::Report(there), Action::Read]
            } else {
                self.end(Outcome::Failed(Failure::Write))
            },
            (Stage::Flushing { done }, Input::Flushed(ok)) => {
                if !ok {
                    return self.end(Outcome::Failed(Failure::Flush));
                }
                match self.expected {
                    Some(expected) => if expected != done {
                        let failure = Failure::Size { done, expected };
                        self.stage = Stage::Ended(Outcome::Failed(failure));
                        vec![Action::RemovePart, Action::Return(Outcome::Failed(failure))]
                    } else {
                        self.go(Stage::Promoting { done }, Action::Promote)
                    },
                    None => self.go(Stage::Promoting { done }, Action::Promote),
                }
            },
            (Stage::Promoting { .. }, Input::Promoted(ok)) => if ok {
                self.end(Outcome::Ready)
            } else {
                self.end(Outcome::Failed(Failure::Promote))
            },
            _ => Vec::new(),
        }
    }
}

/// What a run of inputs does to a download and to the part file: the length of the
/// part file is what was appended to it since it was created or found.
pub ghost struct Run {
    pub download: Download,
    /// The length of the part file.
    pub part: int,
    /// The length of the file under its final name.
    pub file: Option<int>,
}

/// What one input means for the files on disk, when the actions do what they say.
pub open spec fn on_disk(run: Run, input: Input) -> Run {
    let next = run.download.after(input).0;
    match (run.download.stage, input) {
        (Stage::Inspecting, Input::Existing(length)) => Run {
            download: next,
            file: match length {
                Some(n) => Some(n as int),
                None => None,
            },
            ..run
        },
        (Stage::Probing, Input::Partial(length)) => Run {
            download: next,
            part: match length {
                Some(n) => n as int,
                None => 0,
            },
            ..run
        },
        (Stage::Requesting, Input::Answer(status)) => if status is Some {
            Run { download: next, part: 0, ..run }
        } else {
            Run { download: next, ..run }
        },
        (Stage::Writing { n, .. }, Input::Written(ok)) => if ok {
            Run { download: next, part: run.part + n, ..run }
        } else {
            Run { download: next, ..run }
        },
        (Stage::Promoting { .. }, Input::Promoted(ok)) => if ok {
            Run { download: next, file: Some(run.part), ..run }
        } else {
            Run { download: next, ..run }
        },
        _ => Run { download: next, ..run },
    }
}

/// What holds all through a download: the count of bytes is the length of the part
/// file, and a file is ready only if it is acceptable.
pub open spec fn sound(run: Run) -> bool {
    match run.download.stage {
        Stage::Resuming { from } => from > 0 && run.part == from,
        Stage::Opening { from } => run.part == from,
        Stage::Reading { done } => run.part == done,
        Stage::Writing { done, n } => run.part == done && n > 0 && done + n <= u64::MAX,
        Stage::Flushing { done } => run.part == done,
        Stage::Promoting { done } => run.part == done && (run.download.expected matches Some(size)
            ==> done == size),
        Stage::Ended(Outcome::Ready) => match run.download.expected {
            Some(size) => run.file == Some(size as int),
            None => run.file is Some,
        },
        _ => true,
    }
}

/// Every step of a download keeps the count of bytes equal to the length of the
/// part file, also after a resume, and a download that ends ready leaves a file of
/// exactly the expected size where that is known.
pub proof fn ready_files_are_exact(run: Run, input: Input)
    requires
        sound(run),
        run.download.stage matches Stage::Reading { done } ==> (input matches Input::Bytes {
            n,
            ..
        } ==> done + n <= u64::MAX),
    ensures
        sound(on_disk(run, input)),
{
}

/// A download that has ended stays as it is.
pub proof fn ended_downloads_stay_ended(download: Download, input: Input)
    requires
        download.stage is Ended,
    ensures
        download.after(input) == (download, Seq::<Action>::empty()),
{
}

/// What an earlier attempt left is used only if the server sends the rest of the
/// file; otherwise it is removed and the file is asked for from its beginning.
pub proof fn resumes_need_partial_content(download: Download, from: u64, status: Option<u16>)
    requires
        download.stage == (Stage::Resuming { from }),
    ensures
        status == Some(206u16) ==> download.after(Input::Answer(status)).0.stage
            == (Stage::Opening { from }),
        status != Some(206u16) ==> download.after(Input::Answer(status)).1 == seq![
            Action::RemovePart,
            Action::Request,
        ],
{
}

/// A file of the wrong size is never kept: its part file is removed.
pub proof fn wrong_sizes_are_removed(download: Download, done: u64, expected: u64)
    requires
        download.stage == (Stage::Flushing { done }),
        download.expected == Some(expected),
        done != expected,
    ensures
        ({
            let (next, actions) = download.after(Input::Flushed(true));
            &&& next.stage == Stage::Ended(Outcome::Failed(Failure::Size { done, expected }))
            &&& actions[0] == Action::RemovePart
        }),
{
}

/// The part file of a download.
pub fn part_path(final_path: &str) -> (path: String)
    ensures
        path@ == final_path@ + ".part"@,
{
    joined(final_path, ".part")
}

/// What happened to the download of a model.
#[derive(Clone, Copy, Debug, PartialEq, Eq, Structural)]
pub enum FileEvent {
    /// The file is there; `length` is its length on disk.
    Ready { length: u64, cancelled: bool },
    Cancelled,
    Failed,
}

/// What is done next for a model.
#[derive(Clone, Copy, Debug, PartialEq, Eq, Structural)]
pub enum ModelStep {
    /// Download the file with this index.
    File { index: usize, expected: Option<u64> },
    Done,
    Cancelled,
    Failed,
}

/// The download of the files of a model, one after another.
#[derive(Debug)]
pub struct ModelFetch {
    /// The sizes that the server reports.
    pub sizes: Vec<Option<u64>>,
    /// The file that is under way.
    pub index: usize,
    pub aggregate: Aggregate,
}

/// The bytes that a file counts for: its known size, or its length on disk.
pub open spec fn counted(size: Option<u64>, length: u64) -> u64 {
    match size {
        Some(n) => n,
        None => length,
    }
}

impl ModelFetch {
    /// The step that follows once `index` files are there.
    pub open spec fn step_at(sizes: Seq<Option<u64>>, index: int, cancelled: bool) -> ModelStep {
        if index == sizes.len() {
            ModelStep::Done
        } else if cancelled {
            ModelStep::Cancelled
        } else {
            ModelStep::File { index: index as usize, expected: sizes[index] }
        }
    }

    /// Begins the download of a model whose files have these sizes.
    pub fn begin(sizes: Vec<Option<u64>>, cancelled: bool) -> (r: (ModelFetch, ModelStep))
        requires
            crate::asr::fetch::known_sum(sizes@) <= u64::MAX,
        ensures
            r.0.sizes@ == sizes@,
            r.0.index == 0,
            r.0.aggregate.total == crate::asr::fetch::known_sum(sizes@),
            r.0.aggregate.completed == 0,
            r.1 == ModelFetch::step_at(sizes@, 0, cancelled),
    {
        let total: u64 = sum_known(sizes.as_slice());
        let aggregate = Aggregate::new(total);
        let step = if sizes.len() == 0 {
            ModelStep::Done
        } else if cancelled {
            ModelStep::Cancelled
        } else {
            ModelStep::File { index: 0, expected: sizes[0] }
        };
        (ModelFetch { sizes, index: 0, aggregate }, step)
    }

    /// Takes in how the download of the current file went.
    pub fn next(&mut self, event: FileEvent) -> (step: ModelStep)
        requires
            old(self).index < old(self).sizes@.len(),
            event matches FileEvent::Ready { length, .. } ==> old(self).aggregate.completed
                + counted(old(self).sizes@[old(self).index as int], length) <= u64::MAX,
        ensures
            final(self).sizes@ == old(self).sizes@,
            match event {
                FileEvent::Ready { length, cancelled } => {
                    &&& final(self).index == old(self).index + 1
                    &&& final(self).aggregate == (Aggregate {
                        completed: (old(self).aggregate.completed + counted(
                            old(self).sizes@[old(self).index as int],
                            length,
                        )) as u64,
                        ..old(self).aggregate
                    })
                    &&& step == ModelFetch::step_at(
                        old(self).sizes@,
                        old(self).index + 1,
                        cancelled,
                    )
                },
                FileEvent::Cancelled => *final(self) == *old(self) && step == ModelStep::Cancelled,
                FileEvent::Failed => *final(self) == *old(self) && step == ModelStep::Failed,
            },
    {
        match event {
            FileEvent::Ready { length, cancelled } => {
                let bytes: u64 = match self.sizes[self.index] {
                    Some(size) => size,
                    None => length,
                };
                let count: usize = self.sizes.len();
                self.aggregate.finish_file(bytes);
                self.index = self.index + 1;
                if self.index == count {
                    ModelStep::Done
                } else if cancelled {
                    ModelStep::Cancelled
                } else {
                    ModelStep::File { index: self.index, expected: self.sizes[self.index] }
                }
            },
            FileEvent::Cancelled => ModelStep::Cancelled,
            FileEvent::Failed => ModelStep::Failed,
        }
    }
}

/// Where the sizes of all files are known, the bytes that are counted once `k` files
/// are there are the sizes of those files, so that a finished model counts exactly
/// its total.
pub proof fn finished_files_add_up(sizes: Seq<Option<u64>>, lengths: Seq<u64>, k: int)
    requires
        0 <= k <= sizes.len(),
        lengths.len() == sizes.len(),
        crate::asr::fetch::all_known(sizes),
    ensures
        counted_sum(sizes, lengths, k) == crate::asr::fetch::known_sum(sizes.subrange(0, k)),
        counted_sum(sizes, lengths, sizes.len() as int) == crate::asr::fetch::known_sum(sizes),
    decreases k,
{
    counted_is_known(sizes, lengths, k);
    counted_is_known(sizes, lengths, sizes.len() as int);
    assert(sizes.subrange(0, sizes.len() as int) =~= sizes);
}

/// What the first `k` files count for.
pub open spec fn counted_sum(sizes: Seq<Option<u64>>, lengths: Seq<u64>, k: int) -> nat
    decreases k,
{
    if k <= 0 {
        0
    } else {
        counted_sum(sizes, lengths, k - 1) + counted(sizes[k - 1], lengths[k - 1]) as nat
    }
}

proof fn counted_is_known(sizes: Seq<Option<u64>>, lengths: Seq<u64>, k: int)
    requires
        0 <= k <= sizes.len(),
        lengths.len() == sizes.len(),
        crate::asr::fetch::all_known(sizes),
    ensures
        counted_sum(sizes, lengths, k) == crate::asr::fetch::known_sum(sizes.subrange(0, k)),
    decreases k,
{
    if k > 0 {
        counted_is_known(sizes, lengths, k - 1);
        assert(sizes.subrange(0, k).drop_last() =~= sizes.subrange(0, k - 1));
        assert(sizes[k - 1] is Some);
    }
}

/// Begins the download of a file of a model: where it comes from, where it goes to,
/// and what is done first.
pub fn ensure_file(
    spec: &ModelSpec,
    root: &str,
    file: &str,
    expected: Option<u64>,
    cancelled: bool,
) -> (r: (String, String, Download, Vec<Action>))
    ensures
        r.0@ == crate::asr::fetch::url_of(spec.repo@, file@),
        r.1@ == crate::paths::path_in(crate::paths::path_in(root@, spec.id@), file@),
        (r.2, r.3@) == Download::begun(expected, cancelled),
{
    let dir = cached_model_dir(root, spec.id);
    let (download, actions) = Download::begin(expected, cancelled);
    (file_url(spec, file), join(dir.as_str(), file), download, actions)
}

/// How an attempt to remove a directory went.
#[derive(Clone, Copy, Debug, PartialEq, Eq, Structural)]
pub enum DirRemoval {
    Removed,
    Missing,
    Failed,
}

/// How often a directory that is in use is tried once more.
pub const REMOVE_RETRIES: u32 = 10;

/// What to do after an attempt to remove a directory.
#[derive(Debug)]
pub enum RemoveStep {
    Done,
    /// Wait, and try once more.
    Retry,
    Failed(String),
}

/// What to do after an attempt to remove a directory; `retries` were made before it.
/// What is not there needs no removing.
pub fn remove_dir_all_retrying(retries: u32, removal: DirRemoval, dir: &str, detail: &str) -> (step:
    RemoveStep)
    requires
        retries <= REMOVE_RETRIES,
    ensures
        step is Done <==> removal == DirRemoval::Removed || (removal == DirRemoval::Missing
            && retries == 0),
        step is Retry <==> !(step is Done) && retries < REMOVE_RETRIES,
        step matches RemoveStep::Failed(text) ==> text@ == "removing "@ + dir@ + ": "@ + detail@,
{
    match removal {
        DirRemoval::Removed => RemoveStep::Done,
        DirRemoval::Missing if retries == 0 => RemoveStep::Done,
        _ => if retries < REMOVE_RETRIES {
            RemoveStep::Retry
        } else {
            let mut text = joined("removing ", dir);
            text.push_str(": ");
            text.push_str(detail);
            RemoveStep::Failed(text)
        },
    }
}

/// A file that is there already is kept exactly where it has the expected size, or any
/// bytes at all where no size is known; nothing is requested then. Any other file is
/// fetched, from where a part of it ends, or from the start where there is none.
pub proof fn sound_files_are_kept(download: Download, length: Option<u64>, part: Option<u64>)
    requires
        download.stage is Inspecting,
    ensures
        ({
            let (next, actions) = download.after(Input::Existing(length));
            let keeps = match (length, download.expected) {
                (Some(n), Some(size)) => n == size,
                (Some(n), None) => n > 0,
                (None, _) => false,
            };
            let (asked, request) = next.after(Input::Partial(part));
            &&& keeps ==> next.stage == Stage::Ended(Outcome::Ready) && actions == seq![
                Action::Return(Outcome::Ready),
            ]
            &&& !keeps ==> {
                &&& actions == seq![Action::ProbePart]
                &&& match part {
                    Some(from) if from > 0 => request == seq![Action::RequestFrom(from)]
                        && asked.stage == (Stage::Resuming { from }),
                    _ => request == seq![Action::Request] && asked.stage is Requesting,
                }
            }
        }),
{
}

/// The state after pieces of these sizes were read and written.
pub open spec fn after_pieces(download: Download, pieces: Seq<u64>) -> Download
    decreases pieces.len(),
{
    if pieces.len() == 0 {
        download
    } else {
        let before = after_pieces(download, pieces.drop_last());
        before.after(Input::Bytes { n: pieces.last(), cancelled: false }).0.after(
            Input::Written(true),
        ).0
    }
}

/// The total of some sizes.
pub open spec fn total_of(pieces: Seq<u64>) -> nat
    decreases pieces.len(),
{
    if pieces.len() == 0 {
        0
    } else {
        total_of(pieces.drop_last()) + pieces.last() as nat
    }
}

proof fn pieces_add_up(download: Download, from: u64, pieces: Seq<u64>)
    requires
        download.stage == (Stage::Reading { done: from }),
        forall|i: int| 0 <= i < pieces.len() ==> #[trigger] pieces[i] > 0,
        from + total_of(pieces) <= u64::MAX,
    ensures
        after_pieces(download, pieces) == (Download {
            stage: Stage::Reading { done: (from + total_of(pieces)) as u64 },
            ..download
        }),
    decreases pieces.len(),
{
    if pieces.len() > 0 {
        let before = pieces.drop_last();
        assert forall|i: int| 0 <= i < before.len() implies #[trigger] before[i] > 0 by {
            assert(before[i] == pieces[i]);
        }
        assert(pieces[pieces.len() - 1] > 0);
        pieces_add_up(download, from, before);
    }
}

/// However many pieces a transfer comes in, it is ready once they are written, flushed and
/// moved into place, if together with what was there before they make the expected size,
/// or none is known.
pub proof fn whole_transfers_are_ready(download: Download, from: u64, pieces: Seq<u64>)
    requires
        download.stage == (Stage::Opening { from }),
        forall|i: int| 0 <= i < pieces.len() ==> #[trigger] pieces[i] > 0,
        from + total_of(pieces) <= u64::MAX,
        download.expected matches Some(size) ==> size == from + total_of(pieces),
    ensures
        ({
            let (open, reading) = download.after(Input::Opened(true));
            let read = after_pieces(open, pieces);
            let (ended, flushing) = read.after(Input::Bytes { n: 0, cancelled: false });
            let (flushed, promoting) = ended.after(Input::Flushed(true));
            let (done, returning) = flushed.after(Input::Promoted(true));
            &&& reading == seq![Action::Read]
            &&& flushing == seq![Action::Flush]
            &&& promoting == seq![Action::Promote]
            &&& done.stage == Stage::Ended(Outcome::Ready)
            &&& returning == seq![Action::Return(Outcome::Ready)]
        }),
{
    pieces_add_up(download.after(Input::Opened(true)).0, from, pieces);
}

/// Each piece that is read is written as a whole and, once that went well, reported with
/// all that was there before; a piece that comes after a cancellation is not.
pub proof fn pieces_are_written_and_reported(download: Download, done: u64, n: u64)
    requires
        download.stage == (Stage::Reading { done }),
        n > 0,
        done + n <= u64::MAX,
    ensures
        ({
            let (writing, actions) = download.after(Input::Bytes { n, cancelled: false });
            let (reading, reports) = writing.after(Input::Written(true));
            let (stopped, ending) = download.after(Input::Bytes { n, cancelled: true });
            &&& actions == seq![Action::Write { n }]
            &&& reports == seq![Action::Report((done + n) as u64), Action::Read]
            &&& reading.stage == (Stage::Reading { done: (done + n) as u64 })
            &&& stopped.stage == Stage::Ended(Outcome::Cancelled)
            &&& ending == seq![Action::Return(Outcome::Cancelled)]
        }),
{
}

/// A request that is answered opens the file: a new one, or the part where the rest of it
/// is sent. The size is asked for where none is given, and taken as it is answered, and a
/// download that is cancelled before it begins does nothing.
pub proof fn answered_requests_open_the_file(
    download: Download,
    status: u16,
    size: Option<u64>,
    expected: Option<u64>,
)
    ensures
        download.stage is Requesting ==> {
            let (next, actions) = download.after(Input::Answer(Some(status)));
            &&& next.stage == (Stage::Opening { from: 0 })
            &&& actions == seq![Action::CreatePart]
        },
        download.stage matches Stage::Resuming { from } ==> {
            let (next, actions) = download.after(Input::Answer(Some(206)));
            &&& next.stage == (Stage::Opening { from })
            &&& actions == seq![Action::AppendPart]
        },
        download.stage is Sizing ==> download.after(Input::Sized(size)).0 == (Download {
            expected: size,
            stage: Stage::Preparing,
        }),
        download.stage is Preparing ==> download.after(Input::Prepared(true)).1 == seq![
            Action::InspectFile,
        ],
        Download::begun(expected, true).1 == seq![Action::Return(Outcome::Cancelled)],
        Download::begun(expected, false).1 == (if expected is Some {
            seq![Action::PrepareDir]
        } else {
            seq![Action::AskSize]
        }),
        Download::begun(expected, false).0.expected == expected,
{
}

/// Every step that fails ends the download with a failure that names the step.
pub proof fn failed_steps_are_named(download: Download)
    ensures
        ({
            let failed = |input: Input| download.after(input).0.stage;
            &&& download.stage is Preparing ==> failed(Input::Prepared(false)) == Stage::Ended(
                Outcome::Failed(Failure::CreateDir),
            )
            &&& download.stage is Requesting ==> failed(Input::Answer(None)) == Stage::Ended(
                Outcome::Failed(Failure::Request),
            )
            &&& download.stage matches Stage::Opening { from } ==> failed(Input::Opened(false))
                == Stage::Ended(
                Outcome::Failed(
                    if from > 0 {
                        Failure::OpenPart
                    } else {
                        Failure::CreatePart
                    },
                ),
            )
            &&& download.stage is Reading ==> failed(Input::StreamBroke) == Stage::Ended(
                Outcome::Failed(Failure::Stream),
            )
            &&& download.stage is Writing ==> failed(Input::Written(false)) == Stage::Ended(
                Outcome::Failed(Failure::Write),
            )
            &&& download.stage is Flushing ==> failed(Input::Flushed(false)) == Stage::Ended(
                Outcome::Failed(Failure::Flush),
            )
            &&& download.stage is Promoting ==> failed(Input::Promoted(false)) == Stage::Ended(
                Outcome::Failed(Failure::Promote),
            )
        }),
{
}

/// The files of a model are fetched one after another, each with its own size, until all
/// are there; a cancellation stops before the next one, but not behind the last.
pub proof fn model_files_come_in_order(sizes: Seq<Option<u64>>, index: int, cancelled: bool)
    requires
        0 <= index <= sizes.len() <= usize::MAX,
    ensures
        ({
            let step = ModelFetch::step_at(sizes, index, cancelled);
            &&& step is Done <==> index == sizes.len()
            &&& step is Cancelled <==> index < sizes.len() && cancelled
            &&& index < sizes.len() && !cancelled ==> step == (ModelStep::File {
                index: index as usize,
                expected: sizes[index],
            })
        }),
{
}

/// A folder that is gone is removed, also where it was gone before; one that could not be
/// removed is tried again as often as is allowed, and then told.
pub proof fn folders_are_removed_with_patience(
    retries: u32,
    removal: DirRemoval,
    dir: &str,
    detail: &str,
    step: RemoveStep,
)
    requires
        retries <= REMOVE_RETRIES,
        call_ensures(remove_dir_all_retrying, (retries, removal, dir, detail), step),
    ensures
        removal == DirRemoval::Removed ==> step is Done,
        removal == DirRemoval::Missing && retries == 0 ==> step is Done,
        !(step is Done) ==> (step is Retry <==> retries < REMOVE_RETRIES),
        step is Failed ==> crate::text::begins(step->Failed_0@, "removing "@ + dir@),
{
    if step is Failed {
        let text = step->Failed_0@;
        let start = "removing "@ + dir@;
        assert(text.subrange(0, start.len() as int) =~= start);
    }
}

/// A file counts with the size it was said to have, and else with its length.
pub proof fn files_count_with_their_size(size: u64, length: u64)
    ensures
        counted(Some(size), length) == size,
        counted(None, length) == length,
{
}

} // verus!
