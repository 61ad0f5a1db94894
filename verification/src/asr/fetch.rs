//! What is downloaded for a model, and how far a download has come. Clock readings
//! are in nanoseconds.
use crate::asr::model::{spec_by_id, ModelKind, ModelPaths, ModelSpec, REPO_OWNER};
use crate::paths::join;
use crate::text::{decimal, joined, owned, same_text};
use vstd::prelude::*;

verus! {

pub const HF_BASE: &'static str = "https://huggingface.co";

/// The names of the files of a model.
pub open spec fn files_of(id: Seq<char>) -> Seq<Seq<char>> {
    if id == "moonshine"@ {
        seq![
            "preprocess.onnx"@,
            "encode.int8.onnx"@,
            "uncached_decode.int8.onnx"@,
            "cached_decode.int8.onnx"@,
            "tokens.txt"@,
        ]
    } else {
        seq!["encoder.int8.onnx"@, "decoder.int8.onnx"@, "joiner.int8.onnx"@, "tokens.txt"@]
    }
}

/// The names of the files of the model with this id.
pub fn model_files(id: &str) -> (files: Vec<&'static str>)
    ensures
        files@.len() == files_of(id@).len(),
        forall|i: int| 0 <= i < files@.len() ==> (#[trigger] files@[i])@ == files_of(id@)[i],
{
    if same_text(id, "moonshine") {
        vec![
            "preprocess.onnx",
            "encode.int8.onnx",
            "uncached_decode.int8.onnx",
            "cached_decode.int8.onnx",
            "tokens.txt",
        ]
    } else {
        vec!["encoder.int8.onnx", "decoder.int8.onnx", "joiner.int8.onnx", "tokens.txt"]
    }
}

/// The address of a file of a model.
pub open spec fn url_of(repo: Seq<char>, file: Seq<char>) -> Seq<char> {
    HF_BASE@ + "/"@ + REPO_OWNER@ + "/"@ + repo + "/resolve/main/"@ + file
}

/// The address of a file of a model.
pub fn file_url(spec: &ModelSpec, file: &str) -> (url: String)
    ensures
        url@ == url_of(spec.repo@, file@),
{
    let mut url = owned(HF_BASE);
    url.push_str("/");
    url.push_str(REPO_OWNER);
    url.push_str("/");
    url.push_str(spec.repo);
    url.push_str("/resolve/main/");
    url.push_str(file);
    url
}

/// The paths of the files of the model with this id, in its directory.
pub open spec fn paths_in(id: Seq<char>, dir: Seq<char>, paths: ModelPaths) -> bool {
    let files = files_of(id);
    match paths {
        ModelPaths::Moonshine {
            preprocessor,
            encoder,
            uncached_decoder,
            cached_decoder,
            tokens,
        } => {
            &&& id == "moonshine"@
            &&& preprocessor@ == crate::paths::path_in(dir, files[0])
            &&& encoder@ == crate::paths::path_in(dir, files[1])
            &&& uncached_decoder@ == crate::paths::path_in(dir, files[2])
            &&& cached_decoder@ == crate::paths::path_in(dir, files[3])
            &&& tokens@ == crate::paths::path_in(dir, files[4])
        },
        ModelPaths::Nemotron { encoder, decoder, joiner, tokens } => {
            &&& id != "moonshine"@
            &&& encoder@ == crate::paths::path_in(dir, files[0])
            &&& decoder@ == crate::paths::path_in(dir, files[1])
            &&& joiner@ == crate::paths::path_in(dir, files[2])
            &&& tokens@ == crate::paths::path_in(dir, files[3])
        },
    }
}

/// The paths of the files of the model with this id, in its directory.
pub fn model_paths(id: &str, dir: &str) -> (paths: ModelPaths)
    ensures
        paths_in(id@, dir@, paths),
{
    let files = model_files(id);
    if same_text(id, "moonshine") {
        ModelPaths::Moonshine {
            preprocessor: join(dir, files[0]),
            encoder: join(dir, files[1]),
            uncached_decoder: join(dir, files[2]),
            cached_decoder: join(dir, files[3]),
            tokens: join(dir, files[4]),
        }
    } else {
        ModelPaths::Nemotron {
            encoder: join(dir, files[0]),
            decoder: join(dir, files[1]),
            joiner: join(dir, files[2]),
            tokens: join(dir, files[3]),
        }
    }
}

/// The files of an engine belong to that engine.
pub proof fn paths_belong_to_their_engine(kind: ModelKind, dir: Seq<char>, paths: ModelPaths)
    requires
        paths_in(kind.id_text(), dir, paths),
    ensures
        paths.kind() == kind,
{
    reveal_strlit("moonshine");
    reveal_strlit("nemotron");
    assert("moonshine"@.len() != "nemotron"@.len());
}

/// The directory that holds the models: the one of this app, unless only the one
/// of its predecessor exists.
pub open spec fn root_of(
    config_dir: Seq<char>,
    exists: bool,
    appdata: Option<Seq<char>>,
    legacy_exists: bool,
) -> Option<Seq<char>> {
    let current = crate::paths::path_in(config_dir, "models"@);
    if exists {
        Some(current)
    } else {
        match appdata {
            Some(dir) => Some(
                if legacy_exists {
                    crate::paths::path_in(dir, "raycast-dictation/models"@)
                } else {
                    current
                },
            ),
            None => None,
        }
    }
}

/// The directory that holds the models, given whether it exists, the application
/// data directory and whether the predecessor's directory exists in it; `None`
/// where neither is known.
pub fn models_root(config_dir: &str, exists: bool, appdata: Option<&str>, legacy_exists: bool) -> (
    root: Option<String>)
    ensures
        crate::text::opt_text(root) == root_of(
            config_dir@,
            exists,
            match appdata {
                Some(dir) => Some(dir@),
                None => None,
            },
            legacy_exists,
        ),
{
    let current = join(config_dir, "models");
    if exists {
        return Some(current);
    }
    match appdata {
        Some(dir) => if legacy_exists {
            Some(join(dir, "raycast-dictation/models"))
        } else {
            Some(current)
        },
        None => None,
    }
}

/// The directory of a model under the models directory.
pub fn cached_model_dir(root: &str, id: &str) -> (dir: String)
    ensures
        dir@ == crate::paths::path_in(root@, id@),
{
    join(root, id)
}

/// The directory of an engine's model under the models directory.
pub fn cache_dir_for(root: &str, kind: ModelKind) -> (dir: Option<String>)
    ensures
        dir matches Some(d) && d@ == crate::paths::path_in(root@, kind.id_text()),
{
    Some(cached_model_dir(root, kind.id()))
}

/// The directory that is removed with an engine's model: the same one.
pub fn repo_cache_dir_for(root: &str, kind: ModelKind) -> (dir: Option<String>)
    ensures
        dir matches Some(d) && d@ == crate::paths::path_in(root@, kind.id_text()),
{
    Some(cached_model_dir(root, kind.id()))
}

/// The sum of the sizes that are known.
pub open spec fn known_sum(sizes: Seq<Option<u64>>) -> nat
    decreases sizes.len(),
{
    if sizes.len() == 0 {
        0
    } else {
        known_sum(sizes.drop_last()) + match sizes.last() {
            Some(size) => size as nat,
            None => 0,
        }
    }
}

/// Whether every size is known.
pub open spec fn all_known(sizes: Seq<Option<u64>>) -> bool {
    forall|i: int| 0 <= i < sizes.len() ==> #[trigger] sizes[i] is Some
}

proof fn known_sum_grows(sizes: Seq<Option<u64>>, k: int)
    requires
        0 <= k <= sizes.len(),
    ensures
        known_sum(sizes.subrange(0, k)) <= known_sum(sizes),
    decreases sizes.len(),
{
    if k == sizes.len() {
        assert(sizes.subrange(0, k) =~= sizes);
    } else {
        known_sum_grows(sizes.drop_last(), k);
        assert(sizes.drop_last().subrange(0, k) =~= sizes.subrange(0, k));
    }
}

/// The sum of the sizes that are known.
pub fn sum_known(sizes: &[Option<u64>]) -> (sum: u64)
    requires
        known_sum(sizes@) <= u64::MAX,
    ensures
        sum == known_sum(sizes@),
{
    let mut sum: u64 = 0;
    let mut i: usize = 0;
    assert(sizes@.subrange(0, 0) =~= Seq::empty());
    while i < sizes.len()
        invariant
            i <= sizes.len(),
            known_sum(sizes@) <= u64::MAX,
            sum == known_sum(sizes@.subrange(0, i as int)),
        decreases sizes.len() - i,
    {
        proof {
            known_sum_grows(sizes@, i + 1);
            assert(sizes@.subrange(0, i + 1).drop_last() =~= sizes@.subrange(0, i as int));
        }
        if let Some(size) = sizes[i] {
            sum += size;
        }
        i += 1;
    }
    assert(sizes@.subrange(0, i as int) =~= sizes@);
    sum
}

/// The size of a model, given the sizes that the server reports of its files; not
/// known unless all of them are.
pub fn total_size(sizes: &[Option<u64>]) -> (total: Option<u64>)
    requires
        known_sum(sizes@) <= u64::MAX,
    ensures
        total == (if all_known(sizes@) {
            Some(known_sum(sizes@) as u64)
        } else {
            None
        }),
{
    let mut i: usize = 0;
    while i < sizes.len()
        invariant
            i <= sizes.len(),
            forall|k: int| 0 <= k < i ==> #[trigger] sizes@[k] is Some,
        decreases sizes.len() - i,
    {
        if sizes[i].is_none() {
            assert(!(sizes@[i as int] is Some));
            return None;
        }
        i += 1;
    }
    Some(sum_known(sizes))
}

/// Whether a file with this length is there and not empty.
pub open spec fn nonempty(length: Option<u64>) -> bool {
    match length {
        Some(n) => n > 0,
        None => false,
    }
}

/// Whether every file is there and not empty. A length is `None` where the file is
/// missing or not a file.
pub open spec fn complete(lengths: Seq<Option<u64>>) -> bool {
    forall|i: int| 0 <= i < lengths.len() ==> nonempty(#[trigger] lengths[i])
}

/// Whether every file is there and not empty.
pub fn dir_complete(lengths: &[Option<u64>]) -> (r: bool)
    ensures
        r == complete(lengths@),
{
    let mut i: usize = 0;
    while i < lengths.len()
        invariant
            i <= lengths.len(),
            forall|k: int| 0 <= k < i ==> nonempty(#[trigger] lengths@[k]),
        decreases lengths.len() - i,
    {
        let there = match lengths[i] {
            Some(n) => n > 0,
            None => false,
        };
        if !there {
            assert(!nonempty(lengths@[i as int]));
            return false;
        }
        i += 1;
    }
    true
}

/// Whether a model is downloaded, given the lengths of its files.
pub fn is_spec_cached(spec: &ModelSpec, lengths: &[Option<u64>]) -> (r: bool)
    requires
        lengths@.len() == files_of(spec.id@).len(),
    ensures
        r == complete(lengths@),
{
    dir_complete(lengths)
}

/// Whether the model with this id is in the registry and downloaded, given the
/// lengths of its files.
pub fn is_model_cached(spec_id: &str, lengths: &[Option<u64>]) -> (r: bool)
    requires
        lengths@.len() == files_of(spec_id@).len(),
    ensures
        r == (crate::asr::model::kind_of_id(spec_id@) is Some && complete(lengths@)),
{
    match spec_by_id(spec_id) {
        Some(spec) => is_spec_cached(spec, lengths),
        None => false,
    }
}

/// `n` bytes in whole megabytes, rounded.
pub open spec fn megabytes(n: int) -> int {
    (n + 500_000) / 1_000_000
}

/// How much of a download is done, in percent.
pub open spec fn percent(done: u64, total: u64) -> int {
    let p = done as int * 100 / total as int;
    if p > 100 {
        100
    } else {
        p
    }
}

/// The wording of how far a download has come.
pub open spec fn summary(done: u64, total: u64) -> Seq<char> {
    if total == 0 {
        "? MB"@
    } else {
        crate::text::decimal_of(percent(done, total) as nat) + "% \u{b7} "@
            + crate::text::decimal_of(megabytes(done as int) as nat) + "/"@
            + crate::text::decimal_of(megabytes(total as int) as nat) + " MB"@
    }
}

fn whole_megabytes(n: u64) -> (mb: u64)
    ensures
        mb == megabytes(n as int),
{
    ((n as u128 + 500_000) / 1_000_000) as u64
}

/// The wording of how far a download has come.
pub fn mb_summary(done: u64, total: u64) -> (text: String)
    requires
        done * 100 <= u64::MAX,
    ensures
        text@ == summary(done, total),
{
    if total == 0 {
        return owned("? MB");
    }
    let p: u64 = done * 100 / total;
    let shown: u64 = if p > 100 {
        100
    } else {
        p
    };
    let mut text = decimal(shown);
    text.push_str("% \u{b7} ");
    text.push_str(decimal(whole_megabytes(done)).as_str());
    text.push_str("/");
    text.push_str(decimal(whole_megabytes(total)).as_str());
    text.push_str(" MB");
    text
}

/// A part of a status line, set off by a dot; nothing where there is none.
pub open spec fn part_of(part: Option<Seq<char>>) -> Seq<char> {
    match part {
        Some(part) => " \u{b7} "@ + part,
        None => Seq::empty(),
    }
}

fn push_part(text: &mut String, part: Option<&str>)
    ensures
        final(text)@ == old(text)@ + part_of(
            match part {
                Some(part) => Some(part@),
                None => None,
            },
        ),
{
    if let Some(part) = part {
        text.push_str(" \u{b7} ");
        text.push_str(part);
        assert(text@ =~= old(text)@ + (" \u{b7} "@ + part@));
    } else {
        assert(text@ =~= old(text)@ + Seq::<char>::empty());
    }
}

/// How far a download has come.
#[derive(Debug)]
pub struct DownloadProgress {
    pub file: String,
    pub done: u64,
    pub total: u64,
    /// Bytes and nanoseconds since the last measurement, where one is due.
    pub measured: Option<RateSample>,
}

/// The message that a download is under way.
pub open spec fn progress_wording(display_name: Seq<char>, progress: DownloadProgress) -> Seq<char> {
    "Downloading "@ + display_name + " \u{2014} "@ + summary(progress.done, progress.total) + " ("@
        + progress.file@ + ")"@
}

/// The message that a download is under way.
pub fn progress_text(display_name: &str, progress: &DownloadProgress) -> (text: String)
    requires
        progress.done * 100 <= u64::MAX,
    ensures
        text@ == progress_wording(display_name@, *progress),
{
    let mut text = joined("Downloading ", display_name);
    text.push_str(" \u{2014} ");
    text.push_str(mb_summary(progress.done, progress.total).as_str());
    text.push_str(" (");
    text.push_str(progress.file.as_str());
    text.push_str(")");
    text
}

/// The message that a download is under way, with its speed and the time left where
/// they are known.
pub fn progress_status(
    display_name: &str,
    progress: &DownloadProgress,
    speed: Option<&str>,
    eta: Option<&str>,
) -> (text: String)
    requires
        progress.done * 100 <= u64::MAX,
    ensures
        text@ == "Downloading "@ + display_name@ + " \u{2014} "@ + summary(
            progress.done,
            progress.total,
        ) + part_of(
            match speed {
                Some(part) => Some(part@),
                None => None,
            },
        ) + part_of(
            match eta {
                Some(part) => Some(part@),
                None => None,
            },
        ) + " ("@ + progress.file@ + ")"@,
{
    let mut text = joined("Downloading ", display_name);
    text.push_str(" \u{2014} ");
    text.push_str(mb_summary(progress.done, progress.total).as_str());
    push_part(&mut text, speed);
    push_part(&mut text, eta);
    text.push_str(" (");
    text.push_str(progress.file.as_str());
    text.push_str(")");
    text
}

/// How far a download has come, with its speed and the time left where they are
/// known.
pub fn progress_summary(done: u64, total: u64, speed: Option<&str>, eta: Option<&str>) -> (text:
    String)
    requires
        done * 100 <= u64::MAX,
    ensures
        text@ == summary(done, total) + part_of(
            match speed {
                Some(part) => Some(part@),
                None => None,
            },
        ) + part_of(
            match eta {
                Some(part) => Some(part@),
                None => None,
            },
        ),
{
    let mut text = mb_summary(done, total);
    push_part(&mut text, speed);
    push_part(&mut text, eta);
    text
}

/// A moment of a download.
#[derive(Clone, Copy, Debug, PartialEq, Eq, Structural)]
pub struct EtaSample {
    pub at: u64,
    pub done: u64,
}

/// Moments of a download that are closer together than this are not kept apart.
pub const ETA_INTERVAL: u64 = 250_000_000;

/// So many moments of a download are kept.
pub const ETA_CAPACITY: usize = 32;

/// Moments older than this do not count for the time left.
pub const ETA_WINDOW: u64 = 10_000_000_000;

/// The moments must be this far apart before a time is named.
pub const ETA_SPAN: u64 = 2_000_000_000;

/// The time from `a` to `b`, or none if `b` is not later.
pub open spec fn since(a: u64, b: u64) -> int {
    if b >= a {
        b - a
    } else {
        0
    }
}

/// The moments within the window before the last one.
pub open spec fn recent(samples: Seq<EtaSample>, last: u64) -> Seq<EtaSample>
    decreases samples.len(),
{
    if samples.len() == 0 {
        Seq::empty()
    } else {
        let rest = recent(samples.drop_last(), last);
        if since(samples.last().at, last) <= ETA_WINDOW {
            rest.push(samples.last())
        } else {
            rest
        }
    }
}

/// `n / d`, rounded to the nearest whole number, halves up.
pub open spec fn rounded(n: int, d: int) -> int {
    (2 * n + d) / (2 * d)
}

/// The whole seconds left: what remains at the pace between the first recent moment
/// and the last, or none if that cannot be told yet.
pub open spec fn seconds_left(samples: Seq<EtaSample>, done: u64, total: u64) -> Option<int> {
    if samples.len() == 0 {
        None
    } else {
        let last = samples.last();
        let window = recent(samples, last.at);
        let first = window[0];
        let span = since(first.at, last.at);
        if window.len() < 2 || span < ETA_SPAN || last.done <= first.done {
            None
        } else {
            let remaining = since(done, total);
            let seconds = rounded(
                remaining * span,
                (last.done - first.done) * 1_000_000_000,
            );
            Some(
                if seconds > u64::MAX {
                    u64::MAX as int
                } else {
                    seconds
                },
            )
        }
    }
}

/// The wording of a time left.
pub open spec fn time_left(seconds: nat) -> Seq<char> {
    if seconds < 60 {
        "~"@ + crate::text::decimal_of(seconds) + "s left"@
    } else {
        "~"@ + crate::text::decimal_of(seconds / 60) + "m "@ + crate::text::decimal_of(
            seconds % 60,
        ) + "s left"@
    }
}

/// The wording of a time left.
pub fn format_seconds(seconds: u64) -> (text: String)
    ensures
        text@ == time_left(seconds as nat),
{
    let mut text = owned("~");
    if seconds < 60 {
        text.push_str(decimal(seconds).as_str());
    } else {
        text.push_str(decimal(seconds / 60).as_str());
        text.push_str("m ");
        text.push_str(decimal(seconds % 60).as_str());
    }
    text.push_str("s left");
    text
}

/// The wording of the time left, or `None` if it cannot be told yet.
pub open spec fn eta_text(samples: Seq<EtaSample>, done: u64, total: u64) -> Option<Seq<char>> {
    match seconds_left(samples, done, total) {
        Some(seconds) => Some(time_left(seconds as nat)),
        None => None,
    }
}

/// The time left, from the pace of the recent moments.
pub fn eta_left(samples: &[EtaSample], done: u64, total: u64) -> (text: Option<String>)
    ensures
        crate::text::opt_text(text) == eta_text(samples@, done, total),
{
    let n: usize = samples.len();
    if n == 0 {
        return None;
    }
    let last = samples[n - 1];
    let mut window: Vec<EtaSample> = Vec::new();
    let mut i: usize = 0;
    assert(samples@.subrange(0, 0) =~= Seq::empty());
    while i < n
        invariant
            i <= n,
            n == samples.len(),
            window@ == recent(samples@.subrange(0, i as int), last.at),
        decreases n - i,
    {
        assert(samples@.subrange(0, i + 1).drop_last() =~= samples@.subrange(0, i as int));
        let sample = samples[i];
        let age: u64 = last.at.saturating_sub(sample.at);
        if age <= ETA_WINDOW {
            window.push(sample);
        }
        i += 1;
    }
    assert(samples@.subrange(0, n as int) =~= samples@);
    if window.len() < 2 {
        return None;
    }
    let first = window[0];
    let span: u64 = last.at.saturating_sub(first.at);
    proof {
        recent_is_recent(samples@, last.at);
        assert(window@[0] == first);
    }
    if span < ETA_SPAN || last.done <= first.done {
        return None;
    }
    let delta: u64 = last.done - first.done;
    let remaining: u64 = total.saturating_sub(done);
    proof {
        assert(remaining as int * span as int <= 0xffff_ffff_ffff_ffff * 10_000_000_000)
            by (nonlinear_arith)
            requires
                remaining <= 0xffff_ffff_ffff_ffff,
                span <= 10_000_000_000,
        ;
    }
    let work: u128 = remaining as u128 * span as u128;
    let pace: u128 = delta as u128 * 1_000_000_000;
    let seconds: u128 = (2 * work + pace) / (2 * pace);
    let whole: u64 = if seconds > u64::MAX as u128 {
        u64::MAX
    } else {
        seconds as u64
    };
    Some(format_seconds(whole))
}

proof fn recent_is_recent(samples: Seq<EtaSample>, last: u64)
    ensures
        forall|i: int|
            0 <= i < recent(samples, last).len() ==> since(
                (#[trigger] recent(samples, last)[i]).at,
                last,
            ) <= ETA_WINDOW,
    decreases samples.len(),
{
    if samples.len() > 0 {
        recent_is_recent(samples.drop_last(), last);
        let rest = recent(samples.drop_last(), last);
        assert forall|i: int| 0 <= i < recent(samples, last).len() implies since(
            (#[trigger] recent(samples, last)[i]).at,
            last,
        ) <= ETA_WINDOW by {
            if i < rest.len() {
                assert(rest[i] == recent(samples, last)[i]);
            }
        }
    }
}

/// Keeps the moments of a download that the time left is told from.
#[derive(Debug)]
pub struct EtaTracker {
    pub samples: Vec<EtaSample>,
}

impl View for EtaTracker {
    type V = Seq<EtaSample>;

    open spec fn view(&self) -> Seq<EtaSample> {
        self.samples@
    }
}

/// The moments that are kept after another one: it is passed over if it is too close
/// to the last, and the oldest makes room for it.
pub open spec fn kept_with(samples: Seq<EtaSample>, done: u64, at: u64) -> Seq<EtaSample> {
    if samples.len() > 0 && since(samples.last().at, at) < ETA_INTERVAL {
        samples
    } else {
        let more = samples.push(EtaSample { at, done });
        if more.len() > ETA_CAPACITY {
            more.subrange(more.len() - ETA_CAPACITY, more.len() as int)
        } else {
            more
        }
    }
}

/// What holds of the moments that are kept: not too many, and far enough apart.
pub open spec fn spaced(samples: Seq<EtaSample>) -> bool {
    &&& samples.len() <= ETA_CAPACITY
    &&& forall|i: int|
        0 < i < samples.len() ==> since(samples[i - 1].at, (#[trigger] samples[i]).at)
            >= ETA_INTERVAL
}

impl EtaTracker {
    /// No moments.
    pub fn new() -> (tracker: EtaTracker)
        ensures
            tracker@ == Seq::<EtaSample>::empty(),
    {
        EtaTracker { samples: Vec::new() }
    }

    /// Forgets all moments.
    pub fn clear(&mut self)
        ensures
            final(self)@ == Seq::<EtaSample>::empty(),
    {
        self.samples.clear();
    }

    /// Takes in a moment.
    pub fn push(&mut self, done: u64, at: u64)
        ensures
            final(self)@ == kept_with(old(self)@, done, at),
    {
        let n: usize = self.samples.len();
        if n > 0 {
            let last = self.samples[n - 1];
            if at.saturating_sub(last.at) < ETA_INTERVAL {
                return;
            }
        }
        self.samples.push(EtaSample { at, done });
        let ghost more = self.samples@;
        assert(more =~= more.subrange(0, more.len() as int));
        while self.samples.len() > ETA_CAPACITY
            invariant
                self.samples@.len() <= more.len(),
                more.len() >= ETA_CAPACITY ==> self.samples@.len() >= ETA_CAPACITY,
                self.samples@ == more.subrange(
                    more.len() - self.samples@.len(),
                    more.len() as int,
                ),
                more.len() < ETA_CAPACITY ==> self.samples@ == more,
            decreases self.samples@.len(),
        {
            self.samples.remove(0);
            assert(self.samples@ =~= more.subrange(
                more.len() - self.samples@.len(),
                more.len() as int,
            ));
        }
        assert(self@ =~= kept_with(old(self)@, done, at));
    }

    /// The time left.
    pub fn estimate(&self, done: u64, total: u64) -> (text: Option<String>)
        ensures
            crate::text::opt_text(text) == eta_text(self@, done, total),
    {
        eta_left(self.samples.as_slice(), done, total)
    }
}

/// Taking in a moment keeps the moments few and far enough apart.
pub proof fn tracking_stays_spaced(samples: Seq<EtaSample>, done: u64, at: u64)
    requires
        spaced(samples),
    ensures
        spaced(kept_with(samples, done, at)),
{
    let next = kept_with(samples, done, at);
    let more = samples.push(EtaSample { at, done });
    if next.len() > 0 && next != samples {
        let skip = more.len() - next.len();
        assert forall|i: int| 0 < i < next.len() implies since(
            next[i - 1].at,
            (#[trigger] next[i]).at,
        ) >= ETA_INTERVAL by {
            assert(next[i] == more[skip + i]);
            assert(next[i - 1] == more[skip + i - 1]);
            if skip + i < samples.len() {
                assert(samples[skip + i] == more[skip + i]);
            }
        }
    }
}

/// No time is named when nothing came in, and a finished download has no time left.
pub proof fn finished_downloads_have_no_time_left(samples: Seq<EtaSample>, done: u64, total: u64)
    requires
        done >= total,
    ensures
        seconds_left(samples, done, total) matches Some(seconds) ==> seconds == 0,
{
    if seconds_left(samples, done, total) is Some {
        let last = samples.last();
        let first = recent(samples, last.at)[0];
        let d = (last.done - first.done) * 1_000_000_000;
        assert((2 * 0 + d) / (2 * d) == 0) by (nonlinear_arith)
            requires
                d > 0,
        ;
        assert(since(done, total) * since(first.at, last.at) == 0) by (nonlinear_arith)
            requires
                since(done, total) == 0,
        ;
    }
}

/// Whether a message belongs to the download that is under way.
pub fn generation_is_current(message_generation: u64, current_generation: u64) -> (r: bool)
    ensures
        r == (message_generation == current_generation),
{
    message_generation == current_generation
}

/// Speed is measured over spans of at least this length.
pub const SPEED_INTERVAL: u64 = 100_000_000;

/// Bytes that came in within a span of time.
#[derive(Clone, Copy, Debug, PartialEq, Eq, Structural)]
pub struct RateSample {
    pub bytes: u64,
    pub nanos: u64,
}

/// Measures the speed of a download.
#[derive(Clone, Copy, Debug, PartialEq, Eq, Structural)]
pub struct SpeedTracker {
    /// The moment of the last measurement.
    pub last: Option<EtaSample>,
}

impl SpeedTracker {
    /// The measurement that a moment completes, if it does.
    pub open spec fn measure(self, done: u64, at: u64) -> Option<RateSample> {
        match self.last {
            Some(sample) if since(sample.at, at) >= SPEED_INTERVAL => Some(
                RateSample {
                    bytes: since(sample.done, done) as u64,
                    nanos: since(sample.at, at) as u64,
                },
            ),
            _ => None,
        }
    }

    /// No moment seen yet.
    pub fn new() -> (tracker: SpeedTracker)
        ensures
            tracker.last is None,
    {
        SpeedTracker { last: None }
    }

    /// Takes in a moment: the bytes and the time since the last measurement, where
    /// enough time has gone by. The first moment gives nothing.
    pub fn push(&mut self, done: u64, at: u64) -> (measured: Option<RateSample>)
        ensures
            measured == old(self).measure(done, at),
            final(self).last == (if old(self).last is None || measured is Some {
                Some(EtaSample { at, done })
            } else {
                old(self).last
            }),
    {
        match self.last {
            None => {
                self.last = Some(EtaSample { at, done });
                None
            },
            Some(sample) => {
                let elapsed: u64 = at.saturating_sub(sample.at);
                if elapsed >= SPEED_INTERVAL {
                    self.last = Some(EtaSample { at, done });
                    Some(RateSample { bytes: done.saturating_sub(sample.done), nanos: elapsed })
                } else {
                    None
                }
            },
        }
    }
}

/// A measurement always spans some time, so that a rate can be told from it.
pub proof fn measurements_span_time(tracker: SpeedTracker, done: u64, at: u64)
    ensures
        tracker.measure(done, at) matches Some(rate) ==> rate.nanos >= SPEED_INTERVAL,
{
}

/// The progress of several files taken together.
#[derive(Clone, Copy, Debug, PartialEq, Eq, Structural)]
pub struct Aggregate {
    pub total: u64,
    pub completed: u64,
    pub speed: SpeedTracker,
}

impl Aggregate {
    /// Nothing of `total` bytes done yet.
    pub fn new(total: u64) -> (aggregate: Aggregate)
        ensures
            aggregate.total == total,
            aggregate.completed == 0,
            aggregate.speed.last is None,
    {
        Aggregate { total, completed: 0, speed: SpeedTracker::new() }
    }

    /// A file of `bytes` bytes is there.
    pub fn finish_file(&mut self, bytes: u64)
        requires
            old(self).completed + bytes <= u64::MAX,
        ensures
            *final(self) == (Aggregate {
                completed: (old(self).completed + bytes) as u64,
                ..*old(self)
            }),
    {
        self.completed = self.completed + bytes;
    }

    /// The progress when `streamed` bytes of the current file are there.
    pub fn current(&mut self, file: &str, streamed: u64, at: u64) -> (progress: DownloadProgress)
        requires
            old(self).completed + streamed <= u64::MAX,
        ensures
            progress.file@ == file@,
            progress.done == old(self).completed + streamed,
            progress.total == old(self).total,
            progress.measured == old(self).speed.measure(progress.done, at),
            final(self).total == old(self).total,
            final(self).completed == old(self).completed,
            final(self).speed.last == (if old(self).speed.last is None || progress.measured is Some {
                Some(EtaSample { at, done: progress.done })
            } else {
                old(self).speed.last
            }),
    {
        let done: u64 = self.completed + streamed;
        let measured = self.speed.push(done, at);
        DownloadProgress { file: owned(file), done, total: self.total, measured }
    }
}

/// The address of a file is that of its repository on the server, with the branch and the
/// name of the file behind it.
pub proof fn addresses_name_repository_and_file(repo: Seq<char>, file: Seq<char>)
    ensures
        url_of(repo, file) == "https://huggingface.co"@ + "/"@ + "csukuangfj2"@ + "/"@ + repo
            + "/resolve/main/"@ + file,
{
}

/// Each file of an engine is found under its own name in the directory of the model.
pub proof fn engine_files_have_their_names(id: Seq<char>, dir: Seq<char>, paths: ModelPaths)
    requires
        paths_in(id, dir, paths),
    ensures
        match paths {
            ModelPaths::Moonshine {
                preprocessor,
                encoder,
                uncached_decoder,
                cached_decoder,
                tokens,
            } => {
                &&& preprocessor@ == crate::paths::path_in(dir, "preprocess.onnx"@)
                &&& encoder@ == crate::paths::path_in(dir, "encode.int8.onnx"@)
                &&& uncached_decoder@ == crate::paths::path_in(dir, "uncached_decode.int8.onnx"@)
                &&& cached_decoder@ == crate::paths::path_in(dir, "cached_decode.int8.onnx"@)
                &&& tokens@ == crate::paths::path_in(dir, "tokens.txt"@)
            },
            ModelPaths::Nemotron { encoder, decoder, joiner, tokens } => {
                &&& encoder@ == crate::paths::path_in(dir, "encoder.int8.onnx"@)
                &&& decoder@ == crate::paths::path_in(dir, "decoder.int8.onnx"@)
                &&& joiner@ == crate::paths::path_in(dir, "joiner.int8.onnx"@)
                &&& tokens@ == crate::paths::path_in(dir, "tokens.txt"@)
            },
        },
        files_of(id).len() == (if paths is Moonshine {
            5int
        } else {
            4
        }),
        files_of(id).last() == "tokens.txt"@,
{
}

/// The models are looked for under the configuration, and where there is nothing yet in
/// the old place if that is there; without a place for roaming data a directory has to be
/// there already.
pub proof fn old_models_are_found(
    config_dir: Seq<char>,
    exists: bool,
    appdata: Option<Seq<char>>,
    legacy_exists: bool,
)
    ensures
        ({
            let root = root_of(config_dir, exists, appdata, legacy_exists);
            let current = crate::paths::path_in(config_dir, "models"@);
            &&& exists ==> root == Some(current)
            &&& !exists && appdata is None ==> root is None
            &&& !exists && appdata is Some && !legacy_exists ==> root == Some(current)
            &&& !exists && appdata is Some && legacy_exists ==> root == Some(
                crate::paths::path_in(appdata->0, "raycast-dictation/models"@),
            )
        }),
{
}

/// A model is complete exactly where every file of it has bytes; one that is missing or
/// empty makes it incomplete.
pub proof fn every_file_is_needed(lengths: Seq<Option<u64>>, i: int)
    requires
        0 <= i < lengths.len(),
    ensures
        lengths[i] is None || lengths[i] == Some(0u64) ==> !complete(lengths),
        (forall|k: int|
            0 <= k < lengths.len() ==> (#[trigger] lengths[k] matches Some(n) && n > 0))
            ==> complete(lengths),
{
    if lengths[i] is None || lengths[i] == Some(0u64) {
        assert(!nonempty(lengths[i]));
    }
}

/// One more file adds its size, where that is known.
pub proof fn sizes_add_up(sizes: Seq<Option<u64>>, n: u64)
    ensures
        known_sum(sizes.push(Some(n))) == known_sum(sizes) + n,
        known_sum(sizes.push(None)) == known_sum(sizes),
        known_sum(Seq::<Option<u64>>::empty()) == 0,
        all_known(sizes.push(Some(n))) == all_known(sizes),
        !all_known(sizes.push(None)),
{
    assert(sizes.push(Some(n)).drop_last() =~= sizes);
    assert(sizes.push(None).drop_last() =~= sizes);
    if all_known(sizes) {
        assert forall|i: int| 0 <= i < sizes.len() + 1 implies #[trigger] sizes.push(
            Some(n),
        )[i] is Some by {
            if i < sizes.len() {
                assert(sizes[i] is Some);
            }
        }
    }
    if all_known(sizes.push(Some(n))) {
        assert forall|i: int| 0 <= i < sizes.len() implies #[trigger] sizes[i] is Some by {
            assert(sizes.push(Some(n))[i] is Some);
        }
    }
    assert(sizes.push(None)[sizes.len() as int] is None);
}

/// The share that is done is a whole number of hundredths, cut off, and a hundred once all
/// is there; sizes are shown in megabytes, rounded to the nearest.
pub proof fn shares_and_sizes_are_close(done: u64, total: u64)
    requires
        total > 0,
    ensures
        0 <= percent(done, total) <= 100,
        percent(done, total) * total <= done * 100,
        done < total ==> done * 100 < (percent(done, total) + 1) * total,
        done >= total ==> percent(done, total) == 100,
        -500_000 < megabytes(done as int) * 1_000_000 - done <= 500_000,
{
    let p = done as int * 100 / total as int;
    assert(p * total <= done * 100 && done * 100 < (p + 1) * total && p >= 0) by (nonlinear_arith)
        requires
            p == done as int * 100 / total as int,
            total > 0,
            done >= 0,
    ;
    if done >= total {
        assert(p >= 100) by (nonlinear_arith)
            requires
                done * 100 < (p + 1) * total,
                done >= total > 0,
        ;
        assert(100 * total <= done * 100);
    } else {
        assert(p <= 99) by (nonlinear_arith)
            requires
                p * total <= done * 100,
                0 <= done < total,
        ;
    }
}

/// A download whose size is not known says so; any other shows its share and both sizes.
pub proof fn summaries_show_share_and_sizes(done: u64, total: u64)
    ensures
        total == 0 ==> summary(done, total) == "? MB"@,
        total > 0 ==> summary(done, total) == crate::text::decimal_of(
            percent(done, total) as nat,
        ) + "% \u{b7} "@ + crate::text::decimal_of(megabytes(done as int) as nat) + "/"@
            + crate::text::decimal_of(megabytes(total as int) as nat) + " MB"@,
{
}

/// The time that is left is what the rest takes at the pace of the samples of the last ten
/// seconds, to the nearest second. There is an estimate exactly where these span two
/// seconds and the download got on meanwhile.
pub proof fn estimates_go_by_the_recent_pace(samples: Seq<EtaSample>, done: u64, total: u64)
    requires
        samples.len() >= 2,
        forall|i: int|
            0 <= i < samples.len() ==> samples.last().at - 10_000_000_000 <= (
            #[trigger] samples[i]).at <= samples.last().at,
        done <= total,
    ensures
        ({
            let span = samples.last().at - samples[0].at;
            let gain = samples.last().done - samples[0].done;
            let known = span >= 2_000_000_000 && gain > 0;
            &&& seconds_left(samples, done, total) is Some <==> known
            &&& seconds_left(samples, done, total) matches Some(seconds) ==> seconds == u64::MAX || (
            2 * (total - done) * span < (2 * seconds + 1) * (gain * 1_000_000_000) && (2 * seconds
                - 1) * (gain * 1_000_000_000) <= 2 * (total - done) * span)
        }),
{
    all_are_recent(samples, samples.last().at);
    let span = samples.last().at - samples[0].at;
    let gain = samples.last().done - samples[0].done;
    assert(samples[0].at <= samples.last().at);
    if span >= 2_000_000_000 && gain > 0 {
        let n = (total - done) * span;
        let d = gain * 1_000_000_000;
        assert(n >= 0) by (nonlinear_arith)
            requires
                n == (total - done) * span,
                total >= done,
                span >= 0,
        ;
        let q = rounded(n, d);
        assert(2 * n < (2 * q + 1) * d && (2 * q - 1) * d <= 2 * n) by (nonlinear_arith)
            requires
                q == (2 * n + d) / (2 * d),
                d > 0,
                n >= 0,
        ;
        assert(2 * (total - done) * span == 2 * n) by (nonlinear_arith)
            requires
                n == (total - done) * span,
        ;
    }
}

proof fn all_are_recent(samples: Seq<EtaSample>, last: u64)
    requires
        forall|i: int|
            0 <= i < samples.len() ==> last - 10_000_000_000 <= (#[trigger] samples[i]).at
                <= last,
    ensures
        recent(samples, last) == samples,
    decreases samples.len(),
{
    if samples.len() > 0 {
        let before = samples.drop_last();
        assert forall|i: int| 0 <= i < before.len() implies last - 10_000_000_000 <= (
        #[trigger] before[i]).at <= last by {
            assert(before[i] == samples[i]);
        }
        all_are_recent(before, last);
        assert(samples[samples.len() - 1].at <= last);
        assert(before.push(samples.last()) =~= samples);
    }
}

/// Times under a minute are told in seconds, and longer ones in minutes and the seconds
/// beyond them.
pub proof fn times_are_told_in_minutes_and_seconds(minutes: nat, seconds: nat)
    requires
        seconds < 60,
    ensures
        time_left(seconds) == "~"@ + crate::text::decimal_of(seconds) + "s left"@,
        minutes > 0 ==> time_left(60 * minutes + seconds) == "~"@ + crate::text::decimal_of(
            minutes,
        ) + "m "@ + crate::text::decimal_of(seconds) + "s left"@,
{
    assert((60 * minutes + seconds) / 60 == minutes);
    assert((60 * minutes + seconds) % 60 == seconds);
}

/// A sample is kept where there is none yet, or a quarter of a second has gone by since the
/// last; of more than 32 the oldest goes.
pub proof fn samples_are_kept_apart(samples: Seq<EtaSample>, done: u64, at: u64)
    requires
        samples.len() <= 32,
    ensures
        ({
            let next = kept_with(samples, done, at);
            let early = samples.len() > 0 && at < samples.last().at + 250_000_000;
            &&& early ==> next == samples
            &&& !early && samples.len() < 32 ==> next == samples.push(EtaSample { at, done })
            &&& !early && samples.len() == 32 ==> next == samples.subrange(1, 32).push(
                EtaSample { at, done },
            )
        }),
{
    if samples.len() == 32 {
        assert(samples.push(EtaSample { at, done }).subrange(1, 33) =~= samples.subrange(
            1,
            32,
        ).push(EtaSample { at, done }));
    }
}

/// The speed is measured whenever a tenth of a second has gone by since the last
/// measurement: the bytes and the time since then.
pub proof fn speeds_are_measured_every_tenth(last: EtaSample, done: u64, at: u64)
    requires
        done >= last.done,
        at >= last.at,
    ensures
        (SpeedTracker { last: Some(last) }).measure(done, at) == (if at - last.at >= 100_000_000 {
            Some(
                (RateSample { bytes: (done - last.done) as u64, nanos: (at - last.at) as u64 }),
            )
        } else {
            None
        }),
        (SpeedTracker { last: None }).measure(done, at) is None,
{
}

/// The message of a download names the model, how far it is, and the file.
pub proof fn progress_names_model_and_file(display_name: Seq<char>, progress: DownloadProgress)
    ensures
        progress_wording(display_name, progress) == "Downloading "@ + display_name
            + " \u{2014} "@ + summary(progress.done, progress.total) + " ("@ + progress.file@
            + ")"@,
{
}

/// Of a download only the messages of the current one count.
pub proof fn only_the_current_download_counts(message: u64, current: u64, counts: bool)
    requires
        call_ensures(generation_is_current, (message, current), counts),
    ensures
        counts <==> message == current,
{
}

/// What is known of a download is added behind a dot, and nothing is added of what is not;
/// a time is told exactly where one can be estimated.
pub proof fn known_parts_are_added(
    part: Seq<char>,
    samples: Seq<EtaSample>,
    done: u64,
    total: u64,
)
    ensures
        part_of(None).len() == 0,
        part_of(Some(part)) == " \u{b7} "@ + part,
        eta_text(samples, done, total) is Some <==> seconds_left(samples, done, total) is Some,
        eta_text(samples, done, total) is Some ==> eta_text(samples, done, total)->0 == time_left(
            seconds_left(samples, done, total)->0 as nat,
        ),
{
}

/// A file that is done counts with all that is done, and what streams is counted on top.
pub proof fn done_files_stay_counted()
    ensures
        forall|aggregate: &mut Aggregate, bytes: u64, r: ()| #[trigger]
            call_ensures(Aggregate::finish_file, (aggregate, bytes), r) && aggregate.completed
                + bytes <= u64::MAX ==> final(aggregate).completed == aggregate.completed + bytes
                && final(aggregate).total == aggregate.total,
        forall|
            aggregate: &mut Aggregate,
            file: &str,
            streamed: u64,
            at: u64,
            progress: DownloadProgress,
        | #[trigger]
            call_ensures(Aggregate::current, (aggregate, file, streamed, at), progress) ==> {
                &&& progress.done == aggregate.completed + streamed
                &&& progress.total == aggregate.total && progress.file@ == file@
                &&& final(aggregate).completed == aggregate.completed
                &&& final(aggregate).total == aggregate.total
            },
{
}

} // verus!
