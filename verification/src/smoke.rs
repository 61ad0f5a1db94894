//! The smoke test of speech recognition: what it is asked to do, the audio it is fed,
//! and what is made of the answer.
use crate::asr::model::ModelKind;
use crate::asr::rewrite::lowercase;
use crate::text::{
    chars_of, index_from, is_blank, joined, owned, parse_count, same_text, split, starts_with,
    text_of, trim,
};
use vstd::prelude::*;

verus! {

/// How long a recording is held, in seconds.
pub const HOLD_SECONDS: u64 = 300;

/// How often a held recording is looked at, in seconds.
pub const SAMPLE_INTERVAL_SECONDS: u64 = 30;

/// The rate of the audio, in samples per second.
pub const SAMPLE_RATE: usize = 16000;

/// How long speech lasts in held audio, in samples: six seconds.
pub const SPEECH_SAMPLES: usize = 96000;

/// How long silence lasts in held audio, in samples: a second and a half.
pub const GAP_SAMPLES: usize = 24000;

/// Held recordings may grow by this many bytes.
pub const GROWTH_LIMIT: u64 = 536_870_912;

/// What the test is asked to do.
#[derive(Clone, Copy, Debug, PartialEq, Eq, Structural)]
pub struct SmokeArgs {
    pub kind: ModelKind,
    pub reload_metrics: bool,
    pub hold_test: bool,
    pub hold_seconds: u64,
}

/// The words before the length of a hold.
pub const HOLD_PREFIX: &'static str = "--hold-seconds=";

/// What an argument asks for; none if it is not understood.
pub open spec fn asked(args: SmokeArgs, argument: Seq<char>) -> Option<SmokeArgs> {
    if argument == "nemotron"@ {
        Some(SmokeArgs { kind: ModelKind::Nemotron, ..args })
    } else if argument == "--reload-metrics"@ {
        Some(SmokeArgs { reload_metrics: true, ..args })
    } else if argument == "--hold-test"@ {
        Some(SmokeArgs { hold_test: true, ..args })
    } else if crate::text::begins(argument, HOLD_PREFIX@) {
        let value = argument.subrange(HOLD_PREFIX@.len() as int, argument.len() as int);
        match crate::text::count_of(value, u64::MAX as nat) {
            Some(n) => Some(SmokeArgs { hold_seconds: n as u64, ..args }),
            None => None,
        }
    } else {
        None
    }
}

/// What the first arguments ask for, one after the other.
pub open spec fn asked_all(arguments: Seq<String>) -> Option<SmokeArgs>
    decreases arguments.len(),
{
    if arguments.len() == 0 {
        Some(
            SmokeArgs {
                kind: ModelKind::Nemotron,
                reload_metrics: false,
                hold_test: false,
                hold_seconds: HOLD_SECONDS,
            },
        )
    } else {
        match asked_all(arguments.drop_last()) {
            Some(args) => asked(args, arguments.last()@),
            None => None,
        }
    }
}

impl SmokeArgs {
    fn take(self, argument: &str) -> (args: Option<SmokeArgs>)
        ensures
            args == asked(self, argument@),
    {
        if same_text(argument, "nemotron") {
            return Some(SmokeArgs { kind: ModelKind::Nemotron, ..self });
        }
        if same_text(argument, "--reload-metrics") {
            return Some(SmokeArgs { reload_metrics: true, ..self });
        }
        if same_text(argument, "--hold-test") {
            return Some(SmokeArgs { hold_test: true, ..self });
        }
        let chars = chars_of(argument);
        if starts_with(chars.as_slice(), HOLD_PREFIX) {
            let from: usize = HOLD_PREFIX.unicode_len();
            let value = &chars.as_slice()[from..chars.len()];
            if let Some(n) = parse_count(value, u64::MAX) {
                return Some(SmokeArgs { hold_seconds: n, ..self });
            }
        }
        None
    }

    /// What the arguments ask for; none if one is not understood.
    pub fn parse(arguments: &[String]) -> (args: Option<SmokeArgs>)
        ensures
            args == asked_all(arguments@),
    {
        let mut args = SmokeArgs {
            kind: ModelKind::Nemotron,
            reload_metrics: false,
            hold_test: false,
            hold_seconds: HOLD_SECONDS,
        };
        let mut i: usize = 0;
        assert(arguments@.subrange(0, 0) =~= Seq::empty());
        while i < arguments.len()
            invariant
                i <= arguments@.len(),
                asked_all(arguments@.subrange(0, i as int)) == Some(args),
            decreases arguments@.len() - i,
        {
            assert(arguments@.subrange(0, i + 1).drop_last() =~= arguments@.subrange(0, i as int));
            match args.take(arguments[i].as_str()) {
                Some(next) => {
                    args = next;
                },
                None => {
                    proof {
                        refused_arguments_stay_refused(arguments@, i + 1);
                    }
                    return None;
                },
            }
            i += 1;
        }
        assert(arguments@.subrange(0, i as int) =~= arguments@);
        Some(args)
    }
}

proof fn refused_arguments_stay_refused(arguments: Seq<String>, k: int)
    requires
        0 <= k <= arguments.len(),
        asked_all(arguments.subrange(0, k)) is None,
    ensures
        asked_all(arguments) is None,
    decreases arguments.len(),
{
    if k < arguments.len() {
        assert(arguments.drop_last().subrange(0, k) =~= arguments.subrange(0, k));
        refused_arguments_stay_refused(arguments.drop_last(), k);
    } else {
        assert(arguments.subrange(0, k) =~= arguments);
    }
}

/// The audio of a held recording: speech that goes round and round, and silence, in
/// turn. `at` is where the speech goes on.
pub open spec fn held<T>(source: Seq<T>, at: int, total: nat, silence: T) -> Seq<T>
    decreases total,
{
    if total == 0 || source.len() == 0 {
        Seq::empty()
    } else {
        let take = if total < SPEECH_SAMPLES {
            total
        } else {
            SPEECH_SAMPLES as nat
        };
        let rest = (total - take) as nat;
        let pause = if rest < GAP_SAMPLES {
            rest
        } else {
            GAP_SAMPLES as nat
        };
        Seq::new(take, |i: int| source[(at + i) % source.len() as int]) + Seq::new(
            pause,
            |i: int| silence,
        ) + held(source, (at + take) % source.len() as int, (rest - pause) as nat, silence)
    }
}

/// The audio of a held recording of `total` samples. Where there are any, there has to
/// be speech to take them from.
pub fn dictation_audio<T: Copy>(source: &[T], total: usize, silence: T) -> (out: Vec<T>)
    requires
        total > 0 ==> 0 < source@.len() <= usize::MAX - SPEECH_SAMPLES,
    ensures
        out@ == held(source@, 0, total as nat, silence),
{
    let n: usize = source.len();
    let mut out: Vec<T> = Vec::new();
    let mut cursor: usize = 0;
    let mut left: usize = total;
    assert(out@ + held(source@, 0, total as nat, silence) =~= held(
        source@,
        0,
        total as nat,
        silence,
    ));
    while left > 0
        invariant
            n == source@.len(),
            left > 0 ==> 0 < n <= usize::MAX - SPEECH_SAMPLES && cursor < n,
            out@ + held(source@, cursor as int, left as nat, silence) == held(
                source@,
                0,
                total as nat,
                silence,
            ),
        decreases left,
    {
        let ghost before = out@;
        let take: usize = if left < SPEECH_SAMPLES {
            left
        } else {
            SPEECH_SAMPLES
        };
        let ghost speech = Seq::new(
            take as nat,
            |i: int| source@[(cursor + i) % source@.len() as int],
        );
        let mut i: usize = 0;
        assert(before + speech.subrange(0, 0) =~= before);
        while i < take
            invariant
                i <= take,
                take <= SPEECH_SAMPLES,
                n == source@.len(),
                n > 0,
                n + SPEECH_SAMPLES <= usize::MAX,
                cursor < n,
                speech == Seq::new(
                    take as nat,
                    |i: int| source@[(cursor + i) % source@.len() as int],
                ),
                out@ == before + speech.subrange(0, i as int),
            decreases take - i,
        {
            out.push(source[(cursor + i) % n]);
            i += 1;
            assert(out@ =~= before + speech.subrange(0, i as int));
        }
        assert(speech.subrange(0, i as int) =~= speech);
        let rest: usize = left - take;
        let pause: usize = if rest < GAP_SAMPLES {
            rest
        } else {
            GAP_SAMPLES
        };
        let ghost quiet = Seq::new(pause as nat, |i: int| silence);
        let mut j: usize = 0;
        assert(before + speech + quiet.subrange(0, 0) =~= before + speech);
        while j < pause
            invariant
                j <= pause,
                quiet == Seq::new(pause as nat, |i: int| silence),
                out@ == before + speech + quiet.subrange(0, j as int),
            decreases pause - j,
        {
            out.push(silence);
            j += 1;
            assert(out@ =~= before + speech + quiet.subrange(0, j as int));
        }
        assert(quiet.subrange(0, j as int) =~= quiet);
        let ghost tail = held(
            source@,
            (cursor + take) % (source@.len() as int),
            (rest - pause) as nat,
            silence,
        );
        assert(held(source@, cursor as int, left as nat, silence) =~= speech + quiet + tail);
        assert(out@ + tail =~= before + (speech + quiet + tail));
        cursor = (cursor + take) % n;
        left = rest - pause;
    }
    assert(out@ + held(source@, cursor as int, 0, silence) =~= out@);
    out
}

/// A held recording is as long as it was asked to be.
pub proof fn held_audio_has_its_length<T>(source: Seq<T>, at: int, total: nat, silence: T)
    requires
        source.len() > 0,
    ensures
        held(source, at, total, silence).len() == total,
    decreases total,
{
    if total > 0 {
        let take = if total < SPEECH_SAMPLES {
            total
        } else {
            SPEECH_SAMPLES as nat
        };
        let rest = (total - take) as nat;
        let pause = if rest < GAP_SAMPLES {
            rest
        } else {
            GAP_SAMPLES as nat
        };
        held_audio_has_its_length(
            source,
            (at + take) % source.len() as int,
            (rest - pause) as nat,
            silence,
        );
    }
}

/// Whether a line of a list of transcripts belongs to the first file.
pub open spec fn is_first(line: Seq<char>) -> bool {
    ||| crate::text::begins(line, "0.wav"@)
    ||| crate::text::begins(line, "0\t"@)
    ||| crate::text::begins(line, "0 "@)
}

/// The first tab or space from `k` on, or the end.
pub open spec fn gap_from(line: Seq<char>, k: int) -> int
    decreases line.len() - k,
{
    if k >= line.len() || line[k] == '\t' || line[k] == ' ' {
        k
    } else {
        gap_from(line, k + 1)
    }
}

/// What stands behind the name of the file in a line, or the line where it has no gap.
pub open spec fn behind_name(line: Seq<char>) -> Seq<char> {
    let gap = gap_from(line, 0);
    if gap < line.len() {
        crate::text::trimmed(line.subrange(gap + 1, line.len() as int))
    } else {
        line
    }
}

/// The transcript of the first line from `k` on that belongs to the first file.
pub open spec fn first_transcript(lines: Seq<Seq<char>>, k: int) -> Option<Seq<char>>
    decreases lines.len() - k,
{
    if k >= lines.len() {
        None
    } else if is_first(crate::text::trimmed(lines[k])) {
        Some(behind_name(crate::text::trimmed(lines[k])))
    } else {
        first_transcript(lines, k + 1)
    }
}

/// The first line from `k` on that is not blank.
pub open spec fn first_line(lines: Seq<Seq<char>>, k: int) -> Seq<char>
    decreases lines.len() - k,
{
    if k >= lines.len() {
        Seq::empty()
    } else if crate::text::trimmed(lines[k]).len() > 0 {
        crate::text::trimmed(lines[k])
    } else {
        first_line(lines, k + 1)
    }
}

/// The transcript that is expected: that of the first file, or else the first line.
pub open spec fn expected_of(contents: Seq<char>) -> Seq<char> {
    let lines = crate::text::split_of(contents, '\n');
    match first_transcript(lines, 0) {
        Some(text) => text,
        None => first_line(lines, 0),
    }
}

fn transcript_behind(line: &str) -> (text: String)
    ensures
        text@ == behind_name(line@),
{
    let chars = chars_of(line);
    let mut k: usize = 0;
    while k < chars.len() && chars[k] != '\t' && chars[k] != ' '
        invariant
            k <= chars@.len(),
            chars@ == line@,
            gap_from(line@, 0) == gap_from(line@, k as int),
        decreases chars@.len() - k,
    {
        k += 1;
    }
    if k < chars.len() {
        let rest = text_of(&chars.as_slice()[k + 1..chars.len()]);
        trim(rest.as_str())
    } else {
        owned(line)
    }
}

/// The transcript that is expected of the first file.
pub fn expected_for_zero(contents: &str) -> (text: String)
    ensures
        text@ == expected_of(contents@),
{
    let lines = split(contents, '\n');
    let ghost all = crate::text::split_of(contents@, '\n');
    let n: usize = lines.len();
    assert(crate::text::texts(lines@).len() == lines@.len());
    let mut k: usize = 0;
    while k < n
        invariant
            k <= n,
            n == lines@.len(),
            n == all.len(),
            all == crate::text::split_of(contents@, '\n'),
            crate::text::texts(lines@) == all,
            first_transcript(all, 0) == first_transcript(all, k as int),
        decreases n - k,
    {
        assert(all[k as int] == lines@[k as int]@);
        let line = trim(lines[k].as_str());
        let chars = chars_of(line.as_str());
        let text = chars.as_slice();
        if starts_with(text, "0.wav") || starts_with(text, "0\t") || starts_with(text, "0 ") {
            return transcript_behind(line.as_str());
        }
        k += 1;
    }
    let mut j: usize = 0;
    while j < n
        invariant
            j <= n,
            n == lines@.len(),
            n == all.len(),
            all == crate::text::split_of(contents@, '\n'),
            crate::text::texts(lines@) == all,
            first_transcript(all, 0) is None,
            first_line(all, 0) == first_line(all, j as int),
        decreases n - j,
    {
        assert(all[j as int] == lines@[j as int]@);
        let line = trim(lines[j].as_str());
        if line.as_str().unicode_len() > 0 {
            return line;
        }
        j += 1;
    }
    String::new()
}

/// Whether a character is a letter or a digit.
pub uninterp spec fn alphanumeric(c: char) -> bool;

/// `char::is_alphanumeric`, which goes by the Unicode tables.
#[verifier::external_body]
fn is_alphanumeric(c: char) -> (r: bool)
    ensures
        r == alphanumeric(c),
{
    c.is_alphanumeric()
}

/// The letters and digits of a text.
pub open spec fn letters(s: Seq<char>) -> Seq<char>
    decreases s.len(),
{
    if s.len() == 0 {
        Seq::empty()
    } else if alphanumeric(s.last()) {
        letters(s.drop_last()).push(s.last())
    } else {
        letters(s.drop_last())
    }
}

/// A text for comparison: its letters and digits, in lower case.
pub fn normalize(text: &str) -> (r: String)
    ensures
        r@ == letters(crate::asr::rewrite::lowercased(text@)),
{
    let lower = lowercase(text);
    let chars = chars_of(lower.as_str());
    let mut kept: Vec<char> = Vec::new();
    let mut i: usize = 0;
    assert(lower@.subrange(0, 0) =~= Seq::empty());
    while i < chars.len()
        invariant
            i <= chars@.len(),
            chars@ == lower@,
            kept@ == letters(lower@.subrange(0, i as int)),
        decreases chars@.len() - i,
    {
        assert(lower@.subrange(0, i + 1).drop_last() =~= lower@.subrange(0, i as int));
        if is_alphanumeric(chars[i]) {
            kept.push(chars[i]);
        }
        i += 1;
    }
    assert(lower@.subrange(0, i as int) =~= lower@);
    text_of(kept.as_slice())
}

/// Whether two normalised texts agree: one is part of the other, and something was
/// expected.
pub open spec fn agree(got: Seq<char>, want: Seq<char>) -> bool {
    want.len() > 0 && (crate::text::has_text(got, want) || crate::text::has_text(want, got))
}

/// Whether a transcript is what was expected, given both in normalised form.
pub fn texts_agree(got: &str, want: &str) -> (r: bool)
    ensures
        r == agree(got@, want@),
{
    let got = chars_of(got);
    let want = chars_of(want);
    if want.len() == 0 {
        return false;
    }
    index_from(got.as_slice(), want.as_slice(), 0).is_some() || index_from(
        want.as_slice(),
        got.as_slice(),
        0,
    ).is_some()
}

/// Whether a transcript is what was expected.
pub fn run_transcription_check(transcript: &str, expected: &str) -> (matched: bool)
    ensures
        matched == agree(
            letters(crate::asr::rewrite::lowercased(transcript@)),
            letters(crate::asr::rewrite::lowercased(expected@)),
        ),
{
    let got = normalize(transcript);
    let want = normalize(expected);
    texts_agree(got.as_str(), want.as_str())
}

/// Counts how often the partial text changes.
#[derive(Debug)]
pub struct Partials {
    pub last: String,
    pub advances: u64,
    /// How much audio was fed when it last changed, in samples.
    pub advanced_at: u64,
}

impl Partials {
    /// No partial text yet.
    pub fn new() -> (partials: Partials)
        ensures
            partials.last@.len() == 0,
            partials.advances == 0,
            partials.advanced_at == 0,
    {
        Partials { last: String::new(), advances: 0, advanced_at: 0 }
    }

    /// Takes in the partial text after `fed` samples.
    pub fn note(&mut self, partial: Option<String>, fed: u64)
        requires
            old(self).advances < u64::MAX,
        ensures
            match partial {
                Some(text) if text@ != old(self).last@ => *final(self) == (Partials {
                    last: text,
                    advances: (old(self).advances + 1) as u64,
                    advanced_at: fed,
                }),
                _ => *final(self) == *old(self),
            },
    {
        if let Some(text) = partial {
            if !same_text(text.as_str(), self.last.as_str()) {
                self.last = text;
                self.advances = self.advances + 1;
                self.advanced_at = fed;
            }
        }
    }
}

/// A held recording that is being fed.
#[derive(Debug)]
pub struct Hold {
    pub partials: Partials,
    /// The next amount of audio at which to look, in samples.
    pub next_mark: u64,
    /// The memory when it was first looked at, in bytes.
    pub baseline: Option<u64>,
    pub chunks: u64,
    /// How many pieces were fed when it was last looked at.
    pub marked_chunks: u64,
}

/// What there is to report when a held recording is looked at.
#[derive(Clone, Copy, Debug, PartialEq, Eq, Structural)]
pub struct Mark {
    /// How much audio was fed, in seconds.
    pub seconds: u64,
    /// How many pieces were fed since the last time; at least one.
    pub window_chunks: u64,
}

/// The audio between two looks, in samples.
pub const MARK_SAMPLES: u64 = 480_000;

impl Hold {
    /// Nothing fed yet.
    pub fn new() -> (hold: Hold)
        ensures
            hold.partials.advances == 0,
            hold.partials.last@.len() == 0,
            hold.next_mark == MARK_SAMPLES,
            hold.baseline is None,
            hold.chunks == 0,
            hold.marked_chunks == 0,
    {
        Hold {
            partials: Partials::new(),
            next_mark: MARK_SAMPLES,
            baseline: None,
            chunks: 0,
            marked_chunks: 0,
        }
    }

    /// What holds of a recording all the time.
    pub open spec fn well_formed(self) -> bool {
        self.marked_chunks <= self.chunks
    }

    /// A piece of `len` samples was fed after `fed` samples, and the partial text is
    /// `partial`. `memory` is how much the process holds now. What to report, if it is
    /// time to look.
    pub fn fed(&mut self, fed: u64, len: u64, partial: Option<String>, memory: u64) -> (mark: Option<
        Mark,
    >)
        requires
            old(self).well_formed(),
            old(self).partials.advances < u64::MAX,
            old(self).chunks < u64::MAX,
            fed + len <= u64::MAX,
            old(self).next_mark + MARK_SAMPLES <= u64::MAX,
        ensures
            final(self).well_formed(),
            final(self).chunks == old(self).chunks + 1,
            match partial {
                Some(text) if text@ != old(self).partials.last@ => final(self).partials == (
                Partials {
                    last: text,
                    advances: (old(self).partials.advances + 1) as u64,
                    advanced_at: fed,
                }),
                _ => final(self).partials == old(self).partials,
            },
            mark is Some <==> fed + len >= old(self).next_mark,
            match mark {
                Some(mark) => {
                    &&& mark.seconds == old(self).next_mark / 16000
                    &&& mark.window_chunks == final(self).chunks - old(self).marked_chunks
                    &&& final(self).next_mark == old(self).next_mark + MARK_SAMPLES
                    &&& final(self).marked_chunks == final(self).chunks
                    &&& final(self).baseline == Some(
                        match old(self).baseline {
                            Some(first) => first,
                            None => memory,
                        },
                    )
                },
                None => {
                    &&& final(self).next_mark == old(self).next_mark
                    &&& final(self).marked_chunks == old(self).marked_chunks
                    &&& final(self).baseline == old(self).baseline
                },
            },
    {
        self.partials.note(partial, fed);
        self.chunks = self.chunks + 1;
        if fed + len < self.next_mark {
            return None;
        }
        if self.baseline.is_none() {
            self.baseline = Some(memory);
        }
        let mark = Mark {
            seconds: self.next_mark / 16000,
            window_chunks: self.chunks - self.marked_chunks,
        };
        self.marked_chunks = self.chunks;
        self.next_mark = self.next_mark + MARK_SAMPLES;
        Some(mark)
    }
}

/// What is made of a held recording.
#[derive(Clone, Copy, Debug, PartialEq, Eq, Structural)]
pub enum HoldVerdict {
    /// Nothing was heard.
    Fail,
    /// The partial text never changed.
    Suspect,
    /// The process grew without bounds.
    Growth,
    Bounded,
}

/// What is made of a held recording: of its final text, of how often the partial text
/// changed, and of the memory at the first look and now.
pub open spec fn verdict_of(
    text: Seq<char>,
    advances: u64,
    baseline: Option<u64>,
    memory: u64,
) -> HoldVerdict {
    if crate::text::blank(text) {
        HoldVerdict::Fail
    } else if advances == 0 {
        HoldVerdict::Suspect
    } else if baseline matches Some(first) && memory - first > GROWTH_LIMIT {
        HoldVerdict::Growth
    } else {
        HoldVerdict::Bounded
    }
}

/// What is made of a held recording.
pub fn run_hold_test(text: &str, hold: &Hold, memory: u64) -> (verdict: HoldVerdict)
    ensures
        verdict == verdict_of(text@, hold.partials.advances, hold.baseline, memory),
{
    if is_blank(text) {
        return HoldVerdict::Fail;
    }
    if hold.partials.advances == 0 {
        return HoldVerdict::Suspect;
    }
    match hold.baseline {
        Some(first) => if memory > first && memory - first > GROWTH_LIMIT {
            HoldVerdict::Growth
        } else {
            HoldVerdict::Bounded
        },
        None => HoldVerdict::Bounded,
    }
}

/// How many characters at the end of a text are shown.
pub const TAIL_CHARS: usize = 120;

/// The end of a text.
pub fn tail(text: &str) -> (r: String)
    ensures
        r@ == text@.subrange(
            if text@.len() > TAIL_CHARS {
                text@.len() - TAIL_CHARS
            } else {
                0
            },
            text@.len() as int,
        ),
{
    let chars = chars_of(text);
    let n: usize = chars.len();
    let skip: usize = if n > TAIL_CHARS {
        n - TAIL_CHARS
    } else {
        0
    };
    text_of(&chars.as_slice()[skip..n])
}

/// The number of samples to feed at a time; none if the environment does not name a
/// number.
pub fn feed_chunk_samples(variable: Option<&str>) -> (n: Option<u64>)
    ensures
        match variable {
            Some(text) => match n {
                Some(n) => crate::text::count_of(text@, u64::MAX as nat) == Some(n as nat),
                None => crate::text::count_of(text@, u64::MAX as nat) is None,
            },
            None => n == Some(480u64),
        },
{
    match variable {
        Some(text) => parse_count(chars_of(text).as_slice(), u64::MAX),
        None => Some(480),
    }
}

/// The words on a transcript.
pub fn check_line(matched: bool, name: &str) -> (line: String)
    ensures
        line@ == "CHECKLIST A ("@ + name@ + (if matched {
            "): MATCH -> encoder-metadata normalization (per_feature) honored"@
        } else {
            "): MISMATCH -> inspect normalization / feature_dim handling"@
        }),
{
    let lead = joined("CHECKLIST A (", name);
    if matched {
        joined(lead.as_str(), "): MATCH -> encoder-metadata normalization (per_feature) honored")
    } else {
        joined(lead.as_str(), "): MISMATCH -> inspect normalization / feature_dim handling")
    }
}

/// Without arguments the test takes Nemotron, for five minutes where it holds, and does
/// neither of the two longer tests; each argument switches on what it names and no more,
/// and one that is not known ends it.
pub proof fn arguments_switch_on_what_they_name(
    args: SmokeArgs,
    arguments: Seq<String>,
    argument: String,
)
    ensures
        asked_all(Seq::empty()) == Some(
            SmokeArgs {
                kind: ModelKind::Nemotron,
                reload_metrics: false,
                hold_test: false,
                hold_seconds: 300,
            },
        ),
        asked_all(arguments) is None ==> asked_all(arguments.push(argument)) is None,
        asked_all(arguments) is Some ==> asked_all(arguments.push(argument)) == asked(
            asked_all(arguments)->0,
            argument@,
        ),
        asked(args, "nemotron"@) == Some(SmokeArgs { kind: ModelKind::Nemotron, ..args }),
        asked(args, "--reload-metrics"@) == Some(SmokeArgs { reload_metrics: true, ..args }),
        asked(args, "--hold-test"@) == Some(SmokeArgs { hold_test: true, ..args }),
        asked(args, argument@) is Some && argument@ != "--hold-test"@ && argument@
            != "--reload-metrics"@ && argument@ != "nemotron"@ ==> crate::text::begins(
            argument@,
            "--hold-seconds="@,
        ),
{
    assert(arguments.push(argument).drop_last() == arguments);
    reveal_strlit("nemotron");
    reveal_strlit("--reload-metrics");
    reveal_strlit("--hold-test");
    assert("nemotron"@.len() == 8 && "--reload-metrics"@.len() == 16 && "--hold-test"@.len() == 11);
}

/// The seconds to hold are those that the argument gives.
pub proof fn hold_seconds_are_taken(args: SmokeArgs, seconds: u64)
    ensures
        asked(args, "--hold-seconds="@ + crate::text::decimal_of(seconds as nat)) == Some(
            SmokeArgs { hold_seconds: seconds, ..args },
        ),
{
    reveal_strlit("nemotron");
    reveal_strlit("--reload-metrics");
    reveal_strlit("--hold-test");
    reveal_strlit("--hold-seconds=");
    let digits = crate::text::decimal_of(seconds as nat);
    let argument = "--hold-seconds="@ + digits;
    crate::text::decimals_are_read_back(seconds as nat);
    crate::text::counts_are_read_back(seconds as nat, u64::MAX as nat, digits, 0);
    assert(argument[7] == 's' && argument[3] == 'o');
    assert("--hold-test"@[7] == 't' && "--reload-metrics"@[2] == 'r' && argument[2] == 'h'
        && "nemotron"@[0] == 'n');
    assert(argument.subrange(0, 15) =~= "--hold-seconds="@);
    assert(argument.subrange(15, argument.len() as int) =~= digits);
}

/// The audio that is held begins with six seconds of speech from where the last ended, over
/// and over, and a second and a half of silence behind them.
pub proof fn speech_and_silence_take_turns<T>(
    source: Seq<T>,
    at: int,
    total: nat,
    silence: T,
    i: int,
)
    requires
        source.len() > 0,
        0 <= at < source.len(),
        0 <= i < total,
    ensures
        i < 96_000 ==> held(source, at, total, silence)[i] == source[(at + i) % (
        source.len() as int)],
        96_000 <= i < 120_000 ==> held(source, at, total, silence)[i] == silence,
        i >= 120_000 ==> held(source, at, total, silence)[i] == held(
            source,
            (at + 96_000) % (source.len() as int),
            (total - 120_000) as nat,
            silence,
        )[i - 120_000],
{
    held_audio_has_its_length(source, at, total, silence);
}

/// Two texts agree where one is found in the other, and never with nothing that was
/// expected; a text agrees with itself.
pub proof fn texts_agree_with_themselves(got: Seq<char>, want: Seq<char>)
    ensures
        want.len() == 0 ==> !agree(got, want),
        want.len() > 0 ==> agree(want, want),
        want.len() > 0 && (exists|i: int| crate::text::occurs_at(got, want, i)) ==> agree(
            got,
            want,
        ),
        agree(got, want) ==> (exists|i: int| crate::text::occurs_at(got, want, i)) || (exists|
            i: int,
        | crate::text::occurs_at(want, got, i)),
{
    crate::text::found_texts_stand_somewhere(got, want);
    crate::text::found_texts_stand_somewhere(want, got);
    crate::text::found_texts_stand_somewhere(want, want);
    assert(want.subrange(0, want.len() as int) =~= want);
    assert(crate::text::occurs_at(want, want, 0));
}

/// A recording that was held is good where it gave a text that grew and the memory did not
/// grow by more than half a gibibyte; no text at all is a failure whatever else holds.
pub proof fn good_recordings_stay_bounded(
    text: Seq<char>,
    advances: u64,
    baseline: Option<u64>,
    memory: u64,
)
    ensures
        ({
            let verdict = verdict_of(text, advances, baseline, memory);
            let grew = baseline is Some && memory - baseline->0 > 536_870_912;
            &&& verdict == HoldVerdict::Fail <==> crate::text::blank(text)
            &&& verdict == HoldVerdict::Suspect <==> !crate::text::blank(text) && advances == 0
            &&& verdict == HoldVerdict::Growth <==> !crate::text::blank(text) && advances > 0 && grew
            &&& verdict == HoldVerdict::Bounded <==> !crate::text::blank(text) && advances > 0
                && !grew
        }),
{
}

/// Only the letters and digits of a text are compared, all of them and in order.
pub proof fn letters_are_kept_in_order(s: Seq<char>, c: char)
    ensures
        alphanumeric(c) ==> letters(s.push(c)) == letters(s).push(c),
        !alphanumeric(c) ==> letters(s.push(c)) == letters(s),
        letters(Seq::empty()).len() == 0,
{
    assert(s.push(c).drop_last() == s);
}

/// The end of a text is its last hundred and twenty characters, or all of a shorter one.
pub proof fn ends_are_shown(text: &str, shown: String)
    requires
        call_ensures(tail, (text,), shown),
    ensures
        text@.len() <= 120 ==> shown@ == text@,
        text@.len() > 120 ==> shown@.len() == 120 && shown@ == text@.subrange(
            text@.len() - 120,
            text@.len() as int,
        ),
{
    if text@.len() <= 120 {
        assert(text@.subrange(0, text@.len() as int) =~= text@);
    }
}

/// The transcript that is expected is the first that is listed for the first recording, and
/// without any the first line that holds anything.
pub proof fn the_first_transcript_is_expected(lines: Seq<Seq<char>>, k: int)
    requires
        0 <= k < lines.len(),
    ensures
        (forall|j: int| 0 <= j < k ==> !is_first(crate::text::trimmed(#[trigger] lines[j])))
            && is_first(crate::text::trimmed(lines[k])) ==> first_transcript(lines, 0) == Some(
            behind_name(crate::text::trimmed(lines[k])),
        ),
        (forall|j: int| 0 <= j < lines.len() ==> !is_first(crate::text::trimmed(#[trigger] lines[j])))
            ==> first_transcript(lines, 0) is None,
        (forall|j: int| 0 <= j < k ==> crate::text::trimmed(#[trigger] lines[j]).len() == 0)
            && crate::text::trimmed(lines[k]).len() > 0 ==> first_line(lines, 0)
            == crate::text::trimmed(lines[k]),
{
    if (forall|j: int| 0 <= j < k ==> !is_first(crate::text::trimmed(#[trigger] lines[j])))
        && is_first(crate::text::trimmed(lines[k])) {
        transcripts_are_looked_through(lines, 0, k);
    }
    if forall|j: int| 0 <= j < lines.len() ==> !is_first(crate::text::trimmed(#[trigger] lines[j])) {
        transcripts_are_looked_through(lines, 0, lines.len() as int);
    }
    if (forall|j: int| 0 <= j < k ==> crate::text::trimmed(#[trigger] lines[j]).len() == 0)
        && crate::text::trimmed(lines[k]).len() > 0 {
        lines_are_looked_through(lines, 0, k);
    }
}

proof fn transcripts_are_looked_through(lines: Seq<Seq<char>>, from: int, k: int)
    requires
        0 <= from <= k <= lines.len(),
        forall|j: int| from <= j < k ==> !is_first(crate::text::trimmed(#[trigger] lines[j])),
    ensures
        first_transcript(lines, from) == first_transcript(lines, k),
    decreases k - from,
{
    if from < k {
        transcripts_are_looked_through(lines, from + 1, k);
    }
}

proof fn lines_are_looked_through(lines: Seq<Seq<char>>, from: int, k: int)
    requires
        0 <= from <= k <= lines.len(),
        forall|j: int| from <= j < k ==> crate::text::trimmed(#[trigger] lines[j]).len() == 0,
    ensures
        first_line(lines, from) == first_line(lines, k),
    decreases k - from,
{
    if from < k {
        lines_are_looked_through(lines, from + 1, k);
    }
}

/// A partial that differs from the last one counts, once, with when it came; one that does
/// not, or none, changes nothing.
pub proof fn new_partials_count()
    ensures
        forall|partials: &mut Partials, partial: Option<String>, fed: u64, r: ()| #[trigger]
            call_ensures(Partials::note, (partials, partial, fed), r) ==> {
                let news = partial is Some && partial->0@ != partials.last@;
                &&& news ==> final(partials).last@ == partial->0@ && final(partials).advances
                    == (partials.advances + 1) as u64 && final(partials).advanced_at == fed
                &&& !news ==> *final(partials) == *partials
            },
{
}

/// A mark is made for every thirty seconds that were fed, with the pieces since the last; the
/// memory at the first is what later ones are held against.
pub proof fn marks_come_every_half_minute()
    ensures
        forall|
            hold: &mut Hold,
            fed: u64,
            len: u64,
            partial: Option<String>,
            memory: u64,
            mark: Option<Mark>,
        | #[trigger]
            call_ensures(Hold::fed, (hold, fed, len, partial, memory), mark) ==> {
                &&& final(hold).chunks == hold.chunks + 1
                &&& mark is Some <==> fed + len >= hold.next_mark
                &&& mark is Some ==> {
                    &&& final(hold).next_mark == hold.next_mark + 30 * 16_000
                    &&& mark->0.seconds == hold.next_mark / 16_000
                    &&& mark->0.window_chunks == hold.chunks + 1 - hold.marked_chunks
                    &&& hold.baseline is None ==> final(hold).baseline == Some(memory)
                    &&& hold.baseline is Some ==> final(hold).baseline == hold.baseline
                }
                &&& mark is None ==> final(hold).next_mark == hold.next_mark
                    && final(hold).baseline == hold.baseline
            },
{
}

/// Audio is fed in pieces of four hundred and eighty samples, unless a number is given.
pub proof fn given_pieces_are_fed(text: &str, given: Option<u64>, none: Option<u64>)
    requires
        call_ensures(feed_chunk_samples, (Some(text),), given),
        call_ensures(feed_chunk_samples, (None::<&str>,), none),
    ensures
        none == Some(480u64),
        forall|n: u64| text@ == crate::text::decimal_of(n as nat) ==> given == Some(n),
{
    assert forall|n: u64| text@ == crate::text::decimal_of(n as nat) implies given == Some(n) by {
        crate::text::counts_are_read_back(n as nat, u64::MAX as nat, text@, 0);
    }
}

/// The transcript of a line is what stands behind its first tab or blank, without the
/// white space around it, and the whole line where there is neither.
pub proof fn transcripts_stand_behind_the_name(name: Seq<char>, gap: char, rest: Seq<char>)
    requires
        forall|i: int| 0 <= i < name.len() ==> #[trigger] name[i] != '\t' && name[i] != ' ',
        gap == '\t' || gap == ' ',
    ensures
        behind_name(name.push(gap) + rest) == crate::text::trimmed(rest),
        behind_name(name) == name,
{
    let line = name.push(gap) + rest;
    gaps_end_the_name(line, 0, name.len() as int);
    gaps_end_the_name(name, 0, name.len() as int);
    assert(line.subrange((name.len() + 1) as int, line.len() as int) =~= rest);
}

proof fn gaps_end_the_name(line: Seq<char>, k: int, end: int)
    requires
        0 <= k <= end <= line.len(),
        forall|i: int| k <= i < end ==> #[trigger] line[i] != '\t' && line[i] != ' ',
        end == line.len() || line[end] == '\t' || line[end] == ' ',
    ensures
        gap_from(line, k) == end,
    decreases end - k,
{
    if k < end {
        gaps_end_the_name(line, k + 1, end);
    }
}

} // verus!
