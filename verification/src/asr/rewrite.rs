//! The rewrite pass: the prompt for the language model that tidies a transcript,
//! and what is read out of its output.
use crate::pattern::{behind_match, escape, is_match, rewrite_first};
use crate::text::{
    chars_of, joined, last_index, leading, owned, remove_char, same_text, signed_decimal,
    stands_at, text_of, trim, width, Margin,
};
use vstd::prelude::*;

verus! {

pub const S1_SYSTEM_PROMPT: &'static str =
    "You are a text normalizer for speech-to-text transcripts. The input begins with a control line specifying the styling, structure, and context settings; clean the transcript to match those settings and output only the cleaned text.";

/// The control line of the benchmark runs.
pub const S1_CONTROL_LINE: &'static str =
    "[Styling: semi-formal] [Structure: prose] [Context: general]";

pub const MAX_NEW_TOKENS: i32 = 1024;

pub const MIN_NEW_TOKENS: i32 = 64;

pub const DEFAULT_STYLING: &'static str = "casual";

pub const DEFAULT_STRUCTURE: &'static str = "prose";

pub const DEFAULT_CONTEXT: &'static str = "general";

/// Where the model file is downloaded from.
pub const S1_GGUF_URL: &'static str =
    "https://huggingface.co/superwhisper/s1-mini-GGUF/resolve/main/s1-mini-q4_k_m.gguf";

/// Where the archive with the command-line runner is downloaded from.
pub const S1_LLAMA_CLI_URL: &'static str =
    "https://github.com/ggml-org/llama.cpp/releases/download/b10675/llama-b10675-bin-win-cpu-arm64.zip";

/// The exact size of the model file.
pub const S1_GGUF_BYTES: u64 = 484_219_808;

/// One rewrite pass may take this long, in milliseconds.
pub const REWRITE_TIMEOUT_MS: u64 = 120_000;

/// A transcript longer than this many bytes is located by its end alone.
pub const MAX_TRANSCRIPT_PATTERN_BYTES: usize = 2048;

/// How many bytes of its end locate a long transcript.
pub const TRANSCRIPT_TAIL_ANCHOR_BYTES: usize = 256;

/// The styling presets.
pub open spec fn is_styling(s: Seq<char>) -> bool {
    s == "casual"@ || s == "semi-casual"@ || s == "semi-formal"@ || s == "formal"@
}

/// The structure presets.
pub open spec fn is_structure(s: Seq<char>) -> bool {
    s == "prose"@ || s == "lists"@
}

/// The context presets.
pub open spec fn is_context(s: Seq<char>) -> bool {
    s == "general"@ || s == "email"@
}

/// A styling preset, or the default one for anything else.
pub open spec fn styling_of(s: Seq<char>) -> Seq<char> {
    if is_styling(s) {
        s
    } else {
        DEFAULT_STYLING@
    }
}

/// A structure preset, or the default one for anything else.
pub open spec fn structure_of(s: Seq<char>) -> Seq<char> {
    if is_structure(s) {
        s
    } else {
        DEFAULT_STRUCTURE@
    }
}

/// A context preset, or the default one for anything else.
pub open spec fn context_of(s: Seq<char>) -> Seq<char> {
    if is_context(s) {
        s
    } else {
        DEFAULT_CONTEXT@
    }
}

/// Validates a styling preset; unknown values fall back to the default.
pub fn valid_styling(s: &str) -> (r: &str)
    ensures
        r@ == styling_of(s@),
{
    if same_text(s, "casual") || same_text(s, "semi-casual") || same_text(s, "semi-formal")
        || same_text(s, "formal") {
        s
    } else {
        DEFAULT_STYLING
    }
}

/// Validates a structure preset; unknown values fall back to the default.
pub fn valid_structure(s: &str) -> (r: &str)
    ensures
        r@ == structure_of(s@),
{
    if same_text(s, "prose") || same_text(s, "lists") {
        s
    } else {
        DEFAULT_STRUCTURE
    }
}

/// Validates a context preset; unknown values fall back to the default.
pub fn valid_context(s: &str) -> (r: &str)
    ensures
        r@ == context_of(s@),
{
    if same_text(s, "general") || same_text(s, "email") {
        s
    } else {
        DEFAULT_CONTEXT
    }
}

/// The control line for the given presets.
pub open spec fn control_line_of(styling: Seq<char>, structure: Seq<char>, context: Seq<char>)
    -> Seq<char> {
    "[Styling: "@ + styling_of(styling) + "] [Structure: "@ + structure_of(structure)
        + "] [Context: "@ + context_of(context) + "]"@
}

/// Builds the control line from validated presets.
pub fn control_line(styling: &str, structure: &str, context: &str) -> (r: String)
    ensures
        r@ == control_line_of(styling@, structure@, context@),
{
    let mut r = owned("[Styling: ");
    r.push_str(valid_styling(styling));
    r.push_str("] [Structure: ");
    r.push_str(valid_structure(structure));
    r.push_str("] [Context: ");
    r.push_str(valid_context(context));
    r.push_str("]");
    r
}

/// A validated preset is a preset, and validating it again changes nothing.
pub proof fn validation_settles(s: Seq<char>)
    ensures
        is_styling(styling_of(s)),
        is_structure(structure_of(s)),
        is_context(context_of(s)),
        styling_of(styling_of(s)) == styling_of(s),
        structure_of(structure_of(s)) == structure_of(s),
        context_of(context_of(s)) == context_of(s),
{
}

/// Whatever the configured words, the control line carries presets only: it is
/// the line of some preset triple.
pub proof fn control_lines_carry_presets_only(
    styling: Seq<char>,
    structure: Seq<char>,
    context: Seq<char>,
)
    ensures
        exists|a: Seq<char>, b: Seq<char>, c: Seq<char>|
            is_styling(a) && is_structure(b) && is_context(c) && control_line_of(
                styling,
                structure,
                context,
            ) == #[trigger] control_line_of(a, b, c),
{
    let (a, b, c) = (styling_of(styling), structure_of(structure), context_of(context));
    assert(control_line_of(styling, structure, context) == control_line_of(a, b, c));
}

/// How the rewrite pass is run.
#[derive(Debug)]
pub struct RewriteOptions {
    /// Thread count of the runner.
    pub threads: i32,
    /// Number of layers offloaded to the GPU, `0` for CPU only.
    pub gpu_layers: i32,
    /// The line before the transcript, built with `control_line`.
    pub control_line: String,
}

/// What the rewrite pass made of a transcript.
#[derive(Debug)]
pub struct RewriteResult {
    pub text: String,
    pub wall_ms: u64,
    pub in_tokens: u64,
    pub out_tokens: u64,
    pub ok: bool,
}

/// A rough token count: one token per four characters.
pub open spec fn tokens_of(text: Seq<char>) -> nat {
    text.len() / 4
}

/// A rough token count: one token per four characters.
pub fn estimate_tokens(text: &str) -> (n: u64)
    ensures
        n == tokens_of(text@),
{
    (chars_of(text).len() / 4) as u64
}

/// The token budget for a transcript: 1.3 times its tokens and some slack, within
/// the fixed bounds.
pub open spec fn token_budget(text: Seq<char>) -> int {
    let scaled = tokens_of(text) * 13 / 10 + 32;
    if scaled < MIN_NEW_TOKENS {
        MIN_NEW_TOKENS as int
    } else if scaled > MAX_NEW_TOKENS {
        MAX_NEW_TOKENS as int
    } else {
        scaled as int
    }
}

/// The token budget for a transcript.
pub fn max_new_tokens(transcript: &str) -> (n: i32)
    ensures
        n == token_budget(transcript@),
        MIN_NEW_TOKENS <= n <= MAX_NEW_TOKENS,
{
    let tokens: u64 = estimate_tokens(transcript);
    if tokens >= 1000 {
        return MAX_NEW_TOKENS;
    }
    let scaled: u64 = tokens * 13 / 10 + 32;
    if scaled < 64 {
        MIN_NEW_TOKENS
    } else if scaled > 1024 {
        MAX_NEW_TOKENS
    } else {
        scaled as i32
    }
}

/// A longer transcript never gets a smaller token budget.
pub proof fn token_budgets_grow_with_the_transcript(a: Seq<char>, b: Seq<char>)
    requires
        a.len() <= b.len(),
    ensures
        token_budget(a) <= token_budget(b),
{
}

/// The arguments of the runner for one pass.
pub open spec fn runner_args(
    model: Seq<char>,
    transcript: Seq<char>,
    options: RewriteOptions,
) -> Seq<Seq<char>> {
    seq![
        "-m"@,
        model,
        "--jinja"@,
        "--chat-template-kwargs"@,
        "{\"enable_thinking\":false}"@,
        "--temp"@,
        "0"@,
        "-t"@,
        crate::text::signed_decimal_of(options.threads as int),
        "-c"@,
        "2048"@,
        "-st"@,
        "-ngl"@,
        crate::text::signed_decimal_of(options.gpu_layers as int),
        "-n"@,
        crate::text::signed_decimal_of(token_budget(transcript)),
        "-sys"@,
        S1_SYSTEM_PROMPT@,
        "-p"@,
        options.control_line@ + "\n"@ + transcript,
    ]
}

/// The arguments of the runner for one pass over `transcript`.
pub fn llama_args(model: &str, transcript: &str, options: &RewriteOptions) -> (args: Vec<String>)
    ensures
        crate::text::texts(args@) == runner_args(model@, transcript@, *options),
{
    let message = joined(joined(options.control_line.as_str(), "\n").as_str(), transcript);
    let args = vec![
        owned("-m"),
        owned(model),
        owned("--jinja"),
        owned("--chat-template-kwargs"),
        owned("{\"enable_thinking\":false}"),
        owned("--temp"),
        owned("0"),
        owned("-t"),
        signed_decimal(options.threads),
        owned("-c"),
        owned("2048"),
        owned("-st"),
        owned("-ngl"),
        signed_decimal(options.gpu_layers),
        owned("-n"),
        signed_decimal(max_new_tokens(transcript)),
        owned("-sys"),
        owned(S1_SYSTEM_PROMPT),
        owned("-p"),
        message,
    ];
    assert(crate::text::texts(args@) =~= runner_args(model@, transcript@, *options));
    args
}

/// What to do while the runner works.
#[derive(Clone, Copy, Debug, PartialEq, Eq, Structural)]
pub enum Wait {
    /// It has ended: take its output.
    Collect,
    /// It has taken too long: end it, then take its output.
    Kill,
    /// Look again in a moment.
    Again,
}

/// What to do while the runner works, given whether it has ended and how long it
/// has run.
pub open spec fn waiting(ended: bool, waited_ms: u64) -> Wait {
    if ended {
        Wait::Collect
    } else if waited_ms >= REWRITE_TIMEOUT_MS {
        Wait::Kill
    } else {
        Wait::Again
    }
}

/// A runner is left to work for two minutes and no longer: one that has ended is never
/// killed, and one that has not is killed from then on.
pub proof fn runners_have_two_minutes(ended: bool, waited_ms: u64)
    ensures
        waiting(ended, waited_ms) is Collect <==> ended,
        waiting(ended, waited_ms) is Kill <==> !ended && waited_ms >= 120_000,
{
}

/// What to do while the runner works, given whether it has ended and how long it
/// has run.
pub fn wait_bounded(ended: bool, waited_ms: u64) -> (next: Wait)
    ensures
        next == waiting(ended, waited_ms),
{
    if ended {
        Wait::Collect
    } else if waited_ms >= REWRITE_TIMEOUT_MS {
        Wait::Kill
    } else {
        Wait::Again
    }
}

/// `str::to_lowercase` of a text.
pub uninterp spec fn lowercased(text: Seq<char>) -> Seq<char>;

/// `str::to_lowercase`: the result is named; it follows the Unicode case tables of
/// the standard library.
#[verifier::external_body]
pub(crate) fn lowercase(text: &str) -> (r: String)
    ensures
        r@ == lowercased(text@),
{
    text.to_lowercase()
}

/// Lines that report a failure, as opposed to words such as "error" in passing.
pub const FAILURE_LINES: &'static str =
    "error\\s*:|failed to |load failed|could not |cannot (open|load|find) |exception|fatal|aborted|no such file|invalid (model|argument|grammar)";

/// Whether the runner's error output reports a failure.
pub open spec fn reports_failure(stderr: Seq<char>) -> bool {
    crate::pattern::matched(FAILURE_LINES@, lowercased(stderr)) == Some(true)
}

/// Whether the runner's error output reports a failure.
pub fn stderr_signals_failure(stderr: &str) -> (r: bool)
    ensures
        r == reports_failure(stderr@),
{
    match is_match(FAILURE_LINES, lowercase(stderr).as_str()) {
        Some(found) => found,
        None => false,
    }
}

/// The position from which `s` takes at most `max_bytes` bytes to its end, and no
/// earlier position does.
pub open spec fn is_tail_start(s: Seq<char>, max_bytes: nat, i: int) -> bool {
    &&& 0 <= i <= s.len()
    &&& crate::text::byte_len(s.subrange(i, s.len() as int)) <= max_bytes
    &&& i > 0 ==> crate::text::byte_len(s.subrange(i - 1, s.len() as int)) > max_bytes
}

/// Where the longest end piece of `s` that takes at most `max_bytes` bytes begins.
pub open spec fn tail_start(s: Seq<char>, max_bytes: nat, i: int) -> int
    decreases i,
{
    if i <= 0 || crate::text::byte_len(s.subrange(i - 1, s.len() as int)) > max_bytes {
        i
    } else {
        tail_start(s, max_bytes, i - 1)
    }
}

/// The longest end piece of `s` that takes at most `max_bytes` bytes.
pub open spec fn tail_of(s: Seq<char>, max_bytes: nat) -> Seq<char> {
    s.subrange(tail_start(s, max_bytes, s.len() as int), s.len() as int)
}

/// The longest end piece of `s` that takes at most `max_bytes` bytes.
pub fn tail_anchor(s: &str, max_bytes: usize) -> (r: String)
    ensures
        r@ == tail_of(s@, max_bytes as nat),
{
    let chars = chars_of(s);
    let n: usize = chars.len();
    let mut i: usize = n;
    let mut size: usize = 0;
    proof {
        assert(s@.subrange(n as int, n as int) =~= Seq::<char>::empty());
        reveal_with_fuel(vstd::utf8::encode_utf8, 1);
    }
    while i > 0
        invariant_except_break
            tail_start(s@, max_bytes as nat, n as int) == tail_start(
                s@,
                max_bytes as nat,
                i as int,
            ),
        invariant
            i <= n,
            n == chars.len(),
            chars@ == s@,
            size <= max_bytes,
            size == crate::text::byte_len(s@.subrange(i as int, n as int)),
        ensures
            i == tail_start(s@, max_bytes as nat, n as int),
            i <= n,
        decreases i,
    {
        let w: usize = width(chars[i - 1]);
        proof {
            let piece = s@.subrange(i - 1, n as int);
            crate::text::byte_len_splits(piece);
            assert(piece.subrange(1, piece.len() as int) =~= s@.subrange(i as int, n as int));
        }
        if w > max_bytes - size {
            break;
        }
        size += w;
        i -= 1;
    }
    text_of(&chars.as_slice()[i..n])
}

/// The piece that `tail_anchor` keeps fits the limit, and is the longest that does.
pub proof fn the_tail_is_the_longest_that_fits(s: Seq<char>, max_bytes: nat)
    ensures
        is_tail_start(s, max_bytes, tail_start(s, max_bytes, s.len() as int)),
{
    assert(s.subrange(s.len() as int, s.len() as int) =~= Seq::<char>::empty());
    tail_start_is_tail(s, max_bytes, s.len() as int);
}

proof fn tail_start_is_tail(s: Seq<char>, max_bytes: nat, i: int)
    requires
        0 <= i <= s.len(),
        crate::text::byte_len(s.subrange(i, s.len() as int)) <= max_bytes,
    ensures
        is_tail_start(s, max_bytes, tail_start(s, max_bytes, i)),
    decreases i,
{
    if i > 0 && crate::text::byte_len(s.subrange(i - 1, s.len() as int)) <= max_bytes {
        tail_start_is_tail(s, max_bytes, i - 1);
    }
}

/// The pattern of the control line and, on the line behind it, the transcript.
pub open spec fn boundary_pattern(control_line: Seq<char>, transcript: Seq<char>) -> Seq<char> {
    "[^\\r\\n]*"@ + crate::pattern::escaped(control_line) + "[^\\r\\n]*\\r?\\n[^\\r\\n]*"@
        + crate::pattern::escaped(transcript) + "(?:[ \\t]*)\\r?\\n"@
}

/// Whether a transcript is short enough to be located whole.
pub open spec fn is_short(transcript: Seq<char>) -> bool {
    crate::text::byte_len(transcript) <= MAX_TRANSCRIPT_PATTERN_BYTES
}

/// Where the echoed transcript ends in the output `all`, given the text behind the
/// boundary pattern. A short transcript ends where that text begins, or else at
/// its last whole line; of a long one the end piece is looked for, with nothing
/// but blanks between it and the end of its line.
pub open spec fn end_given(
    all: Seq<char>,
    transcript: Seq<char>,
    behind: Option<Seq<char>>,
) -> Option<int> {
    if transcript.len() == 0 {
        None
    } else if is_short(transcript) {
        match behind {
            Some(rest) => Some(all.len() - rest.len()),
            None => match crate::text::last_found(all, transcript.push('\n')) {
                Some(i) => Some(i + transcript.len()),
                None => None,
            },
        }
    } else {
        let tail = tail_of(transcript, TRANSCRIPT_TAIL_ANCHOR_BYTES as nat);
        match crate::text::last_found(all, tail) {
            Some(i) if tail.len() > 0 => {
                let rest = crate::text::trim_start_of(
                    all.subrange(i + tail.len(), all.len() as int),
                    Margin::Gap,
                );
                if rest.len() > 0 && rest[0] == '\n' {
                    Some(all.len() - rest.len() + 1)
                } else {
                    None
                }
            },
            _ => None,
        }
    }
}

/// Where the echoed transcript ends in the output `all`, given the text behind the
/// boundary pattern.
pub fn transcript_end_given(all: &str, transcript: &str, behind: Option<&str>) -> (end: Option<
    usize,
>)
    requires
        behind matches Some(rest) ==> rest@.len() <= all@.len(),
    ensures
        end is Some <==> end_given(
            all@,
            transcript@,
            match behind {
                Some(rest) => Some(rest@),
                None => None,
            },
        ) is Some,
        end matches Some(i) ==> i <= all@.len() && end_given(
            all@,
            transcript@,
            match behind {
                Some(rest) => Some(rest@),
                None => None,
            },
        ) == Some(i as int),
{
    if transcript.is_empty() {
        return None;
    }
    let text = chars_of(all);
    if transcript_is_short(transcript) {
        if let Some(rest) = behind {
            return Some(text.len() - chars_of(rest).len());
        }
        let mut needle = chars_of(transcript);
        let n: usize = needle.len();
        needle.push('\n');
        return match last_index(text.as_slice(), needle.as_slice()) {
            Some(i) => Some(i + n),
            None => None,
        };
    }
    let tail = chars_of(tail_anchor(transcript, TRANSCRIPT_TAIL_ANCHOR_BYTES).as_str());
    if tail.len() == 0 {
        return None;
    }
    match last_index(text.as_slice(), tail.as_slice()) {
        Some(i) => {
            let after: usize = i + tail.len();
            let rest = &text.as_slice()[after..text.len()];
            let gap: usize = leading(rest, Margin::Gap);
            proof {
                let kept = rest@.subrange(gap as int, rest@.len() as int);
                assert(kept.len() > 0 ==> kept[0] == rest@[gap as int]);
            }
            if gap < rest.len() && rest[gap] == '\n' {
                Some(after + gap + 1)
            } else {
                None
            }
        },
        None => None,
    }
}

fn transcript_is_short(transcript: &str) -> (r: bool)
    ensures
        r == is_short(transcript@),
{
    let bytes = transcript.as_bytes();
    bytes.len() <= MAX_TRANSCRIPT_PATTERN_BYTES
}

/// Where the echoed transcript ends in the output `all`.
pub open spec fn transcript_end(
    all: Seq<char>,
    transcript: Seq<char>,
    control_line: Seq<char>,
) -> Option<int> {
    end_given(
        all,
        transcript,
        if transcript.len() > 0 && is_short(transcript) {
            crate::pattern::text_behind(boundary_pattern(control_line, transcript), all)
        } else {
            None
        },
    )
}

/// Where the echoed transcript ends in the output `all`; `control_line` is the
/// line that was sent before it.
pub fn find_transcript_end(all: &str, transcript: &str, control_line: &str) -> (end: Option<usize>)
    ensures
        end is Some <==> transcript_end(all@, transcript@, control_line@) is Some,
        end matches Some(i) ==> i <= all@.len() && transcript_end(
            all@,
            transcript@,
            control_line@,
        ) == Some(i as int),
{
    if transcript.is_empty() || !transcript_is_short(transcript) {
        return transcript_end_given(all, transcript, None);
    }
    let mut pattern = owned("[^\\r\\n]*");
    pattern.push_str(escape(control_line).as_str());
    pattern.push_str("[^\\r\\n]*\\r?\\n[^\\r\\n]*");
    pattern.push_str(escape(transcript).as_str());
    pattern.push_str("(?:[ \\t]*)\\r?\\n");
    match behind_match(pattern.as_str(), all) {
        Some(rest) => transcript_end_given(all, transcript, Some(rest.as_str())),
        None => transcript_end_given(all, transcript, None),
    }
}

/// The larger of two ends, where there are any.
pub open spec fn later(a: Option<int>, b: Option<int>) -> Option<int> {
    match (a, b) {
        (Some(x), Some(y)) => Some(
            if x >= y {
                x
            } else {
                y
            },
        ),
        (Some(x), None) => Some(x),
        (None, b) => b,
    }
}

/// Where the last `needle` ends.
pub open spec fn end_of_last(all: Seq<char>, needle: Seq<char>) -> Option<int> {
    match crate::text::last_found(all, needle) {
        Some(i) => Some(i + needle.len()),
        None => None,
    }
}

/// Where `needle` ends if the text begins with it.
pub open spec fn end_of_prefix(all: Seq<char>, needle: Seq<char>) -> Option<int> {
    if crate::text::occurs_at(all, needle, 0) {
        Some(needle.len() as int)
    } else {
        None
    }
}

/// Where the last header of the assistant's turn ends: a turn marker, or the word
/// alone at the start of a line with a colon or the end of the line behind it.
pub open spec fn role_end(all: Seq<char>) -> Option<int> {
    later(
        later(
            later(
                later(
                    end_of_last(all, "<|im_start|>assistant"@),
                    end_of_last(all, "\nassistant:"@),
                ),
                end_of_last(all, "\nassistant\n"@),
            ),
            end_of_prefix(all, "assistant:"@),
        ),
        end_of_prefix(all, "assistant\n"@),
    )
}

/// Whether a header of the assistant's turn ends at position `i`.
pub open spec fn is_role_header_end(all: Seq<char>, i: int) -> bool {
    ||| crate::text::occurs_at(all, "<|im_start|>assistant"@, i - "<|im_start|>assistant"@.len())
    ||| crate::text::occurs_at(all, "\nassistant:"@, i - "\nassistant:"@.len())
    ||| crate::text::occurs_at(all, "\nassistant\n"@, i - "\nassistant\n"@.len())
    ||| i == "assistant:"@.len() && crate::text::occurs_at(all, "assistant:"@, 0)
    ||| i == "assistant\n"@.len() && crate::text::occurs_at(all, "assistant\n"@, 0)
}

/// The answer is never taken to begin behind the bare word "assistant" in prose:
/// it begins behind a turn marker, or behind the word at the start of a line with
/// a colon or a line end after it.
pub proof fn answers_begin_behind_a_role_header(all: Seq<char>)
    ensures
        role_end(all) matches Some(i) ==> is_role_header_end(all, i),
{
    crate::text::last_found_is_last(all, "<|im_start|>assistant"@);
    crate::text::last_found_is_last(all, "\nassistant:"@);
    crate::text::last_found_is_last(all, "\nassistant\n"@);
}

/// Without an echoed transcript and without a role header nothing is extracted.
pub proof fn nothing_is_extracted_without_a_boundary(
    all: Seq<char>,
    transcript: Seq<char>,
    control_line: Seq<char>,
)
    requires
        transcript_end(crate::text::without(all, '\r'), transcript, control_line) is None,
        role_end(crate::text::without(all, '\r')) is None,
    ensures
        extracted(all, transcript, control_line).len() == 0,
{
}

fn pick_later(a: Option<usize>, b: Option<usize>) -> (r: Option<usize>)
    ensures
        r == (match (a, b) {
            (Some(x), Some(y)) => Some(
                if x >= y {
                    x
                } else {
                    y
                },
            ),
            (Some(x), None) => Some(x),
            (None, b) => b,
        }),
{
    match (a, b) {
        (Some(x), Some(y)) => if x >= y {
            Some(x)
        } else {
            Some(y)
        },
        (Some(x), None) => Some(x),
        (None, b) => b,
    }
}

fn last_end(all: &[char], needle: &str) -> (r: Option<usize>)
    ensures
        r is Some <==> end_of_last(all@, needle@) is Some,
        r matches Some(i) ==> i <= all@.len() && end_of_last(all@, needle@) == Some(i as int),
{
    let word = chars_of(needle);
    match last_index(all, word.as_slice()) {
        Some(i) => Some(i + word.len()),
        None => None,
    }
}

fn prefix_end(all: &[char], needle: &str) -> (r: Option<usize>)
    ensures
        r is Some <==> end_of_prefix(all@, needle@) is Some,
        r matches Some(i) ==> i <= all@.len() && end_of_prefix(all@, needle@) == Some(i as int),
{
    let word = chars_of(needle);
    if stands_at(all, word.as_slice(), 0) {
        Some(word.len())
    } else {
        None
    }
}

/// Where the last header of the assistant's turn ends.
pub fn assistant_role_start(all: &str) -> (r: Option<usize>)
    ensures
        r is Some <==> role_end(all@) is Some,
        r matches Some(i) ==> i <= all@.len() && role_end(all@) == Some(i as int),
{
    let chars = chars_of(all);
    let text = chars.as_slice();
    let marker = last_end(text, "<|im_start|>assistant");
    let colon = last_end(text, "\nassistant:");
    let line = last_end(text, "\nassistant\n");
    let first_colon = prefix_end(text, "assistant:");
    let first_line = prefix_end(text, "assistant\n");
    pick_later(pick_later(pick_later(pick_later(marker, colon), line), first_colon), first_line)
}

pub const LEAD_IN: &'static str = "(?s)^\\s*(<\\|im_start\\|>)?\\s*";

pub const EXITING: &'static str = "(?s)\\s*Exiting\\.\\.\\.\\s*$";

pub const TIMINGS: &'static str =
    "(?s)(<\\|im_start\\|>)?\\s*\\[ (?:Prompt|Generation):[^\\r\\n]* \\]\\s*$";

pub const TURN_END: &'static str = "(?s)\\s*<\\|im_end\\|>\\s*$";

pub const TEXT_END: &'static str = "(?s)\\s*\\[end of text\\]\\s*$";

/// The answer without the marks that the runner puts around it.
pub open spec fn tidied(answer: Seq<char>) -> Seq<char> {
    let none = ""@;
    let a = crate::pattern::rewritten_once(LEAD_IN@, answer, none);
    let b = crate::pattern::rewritten_once(EXITING@, a, none);
    let c = crate::pattern::rewritten_once(TIMINGS@, b, none);
    let d = crate::pattern::rewritten_once(TURN_END@, c, none);
    let e = crate::pattern::rewritten_once(TEXT_END@, d, none);
    crate::text::trimmed(e)
}

/// Whether a pattern is that of a mark that the runner puts behind an answer.
pub open spec fn end_mark(pattern: Seq<char>) -> bool {
    ||| pattern == "(?s)\\s*Exiting\\.\\.\\.\\s*$"@
    ||| pattern
        == "(?s)(<\\|im_start\\|>)?\\s*\\[ (?:Prompt|Generation):[^\\r\\n]* \\]\\s*$"@
    ||| pattern == "(?s)\\s*<\\|im_end\\|>\\s*$"@
    ||| pattern == "(?s)\\s*\\[end of text\\]\\s*$"@
}

/// Removes the marks that the runner puts around an answer: what is before it, and none
/// of the rest where there is no mark behind it.
pub fn tidy(answer: &str) -> (r: String)
    ensures
        r@ == tidied(answer@),
        (forall|mark: Seq<char>| #[trigger]
            end_mark(mark) ==> crate::pattern::matched(
                mark,
                crate::pattern::rewritten_once("(?s)^\\s*(<\\|im_start\\|>)?\\s*"@, answer@, ""@),
            ) == Some(false)) ==> r@ == crate::text::trimmed(
            crate::pattern::rewritten_once("(?s)^\\s*(<\\|im_start\\|>)?\\s*"@, answer@, ""@),
        ),
{
    assert(end_mark(EXITING@) && end_mark(TIMINGS@) && end_mark(TURN_END@) && end_mark(TEXT_END@));
    let a = rewrite_first(LEAD_IN, answer, "");
    let b = rewrite_first(EXITING, a.as_str(), "");
    let c = rewrite_first(TIMINGS, b.as_str(), "");
    let d = rewrite_first(TURN_END, c.as_str(), "");
    let e = rewrite_first(TEXT_END, d.as_str(), "");
    trim(e.as_str())
}

/// The part of the output behind the position `start`, tidied; nothing where there
/// is no such position.
pub open spec fn answer_from(all: Seq<char>, start: Option<int>) -> Seq<char> {
    match start {
        Some(i) => tidied(all.subrange(i, all.len() as int)),
        None => Seq::empty(),
    }
}

/// The cleaned text in the runner's output: what follows the echoed transcript, or
/// else what follows the header of the assistant's turn.
pub open spec fn extracted(all: Seq<char>, transcript: Seq<char>, control_line: Seq<char>) -> Seq<
    char,
> {
    let text = crate::text::without(all, '\r');
    let end = transcript_end(text, transcript, control_line);
    answer_from(
        text,
        if end is Some {
            end
        } else {
            role_end(text)
        },
    )
}

/// The cleaned text in the runner's output `all`; empty where neither the echoed
/// transcript nor an assistant header is found.
pub fn extract_cleaned_text(all: &str, transcript: &str, control_line: &str) -> (r: String)
    ensures
        r@ == extracted(all@, transcript@, control_line@),
{
    let text = remove_char(all, '\r');
    let start = match find_transcript_end(text.as_str(), transcript, control_line) {
        Some(i) => Some(i),
        None => assistant_role_start(text.as_str()),
    };
    match start {
        Some(i) => {
            let chars = chars_of(text.as_str());
            tidy(text_of(&chars.as_slice()[i..chars.len()]).as_str())
        },
        None => String::new(),
    }
}

/// How a run of the runner went.
#[derive(Debug)]
pub enum RunnerRun {
    /// It could not be started.
    NotStarted,
    /// It was started, but its end could not be awaited.
    Lost,
    /// It ended, with this outcome and output.
    Ended { success: bool, stdout: String, stderr: String },
}

/// The text that a run gives: none unless it succeeded and reported no failure.
pub open spec fn run_text(run: RunnerRun, transcript: Seq<char>, control_line: Seq<char>) -> Seq<
    char,
> {
    match run {
        RunnerRun::Ended { success, stdout, stderr } if success && !reports_failure(stderr@) => {
            extracted(stdout@ + "\n"@ + stderr@, transcript, control_line)
        },
        _ => Seq::empty(),
    }
}

/// The text that a run of the runner gives; empty where the run failed.
pub fn run_llama(run: &RunnerRun, transcript: &str, options: &RewriteOptions) -> (text: String)
    ensures
        text@ == run_text(*run, transcript@, options.control_line@),
{
    match run {
        RunnerRun::Ended { success, stdout, stderr } => {
            if !*success || stderr_signals_failure(stderr.as_str()) {
                return String::new();
            }
            let combined = joined(joined(stdout.as_str(), "\n").as_str(), stderr.as_str());
            extract_cleaned_text(combined.as_str(), transcript, options.control_line.as_str())
        },
        RunnerRun::NotStarted | RunnerRun::Lost => String::new(),
    }
}

/// Whether the runner was there and could be started.
pub open spec fn was_started(run: Option<&RunnerRun>) -> bool {
    run matches Some(run) && run !is NotStarted
}

/// The result of the rewrite pass over `transcript`, given how the run went; `None`
/// where the model or the runner is missing, so that there was no run, or the runner
/// could not be started.
pub fn rewrite(
    transcript: &str,
    options: &RewriteOptions,
    run: Option<&RunnerRun>,
    wall_ms: u64,
) -> (result: Option<RewriteResult>)
    ensures
        result is Some <==> was_started(run),
        result matches Some(r) ==> {
            &&& r.text@ == run_text(*run->0, transcript@, options.control_line@)
            &&& r.wall_ms == wall_ms
            &&& r.in_tokens == tokens_of(transcript@)
            &&& r.out_tokens == tokens_of(r.text@)
            &&& r.ok == (r.text@.len() > 0)
        },
{
    match run {
        None | Some(RunnerRun::NotStarted) => None,
        Some(run) => {
            let text = run_llama(run, transcript, options);
            let in_tokens: u64 = estimate_tokens(transcript);
            let out_tokens: u64 = estimate_tokens(text.as_str());
            let ok = !text.as_str().is_empty();
            Some(RewriteResult { text, wall_ms, in_tokens, out_tokens, ok })
        },
    }
}

/// An answer without marks behind it is kept whole, with all its lines: what is cut off
/// is the lead-in before it and the white space around it.
pub proof fn answers_without_marks_are_kept(answer: Seq<char>)
    requires
        forall|mark: Seq<char>| #[trigger]
            end_mark(mark) ==> crate::pattern::rewritten_once(
                mark,
                crate::pattern::rewritten_once("(?s)^\\s*(<\\|im_start\\|>)?\\s*"@, answer, ""@),
                ""@,
            ) == crate::pattern::rewritten_once("(?s)^\\s*(<\\|im_start\\|>)?\\s*"@, answer, ""@),
    ensures
        tidied(answer) == crate::text::trimmed(
            crate::pattern::rewritten_once("(?s)^\\s*(<\\|im_start\\|>)?\\s*"@, answer, ""@),
        ),
{
    assert(end_mark(EXITING@) && end_mark(TIMINGS@) && end_mark(TURN_END@) && end_mark(TEXT_END@));
}

/// Each mark behind an answer is cut off: where only one of them changes the answer, and
/// none changes what that leaves, this is the answer, trimmed.
pub proof fn every_end_mark_is_cut_off(answer: Seq<char>, mark: Seq<char>)
    requires
        end_mark(mark),
        forall|other: Seq<char>| #[trigger]
            end_mark(other) && other != mark ==> crate::pattern::rewritten_once(
                other,
                crate::pattern::rewritten_once("(?s)^\\s*(<\\|im_start\\|>)?\\s*"@, answer, ""@),
                ""@,
            ) == crate::pattern::rewritten_once("(?s)^\\s*(<\\|im_start\\|>)?\\s*"@, answer, ""@),
        forall|other: Seq<char>| #[trigger]
            end_mark(other) ==> crate::pattern::rewritten_once(
                other,
                crate::pattern::rewritten_once(
                    mark,
                    crate::pattern::rewritten_once("(?s)^\\s*(<\\|im_start\\|>)?\\s*"@, answer, ""@),
                    ""@,
                ),
                ""@,
            ) == crate::pattern::rewritten_once(
                mark,
                crate::pattern::rewritten_once("(?s)^\\s*(<\\|im_start\\|>)?\\s*"@, answer, ""@),
                ""@,
            ),
    ensures
        tidied(answer) == crate::text::trimmed(
            crate::pattern::rewritten_once(
                mark,
                crate::pattern::rewritten_once("(?s)^\\s*(<\\|im_start\\|>)?\\s*"@, answer, ""@),
                ""@,
            ),
        ),
{
    assert(end_mark(EXITING@) && end_mark(TIMINGS@) && end_mark(TURN_END@) && end_mark(TEXT_END@));
}

/// What is extracted is the tidied text behind the echoed transcript, to the very end, or
/// where that is not found behind the last header of the assistant's turn; carriage
/// returns do not count.
pub proof fn answers_reach_to_the_end(
    all: Seq<char>,
    transcript: Seq<char>,
    control_line: Seq<char>,
)
    ensures
        ({
            let text = crate::text::without(all, '\r');
            let answer = extracted(all, transcript, control_line);
            match (transcript_end(text, transcript, control_line), role_end(text)) {
                (Some(end), _) => answer == tidied(text.subrange(end, text.len() as int)),
                (None, Some(end)) => answer == tidied(text.subrange(end, text.len() as int)),
                (None, None) => answer.len() == 0,
            }
        }),
{
}

/// Where there is any header of the assistant's turn, the answer begins behind one, and
/// behind no earlier one than the last.
pub proof fn the_last_role_header_counts(all: Seq<char>, i: int)
    requires
        is_role_header_end(all, i),
        0 <= i <= all.len(),
    ensures
        role_end(all) matches Some(end) && end >= i,
{
    crate::text::last_found_is_last(all, "<|im_start|>assistant"@);
    crate::text::last_found_is_last(all, "\nassistant:"@);
    crate::text::last_found_is_last(all, "\nassistant\n"@);
}

/// The echo of a transcript of up to 2048 bytes ends where the text behind the control
/// line and the transcript begins. Without such a text it ends with the last place where
/// the transcript stands at the end of a line, if there is one.
pub proof fn short_transcripts_are_found_whole(
    all: Seq<char>,
    transcript: Seq<char>,
    behind: Option<Seq<char>>,
)
    requires
        transcript.len() > 0,
        crate::text::byte_len(transcript) <= 2048,
    ensures
        behind matches Some(rest) ==> end_given(all, transcript, behind) == Some(
            all.len() - rest.len(),
        ),
        behind is None ==> match end_given(all, transcript, behind) {
            Some(end) => {
                &&& crate::text::occurs_at(all, transcript.push('\n'), end - transcript.len())
                &&& forall|i: int|
                    i > end - transcript.len() ==> !(#[trigger] crate::text::occurs_at(
                        all,
                        transcript.push('\n'),
                        i,
                    ))
            },
            None => forall|i: int|
                !(#[trigger] crate::text::occurs_at(all, transcript.push('\n'), i)),
        },
{
    crate::text::last_found_is_last(all, transcript.push('\n'));
}

/// Known presets are taken as they are, and every other word stands for the default:
/// casual, prose and general.
pub proof fn presets_are_taken_as_they_are(s: Seq<char>)
    ensures
        styling_of(s) == (if s == "casual"@ || s == "semi-casual"@ || s == "semi-formal"@ || s
            == "formal"@ {
            s
        } else {
            "casual"@
        }),
        structure_of(s) == (if s == "prose"@ || s == "lists"@ {
            s
        } else {
            "prose"@
        }),
        context_of(s) == (if s == "general"@ || s == "email"@ {
            s
        } else {
            "general"@
        }),
{
}

/// The control line names the styling, the structure and the context in brackets, each
/// as it was validated.
pub proof fn control_lines_name_their_presets(
    styling: Seq<char>,
    structure: Seq<char>,
    context: Seq<char>,
)
    ensures
        ({
            let line = control_line_of(styling, structure, context);
            let a = "[Styling: "@ + styling_of(styling);
            let b = "] [Structure: "@ + structure_of(structure);
            let c = "] [Context: "@ + context_of(context) + "]"@;
            &&& line == a + b + c
        }),
{
    let a = "[Styling: "@ + styling_of(styling);
    let b = "] [Structure: "@ + structure_of(structure);
    let c = "] [Context: "@ + context_of(context) + "]"@;
    assert(control_line_of(styling, structure, context) =~= a + b + c);
}

/// The budget is 32 tokens more than 1.3 times a token for every four characters, cut to
/// whole tokens, and at least 64 and at most 1024.
pub proof fn token_budgets_are_bounded(text: Seq<char>)
    ensures
        64 <= token_budget(text) <= 1024,
        ({
            let wanted = 13 * (text.len() / 4);
            let n = token_budget(text) - 32;
            &&& 10 * n <= wanted || token_budget(text) == 64
            &&& wanted < 10 * (n + 1) || token_budget(text) == 1024
        }),
{
}

/// The runner gets the model, the threads, the layers and the budget behind their flags,
/// and at the end, as its prompt, the control line and below it the whole transcript.
pub proof fn the_whole_transcript_is_prompted(
    model: Seq<char>,
    transcript: Seq<char>,
    options: RewriteOptions,
)
    ensures
        ({
            let args = runner_args(model, transcript, options);
            &&& args.len() == 20
            &&& args[0] == "-m"@ && args[1] == model
            &&& args[7] == "-t"@ && args[8] == crate::text::signed_decimal_of(
                options.threads as int,
            )
            &&& args[12] == "-ngl"@ && args[13] == crate::text::signed_decimal_of(
                options.gpu_layers as int,
            )
            &&& args[14] == "-n"@ && args[15] == crate::text::signed_decimal_of(
                token_budget(transcript),
            )
            &&& args[16] == "-sys"@ && args[18] == "-p"@
            &&& args[19] == options.control_line@ + "\n"@ + transcript
            &&& args[5] == "--temp"@ && args[6] == "0"@
            &&& args[9] == "-c"@ && args[10] == "2048"@
            &&& args[4] == "{\"enable_thinking\":false}"@
        }),
{
}

/// A run that succeeded and whose error output holds no failure line gives what is
/// extracted from its two outputs; any other run gives nothing.
pub proof fn sound_runs_give_their_answer(
    run: RunnerRun,
    transcript: Seq<char>,
    control_line: Seq<char>,
)
    ensures
        match run {
            RunnerRun::Ended { success, stdout, stderr } => {
                let failed = crate::pattern::matched(
                    "error\\s*:|failed to |load failed|could not |cannot (open|load|find) |exception|fatal|aborted|no such file|invalid (model|argument|grammar)"@,
                    lowercased(stderr@),
                ) == Some(true);
                &&& success && !failed ==> run_text(run, transcript, control_line) == extracted(
                    stdout@ + "\n"@ + stderr@,
                    transcript,
                    control_line,
                )
                &&& !success || failed ==> run_text(run, transcript, control_line).len() == 0
            },
            _ => run_text(run, transcript, control_line).len() == 0,
        },
{
}

/// A transcript of more than 2048 bytes is found by its last 256 bytes: its echo ends
/// behind the line end that follows the last place where these stand, if there is nothing
/// but blanks and tabs between, and is not found otherwise.
pub proof fn long_transcripts_are_found_by_their_end(
    all: Seq<char>,
    transcript: Seq<char>,
    behind: Option<Seq<char>>,
    i: int,
    gap: int,
)
    requires
        crate::text::byte_len(transcript) > 2048,
        transcript.len() > 0,
        tail_of(transcript, 256).len() > 0,
        crate::text::occurs_at(all, tail_of(transcript, 256), i),
        forall|j: int|
            j > i ==> !(#[trigger] crate::text::occurs_at(all, tail_of(transcript, 256), j)),
        0 <= gap,
        i + tail_of(transcript, 256).len() + gap < all.len(),
        forall|k: int|
            i + tail_of(transcript, 256).len() <= k < i + tail_of(transcript, 256).len() + gap ==> (
            #[trigger] all[k] == ' ' || all[k] == '\t'),
        all[i + tail_of(transcript, 256).len() + gap] != ' ',
        all[i + tail_of(transcript, 256).len() + gap] != '\t',
    ensures
        end_given(all, transcript, behind) == (if all[i + tail_of(transcript, 256).len() + gap]
            == '\n' {
            Some(i + tail_of(transcript, 256).len() + gap + 1)
        } else {
            None
        }),
{
    let tail = tail_of(transcript, 256);
    crate::text::last_found_is_last(all, tail);
    assert(crate::text::last_found(all, tail) == Some(i)) by {
        let found = crate::text::last_found(all, tail)->0;
        assert(crate::text::occurs_at(all, tail, i));
        assert(crate::text::occurs_at(all, tail, found));
    }
    let start = i + tail.len();
    let rest = all.subrange(start, all.len() as int);
    crate::text::start_margin_is_cut(rest, Margin::Gap);
    let n = choose|n: int|
        {
            &&& 0 <= n <= rest.len()
            &&& crate::text::trim_start_of(rest, Margin::Gap) == #[trigger] rest.subrange(
                n,
                rest.len() as int,
            )
            &&& forall|k: int| 0 <= k < n ==> Margin::Gap.has(#[trigger] rest[k])
            &&& n < rest.len() ==> !Margin::Gap.has(rest[n])
        };
    assert(rest[gap] == all[start + gap]);
    if n < gap {
        assert(rest[n] == all[start + n]);
    }
    if n > gap {
        assert(Margin::Gap.has(rest[gap]));
    }
    assert(n == gap);
}

/// A run that could be started has a result, however it went, which holds the text that it
/// gave, counts four characters to a token, and is good exactly where there is any text.
pub proof fn started_runs_have_a_result(
    transcript: &str,
    options: RewriteOptions,
    run: RunnerRun,
    wall_ms: u64,
    result: Option<RewriteResult>,
)
    requires
        call_ensures(rewrite, (transcript, &options, Some(&run), wall_ms), result),
    ensures
        result is Some <==> !(run is NotStarted),
        result is Some ==> {
            let r = result->0;
            &&& r.text@ == run_text(run, transcript@, options.control_line@)
            &&& r.wall_ms == wall_ms
            &&& 4 * r.in_tokens <= transcript@.len() < 4 * r.in_tokens + 4
            &&& 4 * r.out_tokens <= r.text@.len() < 4 * r.out_tokens + 4
            &&& r.ok <==> r.text@.len() > 0
        },
{
}

/// The echo of a short transcript is looked for behind the control line that was sent with
/// it; that of a long one, which no pattern could hold, is not.
pub proof fn short_transcripts_are_looked_for_behind_the_control_line(
    all: Seq<char>,
    transcript: Seq<char>,
    control_line: Seq<char>,
)
    requires
        transcript.len() > 0,
    ensures
        crate::text::byte_len(transcript) <= 2048 ==> transcript_end(all, transcript, control_line)
            == end_given(
            all,
            transcript,
            crate::pattern::text_behind(
                "[^\\r\\n]*"@ + crate::pattern::escaped(control_line) + "[^\\r\\n]*\\r?\\n[^\\r\\n]*"@
                    + crate::pattern::escaped(transcript) + "(?:[ \\t]*)\\r?\\n"@,
                all,
            ),
        ),
        crate::text::byte_len(transcript) > 2048 ==> transcript_end(all, transcript, control_line)
            == end_given(all, transcript, None),
        transcript_end(all, Seq::empty(), control_line) is None,
{
}

} // verus!
