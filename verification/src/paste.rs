//! Transcript clean-up before a text is pasted.
use crate::pattern::{escape, rewrite_all};
use crate::text::{joined, trim, trim_margin, Margin};
use vstd::prelude::*;

verus! {

/// A recording shorter than this many samples is dropped: 0.3 seconds at the
/// session rate.
pub const MIN_AUDIO_SAMPLES: u64 = 4800;

/// Hesitations that stand alone, in the order in which they are removed.
pub open spec fn hesitations() -> Seq<Seq<char>> {
    seq![
        "uh"@,
        "um"@,
        "uhm"@,
        "umm"@,
        "uhh"@,
        "ah"@,
        "eh"@,
        "hmm"@,
        "hm"@,
        "mm"@,
        "mhm"@,
        "mm-hmm"@,
        "mmhmm"@,
    ]
}

/// The pattern of a word, whatever its case.
pub open spec fn word_pattern(word: Seq<char>) -> Seq<char> {
    "(?i)\\b"@ + crate::pattern::escaped(word) + "\\b"@
}

/// The patterns of the words that are hesitations wherever they stand alone.
pub open spec fn hesitation_pattern(pattern: Seq<char>) -> bool {
    ||| pattern == "(?i)\\buh\\b"@
    ||| pattern == "(?i)\\bum\\b"@
    ||| pattern == "(?i)\\buhm\\b"@
    ||| pattern == "(?i)\\bumm\\b"@
    ||| pattern == "(?i)\\buhh\\b"@
    ||| pattern == "(?i)\\bah\\b"@
    ||| pattern == "(?i)\\beh\\b"@
    ||| pattern == "(?i)\\bhmm\\b"@
    ||| pattern == "(?i)\\bhm\\b"@
    ||| pattern == "(?i)\\bmm\\b"@
    ||| pattern == "(?i)\\bmhm\\b"@
    ||| pattern == "(?i)\\bmm\\-hmm\\b"@
    ||| pattern == "(?i)\\bmmhmm\\b"@
}

/// Whether none of the words that are hesitations is in a text.
pub open spec fn free_of_hesitations(text: Seq<char>) -> bool {
    forall|pattern: Seq<char>| #[trigger]
        hesitation_pattern(pattern) ==> crate::pattern::matched(pattern, text) != Some(true)
}

proof fn word_patterns_are_literal()
    ensures
        word_pattern(hesitations()[0]) == "(?i)\\buh\\b"@,
        word_pattern(hesitations()[1]) == "(?i)\\bum\\b"@,
        word_pattern(hesitations()[2]) == "(?i)\\buhm\\b"@,
        word_pattern(hesitations()[3]) == "(?i)\\bumm\\b"@,
        word_pattern(hesitations()[4]) == "(?i)\\buhh\\b"@,
        word_pattern(hesitations()[5]) == "(?i)\\bah\\b"@,
        word_pattern(hesitations()[6]) == "(?i)\\beh\\b"@,
        word_pattern(hesitations()[7]) == "(?i)\\bhmm\\b"@,
        word_pattern(hesitations()[8]) == "(?i)\\bhm\\b"@,
        word_pattern(hesitations()[9]) == "(?i)\\bmm\\b"@,
        word_pattern(hesitations()[10]) == "(?i)\\bmhm\\b"@,
        word_pattern(hesitations()[11]) == "(?i)\\bmm\\-hmm\\b"@,
        word_pattern(hesitations()[12]) == "(?i)\\bmmhmm\\b"@,
{
    reveal_strlit("(?i)\\b");
    reveal_strlit("\\b");
    reveal_strlit("uh");
    reveal_strlit("(?i)\\buh\\b");
    reveal_strlit("um");
    reveal_strlit("(?i)\\bum\\b");
    reveal_strlit("uhm");
    reveal_strlit("(?i)\\buhm\\b");
    reveal_strlit("umm");
    reveal_strlit("(?i)\\bumm\\b");
    reveal_strlit("uhh");
    reveal_strlit("(?i)\\buhh\\b");
    reveal_strlit("ah");
    reveal_strlit("(?i)\\bah\\b");
    reveal_strlit("eh");
    reveal_strlit("(?i)\\beh\\b");
    reveal_strlit("hmm");
    reveal_strlit("(?i)\\bhmm\\b");
    reveal_strlit("hm");
    reveal_strlit("(?i)\\bhm\\b");
    reveal_strlit("mm");
    reveal_strlit("(?i)\\bmm\\b");
    reveal_strlit("mhm");
    reveal_strlit("(?i)\\bmhm\\b");
    reveal_strlit("mm-hmm");
    reveal_strlit("(?i)\\bmm\\-hmm\\b");
    reveal_strlit("mmhmm");
    reveal_strlit("(?i)\\bmmhmm\\b");
    reveal_with_fuel(crate::pattern::escaped, 7);
    assert(word_pattern("uh"@) =~= "(?i)\\buh\\b"@);
    assert(word_pattern("um"@) =~= "(?i)\\bum\\b"@);
    assert(word_pattern("uhm"@) =~= "(?i)\\buhm\\b"@);
    assert(word_pattern("umm"@) =~= "(?i)\\bumm\\b"@);
    assert(word_pattern("uhh"@) =~= "(?i)\\buhh\\b"@);
    assert(word_pattern("ah"@) =~= "(?i)\\bah\\b"@);
    assert(word_pattern("eh"@) =~= "(?i)\\beh\\b"@);
    assert(word_pattern("hmm"@) =~= "(?i)\\bhmm\\b"@);
    assert(word_pattern("hm"@) =~= "(?i)\\bhm\\b"@);
    assert(word_pattern("mm"@) =~= "(?i)\\bmm\\b"@);
    assert(word_pattern("mhm"@) =~= "(?i)\\bmhm\\b"@);
    assert(word_pattern("mm-hmm"@) =~= "(?i)\\bmm\\-hmm\\b"@);
    assert(word_pattern("mmhmm"@) =~= "(?i)\\bmmhmm\\b"@);
}

/// Every hesitation has a word pattern of the list, and every pattern of the list is that
/// of a hesitation.
proof fn hesitations_have_their_patterns()
    ensures
        forall|k: int| 0 <= k < 13 ==> hesitation_pattern(word_pattern(#[trigger] hesitations()[k])),
        forall|pattern: Seq<char>| #[trigger]
            hesitation_pattern(pattern) ==> exists|k: int|
                0 <= k < 13 && word_pattern(#[trigger] hesitations()[k]) == pattern,
{
    word_patterns_are_literal();
    assert forall|pattern: Seq<char>| #[trigger] hesitation_pattern(pattern) implies exists|k: int|
        0 <= k < 13 && word_pattern(#[trigger] hesitations()[k]) == pattern by {
        let h = hesitations();
        assert(word_pattern(h[0]) == "(?i)\\buh\\b"@);
        assert(word_pattern(h[1]) == "(?i)\\bum\\b"@);
        assert(word_pattern(h[2]) == "(?i)\\buhm\\b"@);
        assert(word_pattern(h[3]) == "(?i)\\bumm\\b"@);
        assert(word_pattern(h[4]) == "(?i)\\buhh\\b"@);
        assert(word_pattern(h[5]) == "(?i)\\bah\\b"@);
        assert(word_pattern(h[6]) == "(?i)\\beh\\b"@);
        assert(word_pattern(h[7]) == "(?i)\\bhmm\\b"@);
        assert(word_pattern(h[8]) == "(?i)\\bhm\\b"@);
        assert(word_pattern(h[9]) == "(?i)\\bmm\\b"@);
        assert(word_pattern(h[10]) == "(?i)\\bmhm\\b"@);
        assert(word_pattern(h[11]) == "(?i)\\bmm\\-hmm\\b"@);
        assert(word_pattern(h[12]) == "(?i)\\bmmhmm\\b"@);
    }
}

/// `text` without the first `n` hesitations.
pub open spec fn without_hesitations(text: Seq<char>, n: nat) -> Seq<char>
    decreases n,
{
    if n == 0 {
        text
    } else {
        crate::pattern::rewritten(
            word_pattern(hesitations()[n - 1]),
            without_hesitations(text, (n - 1) as nat),
            Seq::empty(),
        )
    }
}

/// A drawn-out hesitation with what stands before and after it.
pub const FILLER: &'static str =
    "(?i)(^|[\\s,])(uh+|u+m+|uhm|umm+|uhh+|ah+|eh+|hmm+|hm+|m+hm+|mm-?hmm?|mm+)($|[\\s,.!?])";

/// What replaces a drawn-out hesitation: what stood before it and after it.
pub const FILLER_GAP: &'static str = "${1} ${3}";

/// Several spaces or tabs in a row.
pub const MULTI_SPACE: &'static str = "[ \\t]{2,}";

/// White space before a punctuation mark.
pub const SPACE_BEFORE_PUNCT: &'static str = "\\s+([,.!?;:])";

/// `text` after every filler in it was removed once.
pub open spec fn fillers_removed(text: Seq<char>) -> Seq<char> {
    crate::pattern::rewritten(FILLER@, text, FILLER_GAP@)
}

/// `text` after fillers were removed for as long as that makes it shorter: taking
/// one out can bring the next one to light.
pub open spec fn stripped(text: Seq<char>) -> Seq<char>
    decreases text.len(),
{
    let next = fillers_removed(text);
    if next.len() < text.len() {
        stripped(next)
    } else {
        next
    }
}

/// Removes drawn-out hesitations, chained ones too: no filler is left, so that stripping
/// the result once more changes nothing, and a text without a filler stays as it is.
pub fn strip_fillers(t: &str) -> (r: String)
    ensures
        r@ == stripped(t@),
        crate::pattern::matched(FILLER@, r@) != Some(true),
        stripped(r@) == r@,
        crate::pattern::matched(FILLER@, t@) != Some(true) ==> r@ == t@,
{
    let mut current = t.to_owned();
    let mut left: usize = crate::text::chars_of(t).len();
    loop
        invariant
            stripped(current@) == stripped(t@),
            left == current@.len(),
            crate::pattern::matched(FILLER@, t@) != Some(true) ==> current@ == t@,
        decreases left,
    {
        let next = rewrite_all(FILLER, current.as_str(), FILLER_GAP);
        let n: usize = crate::text::chars_of(next.as_str()).len();
        if n >= left {
            return next;
        }
        current = next;
        left = n;
    }
}

/// Removes the hesitations that stand alone.
pub fn drop_hesitations(t: &str) -> (r: String)
    ensures
        r@ == without_hesitations(t@, 13),
        free_of_hesitations(t@) ==> r@ == t@,
{
    proof {
        hesitations_have_their_patterns();
    }
    let words = [
        "uh",
        "um",
        "uhm",
        "umm",
        "uhh",
        "ah",
        "eh",
        "hmm",
        "hm",
        "mm",
        "mhm",
        "mm-hmm",
        "mmhmm",
    ];
    let mut text = t.to_owned();
    let mut i: usize = 0;
    while i < 13
        invariant
            i <= 13,
            forall|k: int| 0 <= k < 13 ==> (#[trigger] words@[k])@ == hesitations()[k],
            text@ == without_hesitations(t@, i as nat),
            free_of_hesitations(t@) ==> text@ == t@,
            forall|k: int|
                0 <= k < 13 ==> hesitation_pattern(word_pattern(#[trigger] hesitations()[k])),
        decreases 13 - i,
    {
        let pattern = joined(joined("(?i)\\b", escape(words[i]).as_str()).as_str(), "\\b");
        assert(pattern@ == word_pattern(hesitations()[i as int]));
        assert(hesitation_pattern(pattern@));
        let next = rewrite_all(pattern.as_str(), text.as_str(), "");
        proof {
            reveal_strlit("");
            assert(""@ =~= Seq::<char>::empty());
        }
        text = next;
        i += 1;
    }
    text
}

/// The clean form of a transcript.
pub open spec fn cleaned(raw: Seq<char>) -> Seq<char> {
    if raw.len() == 0 {
        Seq::empty()
    } else {
        let words = stripped(without_hesitations(crate::text::trimmed(raw), 13));
        let spaced = crate::pattern::rewritten(MULTI_SPACE@, words, " "@);
        let tight = crate::pattern::rewritten(SPACE_BEFORE_PUNCT@, spaced, "$1"@);
        crate::text::trimmed_of(tight, Margin::Leftover)
    }
}

/// Whether there is nothing to clean inside a text: no hesitation, no filler, no run of
/// spaces, and no white space before punctuation.
pub open spec fn is_tidy(text: Seq<char>) -> bool {
    &&& free_of_hesitations(text)
    &&& crate::pattern::matched(
        "(?i)(^|[\\s,])(uh+|u+m+|uhm|umm+|uhh+|ah+|eh+|hmm+|hm+|m+hm+|mm-?hmm?|mm+)($|[\\s,.!?])"@,
        text,
    ) != Some(true)
    &&& crate::pattern::matched("[ \\t]{2,}"@, text) != Some(true)
    &&& crate::pattern::matched("\\s+([,.!?;:])"@, text) != Some(true)
}

/// Cleans a transcript: no hesitations, single spaces, none before punctuation, and
/// no leftovers at the ends.
pub fn clean_transcript(raw: &str) -> (r: String)
    ensures
        r@ == cleaned(raw@),
        is_tidy(crate::text::trimmed(raw@)) ==> r@ == crate::text::trimmed_of(
            crate::text::trimmed(raw@),
            Margin::Leftover,
        ),
{
    if raw.is_empty() {
        proof {
            assert(crate::text::trimmed(raw@) =~= Seq::empty());
            assert(crate::text::trimmed_of(Seq::empty(), Margin::Leftover) =~= Seq::empty());
        }
        return String::new();
    }
    let words = strip_fillers(drop_hesitations(trim(raw).as_str()).as_str());
    let spaced = rewrite_all(MULTI_SPACE, words.as_str(), " ");
    let tight = rewrite_all(SPACE_BEFORE_PUNCT, spaced.as_str(), "$1");
    trim_leftovers(tight.as_str())
}

/// The last step of cleaning: cuts spaces, commas and semicolons off the ends.
pub fn trim_leftovers(tight: &str) -> (r: String)
    ensures
        r@ == crate::text::trimmed_of(tight@, Margin::Leftover),
{
    trim_margin(tight, Margin::Leftover)
}

/// A clean transcript neither begins nor ends with a space, a comma or a
/// semicolon.
pub proof fn clean_transcripts_have_no_leftovers(raw: Seq<char>)
    requires
        cleaned(raw).len() > 0,
    ensures
        !Margin::Leftover.has(cleaned(raw)[0]),
        !Margin::Leftover.has(cleaned(raw).last()),
{
    let words = stripped(without_hesitations(crate::text::trimmed(raw), 13));
    let spaced = crate::pattern::rewritten(MULTI_SPACE@, words, " "@);
    let tight = crate::pattern::rewritten(SPACE_BEFORE_PUNCT@, spaced, "$1"@);
    crate::text::trimming_leaves_no_margin(tight, Margin::Leftover);
}

/// Stripping fillers stops only when a pass no longer makes the text shorter.
pub proof fn stripping_goes_on_while_it_shortens(text: Seq<char>)
    ensures
        exists|last: Seq<char>|
            #[trigger] fillers_removed(last) == stripped(text) && stripped(text).len()
                >= last.len(),
    decreases text.len(),
{
    let next = fillers_removed(text);
    if next.len() < text.len() {
        stripping_goes_on_while_it_shortens(next);
    }
}

/// A step of pasting.
#[derive(Clone, Copy, Debug, PartialEq, Eq, Structural)]
pub enum PasteStep {
    OpenClipboard,
    SetText,
    /// Wait for the clipboard.
    Settle,
    RestoreFocus,
    /// Wait for the window.
    SettleFocus,
    OpenKeys,
    PressControl,
    ClickV,
    ReleaseControl,
    Done,
    Failed,
}

/// The step after a step that went well or not. A window that cannot be brought to the
/// front does not keep the keys from being sent.
pub open spec fn step_after(step: PasteStep, ok: bool, has_window: bool) -> PasteStep {
    match step {
        PasteStep::RestoreFocus => PasteStep::SettleFocus,
        PasteStep::Done => PasteStep::Done,
        PasteStep::Failed => PasteStep::Failed,
        _ if !ok => PasteStep::Failed,
        PasteStep::OpenClipboard => PasteStep::SetText,
        PasteStep::SetText => PasteStep::Settle,
        PasteStep::Settle => if has_window {
            PasteStep::RestoreFocus
        } else {
            PasteStep::OpenKeys
        },
        PasteStep::SettleFocus => PasteStep::OpenKeys,
        PasteStep::OpenKeys => PasteStep::PressControl,
        PasteStep::PressControl => PasteStep::ClickV,
        PasteStep::ClickV => PasteStep::ReleaseControl,
        PasteStep::ReleaseControl => PasteStep::Done,
    }
}

/// The step after a step that went well or not.
pub fn next_paste_step(step: PasteStep, ok: bool, has_window: bool) -> (next: PasteStep)
    ensures
        next == step_after(step, ok, has_window),
{
    match step {
        PasteStep::RestoreFocus => PasteStep::SettleFocus,
        PasteStep::Done => PasteStep::Done,
        PasteStep::Failed => PasteStep::Failed,
        PasteStep::OpenClipboard => if ok {
            PasteStep::SetText
        } else {
            PasteStep::Failed
        },
        PasteStep::SetText => if ok {
            PasteStep::Settle
        } else {
            PasteStep::Failed
        },
        PasteStep::Settle => if !ok {
            PasteStep::Failed
        } else if has_window {
            PasteStep::RestoreFocus
        } else {
            PasteStep::OpenKeys
        },
        PasteStep::SettleFocus => if ok {
            PasteStep::OpenKeys
        } else {
            PasteStep::Failed
        },
        PasteStep::OpenKeys => if ok {
            PasteStep::PressControl
        } else {
            PasteStep::Failed
        },
        PasteStep::PressControl => if ok {
            PasteStep::ClickV
        } else {
            PasteStep::Failed
        },
        PasteStep::ClickV => if ok {
            PasteStep::ReleaseControl
        } else {
            PasteStep::Failed
        },
        PasteStep::ReleaseControl => if ok {
            PasteStep::Done
        } else {
            PasteStep::Failed
        },
    }
}

/// What pasting comes to: the number of characters that were pasted, or what went
/// wrong.
pub fn paste_text(text: &str, failure: Option<String>) -> (r: Result<usize, String>)
    ensures
        match (failure, r) {
            (Some(failure), Err(error)) => error == failure,
            (None, Ok(n)) => n == text@.len(),
            _ => false,
        },
{
    match failure {
        Some(failure) => Err(failure),
        None => Ok(text.unicode_len()),
    }
}

/// The place of a step.
pub open spec fn rank(step: PasteStep) -> int {
    match step {
        PasteStep::OpenClipboard => 0,
        PasteStep::SetText => 1,
        PasteStep::Settle => 2,
        PasteStep::RestoreFocus => 3,
        PasteStep::SettleFocus => 4,
        PasteStep::OpenKeys => 5,
        PasteStep::PressControl => 6,
        PasteStep::ClickV => 7,
        PasteStep::ReleaseControl => 8,
        PasteStep::Done => 9,
        PasteStep::Failed => 10,
    }
}

/// Every step of pasting leads on, so that pasting ends, and only an ended one stays
/// where it is; the first three steps lead to the clipboard before any key is sent.
pub proof fn pasting_goes_on(step: PasteStep, ok: bool, has_window: bool)
    ensures
        rank(step_after(step, ok, has_window)) > rank(step) || step is Done || step is Failed,
        rank(step) < 2 ==> rank(step_after(step, ok, has_window)) <= 2 || step_after(
            step,
            ok,
            has_window,
        ) is Failed,
{
}

/// Words that are not hesitations are kept: a text that none of the patterns of the list
/// changes comes back as it is.
pub proof fn other_words_are_kept(text: Seq<char>)
    requires
        forall|pattern: Seq<char>| #[trigger]
            hesitation_pattern(pattern) ==> crate::pattern::rewritten(
                pattern,
                text,
                Seq::empty(),
            ) == text,
    ensures
        without_hesitations(text, 13) == text,
{
    hesitations_have_their_patterns();
    unchanged_words_stay(text, 13);
}

proof fn unchanged_words_stay(text: Seq<char>, n: nat)
    requires
        n <= 13,
        forall|k: int|
            0 <= k < 13 ==> crate::pattern::rewritten(
                word_pattern(#[trigger] hesitations()[k]),
                text,
                Seq::empty(),
            ) == text,
    ensures
        without_hesitations(text, n) == text,
    decreases n,
{
    if n > 0 {
        unchanged_words_stay(text, (n - 1) as nat);
        assert(crate::pattern::rewritten(
            word_pattern(hesitations()[n - 1]),
            text,
            Seq::empty(),
        ) == text);
    }
}

/// Every hesitation of the list is taken out: where only one of the patterns changes a
/// text, and none changes what that one leaves, this is what comes of the text.
pub proof fn every_hesitation_is_removed(text: Seq<char>, pattern: Seq<char>)
    requires
        hesitation_pattern(pattern),
        forall|other: Seq<char>| #[trigger]
            hesitation_pattern(other) && other != pattern ==> crate::pattern::rewritten(
                other,
                text,
                Seq::empty(),
            ) == text,
        forall|other: Seq<char>| #[trigger]
            hesitation_pattern(other) ==> crate::pattern::rewritten(
                other,
                crate::pattern::rewritten(pattern, text, Seq::empty()),
                Seq::empty(),
            ) == crate::pattern::rewritten(pattern, text, Seq::empty()),
    ensures
        without_hesitations(text, 13) == crate::pattern::rewritten(pattern, text, Seq::empty()),
{
    hesitations_have_their_patterns();
    one_word_goes(text, pattern, 13);
}

proof fn one_word_goes(text: Seq<char>, pattern: Seq<char>, n: nat)
    requires
        n <= 13,
        forall|k: int| 0 <= k < 13 ==> hesitation_pattern(word_pattern(#[trigger] hesitations()[k])),
        forall|other: Seq<char>| #[trigger]
            hesitation_pattern(other) && other != pattern ==> crate::pattern::rewritten(
                other,
                text,
                Seq::empty(),
            ) == text,
        forall|other: Seq<char>| #[trigger]
            hesitation_pattern(other) ==> crate::pattern::rewritten(
                other,
                crate::pattern::rewritten(pattern, text, Seq::empty()),
                Seq::empty(),
            ) == crate::pattern::rewritten(pattern, text, Seq::empty()),
    ensures
        ({
            let after = crate::pattern::rewritten(pattern, text, Seq::empty());
            &&& without_hesitations(text, n) == text || without_hesitations(text, n) == after
            &&& (exists|k: int| 0 <= k < n && word_pattern(#[trigger] hesitations()[k]) == pattern)
                ==> without_hesitations(text, n) == after
        }),
    decreases n,
{
    if n > 0 {
        one_word_goes(text, pattern, (n - 1) as nat);
        let last = word_pattern(hesitations()[n - 1]);
        assert(hesitation_pattern(last));
        if exists|k: int| 0 <= k < n && word_pattern(#[trigger] hesitations()[k]) == pattern {
            let k = choose|k: int|
                0 <= k < n && word_pattern(#[trigger] hesitations()[k]) == pattern;
            if k == n - 1 {
                assert(last == pattern);
            }
        }
    }
}

/// Stripping fillers is taking them out again and again, each with what stands around it
/// kept: a text that a pass does not make shorter is what the pass leaves, and any other
/// is stripped like what the pass leaves.
pub proof fn fillers_go_and_their_surroundings_stay(text: Seq<char>)
    ensures
        ({
            let pass = crate::pattern::rewritten(
                "(?i)(^|[\\s,])(uh+|u+m+|uhm|umm+|uhh+|ah+|eh+|hmm+|hm+|m+hm+|mm-?hmm?|mm+)($|[\\s,.!?])"@,
                text,
                "${1} ${3}"@,
            );
            &&& pass.len() >= text.len() ==> stripped(text) == pass
            &&& pass.len() < text.len() ==> stripped(text) == stripped(pass)
        }),
{
}

/// A clean transcript is what is left of the trimmed text without hesitations and fillers
/// once runs of spaces are one space, no white space stands before punctuation, and
/// spaces, commas and semicolons are off its ends; every other character is kept.
pub proof fn cleaning_keeps_the_words(raw: Seq<char>)
    ensures
        ({
            let words = stripped(without_hesitations(crate::text::trimmed(raw), 13));
            let spaced = crate::pattern::rewritten("[ \\t]{2,}"@, words, " "@);
            let tight = crate::pattern::rewritten("\\s+([,.!?;:])"@, spaced, "$1"@);
            raw.len() > 0 ==> exists|i: int, j: int|
                {
                    &&& 0 <= i <= j <= tight.len()
                    &&& cleaned(raw) == #[trigger] tight.subrange(i, j)
                    &&& forall|k: int|
                        0 <= k < tight.len() && !(i <= k < j) ==> #[trigger] tight[k] == ' '
                            || tight[k] == ',' || tight[k] == ';'
                }
        }),
        raw.len() == 0 ==> cleaned(raw).len() == 0,
{
    if raw.len() > 0 {
        let words = stripped(without_hesitations(crate::text::trimmed(raw), 13));
        let spaced = crate::pattern::rewritten("[ \\t]{2,}"@, words, " "@);
        let tight = crate::pattern::rewritten("\\s+([,.!?;:])"@, spaced, "$1"@);
        crate::text::trimming_cuts_margins_only(tight, Margin::Leftover);
        let (i, j) = choose|i: int, j: int|
            {
                &&& 0 <= i <= j <= tight.len()
                &&& crate::text::trimmed_of(tight, Margin::Leftover) == #[trigger] tight.subrange(
                    i,
                    j,
                )
                &&& forall|k: int|
                    0 <= k < tight.len() && !(i <= k < j) ==> Margin::Leftover.has(
                        #[trigger] tight[k],
                    )
            };
        assert(cleaned(raw) == tight.subrange(i, j));
    }
}

/// A paste tells how much was pasted, or what went wrong.
pub proof fn pastes_tell_how_they_went(
    text: &str,
    failure: Option<String>,
    r: Result<usize, String>,
)
    requires
        call_ensures(paste_text, (text, failure), r),
    ensures
        r is Ok <==> failure is None,
        r is Ok ==> r->Ok_0 == text@.len(),
        r is Err ==> r->Err_0 == failure->0,
{
}

/// A hesitation is a sound and no word: it has no other letters than those of "uh", "um",
/// "ah" and "eh", with a hyphen at most between them. All thirteen that are spoken are on
/// the list.
pub proof fn hesitations_are_sounds(word: Seq<char>, i: int)
    ensures
        hesitations().contains(word) && 0 <= i < word.len() ==> word[i] == 'u' || word[i] == 'h'
            || word[i] == 'm' || word[i] == 'a' || word[i] == 'e' || word[i] == '-',
        hesitations().contains("uh"@),
        hesitations().contains("um"@),
        hesitations().contains("uhm"@),
        hesitations().contains("umm"@),
        hesitations().contains("uhh"@),
        hesitations().contains("ah"@),
        hesitations().contains("eh"@),
        hesitations().contains("hmm"@),
        hesitations().contains("hm"@),
        hesitations().contains("mm"@),
        hesitations().contains("mhm"@),
        hesitations().contains("mm-hmm"@),
        hesitations().contains("mmhmm"@),
        hesitations().len() == 13,
        hesitations().no_duplicates(),
{
    reveal_strlit("uh");
    reveal_strlit("um");
    reveal_strlit("uhm");
    reveal_strlit("umm");
    reveal_strlit("uhh");
    reveal_strlit("ah");
    reveal_strlit("eh");
    reveal_strlit("hmm");
    reveal_strlit("hm");
    reveal_strlit("mm");
    reveal_strlit("mhm");
    reveal_strlit("mm-hmm");
    reveal_strlit("mmhmm");
    let h = hesitations();
    assert(h[0] == "uh"@);
    assert(h[1] == "um"@);
    assert(h[2] == "uhm"@);
    assert(h[3] == "umm"@);
    assert(h[4] == "uhh"@);
    assert(h[5] == "ah"@);
    assert(h[6] == "eh"@);
    assert(h[7] == "hmm"@);
    assert(h[8] == "hm"@);
    assert(h[9] == "mm"@);
    assert(h[10] == "mhm"@);
    assert(h[11] == "mm-hmm"@);
    assert(h[12] == "mmhmm"@);
    assert(h[0][1] != h[1][1]);
    assert(h[0][0] != h[5][0]);
    assert(h[0][0] != h[6][0]);
    assert(h[0][0] != h[8][0]);
    assert(h[0][0] != h[9][0]);
    assert(h[1][0] != h[5][0]);
    assert(h[1][0] != h[6][0]);
    assert(h[1][0] != h[8][0]);
    assert(h[1][0] != h[9][0]);
    assert(h[2][1] != h[3][1]);
    assert(h[2][2] != h[4][2]);
    assert(h[2][0] != h[7][0]);
    assert(h[2][0] != h[10][0]);
    assert(h[3][1] != h[4][1]);
    assert(h[3][0] != h[7][0]);
    assert(h[3][0] != h[10][0]);
    assert(h[4][0] != h[7][0]);
    assert(h[4][0] != h[10][0]);
    assert(h[5][0] != h[6][0]);
    assert(h[5][0] != h[8][0]);
    assert(h[5][0] != h[9][0]);
    assert(h[6][0] != h[8][0]);
    assert(h[6][0] != h[9][0]);
    assert(h[7][0] != h[10][0]);
    assert(h[8][0] != h[9][0]);
    assert(h[0].len() == 2 && h[1].len() == 2 && h[5].len() == 2 && h[6].len() == 2 && h[8].len()
        == 2 && h[9].len() == 2);
    assert(h[2].len() == 3 && h[3].len() == 3 && h[4].len() == 3 && h[7].len() == 3 && h[10].len()
        == 3);
    assert(h[11].len() == 6 && h[12].len() == 5);
    assert(h.no_duplicates());
}

} // verus!
