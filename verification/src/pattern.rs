//! Regular expressions, matched by the `regex` crate. What a pattern matches is
//! left to that crate; the functions here name its results.
use vstd::prelude::*;

verus! {

/// What `Regex::replace_all` makes of `text` with `replacement` for every match of
/// `pattern`, or `None` where `Regex::new` refuses the pattern.
pub uninterp spec fn all_replaced(
    pattern: Seq<char>,
    text: Seq<char>,
    replacement: Seq<char>,
) -> Option<Seq<char>>;

/// What `Regex::replace` makes of `text` with `replacement` for the first match of
/// `pattern`, or `None` where `Regex::new` refuses the pattern.
pub uninterp spec fn first_replaced(
    pattern: Seq<char>,
    text: Seq<char>,
    replacement: Seq<char>,
) -> Option<Seq<char>>;

/// Whether `Regex::is_match` finds `pattern` in `text`, or `None` where
/// `Regex::new` refuses the pattern.
pub uninterp spec fn matched(pattern: Seq<char>, text: Seq<char>) -> Option<bool>;

/// The text behind the first match of `pattern` that `Regex::find` reports in
/// `text`, or `None` where there is no match or `Regex::new` refuses the pattern.
pub uninterp spec fn text_behind(pattern: Seq<char>, text: Seq<char>) -> Option<Seq<char>>;

/// Whether fillers are to be replaced, and there is one.
pub open spec fn found_fillers(pattern: Seq<char>, text: Seq<char>, replacement: Seq<char>) -> bool {
    &&& pattern == crate::paste::FILLER@
    &&& replacement == crate::paste::FILLER_GAP@
    &&& matched(pattern, text) == Some(true)
}

/// `Regex::new` and `Regex::replace_all`: the result is named, there is one exactly
/// where `Regex::is_match` gives one, and a text in which the pattern does not match
/// comes back unchanged. Replacing fillers makes a text in which there is one shorter:
/// a match of that pattern is its first and third group with at least two characters
/// between them, and the replacement puts the two groups around one space.
#[verifier::external_body]
pub(crate) fn replace_all(pattern: &str, text: &str, replacement: &str) -> (r: Option<String>)
    ensures
        crate::text::opt_text(r) == all_replaced(pattern@, text@, replacement@),
        (r is None) == (matched(pattern@, text@) is None),
        matched(pattern@, text@) == Some(false) ==> crate::text::opt_text(r) == Some(text@),
        found_fillers(pattern@, text@, replacement@) ==> crate::text::opt_text(r) is Some
            && r->0@.len() < text@.len(),
{
    let compiled = regex::Regex::new(pattern).ok()?;
    Some(compiled.replace_all(text, replacement).into_owned())
}

/// `Regex::new` and `Regex::replace`: the result is named, and a text in which the
/// pattern does not match comes back unchanged.
#[verifier::external_body]
pub(crate) fn replace_first(pattern: &str, text: &str, replacement: &str) -> (r: Option<String>)
    ensures
        crate::text::opt_text(r) == first_replaced(pattern@, text@, replacement@),
        matched(pattern@, text@) == Some(false) ==> crate::text::opt_text(r) == Some(text@),
{
    let compiled = regex::Regex::new(pattern).ok()?;
    Some(compiled.replace(text, replacement).into_owned())
}

/// `Regex::new` and `Regex::is_match`: the result is named.
#[verifier::external_body]
pub(crate) fn is_match(pattern: &str, text: &str) -> (r: Option<bool>)
    ensures
        r == matched(pattern@, text@),
{
    let compiled = regex::Regex::new(pattern).ok()?;
    Some(compiled.is_match(text))
}

/// `Regex::new` and `Regex::find`: the text behind the match is named. It is an end
/// piece of `text`, because a match ends between two characters of it.
#[verifier::external_body]
pub(crate) fn behind_match(pattern: &str, text: &str) -> (r: Option<String>)
    ensures
        crate::text::opt_text(r) == text_behind(pattern@, text@),
        r matches Some(rest) ==> rest@.len() <= text@.len() && rest@ == text@.subrange(
            text@.len() - rest@.len(),
            text@.len() as int,
        ),
{
    let compiled = regex::Regex::new(pattern).ok()?;
    let found = compiled.find(text)?;
    Some(text[found.end()..].to_owned())
}

/// Whether a character means something in a pattern.
pub open spec fn is_meta(c: char) -> bool {
    ||| c == '\\'
    ||| c == '.'
    ||| c == '+'
    ||| c == '*'
    ||| c == '?'
    ||| c == '('
    ||| c == ')'
    ||| c == '|'
    ||| c == '['
    ||| c == ']'
    ||| c == '{'
    ||| c == '}'
    ||| c == '^'
    ||| c == '$'
    ||| c == '#'
    ||| c == '&'
    ||| c == '-'
    ||| c == '~'
}

/// `text` with a backslash before every character that means something in a
/// pattern.
pub open spec fn escaped(text: Seq<char>) -> Seq<char>
    decreases text.len(),
{
    if text.len() == 0 {
        Seq::empty()
    } else if is_meta(text.last()) {
        escaped(text.drop_last()).push('\\').push(text.last())
    } else {
        escaped(text.drop_last()).push(text.last())
    }
}

/// `regex::escape` puts a backslash before every meta character.
#[verifier::external_body]
pub(crate) fn escape(text: &str) -> (r: String)
    ensures
        r@ == escaped(text@),
{
    regex::escape(text)
}

/// What replacing every match makes of a text; a pattern that is refused leaves
/// the text as it is.
pub open spec fn rewritten(pattern: Seq<char>, text: Seq<char>, replacement: Seq<char>) -> Seq<
    char,
> {
    match all_replaced(pattern, text, replacement) {
        Some(t) => t,
        None => text,
    }
}

/// Replaces every match of `pattern` in `text`.
pub fn rewrite_all(pattern: &str, text: &str, replacement: &str) -> (r: String)
    ensures
        r@ == rewritten(pattern@, text@, replacement@),
        matched(pattern@, text@) != Some(true) ==> r@ == text@,
        found_fillers(pattern@, text@, replacement@) ==> r@.len() < text@.len(),
{
    let ghost found = matched(pattern@, text@);
    assert(found is None || found == Some(found->0));
    match replace_all(pattern, text, replacement) {
        Some(t) => t,
        None => text.to_owned(),
    }
}

/// What replacing the first match makes of a text; a pattern that is refused
/// leaves the text as it is.
pub open spec fn rewritten_once(pattern: Seq<char>, text: Seq<char>, replacement: Seq<char>) -> Seq<
    char,
> {
    match first_replaced(pattern, text, replacement) {
        Some(t) => t,
        None => text,
    }
}

/// Replaces the first match of `pattern` in `text`.
pub fn rewrite_first(pattern: &str, text: &str, replacement: &str) -> (r: String)
    ensures
        r@ == rewritten_once(pattern@, text@, replacement@),
        matched(pattern@, text@) == Some(false) ==> r@ == text@,
{
    match replace_first(pattern, text, replacement) {
        Some(t) => t,
        None => text.to_owned(),
    }
}

/// The characters that stand for more than themselves in a pattern are these, and a text of
/// others is its own pattern.
pub proof fn other_characters_stand_for_themselves(c: char, text: Seq<char>)
    ensures
        is_meta(c) <==> "\\.+*?()|[]{}^$#&-~"@.contains(c),
        (forall|i: int| 0 <= i < text.len() ==> !is_meta(#[trigger] text[i])) ==> escaped(text)
            == text,
        is_meta(c) ==> escaped(text.push(c)) == escaped(text) + seq!['\\', c],
        !is_meta(c) ==> escaped(text.push(c)) == escaped(text).push(c),
    decreases text.len(),
{
    reveal_strlit("\\.+*?()|[]{}^$#&-~");
    let marks = "\\.+*?()|[]{}^$#&-~"@;
    assert(marks[0] == '\\' && marks[1] == '.' && marks[2] == '+' && marks[3] == '*' && marks[4]
        == '?' && marks[5] == '(' && marks[6] == ')' && marks[7] == '|' && marks[8] == '[' && marks[9]
        == ']' && marks[10] == '{' && marks[11] == '}' && marks[12] == '^' && marks[13] == '$'
        && marks[14] == '#' && marks[15] == '&' && marks[16] == '-' && marks[17] == '~');
    assert(text.push(c).drop_last() == text);
    if is_meta(c) {
        assert(escaped(text.push(c)) =~= escaped(text) + seq!['\\', c]);
    }
    if text.len() > 0 && (forall|i: int| 0 <= i < text.len() ==> !is_meta(#[trigger] text[i])) {
        let before = text.drop_last();
        assert forall|i: int| 0 <= i < before.len() implies !is_meta(#[trigger] before[i]) by {
            assert(before[i] == text[i]);
        }
        other_characters_stand_for_themselves(c, before);
        assert(before.push(text.last()) == text);
    }
}

} // verus!
