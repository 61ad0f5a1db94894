//! Text helpers shared by the other modules. Text is modelled as the sequence of
//! its characters.
use vstd::prelude::*;
use vstd::string::*;
use vstd::utf8::*;

verus! {

broadcast use vstd::string::group_string_axioms;

/// `String::push` appends one character.
pub assume_specification[ String::push ](s: &mut String, ch: char)
    ensures
        final(s)@ == old(s)@.push(ch),
;

/// `String::push_str` appends a text.
pub assume_specification[ String::push_str ](s: &mut String, string: &str)
    ensures
        final(s)@ == old(s)@ + string@,
;

/// The characters of `s`, in order.
pub fn chars_of(s: &str) -> (chars: Vec<char>)
    ensures
        chars@ == s@,
{
    let mut chars: Vec<char> = Vec::new();
    for c in iter: s.chars()
        invariant
            iter.seq() == s@,
            chars@ == s@.subrange(0, iter.index() as int),
    {
        chars.push(c);
        assert(chars@ =~= s@.subrange(0, iter.index() + 1));
    }
    assert(chars@ =~= s@);
    chars
}

/// The text whose characters are `chars`.
pub fn text_of(chars: &[char]) -> (s: String)
    ensures
        s@ == chars@,
{
    let mut s = String::new();
    let mut i: usize = 0;
    while i < chars.len()
        invariant
            i <= chars.len(),
            s@ == chars@.subrange(0, i as int),
        decreases chars.len() - i,
    {
        s.push(chars[i]);
        i += 1;
        assert(s@ =~= chars@.subrange(0, i as int));
    }
    assert(s@ =~= chars@);
    s
}

/// The characters of a text that may be missing.
pub open spec fn opt_text(s: Option<String>) -> Option<Seq<char>> {
    match s {
        Some(s) => Some(s@),
        None => None,
    }
}

/// The characters of a borrowed text that may be missing.
pub open spec fn opt_view(s: Option<&str>) -> Option<Seq<char>> {
    match s {
        Some(s) => Some(s@),
        None => None,
    }
}

/// Whether two texts are the same.
pub fn same_text(a: &str, b: &str) -> (same: bool)
    ensures
        same == (a@ == b@),
{
    let x = a.as_bytes();
    let y = b.as_bytes();
    proof {
        encode_utf8_decode_utf8(a@);
        encode_utf8_decode_utf8(b@);
    }
    if x.len() != y.len() {
        return false;
    }
    let mut i: usize = 0;
    while i < x.len()
        invariant
            i <= x.len(),
            x.len() == y.len(),
            x@ == encode_utf8(a@),
            y@ == encode_utf8(b@),
            forall|k: int| 0 <= k < i ==> x@[k] == y@[k],
        decreases x.len() - i,
    {
        if x[i] != y[i] {
            return false;
        }
        i += 1;
    }
    assert(x@ =~= y@);
    true
}

/// An owned copy of `s`.
pub fn owned(s: &str) -> (r: String)
    ensures
        r@ == s@,
{
    s.to_owned()
}

/// `a` followed by `b`.
pub fn joined(a: &str, b: &str) -> (r: String)
    ensures
        r@ == a@ + b@,
{
    let mut r = a.to_owned();
    r.push_str(b);
    r
}

/// The decimal digit character of `d`.
pub open spec fn digit_char(d: nat) -> char {
    ((48 + d) as u8) as char
}

/// The decimal representation of `n`, without leading zeros.
pub open spec fn decimal_of(n: nat) -> Seq<char>
    decreases n,
{
    if n < 10 {
        seq![digit_char(n)]
    } else {
        decimal_of(n / 10).push(digit_char(n % 10))
    }
}

fn digit(d: u64) -> (c: char)
    requires
        d < 10,
    ensures
        c == digit_char(d as nat),
{
    (48 + d as u8) as char
}

/// Writes `n` in decimal.
pub fn decimal(n: u64) -> (s: String)
    ensures
        s@ == decimal_of(n as nat),
    decreases n,
{
    if n < 10 {
        let mut s = String::new();
        s.push(digit(n));
        assert(s@ =~= decimal_of(n as nat));
        s
    } else {
        let mut s = decimal(n / 10);
        s.push(digit(n % 10));
        s
    }
}

/// `n` in decimal with at least two digits, as in dates and clocks.
pub open spec fn two_digits_of(n: nat) -> Seq<char> {
    if n < 10 {
        seq!['0'] + decimal_of(n)
    } else {
        decimal_of(n)
    }
}

/// Writes `n` with at least two digits.
pub fn two_digits(n: u64) -> (s: String)
    ensures
        s@ == two_digits_of(n as nat),
{
    if n < 10 {
        let mut s = String::new();
        s.push('0');
        s.push_str(decimal(n).as_str());
        assert(s@ =~= two_digits_of(n as nat));
        s
    } else {
        decimal(n)
    }
}

/// Unicode white space.
pub open spec fn is_white(c: char) -> bool {
    let u = c as u32;
    ||| 0x9 <= u <= 0xd
    ||| u == 0x20
    ||| u == 0x85
    ||| u == 0xa0
    ||| u == 0x1680
    ||| 0x2000 <= u <= 0x200a
    ||| u == 0x2028
    ||| u == 0x2029
    ||| u == 0x202f
    ||| u == 0x205f
    ||| u == 0x3000
}

/// Whether `c` is white space.
pub fn is_whitespace(c: char) -> (r: bool)
    ensures
        r == is_white(c),
{
    let u: u32 = c as u32;
    (0x9 <= u && u <= 0xd) || u == 0x20 || u == 0x85 || u == 0xa0 || u == 0x1680 || (0x2000 <= u
        && u <= 0x200a) || u == 0x2028 || u == 0x2029 || u == 0x202f || u == 0x205f || u == 0x3000
}

/// A set of characters that is cut off the ends of a text.
#[derive(Clone, Copy, Debug, PartialEq, Eq, Structural)]
pub enum Margin {
    /// White space.
    White,
    /// Spaces and tabs.
    Gap,
    /// What is left over around a removed word: spaces, commas and semicolons.
    Leftover,
}

impl Margin {
    /// Whether `c` is in the set.
    pub open spec fn has(self, c: char) -> bool {
        match self {
            Margin::White => is_white(c),
            Margin::Gap => c == ' ' || c == '\t',
            Margin::Leftover => c == ' ' || c == ',' || c == ';',
        }
    }

    /// Whether `c` is in the set.
    pub fn holds(self, c: char) -> (r: bool)
        ensures
            r == self.has(c),
    {
        match self {
            Margin::White => is_whitespace(c),
            Margin::Gap => c == ' ' || c == '\t',
            Margin::Leftover => c == ' ' || c == ',' || c == ';',
        }
    }
}

/// `s` without the leading characters in `margin`.
pub open spec fn trim_start_of(s: Seq<char>, margin: Margin) -> Seq<char>
    decreases s.len(),
{
    if s.len() > 0 && margin.has(s[0]) {
        trim_start_of(s.subrange(1, s.len() as int), margin)
    } else {
        s
    }
}

/// `s` without the trailing characters in `margin`.
pub open spec fn trim_end_of(s: Seq<char>, margin: Margin) -> Seq<char>
    decreases s.len(),
{
    if s.len() > 0 && margin.has(s.last()) {
        trim_end_of(s.drop_last(), margin)
    } else {
        s
    }
}

/// `s` without the leading and trailing characters in `margin`.
pub open spec fn trimmed_of(s: Seq<char>, margin: Margin) -> Seq<char> {
    trim_end_of(trim_start_of(s, margin), margin)
}

/// `s` without leading and trailing white space.
pub open spec fn trimmed(s: Seq<char>) -> Seq<char> {
    trimmed_of(s, Margin::White)
}

/// How many characters in `margin` the text begins with.
pub fn leading(chars: &[char], margin: Margin) -> (n: usize)
    ensures
        n <= chars@.len(),
        chars@.subrange(n as int, chars@.len() as int) == trim_start_of(chars@, margin),
{
    let mut n: usize = 0;
    assert(chars@ =~= chars@.subrange(0, chars@.len() as int));
    while n < chars.len() && margin.holds(chars[n])
        invariant
            n <= chars@.len(),
            trim_start_of(chars@, margin) == trim_start_of(
                chars@.subrange(n as int, chars@.len() as int),
                margin,
            ),
        decreases chars.len() - n,
    {
        proof {
            let tail = chars@.subrange(n as int, chars@.len() as int);
            assert(tail.subrange(1, tail.len() as int) =~= chars@.subrange(
                n + 1,
                chars@.len() as int,
            ));
        }
        n += 1;
    }
    n
}

/// Removes the leading and trailing characters in `margin`.
pub fn trim_margin(s: &str, margin: Margin) -> (r: String)
    ensures
        r@ == trimmed_of(s@, margin),
{
    let chars = chars_of(s);
    let from = leading(chars.as_slice(), margin);
    let mut to: usize = chars.len();
    let ghost start = s@.subrange(from as int, s@.len() as int);
    while to > from && margin.holds(chars[to - 1])
        invariant
            from <= to <= chars.len(),
            chars@ == s@,
            trim_end_of(start, margin) == trim_end_of(
                s@.subrange(from as int, to as int),
                margin,
            ),
        decreases to,
    {
        assert(s@.subrange(from as int, to as int).drop_last() =~= s@.subrange(
            from as int,
            to - 1,
        ));
        to -= 1;
    }
    text_of(&chars.as_slice()[from..to])
}

/// Removes leading and trailing white space.
pub fn trim(s: &str) -> (r: String)
    ensures
        r@ == trimmed(s@),
{
    trim_margin(s, Margin::White)
}

proof fn trim_end_is_trimmed(s: Seq<char>, margin: Margin)
    ensures
        trim_end_of(s, margin).len() <= s.len(),
        trim_end_of(s, margin) == s.subrange(0, trim_end_of(s, margin).len() as int),
        trim_end_of(s, margin).len() > 0 ==> !margin.has(trim_end_of(s, margin).last()),
    decreases s.len(),
{
    if s.len() > 0 && margin.has(s.last()) {
        trim_end_is_trimmed(s.drop_last(), margin);
        let r = trim_end_of(s, margin);
        assert(s.drop_last().subrange(0, r.len() as int) =~= s.subrange(0, r.len() as int));
    } else {
        assert(s =~= s.subrange(0, s.len() as int));
    }
}

proof fn trim_start_is_trimmed(s: Seq<char>, margin: Margin)
    ensures
        trim_start_of(s, margin).len() > 0 ==> !margin.has(trim_start_of(s, margin)[0]),
        trim_start_of(s, margin).len() <= s.len(),
        trim_start_of(s, margin) == s.subrange(
            s.len() - trim_start_of(s, margin).len(),
            s.len() as int,
        ),
    decreases s.len(),
{
    if s.len() > 0 && margin.has(s[0]) {
        let tail = s.subrange(1, s.len() as int);
        trim_start_is_trimmed(tail, margin);
        let r = trim_start_of(s, margin);
        assert(tail.subrange(tail.len() - r.len(), tail.len() as int) =~= s.subrange(
            s.len() - r.len(),
            s.len() as int,
        ));
    } else {
        assert(s =~= s.subrange(0, s.len() as int));
    }
}

/// A trimmed text neither begins nor ends with a character of the margin, and it
/// is a piece of the text it was made from.
pub proof fn trimming_leaves_no_margin(s: Seq<char>, margin: Margin)
    ensures
        trimmed_of(s, margin).len() > 0 ==> !margin.has(trimmed_of(s, margin)[0]) && !margin.has(
            trimmed_of(s, margin).last(),
        ),
        exists|i: int, j: int|
            0 <= i <= j <= s.len() && trimmed_of(s, margin) == #[trigger] s.subrange(i, j),
{
    let inner = trim_start_of(s, margin);
    trim_start_is_trimmed(s, margin);
    trim_end_is_trimmed(inner, margin);
    let r = trimmed_of(s, margin);
    let i = s.len() - inner.len();
    assert(r =~= s.subrange(i, i + r.len()));
}

/// Trimming a trimmed text changes nothing.
pub proof fn trimming_is_idempotent(s: Seq<char>, margin: Margin)
    ensures
        trimmed_of(trimmed_of(s, margin), margin) == trimmed_of(s, margin),
{
    trimming_leaves_no_margin(s, margin);
}

/// Whether a text holds white space only.
pub open spec fn blank(s: Seq<char>) -> bool {
    forall|i: int| 0 <= i < s.len() ==> is_white(#[trigger] s[i])
}

/// Whether a text holds white space only.
pub fn is_blank(s: &str) -> (r: bool)
    ensures
        r == blank(s@),
{
    let chars = chars_of(s);
    let mut i: usize = 0;
    while i < chars.len()
        invariant
            i <= chars.len(),
            chars@ == s@,
            forall|k: int| 0 <= k < i ==> is_white(#[trigger] s@[k]),
        decreases chars.len() - i,
    {
        if !is_whitespace(chars[i]) {
            assert(!is_white(s@[i as int]));
            return false;
        }
        i += 1;
    }
    true
}

/// The characters of each text of a list.
pub open spec fn texts(list: Seq<String>) -> Seq<Seq<char>> {
    list.map_values(|s: String| s@)
}

/// `n` in decimal, with a minus sign where it is negative.
pub open spec fn signed_decimal_of(n: int) -> Seq<char> {
    if n < 0 {
        seq!['-'] + decimal_of((-n) as nat)
    } else {
        decimal_of(n as nat)
    }
}

/// Writes `n` in decimal.
pub fn signed_decimal(n: i32) -> (s: String)
    ensures
        s@ == signed_decimal_of(n as int),
{
    signed_decimal_wide(n as i64)
}

/// Writes `n` in decimal.
pub fn signed_decimal_wide(n: i64) -> (s: String)
    ensures
        s@ == signed_decimal_of(n as int),
{
    if n < 0 {
        let mut s = String::new();
        s.push('-');
        let size: u64 = (-(n as i128)) as u64;
        s.push_str(decimal(size).as_str());
        assert(s@ =~= signed_decimal_of(n as int));
        s
    } else {
        decimal(n as u64)
    }
}

/// Whether `needle` stands in `s` at position `i`.
pub open spec fn occurs_at(s: Seq<char>, needle: Seq<char>, i: int) -> bool {
    0 <= i && i + needle.len() <= s.len() && s.subrange(i, i + needle.len()) == needle
}

/// The last position up to `k` at which `needle` stands in `s`.
pub open spec fn found_up_to(s: Seq<char>, needle: Seq<char>, k: int) -> Option<int>
    decreases k + 1,
{
    if k < 0 {
        None
    } else if occurs_at(s, needle, k) {
        Some(k)
    } else {
        found_up_to(s, needle, k - 1)
    }
}

/// The last position at which `needle` stands in `s`.
pub open spec fn last_found(s: Seq<char>, needle: Seq<char>) -> Option<int> {
    found_up_to(s, needle, s.len() - needle.len())
}

/// The last position that is found is one at which the needle stands, and it
/// stands at no later one.
pub proof fn last_found_is_last(s: Seq<char>, needle: Seq<char>)
    ensures
        match last_found(s, needle) {
            Some(i) => occurs_at(s, needle, i) && forall|j: int|
                i < j ==> !#[trigger] occurs_at(s, needle, j),
            None => forall|j: int| !#[trigger] occurs_at(s, needle, j),
        },
{
    found_is_last(s, needle, s.len() - needle.len());
}

proof fn found_is_last(s: Seq<char>, needle: Seq<char>, k: int)
    ensures
        match found_up_to(s, needle, k) {
            Some(i) => occurs_at(s, needle, i) && i <= k && forall|j: int|
                i < j <= k ==> !#[trigger] occurs_at(s, needle, j),
            None => forall|j: int| j <= k ==> !#[trigger] occurs_at(s, needle, j),
        },
    decreases k + 1,
{
    if k >= 0 && !occurs_at(s, needle, k) {
        found_is_last(s, needle, k - 1);
    }
}

/// Whether `needle` stands in `s` at position `i`.
pub fn stands_at(s: &[char], needle: &[char], i: usize) -> (r: bool)
    ensures
        r == occurs_at(s@, needle@, i as int),
{
    if needle.len() > s.len() || i > s.len() - needle.len() {
        return false;
    }
    let mut k: usize = 0;
    while k < needle.len()
        invariant
            k <= needle.len(),
            i + needle.len() <= s.len(),
            forall|j: int| 0 <= j < k ==> s@[i + j] == needle@[j],
        decreases needle.len() - k,
    {
        if s[i + k] != needle[k] {
            assert(s@.subrange(i as int, i + needle@.len())[k as int] != needle@[k as int]);
            return false;
        }
        k += 1;
    }
    assert(s@.subrange(i as int, i + needle@.len()) =~= needle@);
    true
}

/// The last position at which `needle` stands in `s`.
pub fn last_index(s: &[char], needle: &[char]) -> (r: Option<usize>)
    ensures
        r is Some <==> last_found(s@, needle@) is Some,
        r matches Some(i) ==> last_found(s@, needle@) == Some(i as int) && i + needle@.len()
            <= s@.len() <= usize::MAX,
{
    if needle.len() > s.len() {
        return None;
    }
    let mut k: usize = s.len() - needle.len();
    loop
        invariant
            k + needle@.len() <= s@.len() <= usize::MAX,
            last_found(s@, needle@) == found_up_to(s@, needle@, k as int),
        decreases k,
    {
        if stands_at(s, needle, k) {
            return Some(k);
        }
        if k == 0 {
            assert(found_up_to(s@, needle@, -1) is None);
            return None;
        }
        k -= 1;
    }
}

/// `s` without the character `c`.
pub open spec fn without(s: Seq<char>, c: char) -> Seq<char>
    decreases s.len(),
{
    if s.len() == 0 {
        Seq::empty()
    } else if s.last() == c {
        without(s.drop_last(), c)
    } else {
        without(s.drop_last(), c).push(s.last())
    }
}

/// Removes every `c`.
pub fn remove_char(s: &str, c: char) -> (r: String)
    ensures
        r@ == without(s@, c),
{
    let chars = chars_of(s);
    let mut r = String::new();
    let mut i: usize = 0;
    while i < chars.len()
        invariant
            i <= chars.len(),
            chars@ == s@,
            r@ == without(s@.subrange(0, i as int), c),
        decreases chars.len() - i,
    {
        proof {
            let next = s@.subrange(0, i + 1);
            assert(next.drop_last() =~= s@.subrange(0, i as int));
        }
        if chars[i] != c {
            r.push(chars[i]);
        }
        i += 1;
    }
    assert(s@.subrange(0, i as int) =~= s@);
    r
}

/// How many bytes a text takes.
pub open spec fn byte_len(s: Seq<char>) -> nat {
    encode_utf8(s).len()
}

/// How many bytes a character takes.
pub open spec fn char_width(c: char) -> nat {
    let u = c as u32;
    if u <= 0x7f {
        1
    } else if u <= 0x7ff {
        2
    } else if u <= 0xffff {
        3
    } else {
        4
    }
}

/// How many bytes a character takes.
pub fn width(c: char) -> (w: usize)
    ensures
        w == char_width(c),
{
    let u: u32 = c as u32;
    if u <= 0x7f {
        1
    } else if u <= 0x7ff {
        2
    } else if u <= 0xffff {
        3
    } else {
        4
    }
}

/// A text takes as many bytes as its first character and the rest of it.
pub proof fn byte_len_splits(s: Seq<char>)
    requires
        s.len() > 0,
    ensures
        byte_len(s) == char_width(s[0]) + byte_len(s.subrange(1, s.len() as int)),
{
    char_is_scalar(s[0]);
    assert(s.drop_first() =~= s.subrange(1, s.len() as int));
}

/// A character with ASCII capitals made small.
pub open spec fn ascii_lower(c: char) -> char {
    if 'A' <= c <= 'Z' {
        (c as u8 + 32) as char
    } else {
        c
    }
}

/// A text with ASCII capitals made small.
pub open spec fn ascii_lowered(s: Seq<char>) -> Seq<char> {
    s.map_values(|c: char| ascii_lower(c))
}

fn lower_char(c: char) -> (r: char)
    ensures
        r == ascii_lower(c),
{
    if 'A' <= c && c <= 'Z' {
        (c as u8 + 32) as char
    } else {
        c
    }
}

/// Makes ASCII capitals small.
pub fn to_ascii_lower(s: &str) -> (r: Vec<char>)
    ensures
        r@ == ascii_lowered(s@),
{
    let chars = chars_of(s);
    let mut r: Vec<char> = Vec::new();
    let mut i: usize = 0;
    while i < chars.len()
        invariant
            i <= chars.len(),
            chars@ == s@,
            r@ == ascii_lowered(s@.subrange(0, i as int)),
        decreases chars.len() - i,
    {
        r.push(lower_char(chars[i]));
        i += 1;
        assert(r@ =~= ascii_lowered(s@.subrange(0, i as int)));
    }
    assert(s@.subrange(0, i as int) =~= s@);
    r
}

/// Whether two texts are the same but for the case of ASCII letters.
pub open spec fn same_but_case(a: Seq<char>, b: Seq<char>) -> bool {
    ascii_lowered(a) == ascii_lowered(b)
}

/// Whether two texts are the same but for the case of ASCII letters.
pub fn same_ignoring_case(a: &str, b: &str) -> (r: bool)
    ensures
        r == same_but_case(a@, b@),
{
    let x = to_ascii_lower(a);
    let y = to_ascii_lower(b);
    if x.len() != y.len() {
        return false;
    }
    assert(x@.subrange(0, x@.len() as int) =~= x@);
    stands_at(x.as_slice(), y.as_slice(), 0)
}

/// The first position from `k` on at which `needle` stands in `s`.
pub open spec fn found_from(s: Seq<char>, needle: Seq<char>, k: int) -> Option<int>
    decreases s.len() + 1 - k,
{
    if k > s.len() {
        None
    } else if occurs_at(s, needle, k) {
        Some(k)
    } else {
        found_from(s, needle, k + 1)
    }
}

/// The first position at which `needle` stands in `s`.
pub open spec fn first_found(s: Seq<char>, needle: Seq<char>) -> Option<int> {
    found_from(s, needle, 0)
}

/// Whether `needle` stands somewhere in `s`.
pub open spec fn has_text(s: Seq<char>, needle: Seq<char>) -> bool {
    first_found(s, needle) is Some
}

/// The first position from `from` on at which `needle` stands in `s`.
pub fn index_from(s: &[char], needle: &[char], from: usize) -> (r: Option<usize>)
    requires
        from <= s@.len(),
    ensures
        r is Some <==> found_from(s@, needle@, from as int) is Some,
        r matches Some(i) ==> found_from(s@, needle@, from as int) == Some(i as int) && from <= i
            && i + needle@.len() <= s@.len() <= usize::MAX,
{
    let n: usize = s.len();
    let mut k: usize = from;
    loop
        invariant
            from <= k <= n,
            n == s@.len(),
            found_from(s@, needle@, from as int) == found_from(s@, needle@, k as int),
        decreases n - k,
    {
        if stands_at(s, needle, k) {
            return Some(k);
        }
        if k == n {
            assert(found_from(s@, needle@, n + 1) is None);
            return None;
        }
        k += 1;
    }
}

/// Whether `needle` stands somewhere in `s`.
pub fn contains(s: &[char], needle: &str) -> (r: bool)
    ensures
        r == has_text(s@, needle@),
{
    let word = chars_of(needle);
    index_from(s, word.as_slice(), 0).is_some()
}

/// A text is found exactly where it stands somewhere.
pub proof fn found_texts_stand_somewhere(s: Seq<char>, needle: Seq<char>)
    ensures
        has_text(s, needle) <==> exists|i: int| occurs_at(s, needle, i),
{
    found_from_is_somewhere(s, needle, 0);
}

proof fn found_from_is_somewhere(s: Seq<char>, needle: Seq<char>, k: int)
    ensures
        found_from(s, needle, k) is Some <==> exists|i: int| k <= i && occurs_at(s, needle, i),
    decreases s.len() + 1 - k,
{
    if k <= s.len() && !occurs_at(s, needle, k) {
        found_from_is_somewhere(s, needle, k + 1);
        if exists|i: int| k <= i && occurs_at(s, needle, i) {
            let i = choose|i: int| k <= i && occurs_at(s, needle, i);
            assert(k + 1 <= i && occurs_at(s, needle, i));
        }
    }
}

/// The parts of a text between separators; always at least one.
pub open spec fn split_of(s: Seq<char>, sep: char) -> Seq<Seq<char>>
    decreases s.len(),
{
    if s.len() == 0 {
        seq![Seq::empty()]
    } else {
        let before = split_of(s.drop_last(), sep);
        if s.last() == sep {
            before.push(Seq::empty())
        } else {
            before.drop_last().push(before.last().push(s.last()))
        }
    }
}

/// The parts of a text between separators.
pub fn split(s: &str, sep: char) -> (parts: Vec<String>)
    ensures
        texts(parts@) == split_of(s@, sep),
{
    let chars = chars_of(s);
    let mut parts: Vec<String> = Vec::new();
    let mut part: Vec<char> = Vec::new();
    let mut i: usize = 0;
    assert(s@.subrange(0, 0) =~= Seq::empty());
    assert(texts(parts@).push(part@) =~= split_of(s@.subrange(0, 0), sep));
    while i < chars.len()
        invariant
            i <= chars.len(),
            chars@ == s@,
            texts(parts@).push(part@) == split_of(s@.subrange(0, i as int), sep),
        decreases chars.len() - i,
    {
        let ghost before = split_of(s@.subrange(0, i as int), sep);
        let ghost behind = texts(parts@);
        assert(before.drop_last() =~= behind);
        assert(before.last() == part@);
        assert(s@.subrange(0, i + 1).drop_last() =~= s@.subrange(0, i as int));
        if chars[i] == sep {
            parts.push(text_of(part.as_slice()));
            assert(texts(parts@) =~= behind.push(part@));
            assert(before =~= behind.push(part@));
            part = Vec::new();
            assert(part@ =~= Seq::empty());
        } else {
            part.push(chars[i]);
        }
        i += 1;
        assert(texts(parts@).push(part@) =~= split_of(s@.subrange(0, i as int), sep));
    }
    assert(s@.subrange(0, i as int) =~= s@);
    let ghost behind = texts(parts@);
    parts.push(text_of(part.as_slice()));
    assert(texts(parts@) =~= behind.push(part@));
    parts
}

/// Whether a text begins with another.
pub open spec fn begins(s: Seq<char>, start: Seq<char>) -> bool {
    occurs_at(s, start, 0)
}

/// Whether a text begins with another.
pub fn starts_with(s: &[char], start: &str) -> (r: bool)
    ensures
        r == begins(s@, start@),
{
    let start = chars_of(start);
    stands_at(s, start.as_slice(), 0)
}

/// The digit that a character stands for.
pub open spec fn digit_value(c: char) -> Option<nat> {
    if '0' <= c <= '9' {
        Some((c as u32 - 48) as nat)
    } else {
        None
    }
}

/// The number that digits stand for.
pub open spec fn digits_value(s: Seq<char>) -> Option<nat>
    decreases s.len(),
{
    if s.len() == 0 {
        Some(0)
    } else {
        match (digits_value(s.drop_last()), digit_value(s.last())) {
            (Some(n), Some(d)) => Some(n * 10 + d),
            _ => None,
        }
    }
}

/// The integer that a text stands for: digits, with or without a sign before them.
pub open spec fn integer_of(s: Seq<char>) -> Option<int> {
    if s.len() == 0 {
        None
    } else {
        let signed = s[0] == '+' || s[0] == '-';
        let digits = if signed {
            s.subrange(1, s.len() as int)
        } else {
            s
        };
        if digits.len() == 0 {
            None
        } else {
            match digits_value(digits) {
                Some(n) => Some(
                    if s[0] == '-' {
                        -(n as int)
                    } else {
                        n as int
                    },
                ),
                None => None,
            }
        }
    }
}

/// The number that digits stand for, as far as it is at most `limit`.
pub open spec fn limited(s: Seq<char>, limit: nat) -> Option<nat> {
    match digits_value(s) {
        Some(n) if n <= limit => Some(n),
        _ => None,
    }
}

proof fn more_digits_are_no_less(s: Seq<char>, k: int)
    requires
        0 <= k <= s.len(),
        digits_value(s) is Some,
    ensures
        digits_value(s.subrange(0, k)) is Some,
        digits_value(s.subrange(0, k))->0 <= digits_value(s)->0,
    decreases s.len(),
{
    if k < s.len() {
        more_digits_are_no_less(s.drop_last(), k);
        assert(s.drop_last().subrange(0, k) =~= s.subrange(0, k));
    } else {
        assert(s.subrange(0, k) =~= s);
    }
}

/// The number that digits stand for, as far as it is at most `limit`.
pub fn parse_digits(s: &[char], limit: u64) -> (n: Option<u64>)
    ensures
        match n {
            Some(n) => limited(s@, limit as nat) == Some(n as nat),
            None => limited(s@, limit as nat) is None,
        },
{
    let mut n: u64 = 0;
    let mut i: usize = 0;
    assert(s@.subrange(0, 0) =~= Seq::empty());
    while i < s.len()
        invariant
            i <= s@.len(),
            n <= limit,
            digits_value(s@.subrange(0, i as int)) == Some(n as nat),
        decreases s@.len() - i,
    {
        let c: char = s[i];
        assert(s@.subrange(0, i + 1).drop_last() =~= s@.subrange(0, i as int));
        proof {
            if digits_value(s@) is Some {
                more_digits_are_no_less(s@, i + 1);
            }
        }
        if c < '0' || c > '9' {
            return None;
        }
        let d: u64 = c as u64 - 48;
        let next: u128 = n as u128 * 10 + d as u128;
        assert(digits_value(s@.subrange(0, i + 1)) == Some(next as nat));
        if next > limit as u128 {
            return None;
        }
        n = next as u64;
        i += 1;
    }
    assert(s@.subrange(0, i as int) =~= s@);
    Some(n)
}

/// The number that a text stands for: digits, with or without a plus sign before them,
/// as far as it is at most `limit`.
pub open spec fn count_of(s: Seq<char>, limit: nat) -> Option<nat> {
    let digits = if s.len() > 0 && s[0] == '+' {
        s.subrange(1, s.len() as int)
    } else {
        s
    };
    if digits.len() == 0 {
        None
    } else {
        limited(digits, limit)
    }
}

/// The number that a text stands for, as far as it is at most `limit`.
pub fn parse_count(s: &[char], limit: u64) -> (n: Option<u64>)
    ensures
        match n {
            Some(n) => count_of(s@, limit as nat) == Some(n as nat),
            None => count_of(s@, limit as nat) is None,
        },
{
    let digits: &[char] = if s.len() > 0 && s[0] == '+' {
        &s[1..s.len()]
    } else {
        s
    };
    if digits.len() == 0 {
        None
    } else {
        parse_digits(digits, limit)
    }
}

/// The 32-bit integer that a text stands for.
pub fn parse_i32(text: &str) -> (n: Option<i32>)
    ensures
        match n {
            Some(n) => integer_of(text@) == Some(n as int),
            None => match integer_of(text@) {
                Some(n) => n < i32::MIN || n > i32::MAX,
                None => true,
            },
        },
{
    let chars = chars_of(text);
    if chars.len() == 0 {
        return None;
    }
    let negative = chars[0] == '-';
    let signed = negative || chars[0] == '+';
    let digits: &[char] = if signed {
        &chars.as_slice()[1..chars.len()]
    } else {
        chars.as_slice()
    };
    if digits.len() == 0 {
        return None;
    }
    match parse_digits(digits, 0x8000_0000) {
        Some(n) => if negative {
            Some((-(n as i64)) as i32)
        } else if n <= 0x7fff_ffff {
            Some(n as i32)
        } else {
            None
        },
        None => None,
    }
}

/// Trimming cuts off nothing but what belongs to the margin, at the two ends: a piece of
/// the text is left, and all that stood before or behind it is margin.
pub proof fn trimming_cuts_margins_only(s: Seq<char>, margin: Margin)
    ensures
        exists|i: int, j: int|
            {
                &&& 0 <= i <= j <= s.len()
                &&& trimmed_of(s, margin) == #[trigger] s.subrange(i, j)
                &&& forall|k: int|
                    0 <= k < s.len() && !(i <= k < j) ==> margin.has(#[trigger] s[k])
            },
{
    start_margin_is_cut(s, margin);
    let i = choose|i: int|
        {
            &&& 0 <= i <= s.len()
            &&& trim_start_of(s, margin) == #[trigger] s.subrange(i, s.len() as int)
            &&& forall|k: int| 0 <= k < i ==> margin.has(#[trigger] s[k])
            &&& i < s.len() ==> !margin.has(s[i])
        };
    let rest = s.subrange(i, s.len() as int);
    end_margin_is_cut(rest, margin);
    let n = choose|n: int|
        {
            &&& 0 <= n <= rest.len()
            &&& trim_end_of(rest, margin) == #[trigger] rest.subrange(0, n)
            &&& forall|k: int| n <= k < rest.len() ==> margin.has(#[trigger] rest[k])
        };
    assert(rest.subrange(0, n) =~= s.subrange(i, i + n));
    assert forall|k: int| 0 <= k < s.len() && !(i <= k < i + n) implies margin.has(
        #[trigger] s[k],
    ) by {
        if k >= i + n {
            assert(rest[k - i] == s[k]);
        }
    }
}

/// Trimming the start of a text cuts off what belongs to the margin there, up to the first
/// character that does not, and nothing else.
pub proof fn start_margin_is_cut(s: Seq<char>, margin: Margin)
    ensures
        exists|i: int|
            {
                &&& 0 <= i <= s.len()
                &&& trim_start_of(s, margin) == #[trigger] s.subrange(i, s.len() as int)
                &&& forall|k: int| 0 <= k < i ==> margin.has(#[trigger] s[k])
                &&& i < s.len() ==> !margin.has(s[i])
            },
    decreases s.len(),
{
    if s.len() > 0 && margin.has(s[0]) {
        let rest = s.drop_first();
        start_margin_is_cut(rest, margin);
        let i = choose|i: int|
            {
                &&& 0 <= i <= rest.len()
                &&& trim_start_of(rest, margin) == #[trigger] rest.subrange(i, rest.len() as int)
                &&& forall|k: int| 0 <= k < i ==> margin.has(#[trigger] rest[k])
                &&& i < rest.len() ==> !margin.has(rest[i])
            };
        assert(rest.subrange(i, rest.len() as int) =~= s.subrange(i + 1, s.len() as int));
        assert forall|k: int| 0 <= k < i + 1 implies margin.has(#[trigger] s[k]) by {
            if k > 0 {
                assert(rest[k - 1] == s[k]);
            }
        }
    } else {
        assert(s.subrange(0, s.len() as int) =~= s);
    }
}

proof fn end_margin_is_cut(s: Seq<char>, margin: Margin)
    ensures
        exists|n: int|
            {
                &&& 0 <= n <= s.len()
                &&& trim_end_of(s, margin) == #[trigger] s.subrange(0, n)
                &&& forall|k: int| n <= k < s.len() ==> margin.has(#[trigger] s[k])
            },
    decreases s.len(),
{
    if s.len() > 0 && margin.has(s.last()) {
        let rest = s.drop_last();
        end_margin_is_cut(rest, margin);
        let n = choose|n: int|
            {
                &&& 0 <= n <= rest.len()
                &&& trim_end_of(rest, margin) == #[trigger] rest.subrange(0, n)
                &&& forall|k: int| n <= k < rest.len() ==> margin.has(#[trigger] rest[k])
            };
        assert(rest.subrange(0, n) =~= s.subrange(0, n));
        assert forall|k: int| n <= k < s.len() implies margin.has(#[trigger] s[k]) by {
            if k < rest.len() {
                assert(rest[k] == s[k]);
            }
        }
    } else {
        assert(s.subrange(0, s.len() as int) =~= s);
    }
}

/// Among ASCII characters the blank, the tab and the line ends are white space, and nothing
/// else is.
pub proof fn ascii_white_space(c: char)
    requires
        c as u32 <= 0x7f,
    ensures
        is_white(c) <==> c == ' ' || c == '\t' || c == '\n' || c == '\r' || c == '\x0b' || c
            == '\x0c',
        Margin::White.has(c) <==> is_white(c),
        Margin::Gap.has(c) <==> c == ' ' || c == '\t',
        Margin::Leftover.has(c) <==> c == ' ' || c == ',' || c == ';',
{
}

/// A number in decimal has the characters '0' to '9' only, the last of which is its last
/// digit and the others the number without it, and no zero in front; read back, it is the
/// number.
pub proof fn decimals_are_read_back(n: nat)
    ensures
        digits_value(decimal_of(n)) == Some(n),
        decimal_of(n).len() > 0,
        decimal_of(n).last() as u32 == '0' as u32 + n % 10,
        n >= 10 ==> decimal_of(n).drop_last() == decimal_of(n / 10),
        n < 10 ==> decimal_of(n).len() == 1,
        n > 0 ==> decimal_of(n)[0] != '0',
        forall|i: int| 0 <= i < decimal_of(n).len() ==> '0' <= #[trigger] decimal_of(n)[i] <= '9',
    decreases n,
{
    if n >= 10 {
        decimals_are_read_back(n / 10);
        assert(decimal_of(n).drop_last() == decimal_of(n / 10));
    } else {
        assert(digits_value(decimal_of(n).drop_last()) == Some(0nat));
    }
}

/// A whole number is read back from its decimal, with a minus sign in front of it exactly
/// below zero.
pub proof fn signed_decimals_are_read_back(n: int)
    ensures
        integer_of(signed_decimal_of(n)) == Some(n),
        n < 0 <==> signed_decimal_of(n)[0] == '-',
{
    let size = if n < 0 {
        (-n) as nat
    } else {
        n as nat
    };
    decimals_are_read_back(size);
    let digits = decimal_of(size);
    assert('0' <= digits[0] <= '9');
    if n < 0 {
        assert((seq!['-'] + digits).subrange(1, (digits.len() + 1) as int) == digits);
    }
}

/// A number that fits is read back from its decimal, with or without a plus sign; a larger
/// one, no digits at all and any other character give none.
pub proof fn counts_are_read_back(n: nat, limit: nat, s: Seq<char>, i: int)
    ensures
        n <= limit ==> count_of(decimal_of(n), limit) == Some(n) && count_of(
            seq!['+'] + decimal_of(n),
            limit,
        ) == Some(n),
        n > limit ==> count_of(decimal_of(n), limit) is None,
        count_of(Seq::empty(), limit) is None,
        count_of(seq!['+'], limit) is None,
        0 <= i < s.len() && !('0' <= s[i] <= '9') && (i > 0 || s[0] != '+') ==> count_of(s, limit)
            is None,
{
    decimals_are_read_back(n);
    let digits = decimal_of(n);
    assert('0' <= digits[0] <= '9');
    assert((seq!['+'] + digits).subrange(1, (digits.len() + 1) as int) == digits);
    if 0 <= i < s.len() && !('0' <= s[i] <= '9') && (i > 0 || s[0] != '+') {
        if s[0] == '+' {
            let rest = s.subrange(1, s.len() as int);
            assert(rest[i - 1] == s[i]);
            only_digits_have_a_value(rest, i - 1);
        } else {
            only_digits_have_a_value(s, i);
        }
    }
}

proof fn only_digits_have_a_value(s: Seq<char>, i: int)
    requires
        0 <= i < s.len(),
        !('0' <= s[i] <= '9'),
    ensures
        digits_value(s) is None,
    decreases s.len(),
{
    if i < s.len() - 1 {
        only_digits_have_a_value(s.drop_last(), i);
    }
}

/// A number below a hundred takes two digits, which are read back as the number.
pub proof fn two_digits_are_read_back(n: nat)
    requires
        n < 100,
    ensures
        two_digits_of(n).len() == 2,
        two_digits_of(n)[0] as u32 == '0' as u32 + n / 10,
        two_digits_of(n)[1] as u32 == '0' as u32 + n % 10,
{
    decimals_are_read_back(n);
    if n >= 10 {
        decimals_are_read_back(n / 10);
        assert(decimal_of(n).drop_last()[0] == decimal_of(n)[0]);
    }
}

/// A text stands at a place exactly where its characters stand there, one by one.
pub proof fn texts_stand_where_their_characters_do(s: Seq<char>, needle: Seq<char>, i: int)
    ensures
        occurs_at(s, needle, i) <==> 0 <= i && i + needle.len() <= s.len() && forall|k: int|
            0 <= k < needle.len() ==> s[i + k] == #[trigger] needle[k],
        begins(s, needle) <==> needle.len() <= s.len() && forall|k: int|
            0 <= k < needle.len() ==> s[k] == #[trigger] needle[k],
{
    let fits = 0 <= i && i + needle.len() <= s.len();
    if fits && occurs_at(s, needle, i) {
        assert forall|k: int| 0 <= k < needle.len() implies s[i + k] == #[trigger] needle[k] by {
            assert(s.subrange(i, i + needle.len())[k] == needle[k]);
        }
    }
    if fits && (forall|k: int| 0 <= k < needle.len() ==> s[i + k] == #[trigger] needle[k]) {
        assert(s.subrange(i, i + needle.len()) =~= needle);
    }
    if begins(s, needle) {
        assert forall|k: int| 0 <= k < needle.len() implies s[k] == #[trigger] needle[k] by {
            assert(s.subrange(0, needle.len() as int)[k] == needle[k]);
        }
    }
    if needle.len() <= s.len() && (forall|k: int|
        0 <= k < needle.len() ==> s[k] == #[trigger] needle[k]) {
        assert(s.subrange(0, needle.len() as int) =~= needle);
    }
}

/// The first place of a text is one of its places, and none is before it.
pub proof fn first_found_is_first(s: Seq<char>, needle: Seq<char>, from: int)
    requires
        0 <= from,
    ensures
        match found_from(s, needle, from) {
            Some(i) => from <= i && occurs_at(s, needle, i) && forall|j: int|
                from <= j < i ==> !#[trigger] occurs_at(s, needle, j),
            None => forall|j: int| from <= j ==> !#[trigger] occurs_at(s, needle, j),
        },
        first_found(s, needle) == found_from(s, needle, 0),
    decreases s.len() + 1 - from,
{
    if from <= s.len() && !occurs_at(s, needle, from) {
        first_found_is_first(s, needle, from + 1);
    }
}

/// Removing a character removes all of it and nothing else.
pub proof fn other_characters_are_kept(s: Seq<char>, c: char, d: char)
    ensures
        !without(s, c).contains(c),
        d != c ==> without(s.push(d), c) == without(s, c).push(d),
        without(s.push(c), c) == without(s, c),
        !s.contains(c) ==> without(s, c) == s,
    decreases s.len(),
{
    assert(s.push(d).drop_last() == s);
    assert(s.push(c).drop_last() == s);
    if s.len() > 0 {
        other_characters_are_kept(s.drop_last(), c, d);
        if !s.contains(c) {
            assert(s.last() != c);
            assert(!s.drop_last().contains(c));
            assert(s.drop_last().push(s.last()) == s);
        }
    }
}

/// The parts of a text with what parted them between them again.
pub open spec fn rejoined(parts: Seq<Seq<char>>, sep: char) -> Seq<char>
    decreases parts.len(),
{
    if parts.len() == 0 {
        Seq::empty()
    } else if parts.len() == 1 {
        parts[0]
    } else {
        rejoined(parts.drop_last(), sep).push(sep) + parts.last()
    }
}

/// The parts of a text hold none of what parts them, and put together with it they are
/// the text.
pub proof fn parts_make_up_the_text(s: Seq<char>, sep: char)
    ensures
        split_of(s, sep).len() > 0,
        rejoined(split_of(s, sep), sep) == s,
        forall|i: int| 0 <= i < split_of(s, sep).len() ==> !(#[trigger] split_of(s, sep)[i]).contains(
            sep,
        ),
    decreases s.len(),
{
    if s.len() > 0 {
        parts_make_up_the_text(s.drop_last(), sep);
        let before = split_of(s.drop_last(), sep);
        let parts = split_of(s, sep);
        assert(s.drop_last().push(s.last()) == s);
        if s.last() == sep {
            assert(parts.drop_last() == before);
            assert(rejoined(parts, sep) == s);
        } else {
            assert(parts.drop_last() == before.drop_last());
            assert(rejoined(parts, sep) == s);
            assert forall|i: int| 0 <= i < parts.len() implies !(#[trigger] parts[i]).contains(
                sep,
            ) by {
                if i < before.len() - 1 {
                    assert(parts[i] == before[i]);
                } else {
                    assert(!before.last().contains(sep));
                    let last = before.last();
                    assert forall|k: int| 0 <= k < parts[i].len() implies parts[i][k] != sep by {
                        if k < last.len() {
                            assert(parts[i][k] == last[k]);
                        }
                    }
                }
            }
        }
    }
}

/// In lower case, the capitals of ASCII are thirty-two codes on, and no other character
/// changes; texts are the same but for case exactly where they are so one by one.
pub proof fn capitals_are_lowered(c: char, a: Seq<char>, b: Seq<char>)
    ensures
        'A' <= c <= 'Z' ==> ascii_lower(c) as u32 == c as u32 + 32,
        !('A' <= c <= 'Z') ==> ascii_lower(c) == c,
        same_but_case(a, b) <==> a.len() == b.len() && forall|i: int|
            0 <= i < a.len() ==> ascii_lower(#[trigger] a[i]) == ascii_lower(b[i]),
{
    if same_but_case(a, b) {
        assert(ascii_lowered(a).len() == a.len() && ascii_lowered(b).len() == b.len());
        assert forall|i: int| 0 <= i < a.len() implies ascii_lower(#[trigger] a[i]) == ascii_lower(
            b[i],
        ) by {
            assert(ascii_lowered(a)[i] == ascii_lowered(b)[i]);
        }
    }
    if a.len() == b.len() && (forall|i: int|
        0 <= i < a.len() ==> ascii_lower(#[trigger] a[i]) == ascii_lower(b[i])) {
        assert(ascii_lowered(a) =~= ascii_lowered(b));
    }
}

} // verus!
