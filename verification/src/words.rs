//! Words of window messages, and UTF-16 text.
use crate::text::chars_of;
use vstd::prelude::*;

verus! {

/// The signed value of sixteen bits.
pub open spec fn signed_word(word: int) -> int {
    if word >= 0x8000 {
        word - 0x10000
    } else {
        word
    }
}

/// The low word of a message parameter, as a signed coordinate.
pub fn signed_loword(value: u64) -> (x: i32)
    ensures
        x == signed_word(value as int % 0x10000),
{
    let word: u64 = value & 0xffff;
    assert(value & 0xffff == value % 0x10000) by (bit_vector);
    if word >= 0x8000 {
        word as i32 - 0x10000
    } else {
        word as i32
    }
}

/// The high word of a message parameter, as a signed coordinate.
pub fn signed_hiword(value: u64) -> (y: i32)
    ensures
        y == signed_word(value as int / 0x10000 % 0x10000),
{
    let high: u64 = value >> 16;
    assert(value >> 16 == value / 0x10000) by (bit_vector);
    signed_loword(high)
}

/// The UTF-16 code units of a character.
pub open spec fn utf16_of(c: char) -> Seq<u16> {
    let u = c as u32;
    if u < 0x10000 {
        seq![u as u16]
    } else {
        seq![(0xd800 + (u - 0x10000) / 0x400) as u16, (0xdc00 + (u - 0x10000) % 0x400) as u16]
    }
}

/// The UTF-16 code units of a text.
pub open spec fn encoded(s: Seq<char>) -> Seq<u16>
    decreases s.len(),
{
    if s.len() == 0 {
        Seq::empty()
    } else {
        encoded(s.drop_last()) + utf16_of(s.last())
    }
}

/// The UTF-16 code units of a text, with a zero behind them.
pub fn wide(text: &str) -> (units: Vec<u16>)
    ensures
        units@ == encoded(text@).push(0),
{
    let chars = chars_of(text);
    let mut units: Vec<u16> = Vec::new();
    let mut i: usize = 0;
    assert(text@.subrange(0, 0) =~= Seq::empty());
    while i < chars.len()
        invariant
            i <= chars.len(),
            chars@ == text@,
            units@ == encoded(text@.subrange(0, i as int)),
        decreases chars.len() - i,
    {
        assert(text@.subrange(0, i + 1).drop_last() =~= text@.subrange(0, i as int));
        let u: u32 = chars[i] as u32;
        if u < 0x10000 {
            units.push(u as u16);
        } else {
            let rest: u32 = u - 0x10000;
            units.push((0xd800 + rest / 0x400) as u16);
            units.push((0xdc00 + rest % 0x400) as u16);
        }
        i += 1;
        assert(units@ =~= encoded(text@.subrange(0, i as int)));
    }
    assert(text@.subrange(0, i as int) =~= text@);
    units.push(0);
    units
}

/// A text without zero characters has no zero before its end, so that it is read
/// back whole.
pub proof fn wide_texts_end_at_the_first_zero(s: Seq<char>)
    requires
        forall|i: int| 0 <= i < s.len() ==> s[i] as u32 != 0,
    ensures
        forall|i: int| 0 <= i < encoded(s).len() ==> #[trigger] encoded(s)[i] != 0,
    decreases s.len(),
{
    if s.len() > 0 {
        wide_texts_end_at_the_first_zero(s.drop_last());
        let head = encoded(s.drop_last());
        assert forall|i: int| 0 <= i < encoded(s).len() implies #[trigger] encoded(s)[i] != 0 by {
            if i < head.len() {
                assert(encoded(s)[i] == head[i]);
            } else {
                let c = s.last();
                let k = i - head.len();
                vstd::utf8::char_is_scalar(c);
                assert(s[s.len() - 1] as u32 != 0);
                assert(encoded(s)[i] == utf16_of(c)[k]);
                if (c as u32) < 0x10000 {
                    assert(utf16_of(c)[0] as u32 == c as u32);
                } else {
                    let rest = (c as u32 - 0x10000) as int;
                    assert(0 <= rest / 0x400 < 0x400);
                    assert(utf16_of(c)[0] == 0xd800 + rest / 0x400);
                    assert(utf16_of(c)[1] == 0xdc00 + rest % 0x400);
                }
            }
        }
    }
}

/// Whether a code unit is the first of a pair.
pub open spec fn is_high(unit: u16) -> bool {
    0xd800 <= unit < 0xdc00
}

/// Whether a code unit is the second of a pair.
pub open spec fn is_low(unit: u16) -> bool {
    0xdc00 <= unit < 0xe000
}

/// The characters that code units stand for, with the replacement character for each
/// unit of a pair that stands without the other.
pub open spec fn decoded(units: Seq<u16>) -> Seq<char>
    decreases units.len(),
{
    if units.len() == 0 {
        Seq::empty()
    } else if units.len() >= 2 && is_high(units[units.len() - 2]) && is_low(units.last()) {
        let high = units[units.len() - 2];
        let code = 0x10000 + (high - 0xd800) * 0x400 + (units.last() - 0xdc00);
        decoded(units.subrange(0, units.len() - 2)).push(code as char)
    } else if is_high(units.last()) || is_low(units.last()) {
        decoded(units.drop_last()).push('\u{fffd}')
    } else {
        decoded(units.drop_last()).push(units.last() as char)
    }
}

/// Encoding a text and decoding it gives the text back.
pub proof fn wide_texts_are_read_back(s: Seq<char>)
    ensures
        decoded(encoded(s)) == s,
    decreases s.len(),
{
    if s.len() > 0 {
        wide_texts_are_read_back(s.drop_last());
        let head = encoded(s.drop_last());
        let c = s.last();
        let u = c as u32;
        let all = encoded(s);
        vstd::utf8::char_is_scalar(c);
        if u < 0x10000 {
            assert(all.drop_last() =~= head);
            let last = all.last();
            assert(last == u as u16);
            assert(last as u32 == u);
            assert(!is_high(last) && !is_low(last));
            vstd::utf8::char_u32_cast(c, u);
            assert(last as char == c);
        } else {
            assert(all.subrange(0, all.len() - 2) =~= head);
            let rest = (u - 0x10000) as int;
            assert(rest / 0x400 < 0x400);
            assert(rest == (rest / 0x400) * 0x400 + rest % 0x400);
            let high = all[all.len() - 2];
            let low = all.last();
            assert(high == 0xd800 + rest / 0x400);
            assert(low == 0xdc00 + rest % 0x400);
            let code = 0x10000 + (high - 0xd800) * 0x400 + (low - 0xdc00);
            assert(code == u);
            vstd::utf8::char_u32_cast(c, u);
            assert(code as char == c);
        }
        assert(decoded(all) =~= s);
    }
}

/// The code units that bytes stand for, the low byte first. An odd byte at the end is
/// left out.
pub open spec fn units_of(bytes: Seq<u8>) -> Seq<u16> {
    Seq::new(
        (bytes.len() / 2) as nat,
        |i: int| (bytes[2 * i] as int + 256 * (bytes[2 * i + 1] as int)) as u16,
    )
}

/// The code units that bytes stand for, the low byte first.
pub fn le_units(bytes: &[u8]) -> (units: Vec<u16>)
    ensures
        units@ == units_of(bytes@),
{
    let mut units: Vec<u16> = Vec::new();
    let n: usize = bytes.len();
    let mut i: usize = 0;
    let half: usize = n / 2;
    while i < half
        invariant
            i <= half,
            half == n / 2,
            n == bytes@.len(),
            units@ == units_of(bytes@).subrange(0, i as int),
        decreases half - i,
    {
        let unit: u16 = bytes[2 * i] as u16 + 256 * (bytes[2 * i + 1] as u16);
        units.push(unit);
        i += 1;
        assert(units@ =~= units_of(bytes@).subrange(0, i as int));
    }
    assert(units@ =~= units_of(bytes@));
    units
}

/// A signed word is the one number from -32768 to 32767 that has the bits of the word.
pub proof fn signed_words_keep_their_bits(word: int)
    requires
        0 <= word < 0x10000,
    ensures
        -32_768 <= signed_word(word) <= 32_767,
        (signed_word(word) - word) % 65_536 == 0,
        signed_word(word) == word || signed_word(word) == word - 65_536,
{
}

/// A unit of UTF-16 is two bytes, the low one first; an odd byte at the end is dropped.
pub proof fn units_have_their_low_byte_first(bytes: Seq<u8>, i: int)
    requires
        0 <= i < bytes.len() / 2,
    ensures
        units_of(bytes).len() == bytes.len() / 2,
        units_of(bytes)[i] % 256 == bytes[2 * i],
        units_of(bytes)[i] / 256 == bytes[2 * i + 1],
{
}

/// A character has one unit, its code, where that fits; and else a high and a low one,
/// which hold ten bits each of what the code is above 65536.
pub proof fn characters_have_one_or_two_units(c: char)
    ensures
        c as u32 <= 0xffff ==> utf16_of(c).len() == 1 && utf16_of(c)[0] == c as u32,
        c as u32 > 0xffff ==> {
            &&& utf16_of(c).len() == 2
            &&& 0xd800 <= utf16_of(c)[0] <= 0xdbff
            &&& 0xdc00 <= utf16_of(c)[1] <= 0xdfff
            &&& (utf16_of(c)[0] - 0xd800) * 1024 + (utf16_of(c)[1] - 0xdc00) + 65_536 == c as u32
        },
{
}

/// The units of a text are those of its characters, one behind the other.
pub proof fn units_follow_the_text(s: Seq<char>, c: char)
    ensures
        encoded(s.push(c)) == encoded(s) + utf16_of(c),
        encoded(Seq::empty()).len() == 0,
{
    assert(s.push(c).drop_last() == s);
}

/// Half of a pair that stands alone is read as the mark for what cannot be read, and all
/// other units as themselves.
pub proof fn lone_halves_are_marked(units: Seq<u16>, unit: u16)
    requires
        units.len() == 0 || !(0xd800 <= units.last() <= 0xdbff),
    ensures
        0xd800 <= unit <= 0xdfff ==> decoded(units.push(unit)) == decoded(units).push('\u{fffd}'),
        !(0xd800 <= unit <= 0xdfff) ==> decoded(units.push(unit)) == decoded(units).push(
            unit as char,
        ),
{
    assert(units.push(unit).drop_last() == units);
}

} // verus!
