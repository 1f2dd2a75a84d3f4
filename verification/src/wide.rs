//! UTF-16 text as the Windows API exchanges it: NUL-terminated on the way in,
//! a buffer and a length on the way out.

use vstd::prelude::*;
use vstd::slice::slice_subrange;

verus! {

/// The UTF-16 code units of one character: itself below U+10000, a surrogate
/// pair above.
pub open spec fn utf16_units(c: char) -> Seq<u16> {
    let v = c as u32;
    if v < 0x1_0000 {
        seq![v as u16]
    } else {
        seq![(0xD800 + (v - 0x1_0000) / 0x400) as u16, (0xDC00 + (v - 0x1_0000) % 0x400) as u16]
    }
}

/// The UTF-16 encoding of a text: the units of its characters, in order.
pub open spec fn utf16_of(text: Seq<char>) -> Seq<u16>
    decreases text.len(),
{
    if text.len() == 0 {
        Seq::empty()
    } else {
        utf16_of(text.drop_last()) + utf16_units(text.last())
    }
}

/// Encodes `text` as UTF-16 and appends the terminating NUL that the
/// wide-character entry points of the system expect.
pub fn encode_wide(text: &str) -> (wide: Vec<u16>)
    ensures
        wide@ == utf16_of(text@).push(0u16),
{
    let mut wide: Vec<u16> = Vec::new();
    for c in it: text.chars()
        invariant
            it.seq() == text@,
            wide@ == utf16_of(text@.take(it.index())),
    {
        proof {
            let i = it.index();
            assert(text@.take(i + 1).drop_last() == text@.take(i));
            assert(text@.take(i + 1).last() == c);
        }
        let v: u32 = c as u32;
        if v < 0x1_0000 {
            wide.push(v as u16);
        } else {
            let w: u32 = v - 0x1_0000;
            wide.push((0xD800 + w / 0x400) as u16);
            wide.push((0xDC00 + w % 0x400) as u16);
        }
    }
    assert(text@.take(text@.len() as int) == text@);
    wide.push(0u16);
    wide
}

/// Whether `unit` is a leading (high) surrogate.
pub open spec fn is_high_surrogate(unit: u16) -> bool {
    0xD800 <= unit <= 0xDBFF
}

/// Whether `unit` is a trailing (low) surrogate.
pub open spec fn is_low_surrogate(unit: u16) -> bool {
    0xDC00 <= unit <= 0xDFFF
}

/// The character that a surrogate pair stands for.
pub open spec fn pair_char(high: u16, low: u16) -> char {
    (0x1_0000 + (high - 0xD800) * 0x400 + (low - 0xDC00)) as char
}

/// The text that UTF-16 `units` decode to when every unpaired surrogate is
/// replaced by U+FFFD.
pub open spec fn lossy_text(units: Seq<u16>) -> Seq<char>
    decreases units.len(),
{
    if units.len() == 0 {
        Seq::empty()
    } else if is_high_surrogate(units[0]) && units.len() >= 2 && is_low_surrogate(units[1]) {
        seq![pair_char(units[0], units[1])] + lossy_text(units.skip(2))
    } else if is_high_surrogate(units[0]) || is_low_surrogate(units[0]) {
        seq!['\u{FFFD}'] + lossy_text(units.skip(1))
    } else {
        seq![units[0] as char] + lossy_text(units.skip(1))
    }
}

/// The encoding of a text that begins with `c` begins with the units of `c`.
proof fn lemma_utf16_of_front(c: char, rest: Seq<char>)
    ensures
        utf16_of(seq![c] + rest) == utf16_units(c) + utf16_of(rest),
    decreases rest.len(),
{
    let text = seq![c] + rest;
    if rest.len() == 0 {
        assert(text.drop_last() =~= rest);
        assert(utf16_of(rest) =~= Seq::<u16>::empty());
        assert(utf16_of(text) =~= utf16_units(c) + utf16_of(rest));
    } else {
        assert(text.drop_last() =~= seq![c] + rest.drop_last());
        lemma_utf16_of_front(c, rest.drop_last());
        assert(utf16_of(text) =~= utf16_units(c) + utf16_of(rest));
    }
}

/// Units that begin with the encoding of `c` decode to a text that begins
/// with `c`.
proof fn lemma_lossy_text_front(c: char, rest: Seq<u16>)
    ensures
        lossy_text(utf16_units(c) + rest) == seq![c] + lossy_text(rest),
{
    let units = utf16_units(c) + rest;
    let v = c as u32;
    if v < 0x1_0000 {
        assert(units[0] == v as u16);
        assert(units.skip(1) =~= rest);
        assert(units[0] as char == c);
    } else {
        let w = (v - 0x1_0000) as int;
        assert(units[0] == (0xD800 + w / 0x400) as u16);
        assert(units[1] == (0xDC00 + w % 0x400) as u16);
        assert(units.skip(2) =~= rest);
        assert(pair_char(units[0], units[1]) == c);
    }
}

/// Decoding undoes encoding: no text is changed by the passage through
/// UTF-16.
pub proof fn lemma_decode_encode(text: Seq<char>)
    ensures
        lossy_text(utf16_of(text)) == text,
    decreases text.len(),
{
    if text.len() > 0 {
        let rest = text.skip(1);
        assert(text =~= seq![text[0]] + rest);
        lemma_utf16_of_front(text[0], rest);
        lemma_lossy_text_front(text[0], utf16_of(rest));
        lemma_decode_encode(rest);
    }
}

/// What a length-reporting text query answered: the first `len` units of
/// `units`, decoded, when `len` is positive and within the buffer; nothing
/// when the system reported zero units or more than the buffer holds.
pub open spec fn reported_text(units: Seq<u16>, len: u32) -> Option<Seq<char>> {
    if 0 < len <= units.len() {
        Some(lossy_text(units.take(len as int)))
    } else {
        None
    }
}

/// `String::from_utf16_lossy`: decodes UTF-16, putting U+FFFD in place of
/// each unpaired surrogate. The contract states that result unit by unit;
/// Verus does not check it against the standard library.
#[verifier::external_body]
fn from_utf16_lossy(units: &[u16]) -> (text: String)
    ensures
        text@ == lossy_text(units@),
{
    String::from_utf16_lossy(units)
}

/// Decodes what a text query wrote: `len` units at the front of `units`.
/// Gives nothing when `len` is zero or exceeds the buffer.
pub fn decode_wide(units: &[u16], len: u32) -> (text: Option<String>)
    ensures
        match text {
            Some(t) => reported_text(units@, len) == Some(t@),
            None => reported_text(units@, len) is None,
        },
{
    if len == 0 || len as usize > units.len() {
        None
    } else {
        let written = slice_subrange(units, 0, len as usize);
        assert(written@ == units@.take(len as int));
        Some(from_utf16_lossy(written))
    }
}

} // verus!
