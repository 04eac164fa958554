//! UTF-16 encoding and lossy decoding between Rust strings and sequences of
//! 16-bit code units, with the round-trip facts the editing engine relies on.

use vstd::prelude::*;

verus! {

/// The character that stands in for an unpaired surrogate when decoding.
pub const REPLACEMENT_CHARACTER: char = '\u{FFFD}';

/// Whether `v` is a Unicode scalar value, i.e. a code point that is not a surrogate.
pub open spec fn is_scalar_value(v: u32) -> bool {
    v <= 0xD7FF || (0xE000 <= v && v <= 0x10FFFF)
}

/// Specification of `char::from_u32` from the standard library: the result is
/// the character with code point `i` when `i` is a Unicode scalar value, and
/// `None` for surrogates and for values above `0x10FFFF`.
pub assume_specification[ char::from_u32 ](i: u32) -> (r: Option<char>)
    ensures
        r == if is_scalar_value(i) {
            Some(i as char)
        } else {
            None::<char>
        },
;

/// Specification of `String::push` from the standard library: the character
/// is appended at the end and nothing else changes.
pub assume_specification[ String::push ](s: &mut String, ch: char)
    ensures
        final(s)@ == old(s)@.push(ch),
;

pub open spec fn is_high_surrogate(u: u16) -> bool {
    0xD800 <= u && u <= 0xDBFF
}

pub open spec fn is_low_surrogate(u: u16) -> bool {
    0xDC00 <= u && u <= 0xDFFF
}

pub open spec fn is_surrogate(u: u16) -> bool {
    0xD800 <= u && u <= 0xDFFF
}

/// The code point that a high surrogate followed by a low surrogate denotes.
pub open spec fn surrogate_pair_value(high: u16, low: u16) -> int {
    0x10000 + (high - 0xD800) * 0x400 + (low - 0xDC00)
}

/// The one or two code units that encode a single character.
pub open spec fn encode_char(c: char) -> Seq<u16> {
    let v = c as u32;
    if v < 0x10000 {
        seq![v as u16]
    } else {
        seq![(0xD800 + (v - 0x10000) / 0x400) as u16, (0xDC00 + (v - 0x10000) % 0x400) as u16]
    }
}

/// The UTF-16 encoding of a string: the encodings of its characters, in order.
pub open spec fn encode_utf16(s: Seq<char>) -> Seq<u16>
    decreases s.len(),
{
    if s.len() == 0 {
        Seq::empty()
    } else {
        encode_utf16(s.drop_last()) + encode_char(s.last())
    }
}

/// Whether `units` begins with a high surrogate directly followed by a low one.
pub open spec fn starts_with_pair(units: Seq<u16>) -> bool {
    units.len() >= 2 && is_high_surrogate(units[0]) && is_low_surrogate(units[1])
}

/// How many code units the first decoded character of a non-empty `units` consumes.
pub open spec fn first_width(units: Seq<u16>) -> int {
    if starts_with_pair(units) {
        2
    } else {
        1
    }
}

/// The first character that lossy decoding yields for a non-empty `units`:
/// a surrogate pair gives its astral character, any other surrogate gives the
/// replacement character, and every other unit gives the character it denotes.
pub open spec fn first_char(units: Seq<u16>) -> char {
    if starts_with_pair(units) {
        surrogate_pair_value(units[0], units[1]) as char
    } else if is_surrogate(units[0]) {
        REPLACEMENT_CHARACTER
    } else {
        units[0] as char
    }
}

/// Lossy decoding of UTF-16 code units: well-formed input decodes to the text
/// it encodes, and every unpaired surrogate becomes one replacement character.
pub open spec fn decode_utf16(units: Seq<u16>) -> Seq<char>
    decreases units.len(),
{
    if units.len() == 0 {
        Seq::empty()
    } else {
        seq![first_char(units)] + decode_utf16(units.skip(first_width(units)))
    }
}

/// Whether `units` holds no unpaired surrogate.
pub open spec fn well_formed(units: Seq<u16>) -> bool
    decreases units.len(),
{
    if units.len() == 0 {
        true
    } else if starts_with_pair(units) {
        well_formed(units.skip(2))
    } else {
        !is_surrogate(units[0]) && well_formed(units.skip(1))
    }
}

/// Encoding a string extended by one character appends that character's units.
pub proof fn lemma_encode_push(s: Seq<char>, c: char)
    ensures
        encode_utf16(s.push(c)) == encode_utf16(s) + encode_char(c),
{
    assert(s.push(c).drop_last() =~= s);
}

/// A one-character string encodes to the units of its character.
pub proof fn lemma_encode_single(c: char)
    ensures
        encode_utf16(seq![c]) == encode_char(c),
{
    lemma_encode_push(Seq::empty(), c);
    assert(Seq::<char>::empty().push(c) =~= seq![c]);
    assert(encode_utf16(Seq::<char>::empty()) + encode_char(c) =~= encode_char(c));
}

/// Encoding distributes over concatenation.
pub proof fn lemma_encode_concat(a: Seq<char>, b: Seq<char>)
    ensures
        encode_utf16(a + b) == encode_utf16(a) + encode_utf16(b),
    decreases b.len(),
{
    if b.len() == 0 {
        assert(a + b =~= a);
        assert(encode_utf16(a) + encode_utf16(b) =~= encode_utf16(a));
    } else {
        lemma_encode_concat(a, b.drop_last());
        assert((a + b).drop_last() =~= a + b.drop_last());
        assert((a + b).last() == b.last());
        assert(encode_utf16(a + b) =~= encode_utf16(a) + encode_utf16(b));
    }
}

/// Decoding yields at least one character for every two code units and at most one per unit.
pub proof fn lemma_decode_len(units: Seq<u16>)
    ensures
        decode_utf16(units).len() <= units.len() <= 2 * decode_utf16(units).len(),
    decreases units.len(),
{
    if units.len() > 0 {
        lemma_decode_len(units.skip(first_width(units)));
    }
}

/// The units of one character decode to that character, whatever follows them.
pub proof fn lemma_decode_after_char(c: char, rest: Seq<u16>)
    ensures
        decode_utf16(encode_char(c) + rest) == seq![c] + decode_utf16(rest),
{
    let units = encode_char(c) + rest;
    let v = c as u32;
    if v < 0x10000 {
        assert(units[0] == v as u16);
        assert(!is_surrogate(units[0]));
        assert(units.skip(1) =~= rest);
        assert(first_char(units) == c);
    } else {
        let w = (v - 0x10000) as int;
        assert(0 <= w < 0x100000);
        assert(units[0] == (0xD800 + w / 0x400) as u16);
        assert(units[1] == (0xDC00 + w % 0x400) as u16);
        assert(starts_with_pair(units));
        assert(surrogate_pair_value(units[0], units[1]) == v);
        assert(units.skip(2) =~= rest);
        assert(first_char(units) == c);
    }
}

/// Decoding undoes encoding.
pub proof fn lemma_decode_encode(s: Seq<char>)
    ensures
        decode_utf16(encode_utf16(s)) == s,
    decreases s.len(),
{
    if s.len() == 0 {
        assert(decode_utf16(encode_utf16(s)) =~= s);
    } else {
        let head = seq![s[0]];
        let tail = s.skip(1);
        assert(s =~= head + tail);
        lemma_encode_concat(head, tail);
        lemma_encode_single(s[0]);
        lemma_decode_after_char(s[0], encode_utf16(tail));
        lemma_decode_encode(tail);
    }
}

/// Encoding undoes decoding on code units that hold no unpaired surrogate.
pub proof fn lemma_encode_decode(units: Seq<u16>)
    requires
        well_formed(units),
    ensures
        encode_utf16(decode_utf16(units)) == units,
    decreases units.len(),
{
    if units.len() == 0 {
        assert(encode_utf16(decode_utf16(units)) =~= units);
    } else {
        let k = first_width(units);
        let c = first_char(units);
        let rest = units.skip(k);
        lemma_encode_decode(rest);
        let head = seq![c];
        lemma_encode_concat(head, decode_utf16(rest));
        lemma_encode_single(c);
        if starts_with_pair(units) {
            let v = surrogate_pair_value(units[0], units[1]);
            assert(0x10000 <= v <= 0x10FFFF);
            assert(c as u32 == v);
            assert((v - 0x10000) / 0x400 == units[0] - 0xD800);
            assert((v - 0x10000) % 0x400 == units[1] - 0xDC00);
            assert(encode_char(c) =~= seq![units[0], units[1]]);
        } else {
            assert(c as u32 == units[0]);
            assert(encode_char(c) =~= seq![units[0]]);
        }
        assert(encode_char(c) + rest =~= units);
    }
}

/// Encodes a string as UTF-16 code units.
pub fn encode(s: &str) -> (units: Vec<u16>)
    ensures
        units@ == encode_utf16(s@),
{
    let mut units: Vec<u16> = Vec::new();
    for c in it: s.chars()
        invariant
            it.seq() == s@,
            units@ == encode_utf16(s@.take(it.index() as int)),
    {
        let v: u32 = c as u32;
        proof {
            assert(s@.take(it.index() + 1).drop_last() =~= s@.take(it.index() as int));
        }
        if v < 0x10000 {
            units.push(v as u16);
        } else {
            let w: u32 = v - 0x10000;
            units.push((0xD800 + w / 0x400) as u16);
            units.push((0xDC00 + w % 0x400) as u16);
        }
        assert(units@ =~= encode_utf16(s@.take(it.index() as int)) + encode_char(c));
    }
    proof {
        assert(s@.take(s@.len() as int) =~= s@);
    }
    units
}

/// Decodes the code units `units[start..end]`, replacing every unpaired
/// surrogate by the replacement character.
pub fn decode_range(units: &Vec<u16>, start: usize, end: usize) -> (text: String)
    requires
        start <= end <= units.len(),
    ensures
        text@ == decode_utf16(units@.subrange(start as int, end as int)),
{
    let ghost all = units@.subrange(start as int, end as int);
    let mut text = String::new();
    let mut i: usize = start;
    while i < end
        invariant
            start <= i <= end <= units.len(),
            all == units@.subrange(start as int, end as int),
            decode_utf16(all) == text@ + decode_utf16(units@.subrange(i as int, end as int)),
        decreases end - i,
    {
        let ghost rest = units@.subrange(i as int, end as int);
        let u: u16 = units[i];
        assert(rest[0] == u);
        if 0xD800 <= u && u <= 0xDBFF && i + 1 < end && 0xDC00 <= units[i + 1] && units[i + 1] <= 0xDFFF {
            let low: u16 = units[i + 1];
            assert(rest[1] == low);
            let v: u32 = 0x10000 + (u as u32 - 0xD800) * 0x400 + (low as u32 - 0xDC00);
            let c: char = match char::from_u32(v) {
                Some(c) => c,
                None => REPLACEMENT_CHARACTER,
            };
            assert(c == first_char(rest));
            text.push(c);
            assert(rest.skip(2) =~= units@.subrange(i + 2, end as int));
            i = i + 2;
        } else {
            let c: char = if 0xD800 <= u && u <= 0xDFFF {
                REPLACEMENT_CHARACTER
            } else {
                match char::from_u32(u as u32) {
                    Some(c) => c,
                    None => REPLACEMENT_CHARACTER,
                }
            };
            assert(c == first_char(rest));
            text.push(c);
            assert(rest.skip(1) =~= units@.subrange(i + 1, end as int));
            i = i + 1;
        }
        assert(decode_utf16(all) =~= text@ + decode_utf16(units@.subrange(i as int, end as int)));
    }
    assert(decode_utf16(all) =~= text@);
    text
}

/// Decodes all of `units`; see [`decode_range`].
pub fn decode(units: &Vec<u16>) -> (text: String)
    ensures
        text@ == decode_utf16(units@),
{
    assert(units@.subrange(0, units.len() as int) =~= units@);
    decode_range(units, 0, units.len())
}

} // verus!
