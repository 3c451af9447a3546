//! UTF-16 encoding of Unicode text, with its inverse as a specification.

use vstd::prelude::*;

verus! {

/// The code units of one character: itself when it lies in the Basic
/// Multilingual Plane, otherwise the high and low surrogate of its pair.
pub open spec fn char_units(c: char) -> Seq<u16> {
    let v = c as int;
    if v < 0x10000 {
        seq![v as u16]
    } else {
        seq![(0xD800 + (v - 0x10000) / 0x400) as u16, (0xDC00 + (v - 0x10000) % 0x400) as u16]
    }
}

/// The UTF-16 encoding of a text: the units of its characters, in order.
pub open spec fn utf16_encode(s: Seq<char>) -> Seq<u16>
    decreases s.len(),
{
    if s.len() == 0 {
        Seq::empty()
    } else {
        utf16_encode(s.drop_last()) + char_units(s.last())
    }
}

/// The number of code units that a text takes in UTF-16.
pub open spec fn utf16_len(s: Seq<char>) -> nat {
    utf16_encode(s).len()
}

pub open spec fn is_high_surrogate(u: u16) -> bool {
    0xD800 <= u <= 0xDBFF
}

pub open spec fn is_low_surrogate(u: u16) -> bool {
    0xDC00 <= u <= 0xDFFF
}

/// The character that a surrogate pair stands for.
pub open spec fn pair_char(high: u16, low: u16) -> char {
    (0x10000 + (high - 0xD800) * 0x400 + (low - 0xDC00)) as char
}

/// The text that a sequence of code units stands for, or `None` where a
/// surrogate has no partner.
pub open spec fn utf16_decode(units: Seq<u16>) -> Option<Seq<char>>
    decreases units.len(),
{
    if units.len() == 0 {
        Some(Seq::empty())
    } else if !is_high_surrogate(units[0]) && !is_low_surrogate(units[0]) {
        match utf16_decode(units.skip(1)) {
            Some(rest) => Some(seq![units[0] as char] + rest),
            None => None,
        }
    } else if is_high_surrogate(units[0]) && units.len() >= 2 && is_low_surrogate(units[1]) {
        match utf16_decode(units.skip(2)) {
            Some(rest) => Some(seq![pair_char(units[0], units[1])] + rest),
            None => None,
        }
    } else {
        None
    }
}

/// The units that come before the first zero, or all of them where there is
/// no zero.
pub open spec fn until_terminator(units: Seq<u16>) -> Seq<u16>
    decreases units.len(),
{
    if units.len() == 0 || units[0] == 0 {
        Seq::empty()
    } else {
        seq![units[0]] + until_terminator(units.skip(1))
    }
}

/// Every character takes one or two units, and none of them is zero unless
/// the character is NUL.
pub proof fn char_units_shape(c: char)
    ensures
        1 <= char_units(c).len() <= 2,
        char_units(c).len() == 1 ==> !is_high_surrogate(char_units(c)[0]) && !is_low_surrogate(
            char_units(c)[0],
        ) && char_units(c)[0] as char == c,
        char_units(c).len() == 2 ==> is_high_surrogate(char_units(c)[0]) && is_low_surrogate(
            char_units(c)[1],
        ) && pair_char(char_units(c)[0], char_units(c)[1]) == c,
        c != '\0' ==> forall|i: int| 0 <= i < char_units(c).len() ==> char_units(c)[i] != 0,
{
}

/// Encoding distributes over concatenation.
pub proof fn encode_concat(a: Seq<char>, b: Seq<char>)
    ensures
        utf16_encode(a + b) == utf16_encode(a) + utf16_encode(b),
    decreases b.len(),
{
    if b.len() > 0 {
        assert((a + b).drop_last() == a + b.drop_last());
        encode_concat(a, b.drop_last());
        assert((utf16_encode(a) + utf16_encode(b.drop_last())) + char_units(b.last())
            == utf16_encode(a) + (utf16_encode(b.drop_last()) + char_units(b.last())));
    }
}

/// The encoding of a text that starts with `c` starts with the units of `c`.
pub proof fn encode_first(s: Seq<char>)
    requires
        s.len() > 0,
    ensures
        utf16_encode(s) == char_units(s[0]) + utf16_encode(s.skip(1)),
{
    let head = seq![s[0]];
    assert(s == head + s.skip(1));
    encode_concat(head, s.skip(1));
    assert(utf16_encode(head) == utf16_encode(head.drop_last()) + char_units(head.last()));
}

/// Decoding undoes encoding: every text comes back from its code units.
pub proof fn decode_encode(s: Seq<char>)
    ensures
        utf16_decode(utf16_encode(s)) == Some(s),
    decreases s.len(),
{
    if s.len() > 0 {
        let rest = s.skip(1);
        encode_first(s);
        char_units_shape(s[0]);
        decode_encode(rest);
        assert(utf16_encode(s).skip(char_units(s[0]).len() as int) == utf16_encode(rest));
    }
}

/// A text without NUL encodes to units without zero.
pub proof fn encode_nonzero(s: Seq<char>)
    requires
        forall|i: int| 0 <= i < s.len() ==> s[i] != '\0',
    ensures
        forall|i: int| 0 <= i < utf16_encode(s).len() ==> utf16_encode(s)[i] != 0,
    decreases s.len(),
{
    if s.len() > 0 {
        let front = utf16_encode(s.drop_last());
        let back = char_units(s.last());
        encode_nonzero(s.drop_last());
        char_units_shape(s.last());
        assert forall|i: int| 0 <= i < utf16_encode(s).len() implies utf16_encode(s)[i] != 0 by {
            assert(utf16_encode(s) == front + back);
        }
    }
}

/// Cutting at the terminator returns a zero-free prefix unchanged, whatever
/// follows the zero after it.
pub proof fn until_terminator_prefix(prefix: Seq<u16>, rest: Seq<u16>)
    requires
        forall|i: int| 0 <= i < prefix.len() ==> prefix[i] != 0,
        rest.len() == 0 || rest[0] == 0,
    ensures
        until_terminator(prefix + rest) == prefix,
    decreases prefix.len(),
{
    if prefix.len() > 0 {
        assert((prefix + rest).skip(1) == prefix.skip(1) + rest);
        until_terminator_prefix(prefix.skip(1), rest);
    }
}

/// Appends the code units of one character.
pub fn push_char_units(units: &mut Vec<u16>, c: char)
    ensures
        final(units)@ == old(units)@ + char_units(c),
{
    let v: u32 = c as u32;
    if v < 0x10000 {
        units.push(v as u16);
    } else {
        let offset: u32 = v - 0x10000;
        units.push((0xD800 + offset / 0x400) as u16);
        units.push((0xDC00 + offset % 0x400) as u16);
    }
}

/// Encodes a text as UTF-16 code units.
pub fn encode_utf16(text: &str) -> (units: Vec<u16>)
    ensures
        units@ == utf16_encode(text@),
{
    let mut units: Vec<u16> = Vec::new();
    for c in chars: text.chars()
        invariant
            chars.seq() == text@,
            units@ == utf16_encode(text@.take(chars.index() as int)),
    {
        proof {
            let next = text@.take(chars.index() + 1);
            assert(next.drop_last() == text@.take(chars.index() as int));
        }
        push_char_units(&mut units, c);
    }
    assert(text@.take(text@.len() as int) == text@);
    units
}

} // verus!
