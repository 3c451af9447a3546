//! The encoding core: encode, terminate, then adopt the natural length or
//! validate an explicit one and pad to it.

use vstd::prelude::*;
use crate::utf16::{
    decode_encode, encode_nonzero, encode_utf16, until_terminator, until_terminator_prefix,
    utf16_decode, utf16_encode, utf16_len,
};

verus! {

/// `n` zero units.
pub open spec fn zeros(n: nat) -> Seq<u16> {
    Seq::new(n, |i: int| 0u16)
}

/// The code units of a text followed by the terminator.
pub open spec fn terminated(text: Seq<char>) -> Seq<u16> {
    utf16_encode(text).push(0u16)
}

/// The number of units that a text needs: its encoding and the terminator.
pub open spec fn natural_length(text: Seq<char>) -> nat {
    utf16_len(text) + 1
}

/// The units of the array for a text and an optional explicit size, or `None`
/// where the explicit size is smaller than the natural length.
pub open spec fn resolved_units(text: Seq<char>, requested_size: Option<usize>) -> Option<
    Seq<u16>,
> {
    match requested_size {
        None => Some(terminated(text)),
        Some(n) => if n < natural_length(text) {
            None
        } else {
            Some(terminated(text) + zeros((n - natural_length(text)) as nat))
        },
    }
}

/// An explicit size that cannot hold the text and its terminator.
#[derive(Clone, Copy, Debug, PartialEq, Eq)]
pub struct Shortfall {
    pub natural: usize,
    pub requested: usize,
}

/// A null-terminated array of UTF-16 code units, zero-padded where a size
/// larger than the natural length was asked for.
#[derive(Debug)]
pub struct EncodedArray {
    pub units: Vec<u16>,
}

impl View for EncodedArray {
    type V = Seq<u16>;

    open spec fn view(&self) -> Seq<u16> {
        self.units@
    }
}

impl EncodedArray {
    /// An array holds at least the terminator and ends with a zero.
    pub open spec fn well_formed(&self) -> bool {
        self@.len() >= 1 && self@.last() == 0
    }

    /// The number of units, padding included.
    pub fn length(&self) -> (n: usize)
        ensures
            n == self@.len(),
    {
        self.units.len()
    }
}

/// Encodes `text`, appends the terminator, and pads with zeros to
/// `requested_size` where one is given and large enough.
pub fn encode(text: &str, requested_size: Option<usize>) -> (r: Result<EncodedArray, Shortfall>)
    ensures
        match resolved_units(text@, requested_size) {
            Some(units) => r is Ok && r->Ok_0@ == units && r->Ok_0.well_formed(),
            None => r == Err::<EncodedArray, Shortfall>(
                Shortfall {
                    natural: natural_length(text@) as usize,
                    requested: requested_size->Some_0,
                },
            ),
        },
        natural_length(text@) <= usize::MAX,
{
    let mut units = encode_utf16(text);
    units.push(0);
    let natural = units.len();
    match requested_size {
        None => Ok(EncodedArray { units }),
        Some(size) => {
            if size < natural {
                return Err(Shortfall { natural, requested: size });
            }
            while units.len() < size
                invariant
                    natural <= units.len() <= size,
                    natural == natural_length(text@),
                    units@ == terminated(text@) + zeros((units.len() - natural) as nat),
                decreases size - units.len(),
            {
                units.push(0);
            }
            Ok(EncodedArray { units })
        },
    }
}

/// With an explicit size that is large enough, the array has that size and
/// is the encoding of the text followed by zeros only.
pub proof fn padded_is_encoding_then_zeros(text: Seq<char>, size: usize)
    requires
        size >= utf16_len(text) + 1,
    ensures
        resolved_units(text, Some(size)) is Some,
        resolved_units(text, Some(size))->Some_0.len() == size,
        resolved_units(text, Some(size))->Some_0 == utf16_encode(text) + zeros(
            (size - utf16_len(text)) as nat,
        ),
{
    let units = resolved_units(text, Some(size))->Some_0;
}

/// An explicit size below the natural length is refused.
pub proof fn short_size_is_refused(text: Seq<char>, size: usize)
    requires
        size < utf16_len(text) + 1,
    ensures
        resolved_units(text, Some(size)) is None,
{
}

/// Without an explicit size the array is the encoding and one terminator,
/// so it is never empty.
pub proof fn inferred_is_terminated(text: Seq<char>)
    ensures
        resolved_units(text, None) == Some(utf16_encode(text).push(0u16)),
        resolved_units(text, None)->Some_0.len() == natural_length(text) >= 1,
{
}

/// Reading an array up to its terminator gives back the text it was made
/// from, for every size that was accepted, provided the text holds no NUL
/// (a NUL in the text would itself read as the terminator).
pub proof fn decode_resolved(text: Seq<char>, requested_size: Option<usize>)
    requires
        forall|i: int| 0 <= i < text.len() ==> text[i] != '\0',
        resolved_units(text, requested_size) is Some,
    ensures
        utf16_decode(until_terminator(resolved_units(text, requested_size)->Some_0)) == Some(text),
{
    let units = resolved_units(text, requested_size)->Some_0;
    let body = utf16_encode(text);
    let tail = units.skip(body.len() as int);
    assert(units =~= body + tail);
    encode_nonzero(text);
    until_terminator_prefix(body, tail);
    decode_encode(text);
}

/// Resolving again with the resolved length as the explicit size changes
/// nothing: the same units come out.
pub proof fn resolved_length_is_fixed_point(text: Seq<char>, requested_size: Option<usize>)
    requires
        resolved_units(text, requested_size) is Some,
        resolved_units(text, requested_size)->Some_0.len() <= usize::MAX,
    ensures
        resolved_units(
            text,
            Some(resolved_units(text, requested_size)->Some_0.len() as usize),
        ) == resolved_units(text, requested_size),
{
    let units = resolved_units(text, requested_size)->Some_0;
    let again = resolved_units(text, Some(units.len() as usize));
}

} // verus!
