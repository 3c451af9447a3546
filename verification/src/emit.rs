//! The array emitter: code units rendered as an array literal.

use vstd::prelude::*;
use proc_macro2::TokenStream;
use crate::array::EncodedArray;
use crate::token::{push_bracketed, push_punct, push_u16, stream_trees, u16_literal, Delim, Tree};

verus! {

/// The tokens between the brackets: one suffixed literal for each unit, in
/// order, with a comma between two of them and none at the end.
pub open spec fn array_items(units: Seq<u16>) -> Seq<Tree> {
    Seq::new(
        if units.len() == 0 {
            0nat
        } else {
            (2 * units.len() - 1) as nat
        },
        |i: int|
            if i % 2 == 0 {
                u16_literal(units[i / 2])
            } else {
                Tree::Punct(',', false)
            },
    )
}

/// The array literal for the units: their items in square brackets.
pub open spec fn array_tree(units: Seq<u16>) -> Tree {
    Tree::Group(Delim::Bracket, array_items(units))
}

/// Appends the array literal for `units` to `tokens`.
pub fn array_to_tokens(units: &Vec<u16>, tokens: &mut TokenStream)
    ensures
        stream_trees(*final(tokens)) == stream_trees(*old(tokens)).push(array_tree(units@)),
{
    let mut items = TokenStream::new();
    let mut i: usize = 0;
    while i < units.len()
        invariant
            i <= units.len(),
            stream_trees(items) == array_items(units@.take(i as int)),
        decreases units.len() - i,
    {
        if i > 0 {
            push_punct(&mut items, ',');
        }
        push_u16(&mut items, units[i]);
        i += 1;
    }
    assert(units@.take(units.len() as int) == units@);
    push_bracketed(tokens, items);
}

/// Renders an array as tokens: `[u0, u1, ..., un]`, every unit a `u16`
/// literal.
pub fn emit_array(array: &EncodedArray) -> (stream: TokenStream)
    ensures
        stream_trees(stream) == seq![array_tree(array@)],
{
    let mut stream = TokenStream::new();
    array_to_tokens(&array.units, &mut stream);
    stream
}

} // verus!
