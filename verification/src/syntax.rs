//! What `syn` makes of tokens: the value of a literal, and whether tokens
//! are an identifier, a visibility or an attribute.
//!
//! Each judgement is a function of the tokens alone and is given a name
//! here; the functions that ask `syn` are believed, not proved.

use vstd::prelude::*;
use proc_macro2::{TokenStream, TokenTree};
use crate::token::{inspect, shapes, tree_shape, Shape, Tree};

verus! {

/// `syn::Error`, which the proofs cannot look into.
#[verifier::external_type_specification]
#[verifier::external_body]
pub struct ExSynError(syn::Error);

/// The number that an integer literal stands for, whatever its base,
/// separators or suffix; `None` for every other token and for a number that
/// 64 bits cannot hold.
pub uninterp spec fn int_literal_value(tree: Tree) -> Option<u64>;

/// The text that a string literal stands for, escapes resolved; `None` for
/// every other token.
pub uninterp spec fn str_literal_value(tree: Tree) -> Option<Seq<char>>;

/// Whether a token is an identifier that is not a keyword.
pub uninterp spec fn identifier(tree: Tree) -> bool;

/// Whether tokens are a visibility qualifier; no tokens are the inherited
/// one.
pub uninterp spec fn visibility(trees: Seq<Tree>) -> bool;

/// Whether two tokens are `#` and the bracketed body of one outer
/// attribute.
pub uninterp spec fn outer_attribute(pound: Tree, body: Tree) -> bool;

/// The size that a token states, where it is an integer literal whose value
/// fits the machine's `usize`.
pub open spec fn size_value(tree: Tree) -> Option<usize> {
    match int_literal_value(tree) {
        Some(value) => if value <= usize::MAX {
            Some(value as usize)
        } else {
            None
        },
        None => None,
    }
}

/// A name: an identifier that is no keyword. A literal is never one.
pub open spec fn is_name(tree: Tree) -> bool {
    !(tree is Literal) && identifier(tree)
}

/// `syn::parse2::<LitInt>` on the one token, then `LitInt::base10_parse` to
/// `u64`: the literal's value, or the error of whichever of the two failed.
#[verifier::external_body]
pub(crate) fn parse_int_literal(tree: &TokenTree) -> (r: Result<u64, syn::Error>)
    ensures
        match int_literal_value(tree_shape(*tree)) {
            Some(value) => r == Ok::<u64, syn::Error>(value),
            None => r is Err,
        },
{
    syn::parse2::<syn::LitInt>(TokenStream::from(tree.clone()))?.base10_parse::<u64>()
}

/// `syn::parse2::<LitStr>` on the one token, then `LitStr::value`: the text
/// of the string literal, or the error of the parse.
#[verifier::external_body]
pub(crate) fn parse_str_literal(tree: &TokenTree) -> (r: Result<String, syn::Error>)
    ensures
        match str_literal_value(tree_shape(*tree)) {
            Some(text) => r is Ok && r->Ok_0@ == text,
            None => r is Err,
        },
{
    Ok(syn::parse2::<syn::LitStr>(TokenStream::from(tree.clone()))?.value())
}

/// `syn::parse2::<Ident>` on the one token: whether it parses.
#[verifier::external_body]
pub(crate) fn is_identifier(tree: &TokenTree) -> (b: bool)
    ensures
        b == identifier(tree_shape(*tree)),
{
    syn::parse2::<syn::Ident>(TokenStream::from(tree.clone())).is_ok()
}

/// `syn::parse2::<Visibility>` on the tokens: whether they parse, all of
/// them.
#[verifier::external_body]
pub(crate) fn is_visibility(tokens: &Vec<TokenTree>) -> (b: bool)
    ensures
        b == visibility(shapes(tokens@)),
{
    syn::parse2::<syn::Visibility>(tokens.iter().cloned().collect()).is_ok()
}

/// `Attribute::parse_outer` of `syn`, run by `Parser::parse2` on the two
/// tokens: whether they parse as outer attributes, both used up.
#[verifier::external_body]
pub(crate) fn is_outer_attribute(pound: &TokenTree, body: &TokenTree) -> (b: bool)
    ensures
        b == outer_attribute(tree_shape(*pound), tree_shape(*body)),
{
    let tokens: TokenStream = [pound.clone(), body.clone()].into_iter().collect();
    syn::parse::Parser::parse2(syn::Attribute::parse_outer, tokens).is_ok()
}

/// The size that `tree` states, if it states one.
pub(crate) fn read_size(tree: &TokenTree) -> (size: Option<usize>)
    ensures
        size == size_value(tree_shape(*tree)),
{
    match parse_int_literal(tree) {
        Ok(value) => if value <= usize::MAX as u64 {
            Some(value as usize)
        } else {
            None
        },
        Err(_) => None,
    }
}

/// The text that `tree` stands for, if it is a string literal.
pub(crate) fn read_text(tree: &TokenTree) -> (text: Option<String>)
    ensures
        match str_literal_value(tree_shape(*tree)) {
            Some(value) => text is Some && text->Some_0@ == value,
            None => text is None,
        },
{
    match parse_str_literal(tree) {
        Ok(value) => Some(value),
        Err(_) => None,
    }
}

/// Whether `tree` is a name.
pub(crate) fn has_name(tree: &TokenTree) -> (b: bool)
    ensures
        b == is_name(tree_shape(*tree)),
{
    match inspect(tree) {
        Shape::Literal(_) => false,
        _ => is_identifier(tree),
    }
}

} // verus!
