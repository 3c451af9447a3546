//! The errors of one invocation, each bound to a place in its input.

use vstd::prelude::*;
use proc_macro2::{TokenStream, TokenTree};
use crate::token::{group_content, seen_through, stream_tokens, stream_trees, tree_shape, Tree};

verus! {

/// A place in a token stream.
///
/// `index` counts the stream's top-level tokens, and equals their number
/// where the place is the end of the stream. Where the place lies inside the
/// group at `index`, `inner` counts the tokens of that group in the same
/// way; the group is looked for through an invisible group around it.
#[derive(Clone, Copy, Debug, PartialEq, Eq)]
pub struct Position {
    pub index: usize,
    pub inner: Option<usize>,
}

impl Position {
    /// The place of the top-level token `index`.
    pub open spec fn top(index: usize) -> Position {
        Position { index, inner: None }
    }

    /// The place of token `inner` inside the group at `index`.
    pub open spec fn within(index: usize, inner: usize) -> Position {
        Position { index, inner: Some(inner) }
    }

    pub fn at_top(index: usize) -> (p: Position)
        ensures
            p == Position::top(index),
    {
        Position { index, inner: None }
    }

    pub fn at_inner(index: usize, inner: usize) -> (p: Position)
        ensures
            p == Position::within(index, inner),
    {
        Position { index, inner: Some(inner) }
    }
}

/// What the form asks for at the place where an input departs from it.
#[derive(Clone, Copy, Debug, PartialEq, Eq)]
pub enum Expected {
    /// A string literal.
    Text,
    /// The comma between the size and the string literal.
    Comma,
    /// The body of an attribute, in square brackets, after `#`.
    Attribute,
    /// The storage qualifier: `const` or `static`.
    Storage,
    /// The name that is declared, or the name of the element type.
    Name,
    /// The colon before the type.
    Colon,
    /// The array type, in square brackets.
    ArrayType,
    /// The length of the array type: an integer literal or `_`.
    Size,
    /// The `=` before the initializer.
    Equals,
    /// A semicolon.
    Semicolon,
    /// Nothing: the form is complete before this token.
    Nothing,
}

/// Why an invocation failed. Every error ends the invocation that produced
/// it; none leaves a partial result.
#[derive(Clone, Copy, Debug, PartialEq, Eq)]
pub enum WstrError {
    /// The input matches neither accepted form; `at` is the first token that
    /// departs from it, and `expected` what the form asks for there.
    MalformedInvocation { at: Position, expected: Expected },
    /// The explicit size `requested` is smaller than `natural`, the encoded
    /// length with its terminator; `at` is the size.
    SizeTooSmall { natural: usize, requested: usize, at: Position },
    /// The attribute was given arguments, which start at `at` in the
    /// attribute's own stream.
    UnsupportedArgument { at: Position },
}

impl WstrError {
    /// The place that the error is attributed to.
    pub open spec fn position(self) -> Position {
        match self {
            WstrError::MalformedInvocation { at, .. } => at,
            WstrError::SizeTooSmall { at, .. } => at,
            WstrError::UnsupportedArgument { at } => at,
        }
    }

    /// The text shown for the error.
    pub open spec fn message_text(self) -> Seq<char> {
        match self {
            WstrError::MalformedInvocation { expected, .. } => match expected {
                Expected::Text => "expected string literal"@,
                Expected::Comma => "expected `,`"@,
                Expected::Attribute => "expected attribute in square brackets"@,
                Expected::Storage => "expected `const` or `static`"@,
                Expected::Name => "expected identifier"@,
                Expected::Colon => "expected `:`"@,
                Expected::ArrayType => "expected array type in square brackets"@,
                Expected::Size => "expected integer literal or `_`"@,
                Expected::Equals => "expected `=`"@,
                Expected::Semicolon => "expected `;`"@,
                Expected::Nothing => "unexpected token"@,
            },
            WstrError::SizeTooSmall { .. } =>
                "array size must be at least length of input string plus null terminator"@,
            WstrError::UnsupportedArgument { .. } => "The attribute does not take any arguments"@,
        }
    }

    /// The error for an input that departs from the accepted form at `at`,
    /// where the form asks for `expected`.
    pub fn unexpected(at: Position, expected: Expected) -> (error: WstrError)
        ensures
            error == (WstrError::MalformedInvocation { at, expected }),
    {
        WstrError::MalformedInvocation { at, expected }
    }

    pub fn at(&self) -> (p: Position)
        ensures
            p == self.position(),
    {
        match self {
            WstrError::MalformedInvocation { at, .. } => *at,
            WstrError::SizeTooSmall { at, .. } => *at,
            WstrError::UnsupportedArgument { at } => *at,
        }
    }

    pub fn message(&self) -> (text: String)
        ensures
            text@ == self.message_text(),
    {
        match self {
            WstrError::MalformedInvocation { expected, .. } => match expected {
                Expected::Text => "expected string literal".to_owned(),
                Expected::Comma => "expected `,`".to_owned(),
                Expected::Attribute => "expected attribute in square brackets".to_owned(),
                Expected::Storage => "expected `const` or `static`".to_owned(),
                Expected::Name => "expected identifier".to_owned(),
                Expected::Colon => "expected `:`".to_owned(),
                Expected::ArrayType => "expected array type in square brackets".to_owned(),
                Expected::Size => "expected integer literal or `_`".to_owned(),
                Expected::Equals => "expected `=`".to_owned(),
                Expected::Semicolon => "expected `;`".to_owned(),
                Expected::Nothing => "unexpected token".to_owned(),
            },
            WstrError::SizeTooSmall { .. } =>
                "array size must be at least length of input string plus null terminator"
                    .to_owned(),
            WstrError::UnsupportedArgument { .. } =>
                "The attribute does not take any arguments".to_owned(),
        }
    }
}

/// The error for an input that departs from the accepted form at the
/// top-level token `index`, where the form asks for `expected`.
pub open spec fn malformed(index: int, expected: Expected) -> WstrError {
    WstrError::MalformedInvocation { at: Position::top(index as usize), expected }
}

/// The error for an input that departs from the accepted form at token
/// `inner` of the group at `index`, where the form asks for `expected`.
pub open spec fn malformed_within(index: usize, inner: int, expected: Expected) -> WstrError {
    WstrError::MalformedInvocation { at: Position::within(index, inner as usize), expected }
}

/// The token that stands at a place of a stream; `None` where the place is
/// the end of the stream. A place inside a group is the token inside it, or
/// the top-level token itself where the place is the group's end or the
/// token is no group.
pub open spec fn fragment(trees: Seq<Tree>, at: Position) -> Option<Tree> {
    if at.index >= trees.len() {
        None
    } else {
        match (at.inner, seen_through(trees[at.index as int])) {
            (Some(inner), Tree::Group(_, content)) => if inner < content.len() {
                Some(content[inner as int])
            } else {
                Some(trees[at.index as int])
            },
            _ => Some(trees[at.index as int]),
        }
    }
}

/// Finds the token that an error at `at` is attributed to, so that it can
/// be reported at that token's place in the source.
pub fn fragment_at(stream: &TokenStream, at: Position) -> (found: Option<TokenTree>)
    ensures
        match fragment(stream_trees(*stream), at) {
            Some(tree) => found is Some && tree_shape(found->Some_0) == tree,
            None => found is None,
        },
{
    let tokens = stream_tokens(stream);
    if at.index >= tokens.len() {
        return None;
    }
    let outer = &tokens[at.index];
    match (at.inner, group_content(outer)) {
        (Some(inner), Some((_, inside))) => {
            if inner < inside.len() {
                Some(inside[inner].clone())
            } else {
                Some(outer.clone())
            }
        },
        _ => Some(outer.clone()),
    }
}

} // verus!
