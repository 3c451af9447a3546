//! The literal form: `[<size>,] "<text>"` to an array literal.

use vstd::prelude::*;
use proc_macro2::TokenStream;
use crate::array::{encode, natural_length, padded_is_encoding_then_zeros, resolved_units, zeros};
use crate::emit::{array_tree, emit_array};
use crate::error::{malformed, Expected, Position, WstrError};
use crate::syntax::{read_size, read_text, size_value, str_literal_value};
use crate::utf16::{utf16_encode, utf16_len};
use crate::token::{has_punct, is_punct, stream_tokens, stream_trees, Tree};

verus! {

/// What a literal-form invocation asks for.
pub struct Request {
    pub size: Option<usize>,
    pub text: Seq<char>,
}

/// The request that tokens of the literal form state, or the error for the
/// first token that does not belong.
///
/// Where the first token is an integer literal that fits a `usize`, the
/// tokens must be that size, a comma and a string literal; otherwise they
/// must be a string literal alone.
pub open spec fn literal_form(trees: Seq<Tree>) -> Result<Request, WstrError> {
    if trees.len() > 0 && size_value(trees[0]) is Some {
        if trees.len() < 2 || !is_punct(trees[1], ',') {
            Err(malformed(1, Expected::Comma))
        } else if trees.len() < 3 || str_literal_value(trees[2]) is None {
            Err(malformed(2, Expected::Text))
        } else if trees.len() > 3 {
            Err(malformed(3, Expected::Nothing))
        } else {
            Ok(Request { size: size_value(trees[0]), text: str_literal_value(trees[2])->Some_0 })
        }
    } else if trees.len() < 1 || str_literal_value(trees[0]) is None {
        Err(malformed(0, Expected::Text))
    } else if trees.len() > 1 {
        Err(malformed(1, Expected::Nothing))
    } else {
        Ok(Request { size: None, text: str_literal_value(trees[0])->Some_0 })
    }
}

/// The tokens that a literal-form invocation is replaced with, or its
/// error: where the form is met and the size, if any, is large enough, the
/// array literal of the resolved units.
pub open spec fn literal_output(trees: Seq<Tree>) -> Result<Seq<Tree>, WstrError> {
    match literal_form(trees) {
        Err(error) => Err(error),
        Ok(request) => match resolved_units(request.text, request.size) {
            Some(units) => Ok(seq![array_tree(units)]),
            None => Err(
                WstrError::SizeTooSmall {
                    natural: natural_length(request.text) as usize,
                    requested: request.size->Some_0,
                    at: Position::top(0),
                },
            ),
        },
    }
}

/// The arguments of a literal-form invocation: the encoding request.
#[derive(Debug)]
pub struct WstrArgs {
    /// The explicit array size; `None` where the size is inferred.
    pub arr_len: Option<usize>,
    /// The text, as the string literal states it.
    pub input_str: String,
}

impl View for WstrArgs {
    type V = Request;

    open spec fn view(&self) -> Request {
        Request { size: self.arr_len, text: self.input_str@ }
    }
}

impl WstrArgs {
    /// Parses `[<size>,] "<text>"`.
    pub fn parse(input: &TokenStream) -> (r: Result<WstrArgs, WstrError>)
        ensures
            match literal_form(stream_trees(*input)) {
                Ok(request) => r is Ok && r->Ok_0@ == request,
                Err(error) => r == Err::<WstrArgs, WstrError>(error),
            },
    {
        let tokens = stream_tokens(input);
        let n = tokens.len();
        let arr_len = if n > 0 {
            read_size(&tokens[0])
        } else {
            None
        };
        let at: usize = if arr_len.is_some() {
            if n < 2 || !has_punct(&tokens[1], ',') {
                return Err(WstrError::unexpected(Position::at_top(1), Expected::Comma));
            }
            2
        } else {
            0
        };
        let input_str = if n > at {
            read_text(&tokens[at])
        } else {
            None
        };
        match input_str {
            None => Err(WstrError::unexpected(Position::at_top(at), Expected::Text)),
            Some(input_str) => {
                if n > at + 1 {
                    Err(WstrError::unexpected(Position::at_top(at + 1), Expected::Nothing))
                } else {
                    Ok(WstrArgs { arr_len, input_str })
                }
            },
        }
    }
}

/// Replaces a literal-form invocation by its array literal.
///
/// Fails with `MalformedInvocation` where the tokens are not
/// `[<size>,] "<text>"`, and with `SizeTooSmall`, attributed to the size,
/// where the size cannot hold the text and its terminator.
pub fn wstr_impl(input: TokenStream) -> (r: Result<TokenStream, WstrError>)
    ensures
        match literal_output(stream_trees(input)) {
            Ok(trees) => r is Ok && stream_trees(r->Ok_0) == trees,
            Err(error) => r == Err::<TokenStream, WstrError>(error),
        },
        literal_form(stream_trees(input)) matches Ok(request) ==> natural_length(request.text)
            <= usize::MAX,
{
    let args = match WstrArgs::parse(&input) {
        Ok(args) => args,
        Err(error) => { return Err(error); },
    };
    match encode(args.input_str.as_str(), args.arr_len) {
        Ok(array) => Ok(emit_array(&array)),
        Err(shortfall) => Err(
            WstrError::SizeTooSmall {
                natural: shortfall.natural,
                requested: shortfall.requested,
                at: Position::at_top(0),
            },
        ),
    }
}

/// The literal-form entry point: `wstr!("text")` or `wstr!(size, "text")`
/// with the tokens between its parentheses.
pub fn wstr(input: TokenStream) -> (r: Result<TokenStream, WstrError>)
    ensures
        match literal_output(stream_trees(input)) {
            Ok(trees) => r is Ok && stream_trees(r->Ok_0) == trees,
            Err(error) => r == Err::<TokenStream, WstrError>(error),
        },
        literal_form(stream_trees(input)) matches Ok(request) ==> natural_length(request.text)
            <= usize::MAX,
{
    wstr_impl(input)
}

/// A literal-form invocation with an explicit size gives an array of that
/// size, the encoding of the text followed by zeros only, where the size is
/// at least the text's length in units plus one; with any smaller size it
/// fails with `SizeTooSmall`.
pub proof fn sized_literal_output(trees: Seq<Tree>)
    requires
        literal_form(trees) is Ok,
        literal_form(trees)->Ok_0.size is Some,
    ensures
        ({
            let text = literal_form(trees)->Ok_0.text;
            let size = literal_form(trees)->Ok_0.size->Some_0;
            let units = utf16_encode(text) + zeros((size - utf16_len(text)) as nat);
            if size >= utf16_len(text) + 1 {
                literal_output(trees) == Ok::<Seq<Tree>, WstrError>(seq![array_tree(units)])
                    && units.len() == size
            } else {
                literal_output(trees) is Err && literal_output(trees)->Err_0 is SizeTooSmall
                    && literal_output(trees)->Err_0->requested == size
            }
        }),
{
    let text = literal_form(trees)->Ok_0.text;
    let size = literal_form(trees)->Ok_0.size->Some_0;
    if size >= utf16_len(text) + 1 {
        padded_is_encoding_then_zeros(text, size);
    }
}

/// A literal-form invocation without a size gives the encoding of the text
/// and one terminator: an array of the natural length.
pub proof fn inferred_literal_output(trees: Seq<Tree>)
    requires
        literal_form(trees) is Ok,
        literal_form(trees)->Ok_0.size is None,
    ensures
        literal_output(trees) == Ok::<Seq<Tree>, WstrError>(
            seq![array_tree(utf16_encode(literal_form(trees)->Ok_0.text).push(0u16))],
        ),
        utf16_encode(literal_form(trees)->Ok_0.text).push(0u16).len() == natural_length(
            literal_form(trees)->Ok_0.text,
        ),
{
}

} // verus!
