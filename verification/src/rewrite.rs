//! The declaration rewritten: the declaration emitter and the entry points
//! of the declaration form.

use vstd::prelude::*;
use proc_macro2::{TokenStream, TokenTree};
use crate::array::{
    encode, natural_length, padded_is_encoding_then_zeros, resolved_length_is_fixed_point,
    resolved_units, terminated, zeros, EncodedArray,
};
use crate::declaration::{
    attributes_are_not_literals, attributes_end, declaration_form, storage_index_bounds, ArrayType,
    Declaration, WstrDeclaration,
};
use crate::emit::{array_to_tokens, array_tree};
use crate::error::{Position, WstrError};
use crate::literal::{literal_form, literal_output};
use crate::token::{
    push_bracketed, push_punct, push_tree, push_usize, shapes, stream_tokens, stream_trees,
    tree_shape, usize_literal, Delim, Tree,
};
use crate::utf16::{utf16_encode, utf16_len};

verus! {

/// The tokens of a declaration rewritten for `units`: everything up to the
/// name as it was, the type with the number of units as its length, and
/// the array literal as initializer.
pub open spec fn declaration_tokens(declaration: Declaration, units: Seq<u16>) -> Seq<Tree> {
    declaration.head() + seq![
        Tree::Punct(':', false),
        Tree::Group(
            Delim::Bracket,
            seq![declaration.ty.elem, Tree::Punct(';', false), usize_literal(units.len())],
        ),
        Tree::Punct('=', false),
        array_tree(units),
        Tree::Punct(';', false),
    ]
}

/// The tokens that a declaration is replaced with, or its error: where the
/// form is met and the declared length, if any, is large enough, the
/// declaration rewritten for the resolved units.
pub open spec fn declaration_output(trees: Seq<Tree>) -> Result<Seq<Tree>, WstrError> {
    match declaration_form(trees) {
        Err(error) => Err(error),
        Ok(declaration) => match resolved_units(declaration.text, declaration.ty.size) {
            Some(units) => Ok(declaration_tokens(declaration, units)),
            None => Err(
                WstrError::SizeTooSmall {
                    natural: natural_length(declaration.text) as usize,
                    requested: declaration.ty.size->Some_0,
                    at: Position::within(declaration.type_index() as usize, 2),
                },
            ),
        },
    }
}

/// The tokens that the attribute is replaced with, or its error: arguments
/// to the attribute are refused before the declaration is looked at.
pub open spec fn attribute_output(arguments: Seq<Tree>, item: Seq<Tree>) -> Result<
    Seq<Tree>,
    WstrError,
> {
    if arguments.len() > 0 {
        Err(WstrError::UnsupportedArgument { at: Position::top(0) })
    } else {
        declaration_output(item)
    }
}

/// Appends each of `trees` to `tokens`, in order.
fn push_all(tokens: &mut TokenStream, trees: &Vec<TokenTree>)
    requires
        forall|i: int| 0 <= i < trees.len() ==> !(#[trigger] shapes(trees@)[i] is Literal),
    ensures
        stream_trees(*final(tokens)) == stream_trees(*old(tokens)) + shapes(trees@),
{
    let mut at: usize = 0;
    while at < trees.len()
        invariant
            at <= trees.len(),
            forall|i: int| 0 <= i < trees.len() ==> !(#[trigger] shapes(trees@)[i] is Literal),
            stream_trees(*tokens) == stream_trees(*old(tokens)) + shapes(trees@).take(at as int),
        decreases trees.len() - at,
    {
        assert(shapes(trees@)[at as int] == tree_shape(trees[at as int]));
        push_tree(tokens, &trees[at]);
        at += 1;
    }
}

/// Renders a declaration with `array` as its value: every part up to the
/// name as it was written, the array type with the array's length, and the
/// array literal as initializer.
pub fn emit_declaration(declaration: &WstrDeclaration, array: &EncodedArray) -> (stream:
    TokenStream)
    requires
        declaration.well_formed(),
    ensures
        stream_trees(stream) == declaration_tokens(declaration@, array@),
{
    let mut stream = TokenStream::new();
    push_all(&mut stream, &declaration.attrs);
    push_all(&mut stream, &declaration.vis);
    declaration.const_or_static.to_tokens(&mut stream);
    match &declaration.mutability {
        Some(word) => push_tree(&mut stream, word),
        None => {},
    }
    push_tree(&mut stream, &declaration.ident);
    push_punct(&mut stream, ':');
    let mut ty = TokenStream::new();
    push_tree(&mut ty, &declaration.ty.elem);
    push_punct(&mut ty, ';');
    push_usize(&mut ty, array.length());
    assert(stream_trees(ty) =~= seq![
        declaration@.ty.elem,
        Tree::Punct(';', false),
        usize_literal(array@.len()),
    ]);
    push_bracketed(&mut stream, ty);
    push_punct(&mut stream, '=');
    array_to_tokens(&array.units, &mut stream);
    push_punct(&mut stream, ';');
    stream
}

/// Rewrites a declaration whose initializer is a string literal, so that it
/// declares the array and holds it.
///
/// Fails with `MalformedInvocation` where the tokens are not such a
/// declaration, and with `SizeTooSmall`, attributed to the declared length,
/// where that length cannot hold the text and its terminator.
pub fn wstr_literal_impl(input: TokenStream) -> (r: Result<TokenStream, WstrError>)
    ensures
        match declaration_output(stream_trees(input)) {
            Ok(trees) => r is Ok && stream_trees(r->Ok_0) == trees,
            Err(error) => r == Err::<TokenStream, WstrError>(error),
        },
        declaration_form(stream_trees(input)) matches Ok(declaration) ==> natural_length(
            declaration.text,
        ) <= usize::MAX,
{
    let declaration = match WstrDeclaration::parse(&input) {
        Ok(declaration) => declaration,
        Err(error) => { return Err(error); },
    };
    match encode(declaration.lit.as_str(), declaration.ty.size) {
        Ok(array) => Ok(emit_declaration(&declaration, &array)),
        Err(shortfall) => Err(
            WstrError::SizeTooSmall {
                natural: shortfall.natural,
                requested: shortfall.requested,
                at: Position::at_inner(declaration.type_index(), 2),
            },
        ),
    }
}

/// The attribute entry point: `#[wstr_literal]` on a declaration, with the
/// attribute's own arguments in `attr` and the declaration in `item`.
///
/// Fails with `UnsupportedArgument` where the attribute was given any
/// argument, and otherwise as `wstr_literal_impl` does.
pub fn wstr_literal(attr: TokenStream, item: TokenStream) -> (r: Result<TokenStream, WstrError>)
    ensures
        match attribute_output(stream_trees(attr), stream_trees(item)) {
            Ok(trees) => r is Ok && stream_trees(r->Ok_0) == trees,
            Err(error) => r == Err::<TokenStream, WstrError>(error),
        },
        stream_trees(attr).len() == 0 ==> (declaration_form(stream_trees(item)) matches Ok(
            declaration,
        ) ==> natural_length(declaration.text) <= usize::MAX),
{
    let arguments = stream_tokens(&attr);
    if arguments.len() > 0 {
        return Err(WstrError::UnsupportedArgument { at: Position::at_top(0) });
    }
    wstr_literal_impl(item)
}

/// Declaring the length that was emitted changes nothing: the same text
/// with that length made explicit resolves to the same units, and the
/// declaration is rewritten to the same tokens.
pub proof fn emitted_length_is_fixed_point(declaration: Declaration)
    requires
        resolved_units(declaration.text, declaration.ty.size) is Some,
        resolved_units(declaration.text, declaration.ty.size)->Some_0.len() <= usize::MAX,
    ensures
        ({
            let units = resolved_units(declaration.text, declaration.ty.size)->Some_0;
            let again = Declaration {
                ty: ArrayType { elem: declaration.ty.elem, size: Some(units.len() as usize) },
                ..declaration
            };
            &&& resolved_units(again.text, again.ty.size) == Some(units)
            &&& declaration_tokens(again, units) == declaration_tokens(declaration, units)
        }),
{
    resolved_length_is_fixed_point(declaration.text, declaration.ty.size);
}

/// A rewritten declaration starts with the tokens that were written, up to
/// and including the declared name: attributes, visibility, storage
/// qualifier, mutability and name are the same tokens in the same order.
pub proof fn declaration_head_is_kept(trees: Seq<Tree>)
    requires
        declaration_output(trees) is Ok,
    ensures
        declaration_form(trees) is Ok,
        declaration_form(trees)->Ok_0.head().len() <= trees.len(),
        declaration_form(trees)->Ok_0.head() == trees.take(
            declaration_form(trees)->Ok_0.head().len() as int,
        ),
        declaration_output(trees)->Ok_0.take(declaration_form(trees)->Ok_0.head().len() as int)
            == trees.take(declaration_form(trees)->Ok_0.head().len() as int),
{
    attributes_are_not_literals(trees, 0);
    storage_index_bounds(trees, attributes_end(trees, 0));
    let head = declaration_form(trees)->Ok_0.head();
}

/// A declaration with the placeholder `_` gets the length that the literal
/// form gives the same text without a size, the natural length, and the
/// same array as its value.
pub proof fn placeholder_infers_literal_length(declared: Seq<Tree>, literal: Seq<Tree>)
    requires
        declaration_form(declared) is Ok,
        declaration_form(declared)->Ok_0.ty.size is None,
        literal_form(literal) is Ok,
        literal_form(literal)->Ok_0.size is None,
        literal_form(literal)->Ok_0.text == declaration_form(declared)->Ok_0.text,
    ensures
        literal_output(literal) == Ok::<Seq<Tree>, WstrError>(
            seq![array_tree(terminated(declaration_form(declared)->Ok_0.text))],
        ),
        declaration_output(declared) == Ok::<Seq<Tree>, WstrError>(
            declaration_tokens(
                declaration_form(declared)->Ok_0,
                terminated(declaration_form(declared)->Ok_0.text),
            ),
        ),
        terminated(declaration_form(declared)->Ok_0.text).len() == natural_length(
            declaration_form(declared)->Ok_0.text,
        ),
{
}

/// A declaration with an explicit length is rewritten to an array of that
/// length, the encoding of the text followed by zeros only, where the
/// length is at least the text's length in units plus one; with any smaller
/// length it fails with `SizeTooSmall`.
pub proof fn sized_declaration_output(trees: Seq<Tree>)
    requires
        declaration_form(trees) is Ok,
        declaration_form(trees)->Ok_0.ty.size is Some,
    ensures
        ({
            let declaration = declaration_form(trees)->Ok_0;
            let size = declaration.ty.size->Some_0;
            let units = utf16_encode(declaration.text) + zeros(
                (size - utf16_len(declaration.text)) as nat,
            );
            if size >= utf16_len(declaration.text) + 1 {
                declaration_output(trees) == Ok::<Seq<Tree>, WstrError>(
                    declaration_tokens(declaration, units),
                ) && units.len() == size
            } else {
                declaration_output(trees) is Err && declaration_output(trees)->Err_0 is SizeTooSmall
                    && declaration_output(trees)->Err_0->requested == size
            }
        }),
{
    let declaration = declaration_form(trees)->Ok_0;
    let size = declaration.ty.size->Some_0;
    if size >= utf16_len(declaration.text) + 1 {
        padded_is_encoding_then_zeros(declaration.text, size);
    }
}

} // verus!
