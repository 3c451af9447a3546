//! Token streams as the engine sees them.
//!
//! A stream and its tokens stay values of `proc_macro2`, so that whatever is
//! handed on keeps its place in the source. What the engine reads of them is
//! modelled by [`Tree`]; the functions of this module that reach into
//! `proc_macro2` and `quote` are believed, not proved.

use vstd::prelude::*;
use proc_macro2::{Delimiter, Group, Punct, Spacing, TokenStream, TokenTree};

verus! {

/// `proc_macro2::TokenStream`, which the proofs cannot look into.
#[verifier::external_type_specification]
#[verifier::external_body]
pub struct ExTokenStream(proc_macro2::TokenStream);

/// `proc_macro2::TokenTree`, which the proofs cannot look into.
#[verifier::external_type_specification]
#[verifier::external_body]
pub struct ExTokenTree(proc_macro2::TokenTree);

/// How a group of tokens is delimited.
#[derive(Clone, Copy, Debug, PartialEq, Eq)]
pub enum Delim {
    Parenthesis,
    Brace,
    Bracket,
    /// The invisible delimiter around what a macro variable stood for.
    Invisible,
}

/// What a token is, without its place in the source.
pub enum Tree {
    /// A delimited group and the tokens inside it.
    Group(Delim, Seq<Tree>),
    /// An identifier or keyword, by its text.
    Ident(Seq<char>),
    /// One punctuation character, and whether the next one joins it.
    Punct(char, bool),
    /// A literal, by its text as written.
    Literal(Seq<char>),
}

/// The top-level tokens of a stream, in order.
pub uninterp spec fn stream_trees(stream: TokenStream) -> Seq<Tree>;

/// What one token of `proc_macro2` is.
pub uninterp spec fn tree_shape(tree: TokenTree) -> Tree;

/// What each token of a sequence is.
pub open spec fn shapes(tokens: Seq<TokenTree>) -> Seq<Tree> {
    tokens.map_values(|tree: TokenTree| tree_shape(tree))
}

/// A literal written with a leading minus sign. Such a token does not
/// survive being put into a stream, which may split it in two.
pub open spec fn negative_literal(tree: Tree) -> bool {
    tree matches Tree::Literal(text) && text.len() > 0 && text[0] == '-'
}

/// Whether `tree` is the punctuation character `ch`.
pub open spec fn is_punct(tree: Tree, ch: char) -> bool {
    tree matches Tree::Punct(c, _) && c == ch
}

/// Whether `tree` is the identifier or keyword `word`.
pub open spec fn is_word(tree: Tree, word: Seq<char>) -> bool {
    tree == Tree::Ident(word)
}

/// Whether `tree` is a group in square brackets.
pub open spec fn in_brackets(tree: Tree) -> bool {
    tree matches Tree::Group(Delim::Bracket, _)
}

/// A token as the parsers see it: where it is an invisible group that holds
/// one group and nothing else, as a fragment handed on by a macro is, that
/// group; otherwise the token itself.
pub open spec fn seen_through(tree: Tree) -> Tree {
    match tree {
        Tree::Group(Delim::Invisible, content) => if content.len() == 1 && content[0] is Group {
            content[0]
        } else {
            tree
        },
        _ => tree,
    }
}

/// The decimal digit for `d`, which is below ten.
pub open spec fn digit(d: nat) -> char {
    (48 + d) as char
}

/// A number in decimal, without sign or leading zeros.
pub open spec fn decimal(n: nat) -> Seq<char>
    decreases n,
{
    if n < 10 {
        seq![digit(n)]
    } else {
        decimal(n / 10).push(digit(n % 10))
    }
}

/// The literal `<n>u16`.
pub open spec fn u16_literal(n: u16) -> Tree {
    Tree::Literal(decimal(n as nat) + seq!['u', '1', '6'])
}

/// The literal `<n>usize`.
pub open spec fn usize_literal(n: nat) -> Tree {
    Tree::Literal(decimal(n) + seq!['u', 's', 'i', 'z', 'e'])
}

/// One token, taken apart for reading.
pub enum Shape {
    Group(Delim, TokenStream),
    Ident(String),
    Punct(char),
    Literal(String),
}

impl Shape {
    /// Whether this is what was read from a token that is `tree`.
    pub open spec fn describes(self, tree: Tree) -> bool {
        match self {
            Shape::Group(delimiter, inner) => tree == Tree::Group(delimiter, stream_trees(inner)),
            Shape::Ident(text) => tree == Tree::Ident(text@),
            Shape::Punct(ch) => is_punct(tree, ch),
            Shape::Literal(text) => tree == Tree::Literal(text@),
        }
    }
}

/// `TokenStream::into_iter`, collected: the top-level tokens of the stream,
/// in order.
#[verifier::external_body]
pub(crate) fn stream_tokens(stream: &TokenStream) -> (tokens: Vec<TokenTree>)
    ensures
        shapes(tokens@) == stream_trees(*stream),
{
    stream.clone().into_iter().collect()
}

/// The variant of a `TokenTree` with what it holds: `Group::delimiter` and
/// `Group::stream`, `Ident::to_string`, `Punct::as_char`,
/// `Literal::to_string`.
#[verifier::external_body]
pub(crate) fn inspect(tree: &TokenTree) -> (shape: Shape)
    ensures
        shape.describes(tree_shape(*tree)),
{
    match tree {
        TokenTree::Group(group) => match group.delimiter() {
            Delimiter::Parenthesis => Shape::Group(Delim::Parenthesis, group.stream()),
            Delimiter::Brace => Shape::Group(Delim::Brace, group.stream()),
            Delimiter::Bracket => Shape::Group(Delim::Bracket, group.stream()),
            Delimiter::None => Shape::Group(Delim::Invisible, group.stream()),
        },
        TokenTree::Ident(ident) => Shape::Ident(ident.to_string()),
        TokenTree::Punct(punct) => Shape::Punct(punct.as_char()),
        TokenTree::Literal(literal) => Shape::Literal(literal.to_string()),
    }
}

/// `TokenTree::clone`: the copy is the same token.
pub assume_specification[ <TokenTree as Clone>::clone ](tree: &TokenTree) -> (copy: TokenTree)
    ensures
        tree_shape(copy) == tree_shape(*tree),
;

/// `TokenStream::new`: a stream without tokens.
pub assume_specification[ TokenStream::new ]() -> (stream: TokenStream)
    ensures
        stream_trees(stream) == Seq::<Tree>::empty(),
;

/// `ToTokens::to_tokens` of `quote` for a `TokenTree`: appends a copy of the
/// token. A negative literal is left out, since a stream may split it.
#[verifier::external_body]
pub(crate) fn push_tree(stream: &mut TokenStream, tree: &TokenTree)
    requires
        !negative_literal(tree_shape(*tree)),
    ensures
        stream_trees(*final(stream)) == stream_trees(*old(stream)).push(tree_shape(*tree)),
{
    quote::ToTokens::to_tokens(tree, stream)
}

/// `TokenStreamExt::append` of `quote` with `Punct::new(ch, Spacing::Alone)`:
/// appends the character as punctuation that nothing joins. `Punct::new`
/// panics on other characters than punctuation; the four that the engine
/// writes are admitted.
#[verifier::external_body]
pub(crate) fn push_punct(stream: &mut TokenStream, ch: char)
    requires
        ch == ',' || ch == ':' || ch == ';' || ch == '=',
    ensures
        stream_trees(*final(stream)) == stream_trees(*old(stream)).push(Tree::Punct(ch, false)),
{
    quote::TokenStreamExt::append(stream, Punct::new(ch, Spacing::Alone))
}

/// `TokenStreamExt::append` of `quote` with `Group::new`: appends one group
/// in square brackets that holds the tokens of `inner`.
#[verifier::external_body]
pub(crate) fn push_bracketed(stream: &mut TokenStream, inner: TokenStream)
    ensures
        stream_trees(*final(stream)) == stream_trees(*old(stream)).push(
            Tree::Group(Delim::Bracket, stream_trees(inner)),
        ),
{
    quote::TokenStreamExt::append(stream, Group::new(Delimiter::Bracket, inner))
}

/// `ToTokens::to_tokens` of `quote` for `u16`: appends the literal that
/// `Literal::u16_suffixed` makes, the number in decimal followed by `u16`.
#[verifier::external_body]
pub(crate) fn push_u16(stream: &mut TokenStream, value: u16)
    ensures
        stream_trees(*final(stream)) == stream_trees(*old(stream)).push(u16_literal(value)),
{
    quote::ToTokens::to_tokens(&value, stream)
}

/// `ToTokens::to_tokens` of `quote` for `usize`: appends the literal that
/// `Literal::usize_suffixed` makes, the number in decimal followed by
/// `usize`.
#[verifier::external_body]
pub(crate) fn push_usize(stream: &mut TokenStream, value: usize)
    ensures
        stream_trees(*final(stream)) == stream_trees(*old(stream)).push(
            usize_literal(value as nat),
        ),
{
    quote::ToTokens::to_tokens(&value, stream)
}

/// Whether `tree` is the punctuation character `ch`.
pub(crate) fn has_punct(tree: &TokenTree, ch: char) -> (b: bool)
    ensures
        b == is_punct(tree_shape(*tree), ch),
{
    match inspect(tree) {
        Shape::Punct(c) => c == ch,
        _ => false,
    }
}

/// Whether `tree` is the keyword `word`.
pub(crate) fn is_keyword(tree: &TokenTree, word: &str) -> (b: bool)
    ensures
        b == is_word(tree_shape(*tree), word@),
{
    match inspect(tree) {
        Shape::Ident(text) => text == word.to_owned(),
        _ => false,
    }
}

/// The delimiter and the tokens of the group that `tree` is, seen through
/// an invisible group; `None` where it is no group.
pub(crate) fn group_content(tree: &TokenTree) -> (r: Option<(Delim, Vec<TokenTree>)>)
    ensures
        match seen_through(tree_shape(*tree)) {
            Tree::Group(delimiter, content) => r is Some && r->Some_0.0 == delimiter && shapes(
                r->Some_0.1@,
            ) == content,
            _ => r is None,
        },
{
    match inspect(tree) {
        Shape::Group(Delim::Invisible, inner) => {
            let content = stream_tokens(&inner);
            if content.len() == 1 {
                match inspect(&content[0]) {
                    Shape::Group(delimiter, inside) => {
                        return Some((delimiter, stream_tokens(&inside)));
                    },
                    _ => {},
                }
            }
            Some((Delim::Invisible, content))
        },
        Shape::Group(delimiter, inner) => Some((delimiter, stream_tokens(&inner))),
        _ => None,
    }
}

/// Whether `tree` is a group in square brackets.
pub(crate) fn is_bracketed(tree: &TokenTree) -> (b: bool)
    ensures
        b == in_brackets(tree_shape(*tree)),
{
    match inspect(tree) {
        Shape::Group(Delim::Bracket, _) => true,
        _ => false,
    }
}

} // verus!
