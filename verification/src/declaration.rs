//! The declaration form: a `const` or `static` whose initializer is a
//! string literal, taken apart into the parts that are handed on and the
//! two that are replaced.

use vstd::prelude::*;
use proc_macro2::{TokenStream, TokenTree};
use crate::error::{malformed, malformed_within, Expected, Position, WstrError};
use crate::syntax::{
    has_name, is_name, is_outer_attribute, is_visibility, outer_attribute, read_size, read_text,
    size_value, str_literal_value, visibility,
};
use crate::token::{
    group_content, has_punct, in_brackets, inspect, is_bracketed, is_keyword, is_punct, is_word,
    push_tree, seen_through, shapes, stream_tokens, stream_trees, tree_shape, Delim, Shape, Tree,
};

verus! {

/// What a token says of an array's length: `Some(Some(n))` for an integer
/// literal that fits a `usize`, `Some(None)` for the placeholder `_`, and
/// `None` for every other token.
pub open spec fn size_form(tree: Tree) -> Option<Option<usize>> {
    if size_value(tree) is Some {
        Some(size_value(tree))
    } else if is_word(tree, "_"@) {
        Some(None)
    } else {
        None
    }
}

/// An array type as declared: the element type's name, and the length
/// unless it is to be inferred.
pub struct ArrayType {
    pub elem: Tree,
    pub size: Option<usize>,
}

/// The array type that the token at `index` states, or the error for the
/// first token that does not belong: the token must be a group in square
/// brackets that holds a name, a semicolon and a size, and nothing else. An
/// invisible group around the brackets is seen through.
pub open spec fn type_form(tree: Tree, index: usize) -> Result<ArrayType, WstrError> {
    match seen_through(tree) {
        Tree::Group(Delim::Bracket, inner) => {
            if inner.len() < 1 || !is_name(inner[0]) {
                Err(malformed_within(index, 0, Expected::Name))
            } else if inner.len() < 2 || !is_punct(inner[1], ';') {
                Err(malformed_within(index, 1, Expected::Semicolon))
            } else if inner.len() < 3 || size_form(inner[2]) is None {
                Err(malformed_within(index, 2, Expected::Size))
            } else if inner.len() > 3 {
                Err(malformed_within(index, 3, Expected::Nothing))
            } else {
                Ok(ArrayType { elem: inner[0], size: size_form(inner[2])->Some_0 })
            }
        },
        _ => Err(malformed(index as int, Expected::ArrayType)),
    }
}

/// Reads the length of an array type from the token that stands at `at`: an
/// integer literal, or `_` for a length to be inferred.
pub fn parse_array_size(tree: &TokenTree, at: Position) -> (r: Result<Option<usize>, WstrError>)
    ensures
        match size_form(tree_shape(*tree)) {
            Some(size) => r == Ok::<Option<usize>, WstrError>(size),
            None => r == Err::<Option<usize>, WstrError>(
                WstrError::MalformedInvocation { at, expected: Expected::Size },
            ),
        },
{
    match read_size(tree) {
        Some(size) => Ok(Some(size)),
        None => {
            if is_keyword(tree, "_") {
                Ok(None)
            } else {
                Err(WstrError::MalformedInvocation { at, expected: Expected::Size })
            }
        },
    }
}

/// The array type of a declaration: `[<elem>; <size>]` or `[<elem>; _]`.
#[derive(Debug)]
pub struct WstrTypeArray {
    /// The element type's name, as it was written.
    pub elem: TokenTree,
    /// The explicit length; `None` where it is to be inferred.
    pub size: Option<usize>,
}

impl View for WstrTypeArray {
    type V = ArrayType;

    open spec fn view(&self) -> ArrayType {
        ArrayType { elem: tree_shape(self.elem), size: self.size }
    }
}

impl WstrTypeArray {
    /// Parses the array type from the token that stands at `index`.
    pub fn parse(tree: &TokenTree, index: usize) -> (r: Result<WstrTypeArray, WstrError>)
        ensures
            match type_form(tree_shape(*tree), index) {
                Ok(ty) => r is Ok && r->Ok_0@ == ty,
                Err(error) => r == Err::<WstrTypeArray, WstrError>(error),
            },
    {
        let content = match group_content(tree) {
            Some((Delim::Bracket, content)) => content,
            _ => {
                return Err(WstrError::unexpected(Position::at_top(index), Expected::ArrayType));
            },
        };
        let n = content.len();
        if n < 1 || !has_name(&content[0]) {
            return Err(WstrError::unexpected(Position::at_inner(index, 0), Expected::Name));
        }
        if n < 2 || !has_punct(&content[1], ';') {
            return Err(WstrError::unexpected(Position::at_inner(index, 1), Expected::Semicolon));
        }
        if n < 3 {
            return Err(WstrError::unexpected(Position::at_inner(index, 2), Expected::Size));
        }
        let size = match parse_array_size(&content[2], Position::at_inner(index, 2)) {
            Ok(size) => size,
            Err(error) => { return Err(error); },
        };
        if n > 3 {
            return Err(WstrError::unexpected(Position::at_inner(index, 3), Expected::Nothing));
        }
        Ok(WstrTypeArray { elem: content[0].clone(), size })
    }
}

/// Whether two tokens are one outer attribute: `#` and a group in square
/// brackets, which together parse as an attribute.
pub open spec fn attribute_pair(pound: Tree, body: Tree) -> bool {
    is_punct(pound, '#') && in_brackets(body) && outer_attribute(pound, body)
}

/// Where the attributes that start at `from` end: each is two tokens.
pub open spec fn attributes_end(trees: Seq<Tree>, from: nat) -> nat
    decreases trees.len() - from,
{
    if from + 2 <= trees.len() && attribute_pair(trees[from as int], trees[from as int + 1]) {
        attributes_end(trees, from + 2)
    } else {
        from
    }
}

/// Whether `tree` is the storage qualifier: `const` or `static`.
pub open spec fn is_storage(tree: Tree) -> bool {
    is_word(tree, "const"@) || is_word(tree, "static"@)
}

/// The place of the first storage qualifier at or after `from`, or the
/// number of tokens where there is none.
pub open spec fn storage_index(trees: Seq<Tree>, from: nat) -> nat
    decreases trees.len() - from,
{
    if from >= trees.len() {
        trees.len()
    } else if is_storage(trees[from as int]) {
        from
    } else {
        storage_index(trees, from + 1)
    }
}

/// Whether tokens are a visibility qualifier that can be handed on: none of
/// them a literal, and together a visibility.
pub open spec fn is_qualifier(trees: Seq<Tree>) -> bool {
    (forall|i: int| 0 <= i < trees.len() ==> !(#[trigger] trees[i] is Literal)) && visibility(trees)
}

/// Where the longest qualifier that starts at `from` and ends at or before
/// `to` ends; `from` where no tokens from there are one.
pub open spec fn qualifier_end(trees: Seq<Tree>, from: int, to: int) -> int
    decreases to - from,
{
    if to <= from {
        from
    } else if is_qualifier(trees.subrange(from, to)) {
        to
    } else {
        qualifier_end(trees, from, to - 1)
    }
}

/// A declaration, by what its parts are. Everything but the length of the
/// type and the initializer is kept as it was written.
pub struct Declaration {
    /// The outer attributes: `#` and a bracketed group for each.
    pub attrs: Seq<Tree>,
    /// The visibility qualifier, which may be empty.
    pub vis: Seq<Tree>,
    /// The storage qualifier: `const` or `static`.
    pub storage: Tree,
    /// The `mut` after the storage qualifier, if there was one.
    pub mutability: Option<Tree>,
    /// The name that is declared.
    pub ident: Tree,
    /// The declared array type.
    pub ty: ArrayType,
    /// The text of the initializer.
    pub text: Seq<char>,
}

impl Declaration {
    /// The tokens up to and including the name.
    pub open spec fn head(self) -> Seq<Tree> {
        self.attrs + self.vis + seq![self.storage] + (match self.mutability {
            Some(word) => seq![word],
            None => Seq::empty(),
        }) + seq![self.ident]
    }

    /// The place of the type annotation among the declaration's tokens: it
    /// follows the name and the colon.
    pub open spec fn type_index(self) -> nat {
        self.head().len() + 1
    }
}

/// The declaration that tokens state, or the error for the first token
/// that does not belong.
///
/// The tokens must be: outer attributes; a visibility, which runs up to the
/// first `const` or `static`; that storage qualifier; `mut` or nothing; a
/// name; a colon; an array type; `=`; a string literal; a semicolon.
///
/// A `#` that starts no attribute is followed by the token that does not
/// belong. Where the tokens before the storage qualifier are no visibility,
/// or there is no storage qualifier, the token that does not belong is the
/// one after the longest visibility.
pub open spec fn declaration_form(trees: Seq<Tree>) -> Result<Declaration, WstrError> {
    let a = attributes_end(trees, 0) as int;
    let s = storage_index(trees, a as nat) as int;
    let e = qualifier_end(trees, a, s);
    if a < trees.len() && is_punct(trees[a], '#') {
        Err(malformed(a + 1, Expected::Attribute))
    } else if e < s || !is_qualifier(trees.subrange(a, s)) || s >= trees.len() {
        Err(malformed(e, Expected::Storage))
    } else {
        let k: int = if s + 1 < trees.len() && is_word(trees[s + 1], "mut"@) {
            s + 2
        } else {
            s + 1
        };
        if k >= trees.len() || !is_name(trees[k]) {
            Err(malformed(k, Expected::Name))
        } else if k + 1 >= trees.len() || !is_punct(trees[k + 1], ':') {
            Err(malformed(k + 1, Expected::Colon))
        } else if k + 2 >= trees.len() {
            Err(malformed(k + 2, Expected::ArrayType))
        } else if type_form(trees[k + 2], (k + 2) as usize) is Err {
            Err(type_form(trees[k + 2], (k + 2) as usize)->Err_0)
        } else if k + 3 >= trees.len() || !is_punct(trees[k + 3], '=') {
            Err(malformed(k + 3, Expected::Equals))
        } else if k + 4 >= trees.len() || str_literal_value(trees[k + 4]) is None {
            Err(malformed(k + 4, Expected::Text))
        } else if k + 5 >= trees.len() || !is_punct(trees[k + 5], ';') {
            Err(malformed(k + 5, Expected::Semicolon))
        } else if trees.len() > k + 6 {
            Err(malformed(k + 6, Expected::Nothing))
        } else {
            Ok(
                Declaration {
                    attrs: trees.subrange(0, a),
                    vis: trees.subrange(a, s),
                    storage: trees[s],
                    mutability: if k == s + 2 {
                        Some(trees[s + 1])
                    } else {
                        None
                    },
                    ident: trees[k],
                    ty: type_form(trees[k + 2], (k + 2) as usize)->Ok_0,
                    text: str_literal_value(trees[k + 4])->Some_0,
                },
            )
        }
    }
}

/// The storage qualifier of a declaration, with the keyword as written.
#[derive(Debug)]
pub enum WstrConstOrStatic {
    Const(TokenTree),
    Static(TokenTree),
}

impl WstrConstOrStatic {
    /// The keyword that was read.
    pub open spec fn token(self) -> TokenTree {
        match self {
            WstrConstOrStatic::Const(token) => token,
            WstrConstOrStatic::Static(token) => token,
        }
    }

    /// The token is the keyword that the variant names.
    pub open spec fn well_formed(self) -> bool {
        match self {
            WstrConstOrStatic::Const(token) => is_word(tree_shape(token), "const"@),
            WstrConstOrStatic::Static(token) => is_word(tree_shape(token), "static"@),
        }
    }

    /// Reads the storage qualifier from the token that stands at `at`.
    pub fn parse(tree: &TokenTree, at: Position) -> (r: Result<WstrConstOrStatic, WstrError>)
        ensures
            is_storage(tree_shape(*tree)) ==> r is Ok && r->Ok_0.well_formed() && tree_shape(
                r->Ok_0.token(),
            ) == tree_shape(*tree),
            !is_storage(tree_shape(*tree)) ==> r == Err::<WstrConstOrStatic, WstrError>(
                WstrError::MalformedInvocation { at, expected: Expected::Storage },
            ),
    {
        if is_keyword(tree, "const") {
            Ok(WstrConstOrStatic::Const(tree.clone()))
        } else if is_keyword(tree, "static") {
            Ok(WstrConstOrStatic::Static(tree.clone()))
        } else {
            Err(WstrError::MalformedInvocation { at, expected: Expected::Storage })
        }
    }

    /// Appends the keyword, as it was written, to `tokens`.
    pub fn to_tokens(&self, tokens: &mut TokenStream)
        requires
            self.well_formed(),
        ensures
            stream_trees(*final(tokens)) == stream_trees(*old(tokens)).push(
                tree_shape(self.token()),
            ),
    {
        match self {
            WstrConstOrStatic::Const(token) => push_tree(tokens, token),
            WstrConstOrStatic::Static(token) => push_tree(tokens, token),
        }
    }
}

/// Finds where the leading attributes of `tokens` end.
fn scan_attributes(tokens: &Vec<TokenTree>) -> (end: usize)
    ensures
        end == attributes_end(shapes(tokens@), 0),
        end <= tokens.len(),
{
    let n = tokens.len();
    let ghost trees = shapes(tokens@);
    let mut end: usize = 0;
    let mut more = true;
    while more && n - end >= 2
        invariant
            n == tokens.len(),
            trees == shapes(tokens@),
            end <= n,
            attributes_end(trees, 0) == attributes_end(trees, end as nat),
            !more ==> attributes_end(trees, end as nat) == end,
        decreases (if more { 1int } else { 0int }), n - end,
    {
        let attribute = has_punct(&tokens[end], '#') && is_bracketed(&tokens[end + 1])
            && is_outer_attribute(&tokens[end], &tokens[end + 1]);
        if attribute {
            end += 2;
        } else {
            more = false;
        }
    }
    end
}

/// Finds the first storage qualifier at or after `from`.
fn scan_storage(tokens: &Vec<TokenTree>, from: usize) -> (at: usize)
    requires
        from <= tokens.len(),
    ensures
        at == storage_index(shapes(tokens@), from as nat),
        from <= at <= tokens.len(),
{
    let n = tokens.len();
    let ghost trees = shapes(tokens@);
    let mut at: usize = from;
    let mut more = true;
    while more && at < n
        invariant
            n == tokens.len(),
            trees == shapes(tokens@),
            from <= at <= n,
            storage_index(trees, from as nat) == storage_index(trees, at as nat),
            !more ==> storage_index(trees, at as nat) == at,
        decreases (if more { 1int } else { 0int }), n - at,
    {
        if is_keyword(&tokens[at], "const") || is_keyword(&tokens[at], "static") {
            more = false;
        } else {
            at += 1;
        }
    }
    at
}

/// Whether the tokens from `from` up to `to` are a qualifier.
fn has_qualifier(tokens: &Vec<TokenTree>, from: usize, to: usize) -> (b: bool)
    requires
        from <= to <= tokens.len(),
    ensures
        b == is_qualifier(shapes(tokens@).subrange(from as int, to as int)),
{
    let run = copy_tokens(tokens, from, to);
    let ghost trees = shapes(tokens@).subrange(from as int, to as int);
    let mut at: usize = 0;
    while at < run.len()
        invariant
            at <= run.len(),
            trees == shapes(run@),
            trees == shapes(tokens@).subrange(from as int, to as int),
            forall|i: int| 0 <= i < at ==> !(#[trigger] trees[i] is Literal),
        decreases run.len() - at,
    {
        match inspect(&run[at]) {
            Shape::Literal(_) => {
                assert(trees[at as int] is Literal);
                return false;
            },
            _ => {},
        }
        at += 1;
    }
    is_visibility(&run)
}

/// Finds where the longest qualifier from `from` that ends at or before `to`
/// ends, and says whether the tokens up to there are a qualifier.
fn scan_qualifier(tokens: &Vec<TokenTree>, from: usize, to: usize) -> (r: (usize, bool))
    requires
        from <= to <= tokens.len(),
    ensures
        r.0 == qualifier_end(shapes(tokens@), from as int, to as int),
        from <= r.0 <= to,
        r.1 == is_qualifier(shapes(tokens@).subrange(from as int, r.0 as int)),
{
    let ghost trees = shapes(tokens@);
    let mut end: usize = to;
    while end > from
        invariant
            from <= end <= to <= tokens.len(),
            trees == shapes(tokens@),
            qualifier_end(trees, from as int, to as int) == qualifier_end(
                trees,
                from as int,
                end as int,
            ),
        decreases end - from,
    {
        if has_qualifier(tokens, from, end) {
            return (end, true);
        }
        end -= 1;
    }
    (end, has_qualifier(tokens, from, end))
}

/// Copies the tokens from `from` up to `to`.
fn copy_tokens(tokens: &Vec<TokenTree>, from: usize, to: usize) -> (copy: Vec<TokenTree>)
    requires
        from <= to <= tokens.len(),
    ensures
        shapes(copy@) == shapes(tokens@).subrange(from as int, to as int),
{
    let mut copy: Vec<TokenTree> = Vec::new();
    let mut at: usize = from;
    while at < to
        invariant
            from <= at <= to <= tokens.len(),
            shapes(copy@) == shapes(tokens@).subrange(from as int, at as int),
        decreases to - at,
    {
        let ghost before = shapes(copy@);
        copy.push(tokens[at].clone());
        assert(shapes(copy@) =~= before.push(shapes(tokens@)[at as int]));
        at += 1;
    }
    copy
}

/// A declaration as parsed: every part that is handed on is held as the
/// tokens that were written.
#[derive(Debug)]
pub struct WstrDeclaration {
    /// The outer attributes: `#` and a bracketed group for each.
    pub attrs: Vec<TokenTree>,
    /// The visibility qualifier, which may be empty.
    pub vis: Vec<TokenTree>,
    pub const_or_static: WstrConstOrStatic,
    /// The `mut` after the storage qualifier, if there was one.
    pub mutability: Option<TokenTree>,
    /// The name that is declared.
    pub ident: TokenTree,
    pub ty: WstrTypeArray,
    /// The text of the initializer, as the string literal states it.
    pub lit: String,
}

impl View for WstrDeclaration {
    type V = Declaration;

    open spec fn view(&self) -> Declaration {
        Declaration {
            attrs: shapes(self.attrs@),
            vis: shapes(self.vis@),
            storage: tree_shape(self.const_or_static.token()),
            mutability: match self.mutability {
                Some(word) => Some(tree_shape(word)),
                None => None,
            },
            ident: tree_shape(self.ident),
            ty: self.ty@,
            text: self.lit@,
        }
    }
}

impl WstrDeclaration {
    /// No token that is handed on is a literal, and the place of the type
    /// annotation can be counted.
    pub open spec fn well_formed(&self) -> bool {
        &&& forall|i: int| 0 <= i < self@.attrs.len() ==> !(#[trigger] self@.attrs[i] is Literal)
        &&& forall|i: int| 0 <= i < self@.vis.len() ==> !(#[trigger] self@.vis[i] is Literal)
        &&& self.const_or_static.well_formed()
        &&& self@.mutability matches Some(word) ==> is_word(word, "mut"@)
        &&& !(self@.ident is Literal)
        &&& !(self@.ty.elem is Literal)
        &&& self@.type_index() <= usize::MAX
    }

    /// The place of the type annotation among the declaration's tokens.
    pub fn type_index(&self) -> (index: usize)
        requires
            self.well_formed(),
        ensures
            index == self@.type_index(),
    {
        let qualifiers: usize = if self.mutability.is_some() {
            2
        } else {
            1
        };
        self.attrs.len() + self.vis.len() + qualifiers + 2
    }

    /// Parses one declaration.
    pub fn parse(input: &TokenStream) -> (r: Result<WstrDeclaration, WstrError>)
        ensures
            match declaration_form(stream_trees(*input)) {
                Ok(declaration) => r is Ok && r->Ok_0@ == declaration && r->Ok_0.well_formed(),
                Err(error) => r == Err::<WstrDeclaration, WstrError>(error),
            },
    {
        let tokens = stream_tokens(input);
        let n = tokens.len();
        let ghost trees = shapes(tokens@);
        let a = scan_attributes(&tokens);
        if a < n && has_punct(&tokens[a], '#') {
            return Err(WstrError::unexpected(Position::at_top(a + 1), Expected::Attribute));
        }
        let s = scan_storage(&tokens, a);
        let (e, qualified) = scan_qualifier(&tokens, a, s);
        if e < s || !qualified || s >= n {
            return Err(WstrError::unexpected(Position::at_top(e), Expected::Storage));
        }
        proof {
            storage_index_finds_storage(trees, a as nat);
        }
        let const_or_static = match WstrConstOrStatic::parse(&tokens[s], Position::at_top(s)) {
            Ok(storage) => storage,
            Err(error) => { return Err(error); },
        };
        let mutability = if s + 1 < n && is_keyword(&tokens[s + 1], "mut") {
            Some(tokens[s + 1].clone())
        } else {
            None
        };
        let k: usize = if mutability.is_some() {
            s + 2
        } else {
            s + 1
        };
        if k >= n || !has_name(&tokens[k]) {
            return Err(WstrError::unexpected(Position::at_top(k), Expected::Name));
        }
        if k + 1 >= n || !has_punct(&tokens[k + 1], ':') {
            return Err(WstrError::unexpected(Position::at_top(k + 1), Expected::Colon));
        }
        if k + 2 >= n {
            return Err(WstrError::unexpected(Position::at_top(k + 2), Expected::ArrayType));
        }
        let ty = match WstrTypeArray::parse(&tokens[k + 2], k + 2) {
            Ok(ty) => ty,
            Err(error) => { return Err(error); },
        };
        if k + 3 >= n || !has_punct(&tokens[k + 3], '=') {
            return Err(WstrError::unexpected(Position::at_top(k + 3), Expected::Equals));
        }
        if k + 4 >= n {
            return Err(WstrError::unexpected(Position::at_top(k + 4), Expected::Text));
        }
        let lit = match read_text(&tokens[k + 4]) {
            Some(text) => text,
            None => {
                return Err(WstrError::unexpected(Position::at_top(k + 4), Expected::Text));
            },
        };
        if k + 5 >= n || !has_punct(&tokens[k + 5], ';') {
            return Err(WstrError::unexpected(Position::at_top(k + 5), Expected::Semicolon));
        }
        if n > k + 6 {
            return Err(WstrError::unexpected(Position::at_top(k + 6), Expected::Nothing));
        }
        let attrs = copy_tokens(&tokens, 0, a);
        let vis = copy_tokens(&tokens, a, s);
        let ident = tokens[k].clone();
        proof {
            attributes_are_not_literals(trees, 0);
        }
        Ok(WstrDeclaration { attrs, vis, const_or_static, mutability, ident, ty, lit })
    }
}

/// Where a storage qualifier is found, there is one.
proof fn storage_index_finds_storage(trees: Seq<Tree>, from: nat)
    ensures
        storage_index(trees, from) < trees.len() ==> is_storage(
            trees[storage_index(trees, from) as int],
        ),
    decreases trees.len() - from,
{
    if from < trees.len() && !is_storage(trees[from as int]) {
        storage_index_finds_storage(trees, from + 1);
    }
}

/// No token of the attributes that start at `from` is a literal.
pub proof fn attributes_are_not_literals(trees: Seq<Tree>, from: nat)
    ensures
        from <= attributes_end(trees, from),
        attributes_end(trees, from) <= trees.len() || attributes_end(trees, from) == from,
        forall|i: int|
            from <= i < attributes_end(trees, from) ==> !(#[trigger] trees[i] is Literal),
    decreases trees.len() - from,
{
    if from + 2 <= trees.len() && attribute_pair(trees[from as int], trees[from as int + 1]) {
        attributes_are_not_literals(trees, from + 2);
    }
}

/// Where the storage qualifier is looked for from `from`, it is found at or
/// after `from` and within the tokens.
pub proof fn storage_index_bounds(trees: Seq<Tree>, from: nat)
    requires
        from <= trees.len(),
    ensures
        from <= storage_index(trees, from) <= trees.len(),
    decreases trees.len() - from,
{
    if from < trees.len() && !is_storage(trees[from as int]) {
        storage_index_bounds(trees, from + 1);
    }
}

/// Below `to`, the longest qualifier ends where a qualifier ends that no
/// later end up to `to` extends.
proof fn qualifier_end_is_longest(trees: Seq<Tree>, from: int, end: int, to: int)
    requires
        from <= end <= to,
        end == from || is_qualifier(trees.subrange(from, end)),
        forall|j: int| end < j <= to ==> !is_qualifier(#[trigger] trees.subrange(from, j)),
    ensures
        qualifier_end(trees, from, to) == end,
    decreases to - end,
{
    if end < to {
        qualifier_end_is_longest(trees, from, end, to - 1);
    }
}

/// Where a visibility is followed by a token that is no storage qualifier,
/// or by nothing, the error names that place and not the visibility: after
/// the attributes, the longest run of tokens that is a visibility is taken,
/// and `const` or `static` is expected behind it.
pub proof fn missing_storage_is_named_after_the_visibility(trees: Seq<Tree>, end: int)
    requires
        attributes_end(trees, 0) <= end <= trees.len(),
        attributes_end(trees, 0) < trees.len() ==> !is_punct(
            trees[attributes_end(trees, 0) as int],
            '#',
        ),
        is_qualifier(trees.subrange(attributes_end(trees, 0) as int, end)),
        forall|j: int|
            end < j <= trees.len() ==> !is_qualifier(
                #[trigger] trees.subrange(attributes_end(trees, 0) as int, j),
            ),
        forall|i: int| attributes_end(trees, 0) <= i < end ==> !is_storage(#[trigger] trees[i]),
        end < trees.len() ==> !is_storage(trees[end]),
    ensures
        declaration_form(trees) == Err::<Declaration, WstrError>(
            malformed(end, Expected::Storage),
        ),
{
    let a = attributes_end(trees, 0);
    storage_index_bounds(trees, a);
    storage_index_finds_storage(trees, a);
    let s = storage_index(trees, a) as int;
    assert(s >= end) by {
        if s < end {
            assert(is_storage(trees[s]));
        }
    }
    qualifier_end_is_longest(trees, a as int, end, s);
}

} // verus!
