use proc_macro2::{Delimiter, Group, Ident, Span, TokenStream, TokenTree};
use quote::ToTokens;
use syn::{ItemConst, ItemStatic};
use wstr_literal::array::encode;
use wstr_literal::error::Expected;
use wstr_literal::declaration::{
    parse_array_size, WstrConstOrStatic, WstrDeclaration, WstrTypeArray,
};
use wstr_literal::rewrite::emit_declaration;
use wstr_literal::{fragment_at, wstr_literal, wstr_literal_impl, Position, WstrError};

fn tokens(source: &str) -> TokenStream {
    source.parse().unwrap()
}

fn token(source: &str) -> TokenTree {
    let mut trees = tokens(source).into_iter();
    let tree = trees.next().unwrap();
    assert!(trees.next().is_none());
    tree
}

fn ident_of(tree: &TokenTree) -> Ident {
    match tree {
        TokenTree::Ident(ident) => ident.clone(),
        _ => panic!("not an identifier"),
    }
}

/// Removes the spaces of a rendered token stream.
fn rmsp(text: String) -> String {
    text.replace(' ', "")
}

fn malformed(index: usize, expected: Expected) -> WstrError {
    WstrError::MalformedInvocation { at: Position { index, inner: None }, expected }
}

fn malformed_within(index: usize, inner: usize, expected: Expected) -> WstrError {
    WstrError::MalformedInvocation { at: Position { index, inner: Some(inner) }, expected }
}

/// `trees` inside the invisible group that a macro puts around a fragment.
fn invisible(trees: TokenStream) -> TokenStream {
    TokenStream::from(TokenTree::Group(Group::new(Delimiter::None, trees)))
}

#[test]
fn test_wstr_literal_impl_static_placeholder() {
    let input = tokens("static HELLO: [u16; _] = \"hello\";");
    let output = wstr_literal_impl(input).unwrap();
    let item = syn::parse2::<ItemStatic>(output).unwrap();

    assert_eq!(
        rmsp(item.ty.to_token_stream().to_string()),
        "[u16;6usize]".to_string()
    );
    assert_eq!(
        rmsp(item.expr.to_token_stream().to_string()),
        "[104u16,101u16,108u16,108u16,111u16,0u16]".to_string()
    );
}

#[test]
fn test_wstr_literal_impl_static_larger_len() {
    let input = tokens("static HELLO: [u16; 10] = \"hello\";");
    let output = wstr_literal_impl(input).unwrap();
    let item = syn::parse2::<ItemStatic>(output).unwrap();

    assert_eq!(
        rmsp(item.ty.to_token_stream().to_string()),
        "[u16;10usize]".to_string()
    );
    assert_eq!(
        rmsp(item.expr.to_token_stream().to_string()),
        "[104u16,101u16,108u16,108u16,111u16,0u16,0u16,0u16,0u16,0u16]".to_string()
    );
}

#[test]
fn test_wstr_literal_impl_const_placeholder() {
    let input = tokens("const HELLO: [u16; _] = \"hello\";");
    let output = wstr_literal_impl(input).unwrap();
    let item = syn::parse2::<ItemConst>(output).unwrap();

    assert_eq!(
        rmsp(item.ty.to_token_stream().to_string()),
        "[u16;6usize]".to_string()
    );
    assert_eq!(
        rmsp(item.expr.to_token_stream().to_string()),
        "[104u16,101u16,108u16,108u16,111u16,0u16]".to_string()
    );
}

#[test]
fn test_wstr_literal_impl_const_larger_len() {
    let input = tokens("const HELLO: [u16; 10] = \"hello\";");
    let output = wstr_literal_impl(input).unwrap();
    let item = syn::parse2::<ItemConst>(output).unwrap();

    assert_eq!(
        rmsp(item.ty.to_token_stream().to_string()),
        "[u16;10usize]".to_string()
    );
    assert_eq!(
        rmsp(item.expr.to_token_stream().to_string()),
        "[104u16,101u16,108u16,108u16,111u16,0u16,0u16,0u16,0u16,0u16]".to_string()
    );
}

#[test]
fn test_wstr_typearray() {
    let output = WstrTypeArray::parse(&token("[u16; _]"), 0).unwrap();
    assert_eq!(ident_of(&output.elem), Ident::new("u16", Span::call_site()));
    assert!(matches!(output.size, None));

    let output = WstrTypeArray::parse(&token("[u16; 0x10]"), 0).unwrap();
    assert_eq!(ident_of(&output.elem), Ident::new("u16", Span::call_site()));
    assert!(matches!(output.size, Some(_)));
    assert_eq!(
        match output.size {
            Some(size) => size,
            _ => unreachable!(),
        },
        0x10
    );
}

#[test]
fn everything_before_the_type_is_kept_as_written() {
    let input = "#[allow(non_upper_case_globals)] #[doc = \"greeting\"] \
                 pub(crate) static mut global: [u16; _] = \"data\";";
    let output = wstr_literal_impl(tokens(input)).unwrap();
    let expected = "#[allow(non_upper_case_globals)] #[doc = \"greeting\"] \
                    pub(crate) static mut global: [u16; 5usize] = \
                    [100u16, 97u16, 116u16, 97u16, 0u16];";
    assert_eq!(output.to_string(), tokens(expected).to_string());

    let before: Vec<String> = tokens(input).into_iter().map(|tree| tree.to_string()).collect();
    let after: Vec<String> = output.into_iter().map(|tree| tree.to_string()).collect();
    // Two attributes, `pub`, `(crate)`, `static`, `mut` and the name.
    assert_eq!(before[..9], after[..9]);
    assert_eq!(after.len(), 14);

    let item = syn::parse2::<ItemStatic>(tokens(expected)).unwrap();
    assert_eq!(item.attrs.len(), 2);
    assert!(matches!(item.mutability, syn::StaticMutability::Mut(_)));
    assert!(matches!(item.vis, syn::Visibility::Restricted(_)));
}

#[test]
fn other_element_types_are_taken_as_written() {
    let output = wstr_literal_impl(tokens("const W: [wchar_t; 3] = \"a\";")).unwrap();
    assert_eq!(
        rmsp(output.to_string()),
        "constW:[wchar_t;3usize]=[97u16,0u16,0u16];"
    );
}

#[test]
fn parse_gives_the_parts() {
    let declaration = WstrDeclaration::parse(&tokens(
        "#[used] pub(in crate::a) static mut NAME: [u16; 4] = \"ab\";",
    ))
    .unwrap();
    let text = |trees: &Vec<TokenTree>| {
        trees.iter().map(|tree| tree.to_string()).collect::<Vec<_>>().join(" ")
    };
    assert_eq!(text(&declaration.attrs), "# [used]");
    assert_eq!(rmsp(text(&declaration.vis)), "pub(incrate::a)");
    assert!(matches!(declaration.const_or_static, WstrConstOrStatic::Static(_)));
    assert_eq!(declaration.mutability.as_ref().unwrap().to_string(), "mut");
    assert_eq!(declaration.ident.to_string(), "NAME");
    assert_eq!(declaration.ty.elem.to_string(), "u16");
    assert_eq!(declaration.ty.size, Some(4));
    assert_eq!(declaration.lit, "ab");
    assert_eq!(declaration.type_index(), 8);

    let plain = WstrDeclaration::parse(&tokens("const C: [u16; _] = \"\";")).unwrap();
    assert!(plain.attrs.is_empty());
    assert!(plain.vis.is_empty());
    assert!(matches!(plain.const_or_static, WstrConstOrStatic::Const(_)));
    assert!(plain.mutability.is_none());
    assert_eq!(plain.ty.size, None);
    assert_eq!(plain.lit, "");
    assert_eq!(plain.type_index(), 3);
}

#[test]
fn emitter_writes_the_array_length_into_the_type() {
    let declaration =
        WstrDeclaration::parse(&tokens("pub const C: [u16; _] = \"ignored\";")).unwrap();
    let array = encode("hi", Some(4)).unwrap();
    let output = emit_declaration(&declaration, &array);
    assert_eq!(
        rmsp(output.to_string()),
        "pubconstC:[u16;4usize]=[104u16,105u16,0u16,0u16];"
    );
}

#[test]
fn storage_qualifier_is_const_or_static() {
    let at = Position { index: 3, inner: None };
    let storage = WstrConstOrStatic::parse(&token("const"), at).unwrap();
    assert!(matches!(storage, WstrConstOrStatic::Const(_)));
    let mut stream = tokens("pub");
    storage.to_tokens(&mut stream);
    assert_eq!(stream.to_string(), "pub const");

    let storage = WstrConstOrStatic::parse(&token("static"), at).unwrap();
    assert!(matches!(storage, WstrConstOrStatic::Static(_)));
    let mut stream = TokenStream::new();
    storage.to_tokens(&mut stream);
    assert_eq!(stream.to_string(), "static");

    assert_eq!(
        WstrConstOrStatic::parse(&token("let"), at).unwrap_err(),
        WstrError::MalformedInvocation { at, expected: Expected::Storage }
    );
    assert_eq!(
        WstrConstOrStatic::parse(&token("\"const\""), at).unwrap_err(),
        WstrError::MalformedInvocation { at, expected: Expected::Storage }
    );
}

#[test]
fn array_size_is_a_number_or_the_placeholder() {
    let at = Position { index: 4, inner: Some(2) };
    assert_eq!(parse_array_size(&token("_"), at), Ok(None));
    assert_eq!(parse_array_size(&token("0"), at), Ok(Some(0)));
    assert_eq!(parse_array_size(&token("12"), at), Ok(Some(12)));
    assert_eq!(parse_array_size(&token("0b101"), at), Ok(Some(5)));
    assert_eq!(parse_array_size(&token("1_000usize"), at), Ok(Some(1000)));
    for other in ["N", "1.0", "\"3\"", "'3'", "(3)", "99999999999999999999999999"] {
        assert_eq!(
            parse_array_size(&token(other), at),
            Err(WstrError::MalformedInvocation { at, expected: Expected::Size })
        );
    }
}

#[test]
fn declared_size_too_small_is_reported_at_the_size() {
    assert_eq!(
        wstr_literal_impl(tokens("static HELLO: [u16; 1] = \"hello\";")).unwrap_err(),
        WstrError::SizeTooSmall {
            natural: 6,
            requested: 1,
            at: Position { index: 3, inner: Some(2) },
        }
    );
    assert_eq!(
        wstr_literal_impl(tokens("#[used] pub static mut E: [u16; 0] = \"\";")).unwrap_err(),
        WstrError::SizeTooSmall {
            natural: 1,
            requested: 0,
            at: Position { index: 7, inner: Some(2) },
        }
    );
}

#[test]
fn attribute_takes_no_arguments() {
    let error = wstr_literal(tokens("size = 4"), tokens("const C: [u16; _] = \"a\";"));
    let expected = WstrError::UnsupportedArgument { at: Position { index: 0, inner: None } };
    assert_eq!(error.unwrap_err(), expected);
    assert_eq!(expected.message(), "The attribute does not take any arguments");
    // The arguments are refused before the declaration is looked at.
    assert_eq!(wstr_literal(tokens("x"), tokens("fn f() {}")).unwrap_err(), expected);

    let output = wstr_literal(TokenStream::new(), tokens("const C: [u16; _] = \"a\";")).unwrap();
    assert_eq!(rmsp(output.to_string()), "constC:[u16;2usize]=[97u16,0u16];");
}

#[test]
fn malformed_declarations_name_the_first_wrong_token() {
    let fails = |source: &str| wstr_literal_impl(tokens(source)).unwrap_err();
    assert_eq!(fails(""), malformed(0, Expected::Storage));
    assert_eq!(fails("let X: [u16; _] = \"a\";"), malformed(0, Expected::Storage));
    assert_eq!(fails("fn f() {}"), malformed(0, Expected::Storage));
    assert_eq!(fails("5 static X: [u16; _] = \"a\";"), malformed(0, Expected::Storage));
    assert_eq!(fails("pub"), malformed(1, Expected::Storage));
    assert_eq!(fails("static"), malformed(1, Expected::Name));
    assert_eq!(fails("static mut"), malformed(2, Expected::Name));
    assert_eq!(fails("static mut: [u16; _] = \"a\";"), malformed(2, Expected::Name));
    assert_eq!(fails("static fn: [u16; _] = \"a\";"), malformed(1, Expected::Name));
    assert_eq!(fails("static _: [u16; _] = \"a\";"), malformed(1, Expected::Name));
    assert_eq!(fails("const X = \"a\";"), malformed(2, Expected::Colon));
    assert_eq!(fails("const X: u16 = \"a\";"), malformed(3, Expected::ArrayType));
    assert_eq!(fails("const X: (u16; 2) = \"a\";"), malformed(3, Expected::ArrayType));
    assert_eq!(fails("const X: [] = \"a\";"), malformed_within(3, 0, Expected::Name));
    assert_eq!(fails("const X: [3; 3] = \"a\";"), malformed_within(3, 0, Expected::Name));
    assert_eq!(fails("const X: [mut; 3] = \"a\";"), malformed_within(3, 0, Expected::Name));
    assert_eq!(fails("const X: [u16] = \"a\";"), malformed_within(3, 1, Expected::Semicolon));
    assert_eq!(fails("const X: [u16, 3] = \"a\";"), malformed_within(3, 1, Expected::Semicolon));
    assert_eq!(fails("const X: [u16;] = \"a\";"), malformed_within(3, 2, Expected::Size));
    assert_eq!(fails("const X: [u16; N] = \"a\";"), malformed_within(3, 2, Expected::Size));
    assert_eq!(fails("const X: [u16; -1] = \"a\";"), malformed_within(3, 2, Expected::Size));
    assert_eq!(fails("const X: [u16; 3 + 1] = \"a\";"), malformed_within(3, 3, Expected::Nothing));
    assert_eq!(fails("pub const X: [u16; 3]"), malformed(5, Expected::Equals));
    assert_eq!(fails("pub const X: [u16; 3];"), malformed(5, Expected::Equals));
    assert_eq!(fails("const X: [u16; 3] ="), malformed(5, Expected::Text));
    assert_eq!(fails("const X: [u16; 3] = 7;"), malformed(5, Expected::Text));
    assert_eq!(fails("const X: [u16; 3] = [97, 0, 0];"), malformed(5, Expected::Text));
    assert_eq!(fails("const X: [u16; 3] = \"a\""), malformed(6, Expected::Semicolon));
    assert_eq!(fails("const X: [u16; 3] = \"a\", "), malformed(6, Expected::Semicolon));
    assert_eq!(fails("const X: [u16; 3] = \"a\"; const"), malformed(7, Expected::Nothing));
}

#[test]
fn missing_storage_qualifier_is_named_after_the_visibility() {
    let fails = |source: &str| wstr_literal_impl(tokens(source)).unwrap_err();
    // `pub` is a visibility; `let` stands where `const` or `static` belongs.
    assert_eq!(fails("pub let X: [u16; _] = \"a\";"), malformed(1, Expected::Storage));
    assert_eq!(fails("pub X: [u16; _] = \"a\";"), malformed(1, Expected::Storage));
    assert_eq!(fails("pub(crate) let X: [u16; _] = \"a\";"), malformed(2, Expected::Storage));
    assert_eq!(
        fails("pub(crate) pub static X: [u16; _] = \"a\";"),
        malformed(2, Expected::Storage)
    );
    assert_eq!(fails("pub(crate)"), malformed(2, Expected::Storage));
    // `(foo)` restricts nothing, so the visibility ends after `pub`.
    assert_eq!(fails("pub(foo) static X: [u16; _] = \"a\";"), malformed(1, Expected::Storage));
    assert_eq!(fails("pub 5 static X: [u16; _] = \"a\";"), malformed(1, Expected::Storage));
    assert_eq!(fails("#[used] pub let X: [u16; _] = \"a\";"), malformed(3, Expected::Storage));
    assert_eq!(fails("#[used] let X: [u16; _] = \"a\";"), malformed(2, Expected::Storage));

    let item = tokens("pub let X: [u16; _] = \"a\";");
    let error = wstr_literal_impl(item.clone()).unwrap_err();
    assert_eq!(fragment_at(&item, error.at()).unwrap().to_string(), "let");
    assert_eq!(error.message(), "expected `const` or `static`");
}

#[test]
fn pound_without_attribute_names_what_follows_it() {
    let fails = |source: &str| wstr_literal_impl(tokens(source)).unwrap_err();
    assert_eq!(fails("#![used] static X: [u16; _] = \"a\";"), malformed(1, Expected::Attribute));
    assert_eq!(fails("# static X: [u16; _] = \"a\";"), malformed(1, Expected::Attribute));
    assert_eq!(fails("#"), malformed(1, Expected::Attribute));
    assert_eq!(fails("#[1] static X: [u16; _] = \"a\";"), malformed(1, Expected::Attribute));
    assert_eq!(
        fails("#[used] #[1] static X: [u16; _] = \"a\";"),
        malformed(3, Expected::Attribute)
    );
    assert_eq!(fails("pub #[used] static X: [u16; _] = \"a\";"), malformed(1, Expected::Storage));

    let item = tokens("#![used] static X: [u16; _] = \"a\";");
    let error = wstr_literal_impl(item.clone()).unwrap_err();
    assert_eq!(fragment_at(&item, error.at()).unwrap().to_string(), "!");
}

#[test]
fn type_from_a_macro_fragment_is_seen_through_its_invisible_group() {
    let declaration = |ty: TokenStream| {
        let mut item = tokens("pub static X:");
        item.extend(ty);
        item.extend(tokens("= \"hi\";"));
        item
    };
    let output = wstr_literal_impl(declaration(invisible(tokens("[u16; _]")))).unwrap();
    assert_eq!(rmsp(output.to_string()), "pubstaticX:[u16;3usize]=[104u16,105u16,0u16];");
    let output = wstr_literal_impl(declaration(invisible(tokens("[u16; 4]")))).unwrap();
    assert_eq!(rmsp(output.to_string()), "pubstaticX:[u16;4usize]=[104u16,105u16,0u16,0u16];");

    let wrapped = invisible(tokens("[u16; 0x10]")).into_iter().next().unwrap();
    let ty = WstrTypeArray::parse(&wrapped, 0).unwrap();
    assert_eq!(ident_of(&ty.elem), Ident::new("u16", Span::call_site()));
    assert_eq!(ty.size, Some(0x10));

    // Places inside the type are counted in the brackets.
    let item = declaration(invisible(tokens("[u16; 1]")));
    let error = wstr_literal_impl(item.clone()).unwrap_err();
    assert_eq!(
        error,
        WstrError::SizeTooSmall {
            natural: 3,
            requested: 1,
            at: Position { index: 4, inner: Some(2) },
        }
    );
    assert_eq!(fragment_at(&item, error.at()).unwrap().to_string(), "1");
    let item = declaration(invisible(tokens("[u16, 1]")));
    let error = wstr_literal_impl(item.clone()).unwrap_err();
    assert_eq!(error, malformed_within(4, 1, Expected::Semicolon));
    assert_eq!(fragment_at(&item, error.at()).unwrap().to_string(), ",");

    // Only brackets alone are seen through.
    let fails = |ty: TokenStream| wstr_literal_impl(declaration(ty)).unwrap_err();
    assert_eq!(fails(invisible(tokens("u16"))), malformed(4, Expected::ArrayType));
    assert_eq!(fails(invisible(tokens("[u16; _] [u16; _]"))), malformed(4, Expected::ArrayType));
    assert_eq!(fails(invisible(tokens("(u16; _)"))), malformed(4, Expected::ArrayType));
    assert_eq!(fails(invisible(tokens(""))), malformed(4, Expected::ArrayType));
}

#[test]
fn form_is_checked_before_the_size() {
    // The size cannot hold the text, but the initializer is no string at all.
    assert_eq!(
        wstr_literal_impl(tokens("const X: [u16; 0] = 7;")).unwrap_err(),
        malformed(5, Expected::Text)
    );
}

#[test]
fn errors_lead_back_to_their_token() {
    let item = tokens("pub static HELLO: [u16; 1] = \"hello\";");
    let error = wstr_literal_impl(item.clone()).unwrap_err();
    assert_eq!(fragment_at(&item, error.at()).unwrap().to_string(), "1");

    let item = tokens("static HELLO: [u16; 1] = 5;");
    let error = wstr_literal_impl(item.clone()).unwrap_err();
    assert_eq!(fragment_at(&item, error.at()).unwrap().to_string(), "5");

    let item = tokens("static HELLO: [u16;] = \"a\";");
    let error = wstr_literal_impl(item.clone()).unwrap_err();
    // The place is the end of the group: the group itself is named.
    assert_eq!(rmsp(fragment_at(&item, error.at()).unwrap().to_string()), "[u16;]");

    let item = tokens("static HELLO: [u16; 1] = \"\"");
    let error = wstr_literal_impl(item.clone()).unwrap_err();
    assert!(fragment_at(&item, error.at()).is_none());

    let item = tokens("a (b c) d");
    let at = |index, inner| Position { index, inner };
    assert_eq!(fragment_at(&item, at(0, None)).unwrap().to_string(), "a");
    assert_eq!(fragment_at(&item, at(0, Some(0))).unwrap().to_string(), "a");
    assert_eq!(fragment_at(&item, at(1, Some(1))).unwrap().to_string(), "c");
    assert_eq!(rmsp(fragment_at(&item, at(1, None)).unwrap().to_string()), "(bc)");
    assert_eq!(fragment_at(&item, at(2, None)).unwrap().to_string(), "d");
    assert!(fragment_at(&item, at(3, None)).is_none());
    assert!(fragment_at(&item, at(3, Some(0))).is_none());
}

#[test]
fn other_macro_fragments_are_read_through_their_invisible_groups() {
    // `[$elem; $size]` with a type and a literal handed on by a macro.
    let mut ty = invisible(tokens("u16"));
    ty.extend(tokens(";"));
    ty.extend(invisible(tokens("4")));
    let mut item = invisible(tokens("pub(crate)"));
    item.extend(tokens("static X:"));
    item.extend(TokenStream::from(TokenTree::Group(Group::new(Delimiter::Bracket, ty))));
    item.extend(tokens("="));
    item.extend(invisible(tokens("\"hi\"")));
    item.extend(tokens(";"));
    let output = wstr_literal_impl(item).unwrap();
    assert_eq!(
        rmsp(output.to_string()),
        "pub(crate)staticX:[u16;4usize]=[104u16,105u16,0u16,0u16];"
    );

    // An empty visibility fragment.
    let mut item = invisible(tokens(""));
    item.extend(tokens("const X: [u16; _] = \"a\";"));
    let output = wstr_literal_impl(item).unwrap();
    assert_eq!(rmsp(output.to_string()), "constX:[u16;2usize]=[97u16,0u16];");
}
