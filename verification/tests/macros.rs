use proc_macro2::TokenStream;
use wstr_literal::{wstr, wstr_literal};

static HELLO: [u16; 6] = [0x68, 0x65, 0x6c, 0x6c, 0x6f, 0x0];

fn source(text: &str) -> TokenStream {
    text.parse().unwrap()
}

/// The numbers of an array literal such as `[72u16, 0u16]`.
fn units_of_array(array: &syn::Expr) -> Vec<u16> {
    match array {
        syn::Expr::Array(array) => array
            .elems
            .iter()
            .map(|elem| match elem {
                syn::Expr::Lit(syn::ExprLit { lit: syn::Lit::Int(int), .. }) => {
                    assert_eq!(int.suffix(), "u16");
                    int.base10_parse::<u16>().unwrap()
                }
                _ => panic!("the array holds something other than an integer literal"),
            })
            .collect(),
        _ => panic!("not an array literal"),
    }
}

/// The length that an array type such as `[u16; 6usize]` declares.
fn length_of_type(ty: &syn::Type) -> usize {
    match ty {
        syn::Type::Array(array) => match &array.len {
            syn::Expr::Lit(syn::ExprLit { lit: syn::Lit::Int(int), .. }) => {
                int.base10_parse::<usize>().unwrap()
            }
            _ => panic!("the length is not an integer literal"),
        },
        _ => panic!("not an array type"),
    }
}

fn expand_literal(input: &str) -> Vec<u16> {
    let output = wstr(source(input)).unwrap();
    units_of_array(&syn::parse2::<syn::Expr>(output).unwrap())
}

fn expand_const(item: &str) -> (usize, Vec<u16>) {
    let output = wstr_literal(TokenStream::new(), source(item)).unwrap();
    let item = syn::parse2::<syn::ItemConst>(output).unwrap();
    (length_of_type(&item.ty), units_of_array(&item.expr))
}

fn expand_static(item: &str) -> (usize, Vec<u16>) {
    let output = wstr_literal(TokenStream::new(), source(item)).unwrap();
    let item = syn::parse2::<syn::ItemStatic>(output).unwrap();
    (length_of_type(&item.ty), units_of_array(&item.expr))
}

#[test]
fn test1() {
    let expected = [
        'H' as u16, 'e' as u16, 'l' as u16, 'l' as u16, 'o' as u16, 0u16,
    ];
    let result = expand_literal("\"Hello\"");

    println!("{:?}", result);

    assert_eq!(result, expected);
}

#[test]
fn test_wstr_with_len() {
    let result = expand_literal("10, \"hello\"");

    let expected = HELLO
        .into_iter()
        .chain(std::iter::repeat(0u16))
        .take(10)
        .collect::<Vec<_>>();

    assert_eq!(result.as_slice(), expected.as_slice());
}

#[test]
fn test3() {
    const EXPECTED: [u16; 2] = ['a' as u16, 0];
    let const_defined = expand_const("const CONST_DEFINED: [u16; _] = \"a\";");
    let static_defined = expand_static("static STATIC_DEFINED: [u16; _] = \"a\";");
    let global_static_defined =
        expand_static("pub static GLOBAL_STATIC_DEFINED: [u16; _] = \"a\";");

    assert_eq!(const_defined, (2, EXPECTED.to_vec()));
    assert_eq!(static_defined, (2, EXPECTED.to_vec()));
    assert_eq!(global_static_defined, (2, EXPECTED.to_vec()));
}

#[test]
fn inferred_static_is_hello() {
    let (length, units) = expand_static("static WSTR_HELLO: [u16; _] = \"hello\";");
    assert_eq!(length, 6);
    assert_eq!(units, HELLO.to_vec());
}

#[test]
fn declaration_and_literal_infer_the_same_array() {
    for text in ["\"\"", "\"a\"", "\"hello\"", "\"こんにちは\"", "\"\u{1F600}\""] {
        let literal = expand_literal(text);
        let (length, units) = expand_const(&format!("const X: [u16; _] = {};", text));
        assert_eq!(length, literal.len());
        assert_eq!(units, literal);
    }
}

#[test]
fn emitted_size_reproduces_the_same_array() {
    for item in [
        "static X: [u16; _] = \"hello\";",
        "static X: [u16; 6] = \"hello\";",
        "static X: [u16; 10] = \"hello\";",
        "static X: [u16; 1] = \"\";",
    ] {
        let (length, units) = expand_static(item);
        assert_eq!(length, units.len());
        let text = &item[item.find('"').unwrap()..item.len() - 1];
        let again = format!("static X: [u16; {}] = {};", length, text);
        assert_eq!(expand_static(&again), (length, units.clone()));
        assert_eq!(expand_literal(&format!("{}, {}", length, text)), units);
    }
}

#[test]
fn array_reads_back_as_the_text() {
    for text in ["", "A", "Hello", "こんにちは", "a\u{1F600}b\u{10FFFF}\u{FFFF}"] {
        for padding in [None, Some(0usize), Some(3)] {
            let natural = text.encode_utf16().count() + 1;
            let input = match padding {
                None => format!("{:?}", text),
                Some(extra) => format!("{}, {:?}", natural + extra, text),
            };
            let units = expand_literal(&input);
            assert_eq!(units.len(), natural + padding.unwrap_or(0));
            let end = units.iter().position(|unit| *unit == 0).unwrap();
            assert_eq!(String::from_utf16(&units[..end]).unwrap(), text);
            assert!(units[end..].iter().all(|unit| *unit == 0));
        }
    }
}
