use proc_macro2::{Span, TokenStream};
use sized_on_disk_derive::generate::{generate_implementation, GenerateError};
use sized_on_disk_derive::model::{Field, FieldId, GenericParam, Shape, TypeDeclaration};
use sized_on_disk_derive::syntax::read_declaration;
use sized_on_disk_derive::tokens::{emit_tokens, term_spans};
use sized_on_disk_derive::{derive_disk_size, derive_from_declaration, derive_from_tree};
use std::str::FromStr;

fn derive(source: &str) -> Result<String, GenerateError> {
    derive_disk_size(TokenStream::from_str(source).unwrap()).map(|tokens| tokens.to_string())
}

fn read(source: &str) -> (TypeDeclaration, usize) {
    let input: syn::DeriveInput = syn::parse_str(source).unwrap();
    let (declaration, spans) = read_declaration(&input);
    (declaration, spans.len())
}

fn field(id: FieldId, ty: &str, annotations: &[&str]) -> Field {
    Field {
        id,
        declared_type: ty.to_string(),
        annotations: annotations.iter().map(|a| a.to_string()).collect(),
    }
}

#[test]
fn derive_point() {
    assert_eq!(
        derive("struct Point { x: u32, y: u32 }").unwrap(),
        "impl crate :: types :: SizedOnDisk for Point { fn size (& self) -> usize { \
         0 + crate :: types :: SizedOnDisk :: size (& self . x) \
         + crate :: types :: SizedOnDisk :: size (& self . y) } }"
    );
}

#[test]
fn derive_wrapper() {
    assert_eq!(
        derive("struct Wrapper<T> { inner: T, #[dignore] cache: Vec<u8> }").unwrap(),
        "impl < T : crate :: types :: SizedOnDisk > crate :: types :: SizedOnDisk \
         for Wrapper < T > { fn size (& self) -> usize { \
         0 + crate :: types :: SizedOnDisk :: size (& self . inner) } }"
    );
}

#[test]
fn derive_marker() {
    assert_eq!(
        derive("struct Marker;").unwrap(),
        "impl crate :: types :: SizedOnDisk for Marker { fn size (& self) -> usize { 0 } }"
    );
}

#[test]
fn derive_pair() {
    assert_eq!(
        derive("struct Pair(u32, u32);").unwrap(),
        "impl crate :: types :: SizedOnDisk for Pair { fn size (& self) -> usize { \
         0 + crate :: types :: SizedOnDisk :: size (& self . 0) \
         + crate :: types :: SizedOnDisk :: size (& self . 1) } }"
    );
}

#[test]
fn derive_either_fails() {
    assert_eq!(
        derive("enum Either { A(u32), B(u32) }"),
        Err(GenerateError::UnsupportedShape { target: "Either".to_string() })
    );
}

#[test]
fn derive_union_fails() {
    assert_eq!(
        derive("union Bits { a: u32, b: f32 }"),
        Err(GenerateError::UnsupportedShape { target: "Bits".to_string() })
    );
}

#[test]
fn derive_rejects_what_is_no_declaration() {
    let outcome = derive("fn size() -> usize { 0 }");
    assert!(matches!(outcome, Err(GenerateError::NotADeclaration { .. })));
    let outcome = derive("");
    assert!(matches!(outcome, Err(GenerateError::NotADeclaration { .. })));
}

#[test]
fn derive_keeps_generics_and_where_clause() {
    assert_eq!(
        derive(
            "pub struct Window<'a, T: Clone = u8, U, const N: usize = 4> \
             where T: Default { items: &'a [T; N], #[dignore] scratch: U }"
        )
        .unwrap(),
        "impl <'a , T : Clone + crate :: types :: SizedOnDisk , \
         U : crate :: types :: SizedOnDisk , const N : usize > \
         crate :: types :: SizedOnDisk for Window <'a , T , U , N > where T : Default \
         { fn size (& self) -> usize { \
         0 + crate :: types :: SizedOnDisk :: size (& self . items) } }"
    );
}

#[test]
fn derive_is_the_same_as_the_hand_written_implementation() {
    let expected = TokenStream::from_str(
        "impl<T: crate::types::SizedOnDisk> crate::types::SizedOnDisk for Triple<T> {
            fn size(&self) -> usize {
                0 + crate::types::SizedOnDisk::size(&self.0)
                    + crate::types::SizedOnDisk::size(&self.2)
            }
        }",
    )
    .unwrap();
    assert_eq!(
        derive("struct Triple<T>(T, #[dignore] T, T);").unwrap(),
        expected.to_string()
    );
}

#[test]
fn derive_twice_gives_the_same_tokens() {
    let source = "struct Wrapper<T> { inner: T, #[dignore] cache: Vec<u8> }";
    assert_eq!(derive(source), derive(source));
}

#[test]
fn marker_with_arguments_does_not_exclude_a_field() {
    assert_eq!(
        derive(
            "struct S { #[dignore(always)] a: u8, #[dignore = \"yes\"] b: u8, \
             #[other::dignore] c: u8, #[doc = \"x\"] #[dignore] d: u8 }"
        )
        .unwrap(),
        "impl crate :: types :: SizedOnDisk for S { fn size (& self) -> usize { \
         0 + crate :: types :: SizedOnDisk :: size (& self . a) \
         + crate :: types :: SizedOnDisk :: size (& self . b) \
         + crate :: types :: SizedOnDisk :: size (& self . c) } }"
    );
}

#[test]
fn read_named_declaration() {
    let (declaration, spans) =
        read("struct Wrapper<T> { inner: T, #[serde(skip)] #[dignore] cache: Vec<u8> }");
    assert_eq!(
        declaration,
        TypeDeclaration {
            name: "Wrapper".to_string(),
            generics: vec![GenericParam::Type { name: "T".to_string(), bounds: Vec::new() }],
            where_predicates: Vec::new(),
            shape: Shape::NamedFields(vec![
                field(FieldId::Name("inner".to_string()), "T", &[]),
                field(FieldId::Name("cache".to_string()), "Vec < u8 >", &["dignore"]),
            ]),
        }
    );
    assert_eq!(spans, 2);
}

#[test]
fn read_positional_declaration() {
    let (declaration, spans) = read("struct Pair(u32, #[dignore] #[other] u64);");
    assert_eq!(
        declaration,
        TypeDeclaration {
            name: "Pair".to_string(),
            generics: Vec::new(),
            where_predicates: Vec::new(),
            shape: Shape::PositionalFields(vec![
                field(FieldId::Index(0), "u32", &[]),
                field(FieldId::Index(1), "u64", &["dignore", "other"]),
            ]),
        }
    );
    assert_eq!(spans, 2);
}

#[test]
fn read_generics_and_predicates() {
    let (declaration, spans) = read(
        "struct Window<'a, 'b: 'a, T: Clone + Iterator<Item = u8>, const N: usize> \
         where T: Default, Vec<T>: Send;",
    );
    assert_eq!(
        declaration,
        TypeDeclaration {
            name: "Window".to_string(),
            generics: vec![
                GenericParam::Lifetime { name: "'a".to_string(), bounds: Vec::new() },
                GenericParam::Lifetime { name: "'b".to_string(), bounds: vec!["'a".to_string()] },
                GenericParam::Type {
                    name: "T".to_string(),
                    bounds: vec!["Clone".to_string(), "Iterator < Item = u8 >".to_string()],
                },
                GenericParam::Const { name: "N".to_string(), ty: "usize".to_string() },
            ],
            where_predicates: vec!["T : Default".to_string(), "Vec < T > : Send".to_string()],
            shape: Shape::NoFields,
        }
    );
    assert_eq!(spans, 0);
}

#[test]
fn read_enum_and_union() {
    let (declaration, spans) = read("enum Either { A(u32), B(u32) }");
    assert_eq!(declaration.name, "Either");
    assert_eq!(declaration.shape, Shape::Variants);
    assert_eq!(spans, 0);
    let (declaration, spans) = read("union Bits { a: u32, b: f32 }");
    assert_eq!(declaration.name, "Bits");
    assert_eq!(declaration.shape, Shape::Union);
    assert_eq!(spans, 0);
}

#[test]
fn tokens_from_a_hand_written_declaration() {
    let declaration = TypeDeclaration {
        name: "Pair".to_string(),
        generics: vec![GenericParam::Type { name: "T".to_string(), bounds: Vec::new() }],
        where_predicates: vec!["T: Copy".to_string()],
        shape: Shape::PositionalFields(vec![
            field(FieldId::Index(0), "T", &[]),
            field(FieldId::Index(1), "T", &["dignore"]),
        ]),
    };
    let spans = vec![Span::call_site(), Span::call_site()];
    assert_eq!(
        derive_from_declaration(&declaration, &spans).unwrap().to_string(),
        "impl < T : crate :: types :: SizedOnDisk > crate :: types :: SizedOnDisk \
         for Pair < T > where T : Copy { fn size (& self) -> usize { \
         0 + crate :: types :: SizedOnDisk :: size (& self . 0) } }"
    );
    assert_eq!(
        derive_from_declaration(&declaration, &Vec::new()).unwrap().to_string(),
        derive_from_declaration(&declaration, &spans).unwrap().to_string()
    );
}

#[test]
fn tokens_from_a_syntax_tree() {
    let tree: syn::DeriveInput =
        syn::parse_str("struct Node<'a, T> { next: &'a Node<'a, T>, #[dignore] hits: u64, value: T }")
            .unwrap();
    assert_eq!(
        derive_from_tree(&tree).unwrap().to_string(),
        "impl <'a , T : crate :: types :: SizedOnDisk > crate :: types :: SizedOnDisk \
         for Node <'a , T > { fn size (& self) -> usize { \
         0 + crate :: types :: SizedOnDisk :: size (& self . next) \
         + crate :: types :: SizedOnDisk :: size (& self . value) } }"
    );
    let tree: syn::DeriveInput = syn::parse_str("union Bits { a: u32, b: f32 }").unwrap();
    assert_eq!(
        derive_from_tree(&tree).map(|tokens| tokens.to_string()),
        Err(GenerateError::UnsupportedShape { target: "Bits".to_string() })
    );
}

#[test]
fn raw_and_non_ascii_names_are_kept() {
    assert_eq!(
        derive("struct Größe { r#type: u8, länge: u8 }").unwrap(),
        "impl crate :: types :: SizedOnDisk for Größe { fn size (& self) -> usize { \
         0 + crate :: types :: SizedOnDisk :: size (& self . r#type) \
         + crate :: types :: SizedOnDisk :: size (& self . länge) } }"
    );
}

#[test]
fn empty_braces_and_parentheses_give_zero() {
    assert_eq!(
        derive("struct Empty {}").unwrap(),
        "impl crate :: types :: SizedOnDisk for Empty { fn size (& self) -> usize { 0 } }"
    );
    assert_eq!(
        derive("struct Empty();").unwrap(),
        "impl crate :: types :: SizedOnDisk for Empty { fn size (& self) -> usize { 0 } }"
    );
    let (declaration, spans) = read("struct Empty {}");
    assert_eq!(declaration.shape, Shape::NamedFields(Vec::new()));
    assert_eq!(spans, 0);
    let (declaration, spans) = read("struct Empty();");
    assert_eq!(declaration.shape, Shape::PositionalFields(Vec::new()));
    assert_eq!(spans, 0);
}

#[test]
fn tokens_refuse_an_enum() {
    let declaration = TypeDeclaration {
        name: "Either".to_string(),
        generics: Vec::new(),
        where_predicates: Vec::new(),
        shape: Shape::Variants,
    };
    assert_eq!(
        derive_from_declaration(&declaration, &Vec::new()).map(|tokens| tokens.to_string()),
        Err(GenerateError::UnsupportedShape { target: "Either".to_string() })
    );
}

#[test]
fn unreadable_name_is_reported_with_its_text() {
    let declaration = TypeDeclaration {
        name: "Broken(".to_string(),
        generics: Vec::new(),
        where_predicates: Vec::new(),
        shape: Shape::NoFields,
    };
    assert_eq!(
        derive_from_declaration(&declaration, &Vec::new()).map(|tokens| tokens.to_string()),
        Err(GenerateError::MalformedInput {
            fragment: "impl crate::types::SizedOnDisk for Broken(".to_string()
        })
    );
}

#[test]
fn unreadable_field_is_reported_with_its_term() {
    let declaration = TypeDeclaration {
        name: "S".to_string(),
        generics: Vec::new(),
        where_predicates: Vec::new(),
        shape: Shape::NamedFields(vec![
            field(FieldId::Name("fine".to_string()), "u8", &[]),
            field(FieldId::Name("not]fine".to_string()), "u8", &[]),
        ]),
    };
    let implementation = generate_implementation(&declaration).unwrap();
    assert_eq!(
        emit_tokens(&implementation, &Vec::new()).map(|tokens| tokens.to_string()),
        Err(GenerateError::MalformedInput {
            fragment: "crate::types::SizedOnDisk::size(&self.not]fine)".to_string()
        })
    );
}

#[test]
fn every_term_gets_a_span() {
    let fields = vec![
        field(FieldId::Name("a".to_string()), "u8", &["dignore"]),
        field(FieldId::Name("b".to_string()), "u8", &[]),
        field(FieldId::Name("c".to_string()), "u8", &[]),
    ];
    let declaration = TypeDeclaration {
        name: "S".to_string(),
        generics: Vec::new(),
        where_predicates: Vec::new(),
        shape: Shape::NamedFields(fields.clone()),
    };
    let implementation = generate_implementation(&declaration).unwrap();
    let spans = vec![Span::call_site(); 3];
    let here = Span::call_site();
    assert_eq!(term_spans(&fields, &spans, &implementation.body, here).len(), 2);
    assert_eq!(term_spans(&fields, &Vec::new(), &implementation.body, here).len(), 2);
    assert_eq!(term_spans(&Vec::new(), &spans, &implementation.body, here).len(), 2);
}
