//! Generator of `SizedOnDisk` implementations.
//!
//! Given the declaration of a struct, the generator produces the
//! implementation block whose `size` function sums the sizes of the fields
//! that are not marked `#[dignore]`.

pub mod bounds;
pub mod generate;
pub mod model;
pub mod render;
pub mod select;
pub mod sum;
pub mod syntax;
pub mod text;
pub mod tokens;

use crate::generate::{
    generate_implementation, implementation_of, GenerateError, GenerateErrorView,
};
use crate::model::{TypeDeclaration, TypeDeclarationView};
use crate::syntax::{declaration_in, error_text, parse_declaration, parsed, read_declaration};
use crate::tokens::{call_site, emit_tokens, emitted, term_spans, tokens_of};
use proc_macro2::{Span, TokenStream};
use syn::DeriveInput;
use vstd::prelude::*;

verus! {

/// What is derived for a declaration: the tokens of its implementation; the
/// refusal of an enum or a union; or, where a part of the declaration is not
/// made of tokens, the error that holds that part.
pub open spec fn derived_from(
    decl: TypeDeclarationView,
    outcome: Result<TokenStream, GenerateError>,
) -> bool {
    match implementation_of(decl) {
        Ok(implementation) => emitted(implementation, outcome),
        Err(refusal) => outcome matches Err(error) && error@ == refusal,
    }
}

/// Generates the tokens of the implementation for a declaration.
///
/// `field_spans[p]` is taken to be the place of the declaration's field `p`
/// in the source: the tokens of each term are attributed to the field that
/// the term came from.
pub fn derive_from_declaration(decl: &TypeDeclaration, field_spans: &Vec<Span>) -> (outcome: Result<
    TokenStream,
    GenerateError,
>)
    ensures
        derived_from(decl@, outcome),
{
    let implementation = match generate_implementation(decl) {
        Ok(implementation) => implementation,
        Err(refusal) => {
            return Err(refusal);
        },
    };
    let spans = match decl.shape.declared_fields() {
        Some(fields) => term_spans(fields, field_spans, &implementation.body, call_site()),
        None => Vec::new(),
    };
    emit_tokens(&implementation, &spans)
}

/// Deriving twice for the same declaration gives tokens twice or fails
/// twice; the tokens are the same, and so is the refusal of an enum or a
/// union.
pub proof fn lemma_derivation_is_repeatable(
    decl: TypeDeclarationView,
    first: Result<TokenStream, GenerateError>,
    second: Result<TokenStream, GenerateError>,
)
    requires
        derived_from(decl, first),
        derived_from(decl, second),
    ensures
        first is Ok <==> second is Ok,
        first matches Ok(a) ==> second matches Ok(b) && tokens_of(a) == tokens_of(b),
        first matches Err(a) ==> second matches Err(b) && (a@ is UnsupportedShape ==> b@ == a@),
{
}

/// Nothing is derived for an enum or a union: the outcome is the error
/// that names the type, never tokens.
pub proof fn lemma_enum_or_union_is_refused(
    decl: TypeDeclarationView,
    outcome: Result<TokenStream, GenerateError>,
)
    requires
        decl.shape is Variants || decl.shape is Union,
        derived_from(decl, outcome),
    ensures
        outcome matches Err(error) && error@ == (GenerateErrorView::UnsupportedShape {
            target: decl.name,
        }),
{
}

/// Derives `SizedOnDisk` for the declaration that a syntax tree holds.
///
/// The tokens of each term are attributed to the place of its field in the
/// source.
pub fn derive_from_tree(tree: &DeriveInput) -> (outcome: Result<TokenStream, GenerateError>)
    ensures
        derived_from(declaration_in(*tree), outcome),
{
    let (decl, field_spans) = read_declaration(tree);
    derive_from_declaration(&decl, &field_spans)
}

/// Derives `SizedOnDisk` for the declaration that `input` holds.
///
/// The tokens are parsed by `syn`. If they are no declaration, the error
/// says so, with the parser's message. Else the outcome is what is derived
/// for the declaration that was read.
pub fn derive_disk_size(input: TokenStream) -> (outcome: Result<TokenStream, GenerateError>)
    ensures
        match parsed(tokens_of(input)) {
            Some(decl) => derived_from(decl, outcome),
            None => outcome matches Err(error) && error@ is NotADeclaration,
        },
{
    let tree = match parse_declaration(input) {
        Ok(tree) => tree,
        Err(error) => {
            return Err(GenerateError::NotADeclaration { message: error_text(&error) });
        },
    };
    derive_from_tree(&tree)
}

} // verus!
