//! Reading a declaration from the syntax tree that `syn` parses.

use crate::model::{
    Field, FieldId, FieldIdView, FieldView, GenericParam, GenericParamView, Shape, ShapeView,
    TypeDeclaration, TypeDeclarationView,
};
use crate::tokens::{call_site, tokens_of, TokenView};
use proc_macro2::{Span, TokenStream};
use quote::ToTokens;
use syn::spanned::Spanned;
use syn::{Data, DeriveInput, Fields};
use vstd::prelude::*;

verus! {

/// `syn::DeriveInput`, the parsed declaration of a struct, enum or union.
#[verifier::external_type_specification]
#[verifier::external_body]
pub struct ExDeriveInput(DeriveInput);

/// `syn::Error`, the reason why tokens could not be parsed.
#[verifier::external_type_specification]
#[verifier::external_body]
pub struct ExError(syn::Error);

/// What kind of declaration a syntax tree holds.
pub enum DeclaredKind {
    NamedFields,
    PositionalFields,
    NoFields,
    Variants,
    Union,
}

/// One field as it stands in a syntax tree.
pub struct ParsedField {
    /// The name, if the field has one.
    pub name: Option<Seq<char>>,
    /// The type, written out as text.
    pub declared_type: Seq<char>,
    /// For each attribute in order the name of the marker, if the attribute
    /// is a bare marker such as `#[dignore]`, and none for an attribute
    /// with arguments, with a value or with a longer path.
    pub attributes: Seq<Option<Seq<char>>>,
}

/// The name that the tree declares.
pub uninterp spec fn name_in(tree: DeriveInput) -> Seq<char>;

/// The generic parameters that the tree holds, in order, without their
/// defaults and attributes.
pub uninterp spec fn params_in(tree: DeriveInput) -> Seq<GenericParamView>;

/// The predicates of the `where` clause that the tree holds, in order.
pub uninterp spec fn predicates_in(tree: DeriveInput) -> Seq<Seq<char>>;

/// The kind of declaration that the tree holds.
pub uninterp spec fn kind_in(tree: DeriveInput) -> DeclaredKind;

/// The fields of the struct that the tree holds, in order; none for an
/// enum or a union.
pub uninterp spec fn fields_in(tree: DeriveInput) -> Seq<ParsedField>;

/// The declaration that `syn::parse2` reads from the token trees, if they
/// are the declaration of a struct, an enum or a union.
pub uninterp spec fn parsed(tokens: Seq<TokenView>) -> Option<TypeDeclarationView>;

/// `syn::parse2` for `DeriveInput`: parses the tokens of one declaration.
/// The contract claims that success, and the declaration that the tree
/// holds, depend on the token trees alone and not on their spans.
#[verifier::external_body]
pub(crate) fn parse_declaration(input: TokenStream) -> (outcome: Result<DeriveInput, syn::Error>)
    ensures
        outcome matches Ok(tree) ==> parsed(tokens_of(input)) == Some(declaration_in(tree)),
        outcome is Err ==> parsed(tokens_of(input)) is None,
{
    syn::parse2::<DeriveInput>(input)
}

/// `Display` of `syn::Error`: the message of the error. Nothing is claimed
/// of the text.
#[verifier::external_body]
pub(crate) fn error_text(error: &syn::Error) -> String {
    error.to_string()
}

/// `Display` of the `ident` of a `syn::DeriveInput`: the declared name.
#[verifier::external_body]
fn declared_name(tree: &DeriveInput) -> (name: String)
    ensures
        name@ == name_in(*tree),
{
    tree.ident.to_string()
}

/// `Punctuated::len` on the generic parameters of the tree: their number.
#[verifier::external_body]
fn generic_count(tree: &DeriveInput) -> (count: usize)
    ensures
        count == params_in(*tree).len(),
{
    tree.generics.params.len()
}

/// `Punctuated::get` on the generic parameters of the tree, with the
/// variants of `syn::GenericParam` told apart and the parts written out as
/// text: the name by `Display`, the type of a const parameter by
/// `ToTokens::to_token_stream`. Below the number of parameters the result is
/// the parameter at `index` without its bounds.
#[verifier::external_body]
fn generic_head(tree: &DeriveInput, index: usize) -> (head: Option<GenericParam>)
    ensures
        index < params_in(*tree).len() ==> head.deep_view() == Some(
            with_bounds(params_in(*tree)[index as int], Seq::empty())
        ),
{
    Some(match tree.generics.params.get(index)? {
        syn::GenericParam::Lifetime(p) => GenericParam::Lifetime {
            name: p.lifetime.to_string(),
            bounds: Vec::new(),
        },
        syn::GenericParam::Type(p) => GenericParam::Type {
            name: p.ident.to_string(),
            bounds: Vec::new(),
        },
        syn::GenericParam::Const(p) => GenericParam::Const {
            name: p.ident.to_string(),
            ty: p.ty.to_token_stream().to_string(),
        },
    })
}

/// `Punctuated::len` on the bounds of the generic parameter at `index`: the
/// number of bounds of a lifetime or type parameter, and none for a const
/// parameter, which has no bounds, or where there is no such parameter.
#[verifier::external_body]
fn bound_count(tree: &DeriveInput, index: usize) -> (count: Option<usize>)
    ensures
        count matches Some(number) ==> index < params_in(*tree).len() && number == bounds_of(
            params_in(*tree)[index as int]
        ).len(),
        count is None && index < params_in(*tree).len() ==> bounds_of(
            params_in(*tree)[index as int]
        ).len() == 0,
{
    match tree.generics.params.get(index)? {
        syn::GenericParam::Lifetime(p) => Some(p.bounds.len()),
        syn::GenericParam::Type(p) => Some(p.bounds.len()),
        syn::GenericParam::Const(_) => None,
    }
}

/// `Punctuated::get` on the bounds of the generic parameter at `index`,
/// written out as text: a lifetime by `Display`, the bound of a type
/// parameter by `ToTokens::to_token_stream`. Below the number of bounds the
/// result is the bound at `at`.
#[verifier::external_body]
fn bound_text(tree: &DeriveInput, index: usize, at: usize) -> (text: Option<String>)
    ensures
        index < params_in(*tree).len() && at < bounds_of(params_in(*tree)[index as int]).len()
            ==> text.deep_view() == Some(bounds_of(params_in(*tree)[index as int])[at as int]),
{
    match tree.generics.params.get(index)? {
        syn::GenericParam::Lifetime(p) => Some(p.bounds.get(at)?.to_string()),
        syn::GenericParam::Type(p) => Some(p.bounds.get(at)?.to_token_stream().to_string()),
        syn::GenericParam::Const(_) => None,
    }
}

/// `Punctuated::len` on the predicates of the `where` clause of the tree:
/// their number, and none without a clause.
#[verifier::external_body]
fn predicate_count(tree: &DeriveInput) -> (count: Option<usize>)
    ensures
        match count {
            Some(number) => number == predicates_in(*tree).len(),
            None => predicates_in(*tree).len() == 0,
        },
{
    match &tree.generics.where_clause {
        Some(clause) => Some(clause.predicates.len()),
        None => None,
    }
}

/// `Punctuated::get` on the predicates of the `where` clause of the tree,
/// written out by `ToTokens::to_token_stream`: below the number of
/// predicates, the predicate at `index`.
#[verifier::external_body]
fn predicate_text(tree: &DeriveInput, index: usize) -> (text: Option<String>)
    ensures
        index < predicates_in(*tree).len() ==> text.deep_view() == Some(
            predicates_in(*tree)[index as int]
        ),
{
    Some(tree.generics.where_clause.as_ref()?.predicates.get(index)?.to_token_stream().to_string())
}

/// Tells the variants of `syn::Data` and, for a struct, of `syn::Fields`
/// apart.
#[verifier::external_body]
fn declared_kind(tree: &DeriveInput) -> (kind: DeclaredKind)
    ensures
        kind == kind_in(*tree),
{
    match &tree.data {
        Data::Struct(data) => match &data.fields {
            Fields::Named(_) => DeclaredKind::NamedFields,
            Fields::Unnamed(_) => DeclaredKind::PositionalFields,
            Fields::Unit => DeclaredKind::NoFields,
        },
        Data::Enum(_) => DeclaredKind::Variants,
        Data::Union(_) => DeclaredKind::Union,
    }
}

/// `Fields::len` on the fields of a struct: their number. For an enum or a
/// union there is no number, and no field is held.
#[verifier::external_body]
fn field_count(tree: &DeriveInput) -> (count: Option<usize>)
    ensures
        match count {
            Some(number) => number == fields_in(*tree).len(),
            None => fields_in(*tree).len() == 0,
        },
{
    match &tree.data {
        Data::Struct(data) => Some(data.fields.len()),
        _ => None,
    }
}

/// `Display` of the `ident` of the field at `index`, reached by
/// `Fields::iter`: below the number of fields, the name of the field if it
/// has one.
#[verifier::external_body]
fn field_name(tree: &DeriveInput, index: usize) -> (name: Option<String>)
    ensures
        index < fields_in(*tree).len() ==> name.deep_view() == fields_in(*tree)[index as int].name,
{
    match &tree.data {
        Data::Struct(data) => Some(data.fields.iter().nth(index)?.ident.as_ref()?.to_string()),
        _ => None,
    }
}

/// `ToTokens::to_token_stream` on the type of the field at `index`, as
/// text: below the number of fields, the type of the field.
#[verifier::external_body]
fn field_type_text(tree: &DeriveInput, index: usize) -> (text: Option<String>)
    ensures
        index < fields_in(*tree).len() ==> text.deep_view() == Some(
            fields_in(*tree)[index as int].declared_type
        ),
{
    match &tree.data {
        Data::Struct(data) => Some(data.fields.iter().nth(index)?.ty.to_token_stream().to_string()),
        _ => None,
    }
}

/// `syn::spanned::Spanned::span` of the field at `index`: where the field
/// stands in the source. Nothing is claimed of the span.
#[verifier::external_body]
fn field_span(tree: &DeriveInput, index: usize) -> Option<Span> {
    match &tree.data {
        Data::Struct(data) => Some(data.fields.iter().nth(index)?.span()),
        _ => None,
    }
}

/// `Vec::len` of the `attrs` of the field at `index`: the number of the
/// field's attributes, and none where there is no such field.
#[verifier::external_body]
fn attribute_count(tree: &DeriveInput, index: usize) -> (count: Option<usize>)
    ensures
        index < fields_in(*tree).len() ==> count is Some,
        count matches Some(number) ==> index < fields_in(*tree).len() && number == fields_in(
            *tree
        )[index as int].attributes.len(),
{
    match &tree.data {
        Data::Struct(data) => Some(data.fields.iter().nth(index)?.attrs.len()),
        _ => None,
    }
}

/// `Meta::require_path_only` and `Path::get_ident` on attribute `at` of the
/// field at `index`: the name of a bare marker such as `#[dignore]`; none
/// for an attribute with arguments, with a value or with a longer path.
#[verifier::external_body]
fn marker_at(tree: &DeriveInput, index: usize, at: usize) -> (marker: Option<String>)
    ensures
        index < fields_in(*tree).len() && at < fields_in(*tree)[index as int].attributes.len()
            ==> marker.deep_view() == fields_in(*tree)[index as int].attributes[at as int],
{
    match &tree.data {
        Data::Struct(data) => Some(
            data.fields.iter().nth(index)?.attrs.get(at)?.meta.require_path_only().ok()?.get_ident()?.to_string(),
        ),
        _ => None,
    }
}

/// The bounds of a lifetime or type parameter; a const parameter has none.
pub open spec fn bounds_of(param: GenericParamView) -> Seq<Seq<char>> {
    match param {
        GenericParamView::Lifetime { bounds, .. } => bounds,
        GenericParamView::Type { bounds, .. } => bounds,
        GenericParamView::Const { .. } => Seq::empty(),
    }
}

/// The parameter with `bounds` in place of its own; a const parameter stays
/// as it is.
pub open spec fn with_bounds(param: GenericParamView, bounds: Seq<Seq<char>>) -> GenericParamView {
    match param {
        GenericParamView::Lifetime { name, .. } => GenericParamView::Lifetime { name, bounds },
        GenericParamView::Type { name, .. } => GenericParamView::Type { name, bounds },
        GenericParamView::Const { name, ty } => GenericParamView::Const { name, ty },
    }
}

/// The names of the bare markers among the attributes, in order.
pub open spec fn present(attributes: Seq<Option<Seq<char>>>) -> Seq<Seq<char>>
    decreases attributes.len(),
{
    if attributes.len() == 0 {
        Seq::empty()
    } else {
        match attributes.last() {
            Some(name) => present(attributes.drop_last()).push(name),
            None => present(attributes.drop_last()),
        }
    }
}

/// The field that is read from what the tree holds at `place`: it is
/// identified by its name if it has one, else by its place, and annotated
/// with the names of its bare markers.
pub open spec fn field_read(parsed: ParsedField, place: int) -> FieldView {
    FieldView {
        id: match parsed.name {
            Some(name) => FieldIdView::Name(name),
            None => FieldIdView::Index(place as nat),
        },
        declared_type: parsed.declared_type,
        annotations: present(parsed.attributes),
    }
}

/// The fields that are read from those that a tree holds.
pub open spec fn fields_read(parsed: Seq<ParsedField>) -> Seq<FieldView> {
    Seq::new(parsed.len(), |place: int| field_read(parsed[place], place))
}

/// The declaration that a tree holds.
pub open spec fn declaration_in(tree: DeriveInput) -> TypeDeclarationView {
    TypeDeclarationView {
        name: name_in(tree),
        generics: params_in(tree),
        where_predicates: predicates_in(tree),
        shape: match kind_in(tree) {
            DeclaredKind::NamedFields => ShapeView::NamedFields(fields_read(fields_in(tree))),
            DeclaredKind::PositionalFields => ShapeView::PositionalFields(
                fields_read(fields_in(tree)),
            ),
            DeclaredKind::NoFields => ShapeView::NoFields,
            DeclaredKind::Variants => ShapeView::Variants,
            DeclaredKind::Union => ShapeView::Union,
        },
    }
}

fn read_bounds(tree: &DeriveInput, index: usize) -> (bounds: Vec<String>)
    requires
        index < params_in(*tree).len(),
    ensures
        bounds.deep_view() == bounds_of(params_in(*tree)[index as int]),
{
    let ghost declared = bounds_of(params_in(*tree)[index as int]);
    let mut bounds: Vec<String> = Vec::new();
    let count = match bound_count(tree, index) {
        Some(count) => count,
        None => 0,
    };
    let mut at: usize = 0;
    while at < count
        invariant
            at <= count,
            count == declared.len(),
            index < params_in(*tree).len(),
            declared == bounds_of(params_in(*tree)[index as int]),
            bounds.len() == at,
            forall|j: int| 0 <= j < at ==> bounds[j]@ == declared[j],
        decreases count - at,
    {
        match bound_text(tree, index, at) {
            Some(text) => {
                bounds.push(text);
            },
            None => {},
        }
        at = at + 1;
    }
    assert(bounds.deep_view() =~= declared);
    bounds
}

fn read_generics(tree: &DeriveInput) -> (generics: Vec<GenericParam>)
    ensures
        generics.deep_view() == params_in(*tree),
{
    let mut generics: Vec<GenericParam> = Vec::new();
    let count = generic_count(tree);
    let mut i: usize = 0;
    while i < count
        invariant
            i <= count,
            count == params_in(*tree).len(),
            generics.len() == i,
            forall|j: int| 0 <= j < i ==> generics[j]@ == params_in(*tree)[j],
        decreases count - i,
    {
        let bounds = read_bounds(tree, i);
        match generic_head(tree, i) {
            Some(GenericParam::Lifetime { name, bounds: _ }) => {
                generics.push(GenericParam::Lifetime { name, bounds });
            },
            Some(GenericParam::Type { name, bounds: _ }) => {
                generics.push(GenericParam::Type { name, bounds });
            },
            Some(GenericParam::Const { name, ty }) => {
                generics.push(GenericParam::Const { name, ty });
            },
            None => {},
        }
        i = i + 1;
    }
    assert(generics.deep_view() =~= params_in(*tree));
    generics
}

fn read_predicates(tree: &DeriveInput) -> (predicates: Vec<String>)
    ensures
        predicates.deep_view() == predicates_in(*tree),
{
    let mut predicates: Vec<String> = Vec::new();
    let count = match predicate_count(tree) {
        Some(count) => count,
        None => 0,
    };
    let mut i: usize = 0;
    while i < count
        invariant
            i <= count,
            count == predicates_in(*tree).len(),
            predicates.len() == i,
            forall|j: int| 0 <= j < i ==> predicates[j]@ == predicates_in(*tree)[j],
        decreases count - i,
    {
        match predicate_text(tree, i) {
            Some(text) => {
                predicates.push(text);
            },
            None => {},
        }
        i = i + 1;
    }
    assert(predicates.deep_view() =~= predicates_in(*tree));
    predicates
}

fn read_markers(tree: &DeriveInput, index: usize) -> (markers: Vec<String>)
    requires
        index < fields_in(*tree).len(),
    ensures
        markers.deep_view() == present(fields_in(*tree)[index as int].attributes),
{
    let ghost attributes = fields_in(*tree)[index as int].attributes;
    let mut markers: Vec<String> = Vec::new();
    let count = match attribute_count(tree, index) {
        Some(count) => count,
        None => 0,
    };
    let mut at: usize = 0;
    assert(attributes.take(0) =~= Seq::<Option<Seq<char>>>::empty());
    while at < count
        invariant
            at <= count,
            count == attributes.len(),
            index < fields_in(*tree).len(),
            attributes == fields_in(*tree)[index as int].attributes,
            markers.deep_view() == present(attributes.take(at as int)),
        decreases count - at,
    {
        let ghost prefix = attributes.take(at as int + 1);
        assert(prefix.drop_last() =~= attributes.take(at as int));
        assert(prefix.last() == attributes[at as int]);
        let ghost before = markers.deep_view();
        match marker_at(tree, index, at) {
            Some(name) => {
                markers.push(name);
                assert(markers.deep_view() =~= before.push(name@));
            },
            None => {},
        }
        at = at + 1;
    }
    assert(attributes.take(count as int) =~= attributes);
    markers
}

fn read_fields(tree: &DeriveInput) -> (read: (Vec<Field>, Vec<Span>))
    ensures
        read.0.deep_view() == fields_read(fields_in(*tree)),
        read.1.len() == read.0.len(),
{
    let mut fields: Vec<Field> = Vec::new();
    let mut spans: Vec<Span> = Vec::new();
    let count = match field_count(tree) {
        Some(count) => count,
        None => 0,
    };
    let mut i: usize = 0;
    while i < count
        invariant
            i <= count,
            count == fields_in(*tree).len(),
            fields.len() == i,
            spans.len() == i,
            forall|j: int| 0 <= j < i ==> fields[j]@ == field_read(fields_in(*tree)[j], j),
        decreases count - i,
    {
        let id = match field_name(tree, i) {
            Some(name) => FieldId::Name(name),
            None => FieldId::Index(i),
        };
        let declared_type = match field_type_text(tree, i) {
            Some(text) => text,
            None => String::new(),
        };
        let span = match field_span(tree, i) {
            Some(span) => span,
            None => call_site(),
        };
        fields.push(Field { id, declared_type, annotations: read_markers(tree, i) });
        spans.push(span);
        i = i + 1;
    }
    assert(fields.deep_view() =~= fields_read(fields_in(*tree)));
    (fields, spans)
}

/// Reads the declaration out of the syntax tree, and with it the place of
/// each field in the source.
///
/// A field is identified by its name if it has one, else by its place among
/// the fields. Of an attribute only the name of a bare marker is kept.
pub fn read_declaration(tree: &DeriveInput) -> (read: (TypeDeclaration, Vec<Span>))
    ensures
        read.0@ == declaration_in(*tree),
        read.1.len() == read.0@.shape.fields().len(),
{
    let name = declared_name(tree);
    let generics = read_generics(tree);
    let where_predicates = read_predicates(tree);
    let (shape, field_spans) = match declared_kind(tree) {
        DeclaredKind::NamedFields => {
            let (fields, spans) = read_fields(tree);
            (Shape::NamedFields(fields), spans)
        },
        DeclaredKind::PositionalFields => {
            let (fields, spans) = read_fields(tree);
            (Shape::PositionalFields(fields), spans)
        },
        DeclaredKind::NoFields => (Shape::NoFields, Vec::new()),
        DeclaredKind::Variants => (Shape::Variants, Vec::new()),
        DeclaredKind::Union => (Shape::Union, Vec::new()),
    };
    (TypeDeclaration { name, generics, where_predicates, shape }, field_spans)
}

} // verus!
