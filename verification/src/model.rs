//! The declaration of a type as the generator sees it, in plain values.

use vstd::prelude::*;

verus! {

/// One generic parameter of a declaration.
///
/// Bounds, outlived lifetimes and the type of a const parameter are kept as
/// source text: the generator passes them through and never looks inside.
#[derive(Debug, PartialEq, Eq)]
pub enum GenericParam {
    /// `'a: 'b + 'c`; `name` includes the apostrophe.
    Lifetime { name: String, bounds: Vec<String> },
    /// `T: Clone + Default`.
    Type { name: String, bounds: Vec<String> },
    /// `const N: usize`.
    Const { name: String, ty: String },
}

/// Mathematical value of a [`GenericParam`].
pub enum GenericParamView {
    Lifetime { name: Seq<char>, bounds: Seq<Seq<char>> },
    Type { name: Seq<char>, bounds: Seq<Seq<char>> },
    Const { name: Seq<char>, ty: Seq<char> },
}

impl DeepView for GenericParam {
    type V = GenericParamView;

    open spec fn deep_view(&self) -> GenericParamView {
        match *self {
            GenericParam::Lifetime { name, bounds } => GenericParamView::Lifetime {
                name: name@,
                bounds: bounds.deep_view(),
            },
            GenericParam::Type { name, bounds } => GenericParamView::Type {
                name: name@,
                bounds: bounds.deep_view(),
            },
            GenericParam::Const { name, ty } => GenericParamView::Const { name: name@, ty: ty@ },
        }
    }
}

impl View for GenericParam {
    type V = GenericParamView;

    open spec fn view(&self) -> GenericParamView {
        self.deep_view()
    }
}

/// How a field is reached from a value of the declared type.
#[derive(Debug, PartialEq, Eq, Hash)]
pub enum FieldId {
    /// `self.name`, in a declaration with named fields.
    Name(String),
    /// `self.0`, `self.1`, ...: the zero-based place of the field in a
    /// declaration with positional fields.
    Index(usize),
}

/// Mathematical value of a [`FieldId`].
pub enum FieldIdView {
    Name(Seq<char>),
    Index(nat),
}

impl DeepView for FieldId {
    type V = FieldIdView;

    open spec fn deep_view(&self) -> FieldIdView {
        match *self {
            FieldId::Name(name) => FieldIdView::Name(name@),
            FieldId::Index(index) => FieldIdView::Index(index as nat),
        }
    }
}

impl View for FieldId {
    type V = FieldIdView;

    open spec fn view(&self) -> FieldIdView {
        self.deep_view()
    }
}

/// One field of a declaration.
#[derive(Debug, PartialEq, Eq)]
pub struct Field {
    pub id: FieldId,
    /// The field's type as source text; carried along, never inspected.
    pub declared_type: String,
    /// Names of the bare markers attached to the field, such as `dignore`
    /// for `#[dignore]`.
    pub annotations: Vec<String>,
}

/// Mathematical value of a [`Field`].
pub struct FieldView {
    pub id: FieldIdView,
    pub declared_type: Seq<char>,
    pub annotations: Seq<Seq<char>>,
}

impl DeepView for Field {
    type V = FieldView;

    open spec fn deep_view(&self) -> FieldView {
        FieldView {
            id: self.id@,
            declared_type: self.declared_type@,
            annotations: self.annotations.deep_view(),
        }
    }
}

impl View for Field {
    type V = FieldView;

    open spec fn view(&self) -> FieldView {
        self.deep_view()
    }
}

/// What a declaration holds.
#[derive(Debug, PartialEq, Eq)]
pub enum Shape {
    /// `struct S { a: A, b: B }`.
    NamedFields(Vec<Field>),
    /// `struct S(A, B);`.
    PositionalFields(Vec<Field>),
    /// `struct S;`.
    NoFields,
    /// `enum E { .. }`: no implementation is generated for it.
    Variants,
    /// `union U { .. }`: no implementation is generated for it.
    Union,
}

/// Mathematical value of a [`Shape`].
pub enum ShapeView {
    NamedFields(Seq<FieldView>),
    PositionalFields(Seq<FieldView>),
    NoFields,
    Variants,
    Union,
}

impl ShapeView {
    /// Whether an implementation can be generated for a declaration of this shape.
    pub open spec fn is_supported(self) -> bool {
        !(self is Variants) && !(self is Union)
    }

    /// The declared fields, in order; none for a shape without fields.
    pub open spec fn fields(self) -> Seq<FieldView> {
        match self {
            ShapeView::NamedFields(fields) => fields,
            ShapeView::PositionalFields(fields) => fields,
            _ => Seq::empty(),
        }
    }
}

impl DeepView for Shape {
    type V = ShapeView;

    open spec fn deep_view(&self) -> ShapeView {
        match *self {
            Shape::NamedFields(fields) => ShapeView::NamedFields(fields.deep_view()),
            Shape::PositionalFields(fields) => ShapeView::PositionalFields(fields.deep_view()),
            Shape::NoFields => ShapeView::NoFields,
            Shape::Variants => ShapeView::Variants,
            Shape::Union => ShapeView::Union,
        }
    }
}

impl View for Shape {
    type V = ShapeView;

    open spec fn view(&self) -> ShapeView {
        self.deep_view()
    }
}

/// The declaration that an implementation is generated for.
#[derive(Debug, PartialEq, Eq)]
pub struct TypeDeclaration {
    pub name: String,
    pub generics: Vec<GenericParam>,
    /// The predicates of the `where` clause as source text, in order.
    pub where_predicates: Vec<String>,
    pub shape: Shape,
}

/// Mathematical value of a [`TypeDeclaration`].
pub struct TypeDeclarationView {
    pub name: Seq<char>,
    pub generics: Seq<GenericParamView>,
    pub where_predicates: Seq<Seq<char>>,
    pub shape: ShapeView,
}

impl DeepView for TypeDeclaration {
    type V = TypeDeclarationView;

    open spec fn deep_view(&self) -> TypeDeclarationView {
        TypeDeclarationView {
            name: self.name@,
            generics: self.generics.deep_view(),
            where_predicates: self.where_predicates.deep_view(),
            shape: self.shape@,
        }
    }
}

impl View for TypeDeclaration {
    type V = TypeDeclarationView;

    open spec fn view(&self) -> TypeDeclarationView {
        self.deep_view()
    }
}

/// A copy of a list of strings.
pub fn copy_strings(list: &Vec<String>) -> (copy: Vec<String>)
    ensures
        copy.deep_view() == list.deep_view(),
{
    let mut copy: Vec<String> = Vec::new();
    let mut i: usize = 0;
    while i < list.len()
        invariant
            i <= list.len(),
            copy.len() == i,
            forall|j: int| 0 <= j < i ==> copy[j]@ == list[j]@,
        decreases list.len() - i,
    {
        copy.push(list[i].clone());
        i = i + 1;
    }
    assert(copy.deep_view() =~= list.deep_view());
    copy
}

impl Clone for GenericParam {
    fn clone(&self) -> (copy: GenericParam)
        ensures
            copy@ == self@,
    {
        match self {
            GenericParam::Lifetime { name, bounds } => GenericParam::Lifetime {
                name: name.clone(),
                bounds: copy_strings(bounds),
            },
            GenericParam::Type { name, bounds } => GenericParam::Type {
                name: name.clone(),
                bounds: copy_strings(bounds),
            },
            GenericParam::Const { name, ty } => GenericParam::Const {
                name: name.clone(),
                ty: ty.clone(),
            },
        }
    }
}

impl Clone for FieldId {
    fn clone(&self) -> (copy: FieldId)
        ensures
            copy@ == self@,
    {
        match self {
            FieldId::Name(name) => FieldId::Name(name.clone()),
            FieldId::Index(index) => FieldId::Index(*index),
        }
    }
}

impl Clone for Field {
    fn clone(&self) -> (copy: Field)
        ensures
            copy@ == self@,
    {
        Field {
            id: self.id.clone(),
            declared_type: self.declared_type.clone(),
            annotations: copy_strings(&self.annotations),
        }
    }
}

/// A copy of a list of generic parameters.
pub fn copy_generics(list: &Vec<GenericParam>) -> (copy: Vec<GenericParam>)
    ensures
        copy.deep_view() == list.deep_view(),
{
    let mut copy: Vec<GenericParam> = Vec::new();
    let mut i: usize = 0;
    while i < list.len()
        invariant
            i <= list.len(),
            copy.len() == i,
            forall|j: int| 0 <= j < i ==> copy[j]@ == list[j]@,
        decreases list.len() - i,
    {
        copy.push(list[i].clone());
        i = i + 1;
    }
    assert(copy.deep_view() =~= list.deep_view());
    copy
}

/// A copy of a list of fields.
pub fn copy_fields(list: &Vec<Field>) -> (copy: Vec<Field>)
    ensures
        copy.deep_view() == list.deep_view(),
{
    let mut copy: Vec<Field> = Vec::new();
    let mut i: usize = 0;
    while i < list.len()
        invariant
            i <= list.len(),
            copy.len() == i,
            forall|j: int| 0 <= j < i ==> copy[j]@ == list[j]@,
        decreases list.len() - i,
    {
        copy.push(list[i].clone());
        i = i + 1;
    }
    assert(copy.deep_view() =~= list.deep_view());
    copy
}

impl Shape {
    /// The declared fields of a struct with named or positional fields.
    pub fn declared_fields(&self) -> (fields: Option<&Vec<Field>>)
        ensures
            match fields {
                Some(list) => list.deep_view() == self@.fields() && (self@ is NamedFields
                    || self@ is PositionalFields),
                None => !(self@ is NamedFields) && !(self@ is PositionalFields),
            },
    {
        match self {
            Shape::NamedFields(fields) => Some(fields),
            Shape::PositionalFields(fields) => Some(fields),
            _ => None,
        }
    }
}

impl FieldId {
    /// Tells whether two identities name the same field.
    pub fn same_as(&self, other: &FieldId) -> (same: bool)
        ensures
            same == (self@ == other@),
    {
        match (self, other) {
            (FieldId::Name(a), FieldId::Name(b)) => *a == *b,
            (FieldId::Index(a), FieldId::Index(b)) => *a == *b,
            _ => false,
        }
    }
}

impl Clone for Shape {
    fn clone(&self) -> (copy: Shape)
        ensures
            copy@ == self@,
    {
        match self {
            Shape::NamedFields(fields) => Shape::NamedFields(copy_fields(fields)),
            Shape::PositionalFields(fields) => Shape::PositionalFields(copy_fields(fields)),
            Shape::NoFields => Shape::NoFields,
            Shape::Variants => Shape::Variants,
            Shape::Union => Shape::Union,
        }
    }
}

impl Clone for TypeDeclaration {
    fn clone(&self) -> (copy: TypeDeclaration)
        ensures
            copy@ == self@,
    {
        TypeDeclaration {
            name: self.name.clone(),
            generics: copy_generics(&self.generics),
            where_predicates: copy_strings(&self.where_predicates),
            shape: self.shape.clone(),
        }
    }
}

} // verus!
