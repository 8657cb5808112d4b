//! Generating the implementation for a declaration.

use crate::bounds::{
    add_trait_bounds, augmented, carries_capability, lemma_type_parameters_are_bounded,
    type_parameter_count, SIZE_CAPABILITY,
};
use crate::model::{
    copy_generics, copy_strings, FieldIdView, GenericParam, GenericParamView, TypeDeclaration,
    TypeDeclarationView,
};
use crate::sum::{
    counted_size, disk_size_sum, lemma_value_is_counted_size, size_sum, SumExpression,
    SumExpressionView,
};
use crate::render::implementation_text;
use vstd::prelude::*;
use vstd::string::StringExecFns;

verus! {

/// The implementation of `crate::types::SizedOnDisk` for one declared type.
///
/// It reads `impl<generics> crate::types::SizedOnDisk for target<..>
/// where .. { fn size(&self) -> usize { body } }`.
#[derive(Debug, PartialEq, Eq)]
pub struct GeneratedImplementation {
    pub target: String,
    /// The parameters of the declaration, each type parameter with the
    /// added bound.
    pub generics: Vec<GenericParam>,
    /// The `where` predicates of the declaration, unchanged.
    pub where_predicates: Vec<String>,
    /// What `size` returns.
    pub body: SumExpression,
}

/// Mathematical value of a [`GeneratedImplementation`].
pub struct GeneratedImplementationView {
    pub target: Seq<char>,
    pub generics: Seq<GenericParamView>,
    pub where_predicates: Seq<Seq<char>>,
    pub body: SumExpressionView,
}

impl DeepView for GeneratedImplementation {
    type V = GeneratedImplementationView;

    open spec fn deep_view(&self) -> GeneratedImplementationView {
        GeneratedImplementationView {
            target: self.target@,
            generics: self.generics.deep_view(),
            where_predicates: self.where_predicates.deep_view(),
            body: self.body@,
        }
    }
}

impl View for GeneratedImplementation {
    type V = GeneratedImplementationView;

    open spec fn view(&self) -> GeneratedImplementationView {
        self.deep_view()
    }
}

impl Clone for GeneratedImplementation {
    fn clone(&self) -> (copy: GeneratedImplementation)
        ensures
            copy@ == self@,
    {
        GeneratedImplementation {
            target: self.target.clone(),
            generics: copy_generics(&self.generics),
            where_predicates: copy_strings(&self.where_predicates),
            body: self.body.clone(),
        }
    }
}

/// Why no implementation was generated.
#[derive(Debug, PartialEq, Eq)]
pub enum GenerateError {
    /// The declaration is an enum or a union.
    UnsupportedShape { target: String },
    /// The input is not the declaration of a struct, an enum or a union.
    NotADeclaration { message: String },
    /// A name, a bound or a predicate of the declaration is not made of
    /// tokens, so the implementation cannot be written down.
    MalformedInput { fragment: String },
}

/// Mathematical value of a [`GenerateError`].
pub enum GenerateErrorView {
    UnsupportedShape { target: Seq<char> },
    NotADeclaration { message: Seq<char> },
    MalformedInput { fragment: Seq<char> },
}

impl DeepView for GenerateError {
    type V = GenerateErrorView;

    open spec fn deep_view(&self) -> GenerateErrorView {
        match *self {
            GenerateError::UnsupportedShape { target } => GenerateErrorView::UnsupportedShape {
                target: target@,
            },
            GenerateError::NotADeclaration { message } => GenerateErrorView::NotADeclaration {
                message: message@,
            },
            GenerateError::MalformedInput { fragment } => GenerateErrorView::MalformedInput {
                fragment: fragment@,
            },
        }
    }
}

impl View for GenerateError {
    type V = GenerateErrorView;

    open spec fn view(&self) -> GenerateErrorView {
        self.deep_view()
    }
}

impl GenerateErrorView {
    /// The message that reports the error.
    pub open spec fn message(self) -> Seq<char> {
        match self {
            GenerateErrorView::UnsupportedShape { target } => "cannot derive SizedOnDisk for `"@
                + target + "`: enums and unions are not supported"@,
            GenerateErrorView::NotADeclaration { message } => "cannot derive SizedOnDisk: "@
                + message,
            GenerateErrorView::MalformedInput { fragment } => "cannot derive SizedOnDisk: `"@
                + fragment + "` cannot be read as tokens"@,
        }
    }
}

impl GenerateError {
    /// The message that reports the error; for an unsupported shape it
    /// names the type.
    pub fn message(&self) -> (text: String)
        ensures
            text@ == self@.message(),
    {
        match self {
            GenerateError::UnsupportedShape { target } => {
                let mut text = String::from_str("cannot derive SizedOnDisk for `");
                text.append(target.as_str());
                text.append("`: enums and unions are not supported");
                text
            },
            GenerateError::NotADeclaration { message } => {
                let mut text = String::from_str("cannot derive SizedOnDisk: ");
                text.append(message.as_str());
                text
            },
            GenerateError::MalformedInput { fragment } => {
                let mut text = String::from_str("cannot derive SizedOnDisk: `");
                text.append(fragment.as_str());
                text.append("` cannot be read as tokens");
                text
            },
        }
    }
}

/// What the generator gives for a declaration: the implementation with the
/// bounded parameters and the sum over the counted fields, or the refusal
/// of an enum or a union.
pub open spec fn implementation_of(decl: TypeDeclarationView) -> Result<
    GeneratedImplementationView,
    GenerateErrorView,
> {
    match size_sum(decl.shape) {
        Some(body) => Ok(
            GeneratedImplementationView {
                target: decl.name,
                generics: augmented(decl.generics),
                where_predicates: decl.where_predicates,
                body,
            },
        ),
        None => Err(GenerateErrorView::UnsupportedShape { target: decl.name }),
    }
}

/// Mathematical value of what the generator returns.
pub open spec fn outcome_view(outcome: Result<GeneratedImplementation, GenerateError>) -> Result<
    GeneratedImplementationView,
    GenerateErrorView,
> {
    match outcome {
        Ok(implementation) => Ok(implementation@),
        Err(error) => Err(error@),
    }
}

/// Generates the implementation for a declaration.
///
/// Either the whole implementation comes back or none: for an enum or a
/// union the result is the error that names the type.
pub fn generate_implementation(decl: &TypeDeclaration) -> (outcome: Result<
    GeneratedImplementation,
    GenerateError,
>)
    ensures
        outcome_view(outcome) == implementation_of(decl@),
{
    match disk_size_sum(&decl.shape) {
        Some(body) => Ok(
            GeneratedImplementation {
                target: decl.name.clone(),
                generics: add_trait_bounds(copy_generics(&decl.generics)),
                where_predicates: copy_strings(&decl.where_predicates),
                body,
            },
        ),
        None => Err(GenerateError::UnsupportedShape { target: decl.name.clone() }),
    }
}

/// Generating twice from the same declaration gives the same outcome: the
/// same implementation, with the same source text, or the same refusal.
pub proof fn lemma_generation_is_repeatable(
    first: TypeDeclaration,
    second: TypeDeclaration,
    from_first: Result<GeneratedImplementation, GenerateError>,
    from_second: Result<GeneratedImplementation, GenerateError>,
)
    requires
        first@ == second@,
        outcome_view(from_first) == implementation_of(first@),
        outcome_view(from_second) == implementation_of(second@),
    ensures
        outcome_view(from_first) == outcome_view(from_second),
        from_first matches Ok(a) ==> from_second matches Ok(b) && implementation_text(a@)
            == implementation_text(b@),
{
}

/// The implementation has as many type parameters as the declaration, at
/// the same places, and each of them carries the capability, whatever the
/// fields are. Parameters of other kinds are unchanged.
pub proof fn lemma_every_type_parameter_is_bounded(decl: TypeDeclarationView)
    requires
        decl.shape.is_supported(),
    ensures
        implementation_of(decl) matches Ok(implementation) && {
            &&& implementation.generics.len() == decl.generics.len()
            &&& type_parameter_count(implementation.generics) == type_parameter_count(
                decl.generics,
            )
            &&& forall|i: int|
                0 <= i < decl.generics.len() && decl.generics[i] is Type ==> carries_capability(
                    #[trigger] implementation.generics[i],
                )
            &&& forall|i: int|
                0 <= i < decl.generics.len() && !(decl.generics[i] is Type)
                    ==> #[trigger] implementation.generics[i] == decl.generics[i]
        },
{
    lemma_type_parameters_are_bounded(decl.generics);
}

/// An implementation is refused for enums and unions, and for nothing
/// else; the refusal names the type.
pub proof fn lemma_enums_and_unions_are_refused(decl: TypeDeclarationView)
    ensures
        implementation_of(decl) is Err <==> decl.shape is Variants || decl.shape is Union,
        implementation_of(decl) is Err ==> implementation_of(decl)
            == Err::<GeneratedImplementationView, GenerateErrorView>(
            GenerateErrorView::UnsupportedShape { target: decl.name },
        ),
{
}

/// The generated function returns the sum of the sizes of the fields that
/// are not marked `dignore`, for named and positional fields alike.
pub proof fn lemma_generated_size(decl: TypeDeclarationView, size_of: spec_fn(FieldIdView) -> nat)
    requires
        decl.shape.is_supported(),
    ensures
        implementation_of(decl) matches Ok(implementation) && implementation.body.value(size_of)
            == counted_size(decl.shape.fields(), size_of),
{
    lemma_value_is_counted_size(decl.shape.fields(), size_of);
}

} // verus!
