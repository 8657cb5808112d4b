//! The source text of a generated implementation.

use crate::bounds::SIZE_CAPABILITY;
use crate::generate::{GeneratedImplementation, GeneratedImplementationView};
use crate::model::{FieldId, FieldIdView, GenericParam, GenericParamView};
use crate::sum::SumExpression;
use crate::text::{decimal, decimal_text, join, joined};
use vstd::prelude::*;
use vstd::string::StringExecFns;

verus! {

/// A parameter's name, then a colon and its bounds if it has any.
pub open spec fn constrained_text(name: Seq<char>, bounds: Seq<Seq<char>>) -> Seq<char> {
    if bounds.len() == 0 {
        name
    } else {
        name + ": "@ + joined(bounds, " + "@)
    }
}

/// The parameter as it is declared after `impl`.
pub open spec fn parameter_text(param: GenericParamView) -> Seq<char> {
    match param {
        GenericParamView::Lifetime { name, bounds } => constrained_text(name, bounds),
        GenericParamView::Type { name, bounds } => constrained_text(name, bounds),
        GenericParamView::Const { name, ty } => "const "@ + name + ": "@ + ty,
    }
}

/// The parameter as it is named after the type.
pub open spec fn parameter_name(param: GenericParamView) -> Seq<char> {
    match param {
        GenericParamView::Lifetime { name, .. } => name,
        GenericParamView::Type { name, .. } => name,
        GenericParamView::Const { name, .. } => name,
    }
}

/// The items between angle brackets, separated by commas; nothing at all
/// when there is no item.
pub open spec fn angle_list(items: Seq<Seq<char>>) -> Seq<char> {
    if items.len() == 0 {
        Seq::empty()
    } else {
        "<"@ + joined(items, ", "@) + ">"@
    }
}

/// The `where` clause with a leading space; nothing without predicates.
pub open spec fn where_text(predicates: Seq<Seq<char>>) -> Seq<char> {
    if predicates.len() == 0 {
        Seq::empty()
    } else {
        " where "@ + joined(predicates, ", "@)
    }
}

/// What stands before the braces of the implementation block.
pub open spec fn header_text(implementation: GeneratedImplementationView) -> Seq<char> {
    "impl"@ + angle_list(
        implementation.generics.map_values(|param: GenericParamView| parameter_text(param)),
    ) + " "@ + SIZE_CAPABILITY@ + " for "@ + implementation.target + angle_list(
        implementation.generics.map_values(|param: GenericParamView| parameter_name(param)),
    ) + where_text(implementation.where_predicates)
}

/// The signature of the generated function.
pub open spec fn signature_text() -> Seq<char> {
    "fn size(&self) -> usize"@
}

/// The field as it is written after `self.`.
pub open spec fn field_text(field: FieldIdView) -> Seq<char> {
    match field {
        FieldIdView::Name(name) => name,
        FieldIdView::Index(index) => decimal(index),
    }
}

/// The call that asks a field for its size.
pub open spec fn term_text(field: FieldIdView) -> Seq<char> {
    SIZE_CAPABILITY@ + "::size(&self."@ + field_text(field) + ")"@
}

/// The sum: the zero term, then ` + ` and a call for each term in order.
pub open spec fn body_text(terms: Seq<FieldIdView>) -> Seq<char>
    decreases terms.len(),
{
    if terms.len() == 0 {
        "0"@
    } else {
        body_text(terms.drop_last()) + " + "@ + term_text(terms.last())
    }
}

/// The whole implementation block as source text.
pub open spec fn implementation_text(implementation: GeneratedImplementationView) -> Seq<char> {
    header_text(implementation) + " { "@ + signature_text() + " { "@ + body_text(
        implementation.body.terms,
    ) + " } }"@
}

/// The sum always starts with the zero term, so it is an expression even
/// when no field counts.
pub proof fn lemma_body_starts_with_zero(terms: Seq<FieldIdView>)
    ensures
        "0"@.is_prefix_of(body_text(terms)),
        terms.len() == 0 ==> body_text(terms) == "0"@,
    decreases terms.len(),
{
    if terms.len() > 0 {
        lemma_body_starts_with_zero(terms.drop_last());
    }
}

fn render_parameter(param: &GenericParam) -> (text: String)
    ensures
        text@ == parameter_text(param@),
{
    match param {
        GenericParam::Lifetime { name, bounds } => render_constrained(name, bounds),
        GenericParam::Type { name, bounds } => render_constrained(name, bounds),
        GenericParam::Const { name, ty } => {
            let mut text = String::from_str("const ");
            text.append(name.as_str());
            text.append(": ");
            text.append(ty.as_str());
            text
        },
    }
}

fn render_constrained(name: &String, bounds: &Vec<String>) -> (text: String)
    ensures
        text@ == constrained_text(name@, bounds.deep_view()),
{
    let mut text = name.clone();
    if bounds.len() > 0 {
        text.append(": ");
        let list = join(bounds, " + ");
        text.append(list.as_str());
    }
    text
}

fn render_angle_list(items: &Vec<String>) -> (text: String)
    ensures
        text@ == angle_list(items.deep_view()),
{
    let mut text = String::new();
    if items.len() > 0 {
        text.append("<");
        let list = join(items, ", ");
        text.append(list.as_str());
        text.append(">");
    }
    text
}

fn render_where(predicates: &Vec<String>) -> (text: String)
    ensures
        text@ == where_text(predicates.deep_view()),
{
    let mut text = String::new();
    if predicates.len() > 0 {
        text.append(" where ");
        let list = join(predicates, ", ");
        text.append(list.as_str());
    }
    text
}

/// Writes what stands before the braces of the implementation block.
pub fn render_header(implementation: &GeneratedImplementation) -> (text: String)
    ensures
        text@ == header_text(implementation@),
{
    let mut declared: Vec<String> = Vec::new();
    let mut named: Vec<String> = Vec::new();
    let mut i: usize = 0;
    while i < implementation.generics.len()
        invariant
            i <= implementation.generics.len(),
            declared.len() == i,
            named.len() == i,
            forall|j: int| 0 <= j < i ==> declared[j]@ == parameter_text(implementation.generics[j]@),
            forall|j: int| 0 <= j < i ==> named[j]@ == parameter_name(implementation.generics[j]@),
        decreases implementation.generics.len() - i,
    {
        declared.push(render_parameter(&implementation.generics[i]));
        let name = match &implementation.generics[i] {
            GenericParam::Lifetime { name, .. } => name.clone(),
            GenericParam::Type { name, .. } => name.clone(),
            GenericParam::Const { name, .. } => name.clone(),
        };
        named.push(name);
        i = i + 1;
    }
    assert(declared.deep_view() =~= implementation@.generics.map_values(
        |param: GenericParamView| parameter_text(param),
    ));
    assert(named.deep_view() =~= implementation@.generics.map_values(
        |param: GenericParamView| parameter_name(param),
    ));
    let mut text = String::from_str("impl");
    let declared_list = render_angle_list(&declared);
    text.append(declared_list.as_str());
    text.append(" ");
    text.append(SIZE_CAPABILITY);
    text.append(" for ");
    text.append(implementation.target.as_str());
    let named_list = render_angle_list(&named);
    text.append(named_list.as_str());
    let constraints = render_where(&implementation.where_predicates);
    text.append(constraints.as_str());
    text
}

/// Writes the call that asks a field for its size.
pub fn render_term(field: &FieldId) -> (text: String)
    ensures
        text@ == term_text(field@),
{
    let mut text = String::from_str(SIZE_CAPABILITY);
    text.append("::size(&self.");
    match field {
        FieldId::Name(name) => {
            text.append(name.as_str());
        },
        FieldId::Index(index) => {
            let digits = decimal_text(*index);
            text.append(digits.as_str());
        },
    }
    text.append(")");
    text
}

/// Writes the sum expression.
pub fn render_body(body: &SumExpression) -> (text: String)
    ensures
        text@ == body_text(body@.terms),
{
    let mut text = String::from_str("0");
    let ghost all = body@.terms;
    let mut i: usize = 0;
    assert(all.take(0) =~= Seq::<FieldIdView>::empty());
    while i < body.terms.len()
        invariant
            i <= body.terms.len(),
            all == body@.terms,
            text@ == body_text(all.take(i as int)),
        decreases body.terms.len() - i,
    {
        let ghost prefix = all.take(i as int + 1);
        assert(prefix.drop_last() =~= all.take(i as int));
        assert(prefix.last() == body.terms[i as int]@);
        text.append(" + ");
        let term = render_term(&body.terms[i]);
        text.append(term.as_str());
        i = i + 1;
    }
    assert(all.take(body.terms.len() as int) =~= all);
    text
}

/// Writes the whole implementation block as source text.
pub fn render_implementation(implementation: &GeneratedImplementation) -> (text: String)
    ensures
        text@ == implementation_text(implementation@),
{
    let mut text = render_header(implementation);
    text.append(" { ");
    text.append("fn size(&self) -> usize");
    text.append(" { ");
    let body = render_body(&implementation.body);
    text.append(body.as_str());
    text.append(" } }");
    text
}

} // verus!
