//! Token streams of `proc_macro2`, and the implementation written as tokens.

use crate::generate::{
    GenerateError, GenerateErrorView, GeneratedImplementation, GeneratedImplementationView,
};
use crate::render::{header_text, render_header, render_term, signature_text, term_text};
use crate::model::{Field, FieldId, FieldIdView, FieldView};
use crate::sum::SumExpression;
use proc_macro2::{Delimiter, Group, Span, TokenStream, TokenTree};
use vstd::prelude::*;
use vstd::string::StringExecFns;

verus! {

/// `proc_macro2::TokenStream`, a sequence of token trees.
#[verifier::external_type_specification]
#[verifier::external_body]
pub struct ExTokenStream(TokenStream);

/// `proc_macro2::Span`, a place in the source that a token is attributed to.
#[verifier::external_type_specification]
#[verifier::external_body]
pub struct ExSpan(Span);

/// The delimiters of a group of tokens.
pub enum DelimiterView {
    Parenthesis,
    Brace,
    Bracket,
    Invisible,
}

/// A token tree without its span.
pub enum TokenView {
    /// An identifier, as written.
    Ident(Seq<char>),
    /// A punctuation character, and whether the next token follows it
    /// without a space.
    Punct(char, bool),
    /// A literal, as written.
    Literal(Seq<char>),
    /// The token trees between a pair of delimiters.
    Group(DelimiterView, Seq<TokenView>),
}

/// The token trees that a `proc_macro2::TokenStream` holds, in order.
pub uninterp spec fn tokens_of(stream: TokenStream) -> Seq<TokenView>;

/// The token trees that `proc_macro2` splits the text into, if the text is
/// made of tokens with balanced delimiters at all.
pub uninterp spec fn lexed(text: Seq<char>) -> Option<Seq<TokenView>>;

/// `syn::LitStr::parse` on a literal made by `syn::LitStr::new`: splits the
/// text into tokens and attributes every one of them to `span`. The contract
/// claims that success and the tokens depend on the text alone; it says
/// nothing of the spans.
#[verifier::external_body]
fn lex_at(text: &str, span: Span) -> (stream: Option<TokenStream>)
    ensures
        stream is Some <==> lexed(text@) is Some,
        stream matches Some(tokens) ==> lexed(text@) == Some(tokens_of(tokens)),
{
    syn::LitStr::new(text, span).parse::<TokenStream>().ok()
}

/// `proc_macro2::Span::call_site`: the span of the macro invocation.
#[verifier::external_body]
pub(crate) fn call_site() -> Span {
    Span::call_site()
}

/// `Extend::extend` of `proc_macro2::TokenStream`: the token trees of `more`
/// are put after those that the stream holds.
#[verifier::external_body]
fn append_stream(stream: &mut TokenStream, more: TokenStream)
    ensures
        tokens_of(*final(stream)) == tokens_of(*old(stream)) + tokens_of(more),
{
    stream.extend(more);
}

/// `proc_macro2::Group::new` with `Delimiter::Brace`, made into a stream:
/// the stream holds one token tree, the group in braces around `inner`.
#[verifier::external_body]
fn braced(inner: TokenStream) -> (stream: TokenStream)
    ensures
        tokens_of(stream) == seq![TokenView::Group(DelimiterView::Brace, tokens_of(inner))],
{
    TokenStream::from(TokenTree::Group(Group::new(Delimiter::Brace, inner)))
}

/// The tokens of the sum: those of `0`, then for each term those of `+` and
/// of the call. None if one of the texts is not made of tokens.
pub open spec fn body_tokens(terms: Seq<FieldIdView>) -> Option<Seq<TokenView>>
    decreases terms.len(),
{
    if terms.len() == 0 {
        lexed("0"@)
    } else {
        match (body_tokens(terms.drop_last()), lexed("+"@), lexed(term_text(terms.last()))) {
            (Some(front), Some(plus), Some(term)) => Some(front + plus + term),
            _ => None,
        }
    }
}

/// The tokens of the implementation block: the header, then in braces the
/// signature of `size` and in braces again the sum.
pub open spec fn implementation_tokens(implementation: GeneratedImplementationView) -> Option<
    Seq<TokenView>,
> {
    match (
        lexed(header_text(implementation)),
        lexed(signature_text()),
        body_tokens(implementation.body.terms),
    ) {
        (Some(header), Some(signature), Some(body)) => Some(
            header + seq![
                TokenView::Group(
                    DelimiterView::Brace,
                    signature + seq![TokenView::Group(DelimiterView::Brace, body)],
                ),
            ],
        ),
        _ => None,
    }
}

/// Whether `fragment` is one of the texts that the implementation is
/// written from.
pub open spec fn is_fragment_of(
    fragment: Seq<char>,
    implementation: GeneratedImplementationView,
) -> bool {
    ||| fragment == header_text(implementation)
    ||| fragment == signature_text()
    ||| fragment == "0"@
    ||| fragment == "+"@
    ||| exists|i: int|
        0 <= i < implementation.body.terms.len() && fragment == term_text(
            #[trigger] implementation.body.terms[i],
        )
}

/// What `emit_tokens` returns for an implementation, whatever the spans.
pub open spec fn emitted(
    implementation: GeneratedImplementationView,
    outcome: Result<TokenStream, GenerateError>,
) -> bool {
    match outcome {
        Ok(stream) => implementation_tokens(implementation) == Some(tokens_of(stream)),
        Err(error) => {
            &&& implementation_tokens(implementation) is None
            &&& error@ matches GenerateErrorView::MalformedInput { fragment }
            &&& is_fragment_of(fragment, implementation)
            &&& lexed(fragment) is None
        },
    }
}

fn lex_fragment(text: String, span: Span) -> (outcome: Result<TokenStream, GenerateError>)
    ensures
        match outcome {
            Ok(stream) => lexed(text@) == Some(tokens_of(stream)),
            Err(error) => lexed(text@) is None && error@ == (GenerateErrorView::MalformedInput {
                fragment: text@,
            }),
        },
{
    match lex_at(text.as_str(), span) {
        Some(stream) => Ok(stream),
        None => Err(GenerateError::MalformedInput { fragment: text }),
    }
}

/// Writes the implementation as tokens.
///
/// The tokens of the call for term `i` are attributed to `term_spans[i]`, so
/// that a field whose type lacks the capability is reported at that field;
/// where `term_spans` is too short, and for all other tokens, the call site
/// is taken. If a name, bound or predicate is not made of tokens, the error
/// holds the text that could not be read.
pub fn emit_tokens(implementation: &GeneratedImplementation, term_spans: &Vec<Span>) -> (outcome:
    Result<TokenStream, GenerateError>)
    ensures
        emitted(implementation@, outcome),
{
    let here = call_site();
    let ghost terms = implementation@.body.terms;
    let mut body = match lex_fragment(String::from_str("0"), here) {
        Ok(stream) => stream,
        Err(error) => {
            assert(terms.take(0) =~= Seq::<FieldIdView>::empty());
            proof {
                lemma_unreadable_prefix(terms, 0);
            }
            return Err(error);
        },
    };
    let mut i: usize = 0;
    assert(terms.take(0) =~= Seq::<FieldIdView>::empty());
    while i < implementation.body.terms.len()
        invariant
            i <= implementation.body.terms.len(),
            terms == implementation@.body.terms,
            body_tokens(terms.take(i as int)) == Some(tokens_of(body)),
        decreases implementation.body.terms.len() - i,
    {
        let ghost prefix = terms.take(i as int + 1);
        assert(prefix.drop_last() =~= terms.take(i as int));
        assert(prefix.last() == terms[i as int]);
        let plus = match lex_fragment(String::from_str("+"), here) {
            Ok(stream) => stream,
            Err(error) => {
                proof {
                    lemma_unreadable_prefix(terms, i as int + 1);
                }
                return Err(error);
            },
        };
        let span = if i < term_spans.len() {
            term_spans[i]
        } else {
            here
        };
        let term = match lex_fragment(render_term(&implementation.body.terms[i]), span) {
            Ok(stream) => stream,
            Err(error) => {
                proof {
                    lemma_unreadable_prefix(terms, i as int + 1);
                }
                return Err(error);
            },
        };
        append_stream(&mut body, plus);
        append_stream(&mut body, term);
        i = i + 1;
    }
    assert(terms.take(implementation.body.terms.len() as int) =~= terms);
    let mut function = match lex_fragment(String::from_str("fn size(&self) -> usize"), here) {
        Ok(stream) => stream,
        Err(error) => {
            return Err(error);
        },
    };
    append_stream(&mut function, braced(body));
    let mut block = match lex_fragment(render_header(implementation), here) {
        Ok(stream) => stream,
        Err(error) => {
            return Err(error);
        },
    };
    append_stream(&mut block, braced(function));
    Ok(block)
}

/// The place of the first of `fields` with the identity `id`, if there is
/// one.
pub open spec fn place_in(fields: Seq<FieldView>, id: FieldIdView) -> Option<int>
    decreases fields.len(),
{
    if fields.len() == 0 {
        None
    } else {
        match place_in(fields.drop_last(), id) {
            Some(place) => Some(place),
            None => if fields.last().id == id {
                Some(fields.len() - 1)
            } else {
                None
            },
        }
    }
}

/// The span that the term for the field `id` is attributed to: that of the
/// first field with this identity, where `field_spans` has one for it, and
/// else `fallback`.
pub open spec fn span_of_term(
    fields: Seq<FieldView>,
    field_spans: Seq<Span>,
    id: FieldIdView,
    fallback: Span,
) -> Span {
    match place_in(fields, id) {
        Some(place) => if place < field_spans.len() {
            field_spans[place]
        } else {
            fallback
        },
        None => fallback,
    }
}

/// Finds the first field with the given identity.
pub fn place_of(fields: &Vec<Field>, id: &FieldId) -> (found: Option<usize>)
    ensures
        match found {
            Some(place) => place_in(fields.deep_view(), id@) == Some(place as int),
            None => place_in(fields.deep_view(), id@) is None,
        },
{
    let ghost all = fields.deep_view();
    let mut i: usize = 0;
    assert(all.take(0) =~= Seq::<FieldView>::empty());
    while i < fields.len()
        invariant
            i <= fields.len(),
            all == fields.deep_view(),
            place_in(all.take(i as int), id@) is None,
        decreases fields.len() - i,
    {
        let ghost prefix = all.take(i as int + 1);
        assert(prefix.drop_last() =~= all.take(i as int));
        assert(prefix.last() == fields[i as int]@);
        if fields[i].id.same_as(id) {
            proof {
                lemma_place_is_kept(all, id@, i as int + 1);
            }
            return Some(i);
        }
        i = i + 1;
    }
    assert(all.take(fields.len() as int) =~= all);
    None
}

proof fn lemma_place_is_kept(fields: Seq<FieldView>, id: FieldIdView, count: int)
    requires
        0 <= count <= fields.len(),
        place_in(fields.take(count), id) is Some,
    ensures
        place_in(fields, id) == place_in(fields.take(count), id),
    decreases fields.len() - count,
{
    if count < fields.len() {
        let longer = fields.take(count + 1);
        assert(longer.drop_last() =~= fields.take(count));
        lemma_place_is_kept(fields, id, count + 1);
    } else {
        assert(fields.take(count) =~= fields);
    }
}

/// Gives each term of the sum the span of the field that it came from.
///
/// `field_spans[p]` is taken to be the span of `fields[p]`. A term whose
/// field is not found, or has no span, gets `fallback`.
pub fn term_spans(
    fields: &Vec<Field>,
    field_spans: &Vec<Span>,
    body: &SumExpression,
    fallback: Span,
) -> (spans: Vec<Span>)
    ensures
        spans@ == body@.terms.map_values(
            |term: FieldIdView| span_of_term(fields.deep_view(), field_spans@, term, fallback),
        ),
{
    let mut spans: Vec<Span> = Vec::new();
    let mut i: usize = 0;
    while i < body.terms.len()
        invariant
            i <= body.terms.len(),
            spans.len() == i,
            forall|k: int|
                0 <= k < i ==> spans[k] == span_of_term(
                    fields.deep_view(),
                    field_spans@,
                    #[trigger] body@.terms[k],
                    fallback,
                ),
        decreases body.terms.len() - i,
    {
        assert(body@.terms[i as int] == body.terms[i as int]@);
        let span = match place_of(fields, &body.terms[i]) {
            Some(place) => if place < field_spans.len() {
                field_spans[place]
            } else {
                fallback
            },
            None => fallback,
        };
        spans.push(span);
        i = i + 1;
    }
    assert(spans@ =~= body@.terms.map_values(
        |term: FieldIdView| span_of_term(fields.deep_view(), field_spans@, term, fallback),
    ));
    spans
}

proof fn lemma_unreadable_prefix(terms: Seq<FieldIdView>, count: int)
    requires
        0 <= count <= terms.len(),
        body_tokens(terms.take(count)) is None,
    ensures
        body_tokens(terms) is None,
    decreases terms.len() - count,
{
    if count < terms.len() {
        let longer = terms.take(count + 1);
        assert(longer.drop_last() =~= terms.take(count));
        lemma_unreadable_prefix(terms, count + 1);
    } else {
        assert(terms.take(count) =~= terms);
    }
}

} // verus!
