//! The sum expression that the generated `size` function returns.

use crate::model::{Field, FieldId, FieldIdView, FieldView, Shape, ShapeView};
use crate::select::{is_marked, retained, select_fields, IGNORE_MARKER};
use vstd::prelude::*;
use vstd::seq_lib::{commutative_foldl, lemma_fold_left_permutation};

verus! {

/// The expression `0 + size(f1) + size(f2) + ...`.
///
/// The zero term is always there, so the expression is well formed when no
/// field counts. Each entry of `terms` stands for one call that asks a field
/// for its own size, and names that field: a failure of the call can be
/// traced to the field it came from.
#[derive(Debug, PartialEq, Eq)]
pub struct SumExpression {
    pub terms: Vec<FieldId>,
}

/// Mathematical value of a [`SumExpression`].
pub struct SumExpressionView {
    pub terms: Seq<FieldIdView>,
}

impl DeepView for SumExpression {
    type V = SumExpressionView;

    open spec fn deep_view(&self) -> SumExpressionView {
        SumExpressionView { terms: self.terms.deep_view() }
    }
}

impl View for SumExpression {
    type V = SumExpressionView;

    open spec fn view(&self) -> SumExpressionView {
        self.deep_view()
    }
}

impl Clone for SumExpression {
    fn clone(&self) -> (copy: SumExpression)
        ensures
            copy@ == self@,
    {
        let mut terms: Vec<FieldId> = Vec::new();
        let mut i: usize = 0;
        while i < self.terms.len()
            invariant
                i <= self.terms.len(),
                terms.len() == i,
                forall|j: int| 0 <= j < i ==> terms[j]@ == self.terms[j]@,
            decreases self.terms.len() - i,
        {
            terms.push(self.terms[i].clone());
            i = i + 1;
        }
        assert(terms.deep_view() =~= self.terms.deep_view());
        SumExpression { terms }
    }
}

impl SumExpressionView {
    /// What the expression evaluates to when `size_of` tells the size that
    /// each field reports for itself.
    pub open spec fn value(self, size_of: spec_fn(FieldIdView) -> nat) -> nat {
        self.terms.fold_left(0nat, |total: nat, field: FieldIdView| total + size_of(field))
    }
}

/// The expression over the given fields: one term for each, in order.
pub open spec fn sum_over(selected: Seq<FieldView>) -> SumExpressionView {
    SumExpressionView { terms: selected.map_values(|field: FieldView| field.id) }
}

/// The expression for a declaration of the given shape: the sum over its
/// fields that are not marked `dignore`, and none for an enum or a union.
pub open spec fn size_sum(shape: ShapeView) -> Option<SumExpressionView> {
    if shape.is_supported() {
        Some(sum_over(retained(shape.fields(), IGNORE_MARKER@)))
    } else {
        None
    }
}

/// The sizes of the fields that are not marked `dignore`, added up in the
/// order of the declaration.
pub open spec fn counted_size(fields: Seq<FieldView>, size_of: spec_fn(FieldIdView) -> nat) -> nat {
    fields.fold_left(
        0nat,
        |total: nat, field: FieldView|
            if is_marked(field, IGNORE_MARKER@) {
                total
            } else {
                total + size_of(field.id)
            },
    )
}

/// Builds the sum expression over the selected fields.
pub fn sum_of_fields(selected: &Vec<Field>) -> (sum: SumExpression)
    ensures
        sum@ == sum_over(selected.deep_view()),
{
    let mut terms: Vec<FieldId> = Vec::new();
    let mut i: usize = 0;
    while i < selected.len()
        invariant
            i <= selected.len(),
            terms.len() == i,
            forall|j: int| 0 <= j < i ==> terms[j]@ == selected[j]@.id,
        decreases selected.len() - i,
    {
        terms.push(selected[i].id.clone());
        i = i + 1;
    }
    assert(terms.deep_view() =~= sum_over(selected.deep_view()).terms);
    SumExpression { terms }
}

/// Generates the expression that sums up the size of each field.
///
/// A struct with named or positional fields gives zero plus one term for
/// each field that is not marked `#[dignore]`, in declaration order; a unit
/// struct gives the zero term alone. For an enum or a union there is no
/// expression.
pub fn disk_size_sum(shape: &Shape) -> (sum: Option<SumExpression>)
    ensures
        sum.deep_view() == size_sum(shape@),
{
    match shape {
        Shape::NamedFields(fields) => {
            let selected = select_fields(fields, IGNORE_MARKER);
            Some(sum_of_fields(&selected))
        },
        Shape::PositionalFields(fields) => {
            let selected = select_fields(fields, IGNORE_MARKER);
            Some(sum_of_fields(&selected))
        },
        Shape::NoFields => {
            let selected: Vec<Field> = Vec::new();
            assert(selected.deep_view() =~= retained(shape@.fields(), IGNORE_MARKER@));
            Some(sum_of_fields(&selected))
        },
        Shape::Variants => None,
        Shape::Union => None,
    }
}

/// The generated expression evaluates to the sum of the sizes of the fields
/// that are not marked `dignore`, taken in declaration order. This holds for
/// named and for positional fields alike.
pub proof fn lemma_value_is_counted_size(
    fields: Seq<FieldView>,
    size_of: spec_fn(FieldIdView) -> nat,
)
    ensures
        sum_over(retained(fields, IGNORE_MARKER@)).value(size_of) == counted_size(fields, size_of),
    decreases fields.len(),
{
    reveal_with_fuel(Seq::filter, 2);
    reveal_with_fuel(Seq::fold_left, 2);
    if fields.len() > 0 {
        let front = fields.drop_last();
        lemma_value_is_counted_size(front, size_of);
        let kept = retained(front, IGNORE_MARKER@);
        if !is_marked(fields.last(), IGNORE_MARKER@) {
            let all = kept.push(fields.last());
            assert(retained(fields, IGNORE_MARKER@) == all);
            assert(sum_over(all).terms.drop_last() =~= sum_over(kept).terms);
            assert(sum_over(all).terms.last() == fields.last().id);
        }
    } else {
        assert(sum_over(retained(fields, IGNORE_MARKER@)).terms =~= Seq::<FieldIdView>::empty());
    }
}

/// Declaring the same fields in another order does not change the sum.
pub proof fn lemma_counted_size_ignores_order(
    fields: Seq<FieldView>,
    reordered: Seq<FieldView>,
    size_of: spec_fn(FieldIdView) -> nat,
)
    requires
        fields.to_multiset() == reordered.to_multiset(),
    ensures
        counted_size(fields, size_of) == counted_size(reordered, size_of),
{
    let step = |total: nat, field: FieldView|
        if is_marked(field, IGNORE_MARKER@) {
            total
        } else {
            total + size_of(field.id)
        };
    assert(commutative_foldl(step));
    lemma_fold_left_permutation(fields, reordered, step, 0nat);
}

/// Two declarations that hold the same fields in different orders get
/// expressions of the same value, wherever the ignored fields stand.
pub proof fn lemma_value_ignores_field_order(
    shape: ShapeView,
    reordered: ShapeView,
    size_of: spec_fn(FieldIdView) -> nat,
)
    requires
        shape.is_supported(),
        reordered.is_supported(),
        shape.fields().to_multiset() == reordered.fields().to_multiset(),
    ensures
        size_sum(shape)->0.value(size_of) == size_sum(reordered)->0.value(size_of),
{
    lemma_value_is_counted_size(shape.fields(), size_of);
    lemma_value_is_counted_size(reordered.fields(), size_of);
    lemma_counted_size_ignores_order(shape.fields(), reordered.fields(), size_of);
}

/// What each field adds to the sum, in order: whether the field is marked
/// `dignore`, and the size that it reports.
pub open spec fn contributions(
    fields: Seq<FieldView>,
    size_of: spec_fn(FieldIdView) -> nat,
) -> Seq<(bool, nat)> {
    fields.map_values(|field: FieldView| (is_marked(field, IGNORE_MARKER@), size_of(field.id)))
}

/// The sum does not depend on where a field stands nor on how it is
/// reached, only on which sizes are counted. So the fields of a tuple
/// struct can be rearranged as well, although their places change with it:
/// if every field keeps its marker and its size, the sum is the same.
pub proof fn lemma_rearranged_fields_have_the_same_size(
    fields: Seq<FieldView>,
    size_of: spec_fn(FieldIdView) -> nat,
    rearranged: Seq<FieldView>,
    rearranged_size_of: spec_fn(FieldIdView) -> nat,
)
    requires
        contributions(fields, size_of).to_multiset() == contributions(
            rearranged,
            rearranged_size_of,
        ).to_multiset(),
    ensures
        counted_size(fields, size_of) == counted_size(rearranged, rearranged_size_of),
{
    let step = |total: nat, part: (bool, nat)|
        if part.0 {
            total
        } else {
            total + part.1
        };
    lemma_counted_size_folds_contributions(fields, size_of);
    lemma_counted_size_folds_contributions(rearranged, rearranged_size_of);
    assert(commutative_foldl(step));
    lemma_fold_left_permutation(
        contributions(fields, size_of),
        contributions(rearranged, rearranged_size_of),
        step,
        0nat,
    );
}

proof fn lemma_counted_size_folds_contributions(
    fields: Seq<FieldView>,
    size_of: spec_fn(FieldIdView) -> nat,
)
    ensures
        counted_size(fields, size_of) == contributions(fields, size_of).fold_left(
            0nat,
            |total: nat, part: (bool, nat)|
                if part.0 {
                    total
                } else {
                    total + part.1
                },
        ),
    decreases fields.len(),
{
    reveal_with_fuel(Seq::fold_left, 2);
    if fields.len() > 0 {
        let front = fields.drop_last();
        lemma_counted_size_folds_contributions(front, size_of);
        assert(contributions(fields, size_of).drop_last() =~= contributions(front, size_of));
    }
}

/// A declaration without fields, or whose fields are all marked `dignore`,
/// gets an expression that is zero whatever the sizes of the fields are.
pub proof fn lemma_nothing_counted_gives_zero(
    shape: ShapeView,
    size_of: spec_fn(FieldIdView) -> nat,
)
    requires
        shape.is_supported(),
        forall|i: int|
            0 <= i < shape.fields().len() ==> is_marked(#[trigger] shape.fields()[i], IGNORE_MARKER@),
    ensures
        size_sum(shape)->0.terms.len() == 0,
        size_sum(shape)->0.value(size_of) == 0,
{
    lemma_all_marked_none_retained(shape.fields());
    assert(sum_over(retained(shape.fields(), IGNORE_MARKER@)).terms =~= Seq::<FieldIdView>::empty());
}

/// Whether each field is identified by its own place in the list, as the
/// fields of a tuple struct are.
pub open spec fn identified_by_place(fields: Seq<FieldView>) -> bool {
    forall|i: int| 0 <= i < fields.len() ==> (#[trigger] fields[i]).id == FieldIdView::Index(i as nat)
}

/// Whether the term reaches the field at some place of `fields`, and that
/// field is not marked `dignore`.
pub open spec fn names_counted_place(fields: Seq<FieldView>, term: FieldIdView) -> bool {
    term matches FieldIdView::Index(place) && place < fields.len() && !is_marked(
        fields[place as int],
        IGNORE_MARKER@,
    )
}

/// For positional fields the terms are the places of the fields that are
/// not marked `dignore`: each term is the place of such a field, the places
/// rise from term to term, and no such field is left out.
pub proof fn lemma_positional_terms_are_places(fields: Seq<FieldView>)
    requires
        identified_by_place(fields),
    ensures
        ({
            let terms = sum_over(retained(fields, IGNORE_MARKER@)).terms;
            &&& forall|k: int|
                0 <= k < terms.len() ==> names_counted_place(fields, #[trigger] terms[k])
            &&& forall|j: int, k: int|
                0 <= j < k < terms.len() ==> (#[trigger] terms[j])->Index_0 < (
                #[trigger] terms[k])->Index_0
            &&& forall|i: int|
                0 <= i < fields.len() && !is_marked(#[trigger] fields[i], IGNORE_MARKER@)
                    ==> terms.contains(FieldIdView::Index(i as nat))
        }),
    decreases fields.len(),
{
    reveal_with_fuel(Seq::filter, 2);
    let terms = sum_over(retained(fields, IGNORE_MARKER@)).terms;
    if fields.len() > 0 {
        let front = fields.drop_last();
        let last = fields.last();
        assert forall|i: int| 0 <= i < front.len() implies (#[trigger] front[i]).id
            == FieldIdView::Index(i as nat) by {
            assert(front[i] == fields[i]);
        }
        lemma_positional_terms_are_places(front);
        let shorter = sum_over(retained(front, IGNORE_MARKER@)).terms;
        assert forall|k: int| 0 <= k < shorter.len() implies names_counted_place(
            fields,
            #[trigger] shorter[k],
        ) && shorter[k]->Index_0 < front.len() by {
            assert(names_counted_place(front, shorter[k]));
            assert(fields[shorter[k]->Index_0 as int] == front[shorter[k]->Index_0 as int]);
        }
        if is_marked(last, IGNORE_MARKER@) {
            assert(terms == shorter);
            assert forall|i: int|
                0 <= i < fields.len() && !is_marked(
                    #[trigger] fields[i],
                    IGNORE_MARKER@,
                ) implies terms.contains(FieldIdView::Index(i as nat)) by {
                assert(fields[i] == front[i]);
            }
        } else {
            assert(last.id == FieldIdView::Index((fields.len() - 1) as nat));
            assert(terms =~= shorter.push(last.id));
            assert forall|k: int| 0 <= k < terms.len() implies names_counted_place(
                fields,
                #[trigger] terms[k],
            ) by {
                if k < shorter.len() {
                    assert(terms[k] == shorter[k]);
                }
            }
            assert forall|j: int, k: int| 0 <= j < k < terms.len() implies (
            #[trigger] terms[j])->Index_0 < (#[trigger] terms[k])->Index_0 by {
                assert(terms[j] == shorter[j]);
                if k < shorter.len() {
                    assert(terms[k] == shorter[k]);
                }
            }
            assert forall|i: int|
                0 <= i < fields.len() && !is_marked(
                    #[trigger] fields[i],
                    IGNORE_MARKER@,
                ) implies terms.contains(FieldIdView::Index(i as nat)) by {
                if i < front.len() {
                    assert(fields[i] == front[i]);
                    let k = choose|k: int|
                        0 <= k < shorter.len() && shorter[k] == FieldIdView::Index(i as nat);
                    assert(terms[k] == FieldIdView::Index(i as nat));
                } else {
                    assert(terms[terms.len() - 1] == FieldIdView::Index(i as nat));
                }
            }
        }
    } else {
        assert(terms =~= Seq::<FieldIdView>::empty());
    }
}

proof fn lemma_all_marked_none_retained(fields: Seq<FieldView>)
    requires
        forall|i: int| 0 <= i < fields.len() ==> is_marked(#[trigger] fields[i], IGNORE_MARKER@),
    ensures
        retained(fields, IGNORE_MARKER@).len() == 0,
    decreases fields.len(),
{
    reveal_with_fuel(Seq::filter, 2);
    if fields.len() > 0 {
        let front = fields.drop_last();
        assert forall|i: int| 0 <= i < front.len() implies is_marked(
            #[trigger] front[i],
            IGNORE_MARKER@,
        ) by {
            assert(front[i] == fields[i]);
        }
        lemma_all_marked_none_retained(front);
        assert(is_marked(fields[fields.len() - 1], IGNORE_MARKER@));
    }
}

} // verus!
