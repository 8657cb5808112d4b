//! Choosing the fields that count towards the size.

use crate::model::{Field, FieldView};
use vstd::prelude::*;
use vstd::string::StringExecFns;

verus! {

/// Name of the marker that keeps a field out of the sum: `#[dignore]`.
pub const IGNORE_MARKER: &'static str = "dignore";

/// Whether the field carries the marker `marker`.
pub open spec fn is_marked(field: FieldView, marker: Seq<char>) -> bool {
    field.annotations.contains(marker)
}

/// The fields that do not carry `marker`, in their declared order.
pub open spec fn retained(fields: Seq<FieldView>, marker: Seq<char>) -> Seq<FieldView> {
    fields.filter(|field: FieldView| !is_marked(field, marker))
}

/// Tells whether `marker` is among the field's annotations.
pub fn has_marker(field: &Field, marker: &str) -> (found: bool)
    ensures
        found == is_marked(field@, marker@),
{
    let wanted = String::from_str(marker);
    let mut i: usize = 0;
    while i < field.annotations.len()
        invariant
            i <= field.annotations.len(),
            wanted@ == marker@,
            forall|j: int| 0 <= j < i ==> field.annotations[j]@ != marker@,
        decreases field.annotations.len() - i,
    {
        if field.annotations[i] == wanted {
            assert(field@.annotations[i as int] == marker@);
            return true;
        }
        i = i + 1;
    }
    assert forall|j: int| 0 <= j < field@.annotations.len() implies field@.annotations[j]
        != marker@ by {
        assert(field@.annotations[j] == field.annotations[j]@);
    }
    false
}

/// Keeps the fields that do not carry `marker`, in their declared order.
///
/// Other annotations have no effect, and a field without annotations is
/// always kept.
pub fn select_fields(fields: &Vec<Field>, marker: &str) -> (selected: Vec<Field>)
    ensures
        selected.deep_view() == retained(fields.deep_view(), marker@),
{
    let mut selected: Vec<Field> = Vec::new();
    let ghost all = fields.deep_view();
    let mut i: usize = 0;
    assert(all.take(0) =~= Seq::<FieldView>::empty());
    while i < fields.len()
        invariant
            i <= fields.len(),
            all == fields.deep_view(),
            selected.deep_view() == retained(all.take(i as int), marker@),
        decreases fields.len() - i,
    {
        let ghost before = selected.deep_view();
        let ghost prefix = all.take(i as int + 1);
        assert(prefix.drop_last() =~= all.take(i as int));
        assert(prefix.last() == fields[i as int]@);
        assert(retained(prefix, marker@) == if is_marked(prefix.last(), marker@) {
            retained(prefix.drop_last(), marker@)
        } else {
            retained(prefix.drop_last(), marker@).push(prefix.last())
        }) by {
            reveal_with_fuel(Seq::filter, 2);
        }
        if !has_marker(&fields[i], marker) {
            selected.push(fields[i].clone());
            assert(selected.deep_view() =~= before.push(fields[i as int]@));
        }
        i = i + 1;
    }
    assert(all.take(fields.len() as int) =~= all);
    selected
}

} // verus!
