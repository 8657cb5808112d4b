//! Adding the size capability to the generic parameters of a declaration.

use crate::model::{copy_strings, GenericParam, GenericParamView};
use vstd::prelude::*;
use vstd::string::StringExecFns;

verus! {

/// Path of the trait that the generated implementation is for, and that
/// every type parameter is required to implement.
pub const SIZE_CAPABILITY: &'static str = "crate::types::SizedOnDisk";

/// The parameter as it stands in the generated implementation: a type
/// parameter gets the capability as its last bound, any other parameter
/// stays as it is.
pub open spec fn with_capability(param: GenericParamView) -> GenericParamView {
    match param {
        GenericParamView::Type { name, bounds } => GenericParamView::Type {
            name,
            bounds: bounds.push(SIZE_CAPABILITY@),
        },
        other => other,
    }
}

/// The generic parameters of the generated implementation.
pub open spec fn augmented(generics: Seq<GenericParamView>) -> Seq<GenericParamView> {
    generics.map_values(|param: GenericParamView| with_capability(param))
}

/// Whether the parameter is a type parameter that is bound by the capability.
pub open spec fn carries_capability(param: GenericParamView) -> bool {
    param matches GenericParamView::Type { bounds, .. } && bounds.contains(SIZE_CAPABILITY@)
}

/// The number of type parameters among `generics`.
pub open spec fn type_parameter_count(generics: Seq<GenericParamView>) -> nat {
    generics.filter(|param: GenericParamView| param is Type).len()
}

fn bound_parameter(param: &GenericParam) -> (bound: GenericParam)
    ensures
        bound@ == with_capability(param@),
{
    match param {
        GenericParam::Type { name, bounds } => {
            let mut extended = copy_strings(bounds);
            let ghost before = extended.deep_view();
            extended.push(String::from_str(SIZE_CAPABILITY));
            assert(extended.deep_view() =~= before.push(SIZE_CAPABILITY@));
            GenericParam::Type { name: name.clone(), bounds: extended }
        },
        other => other.clone(),
    }
}

/// Adds the bound `crate::types::SizedOnDisk` to every type parameter.
///
/// Lifetime and const parameters pass through untouched, and so do the
/// bounds that a type parameter already has. Whether a field mentions the
/// parameter plays no part.
pub fn add_trait_bounds(generics: Vec<GenericParam>) -> (bounded: Vec<GenericParam>)
    ensures
        bounded.deep_view() == augmented(generics.deep_view()),
{
    let mut bounded: Vec<GenericParam> = Vec::new();
    let mut i: usize = 0;
    while i < generics.len()
        invariant
            i <= generics.len(),
            bounded.len() == i,
            forall|j: int| 0 <= j < i ==> bounded[j]@ == with_capability(generics[j]@),
        decreases generics.len() - i,
    {
        bounded.push(bound_parameter(&generics[i]));
        i = i + 1;
    }
    assert(bounded.deep_view() =~= augmented(generics.deep_view()));
    bounded
}

/// Every type parameter of the input comes out as a type parameter that
/// carries the capability, at the same place; the number of type parameters
/// is unchanged, and every other parameter is unchanged.
pub proof fn lemma_type_parameters_are_bounded(generics: Seq<GenericParamView>)
    ensures
        augmented(generics).len() == generics.len(),
        type_parameter_count(augmented(generics)) == type_parameter_count(generics),
        forall|i: int|
            0 <= i < generics.len() && generics[i] is Type ==> carries_capability(
                #[trigger] augmented(generics)[i],
            ),
        forall|i: int|
            0 <= i < generics.len() && !(generics[i] is Type) ==> #[trigger] augmented(generics)[i]
                == generics[i],
    decreases generics.len(),
{
    let is_type = |param: GenericParamView| param is Type;
    assert forall|i: int| 0 <= i < generics.len() && generics[i] is Type implies carries_capability(
        #[trigger] augmented(generics)[i],
    ) by {
        let bounds = generics[i]->Type_bounds;
        let extended = bounds.push(SIZE_CAPABILITY@);
        assert(extended[bounds.len() as int] == SIZE_CAPABILITY@);
    }
    if generics.len() > 0 {
        let front = generics.drop_last();
        lemma_type_parameters_are_bounded(front);
        assert(augmented(generics).drop_last() =~= augmented(front));
        assert(augmented(generics).last() == with_capability(generics.last()));
        reveal_with_fuel(Seq::filter, 2);
    } else {
        reveal_with_fuel(Seq::filter, 2);
    }
}

} // verus!
