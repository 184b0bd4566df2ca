//! What a control asks of the type of value it selects.

use vstd::prelude::*;
use vstd::std_specs::cmp::PartialEqSpec;

verus! {

/// Holds of a type whose `==` compares by value: two values compare equal
/// exactly when they are the same value.
pub open spec fn compares_by_value<T: PartialEq>() -> bool {
    &&& T::obeys_eq_spec()
    &&& forall|a: T, b: T| #[trigger] a.eq_spec(&b) <==> a == b
}

/// Holds of a type whose clones are the same value as what they were made
/// of.
pub open spec fn clones_by_value<T: Clone>() -> bool {
    forall|a: T, b: T| #[trigger] cloned(a, b) ==> a == b
}

} // verus!
