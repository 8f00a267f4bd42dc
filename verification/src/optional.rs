//! Optional values in contracts.
use vstd::prelude::*;

verus! {

/// The view of an optional value.
pub open spec fn viewed<T: View>(value: Option<T>) -> Option<T::V> {
    match value {
        Some(value) => Some(value@),
        None => None,
    }
}

/// An optional value as a sequence of at most one element.
pub open spec fn as_seq<T>(value: Option<T>) -> Seq<T> {
    match value {
        Some(value) => seq![value],
        None => Seq::empty(),
    }
}

/// An optional value has a view exactly if it is there, and then the one of the value.
pub proof fn law_only_a_value_has_a_view<T: View>(value: T)
    ensures
        viewed(Some(value)) == Some(value.view()),
        viewed(None::<T>) is None,
        as_seq(Some(value)) == seq![value],
        as_seq(None::<T>).len() == 0,
{
}

} // verus!
