//! Choosing among the MIME types that a clipboard owner offers.
use vstd::prelude::*;

use crate::optional;
use crate::text::same_text;

verus! {

/// The first of `preferences` that is among `available`.
pub open spec fn first_available(
    preferences: Seq<Seq<char>>,
    available: Seq<Seq<char>>,
) -> Option<Seq<char>>
    decreases preferences.len(),
{
    if preferences.len() == 0 {
        None
    } else if available.contains(preferences.first()) {
        Some(preferences.first())
    } else {
        first_available(preferences.drop_first(), available)
    }
}

/// Whether `text` is one of `list`.
pub fn contains_text(list: &Vec<String>, text: &str) -> (found: bool)
    ensures
        found == list.deep_view().contains(text@),
{
    let mut i: usize = 0;
    while i < list.len()
        invariant
            i <= list@.len(),
            forall|j: int| 0 <= j < i ==> list.deep_view()[j] != text@,
        decreases list@.len() - i,
    {
        if same_text(list[i].as_str(), text) {
            assert(list.deep_view()[i as int] == text@);
            return true;
        }
        i = i + 1;
    }
    false
}

/// A copy of a list of texts.
pub fn copy_texts(list: &Vec<String>) -> (copy: Vec<String>)
    ensures
        copy.deep_view() == list.deep_view(),
{
    let copy = list.clone();
    assert(copy.deep_view() =~= list.deep_view());
    copy
}

/// The first of the preferred MIME types that is available.
pub fn best_mime(preferences: &Vec<String>, available: &Vec<String>) -> (best: Option<String>)
    ensures
        optional::viewed(best) == first_available(
            preferences.deep_view(),
            available.deep_view(),
        ),
{
    let ghost wanted = preferences.deep_view();
    let ghost offered = available.deep_view();
    let mut i: usize = 0;
    assert(wanted.skip(0) =~= wanted);
    while i < preferences.len()
        invariant
            i <= preferences@.len(),
            wanted == preferences.deep_view(),
            offered == available.deep_view(),
            first_available(wanted.skip(i as int), offered) == first_available(wanted, offered),
        decreases preferences@.len() - i,
    {
        assert(wanted.skip(i as int).first() == preferences@[i as int]@);
        if contains_text(available, preferences[i].as_str()) {
            return Some(preferences[i].clone());
        }
        assert(wanted.skip(i as int).drop_first() =~= wanted.skip(i + 1));
        i = i + 1;
    }
    None
}

/// The chosen type is wanted and available, and no type that is preferred to it is available; none
/// is chosen only where no wanted type is available.
pub proof fn law_best_is_preferred(preferences: Seq<Seq<char>>, available: Seq<Seq<char>>)
    ensures
        match first_available(preferences, available) {
            Some(mime) => available.contains(mime) && exists|i: int|
                #![trigger preferences[i]]
                {
                    &&& 0 <= i < preferences.len()
                    &&& preferences[i] == mime
                    &&& forall|j: int| 0 <= j < i ==> !available.contains(#[trigger] preferences[j])
                },
            None => forall|j: int|
                0 <= j < preferences.len() ==> !available.contains(#[trigger] preferences[j]),
        },
    decreases preferences.len(),
{
    if preferences.len() > 0 {
        let first = preferences.first();
        let rest = preferences.drop_first();
        law_best_is_preferred(rest, available);
        if available.contains(first) {
            assert(preferences[0] == first);
        } else {
            match first_available(rest, available) {
                Some(mime) => {
                    let i = choose|i: int|
                        #![trigger rest[i]]
                        {
                            &&& 0 <= i < rest.len()
                            &&& rest[i] == mime
                            &&& forall|j: int| 0 <= j < i ==> !available.contains(#[trigger] rest[j])
                        };
                    assert(preferences[i + 1] == mime);
                    assert forall|j: int| 0 <= j < i + 1 implies !available.contains(
                        #[trigger] preferences[j],
                    ) by {
                        if j > 0 {
                            assert(rest[j - 1] == preferences[j]);
                        }
                    }
                },
                None => {
                    assert forall|j: int| 0 <= j < preferences.len() implies !available.contains(
                        #[trigger] preferences[j],
                    ) by {
                        if j > 0 {
                            assert(rest[j - 1] == preferences[j]);
                        }
                    }
                },
            }
        }
    }
}

/// The first of the preferred types that is available is the one that is chosen.
pub proof fn law_first_available_is_chosen(
    preferences: Seq<Seq<char>>,
    available: Seq<Seq<char>>,
    best: int,
)
    requires
        0 <= best < preferences.len(),
        available.contains(preferences[best]),
        forall|j: int| 0 <= j < best ==> !available.contains(#[trigger] preferences[j]),
    ensures
        first_available(preferences, available) == Some(preferences[best]),
{
    law_best_is_preferred(preferences, available);
    let mime = first_available(preferences, available)->0;
    let i = choose|i: int|
        #![trigger preferences[i]]
        {
            &&& 0 <= i < preferences.len()
            &&& preferences[i] == mime
            &&& forall|j: int| 0 <= j < i ==> !available.contains(#[trigger] preferences[j])
        };
    if i < best {
        assert(!available.contains(preferences[i]));
    }
    if best < i {
        assert(!available.contains(preferences[best]));
    }
}

} // verus!
