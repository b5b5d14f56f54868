//! What the builders make of a multiple selection.
use vstd::prelude::*;

verus! {

/// What a reported multiple selection amounts to: the selection itself when
/// it holds at least one item, and nothing when the native layer reported
/// none or an empty one. Picking no files and cancelling look the same to
/// the caller.
pub open spec fn spec_confirmed_selection<T>(reported: Option<Vec<T>>) -> Option<Vec<T>> {
    match reported {
        Some(items) => if items@.len() > 0 {
            reported
        } else {
            None
        },
        None => None,
    }
}

/// Turns the multiple selection a native layer reported into the one a
/// caller sees, in which a present selection is never empty.
#[verifier::when_used_as_spec(spec_confirmed_selection)]
pub fn confirmed_selection<T>(reported: Option<Vec<T>>) -> (selection: Option<Vec<T>>)
    ensures
        selection == spec_confirmed_selection(reported),
        selection matches Some(items) ==> items@.len() > 0,
{
    match reported {
        Some(items) => if items.len() > 0 {
            Some(items)
        } else {
            None
        },
        None => None,
    }
}

/// A multiple selection as its receiver sees it: either absent, or at
/// least one item in the order the native layer reported. It has no way to
/// hold a present selection of nothing, so a native layer that answers
/// through it cannot hand one on, whatever it reports.
pub struct Selection<T> {
    items: Vec<T>,
}

impl<T> View for Selection<T> {
    type V = Option<Seq<T>>;

    closed spec fn view(&self) -> Option<Seq<T>> {
        if self.items@.len() > 0 {
            Some(self.items@)
        } else {
            None
        }
    }
}

/// The items of an optional vector, if it is present.
pub open spec fn items_of<T>(picked: Option<Vec<T>>) -> Option<Seq<T>> {
    match picked {
        Some(items) => Some(items@),
        None => None,
    }
}

/// A selection is never present and empty: this holds of every value of
/// the type, also of one that a deferred result has yet to resolve to.
pub proof fn lemma_selection_is_never_empty<T>(selection: Selection<T>)
    ensures
        selection@ matches Some(items) ==> items.len() > 0,
{
}

impl<T> Selection<T> {
    /// The selection that a report of the native layer amounts to: the
    /// reported items when there is at least one, and absent when the
    /// report is `None` or holds nothing.
    pub fn confirmed(reported: Option<Vec<T>>) -> (selection: Self)
        ensures
            selection@ == items_of(confirmed_selection(reported)),
    {
        match reported {
            Some(items) => Selection { items },
            None => Selection { items: Vec::new() },
        }
    }

    /// The selection as an optional vector: the items when it is present,
    /// `None` when it is absent. A returned vector is never empty.
    pub fn into_option(self) -> (picked: Option<Vec<T>>)
        ensures
            items_of(picked) == self@,
            picked matches Some(items) ==> items@.len() > 0,
    {
        if self.items.len() > 0 {
            Some(self.items)
        } else {
            None
        }
    }
}

} // verus!
