//! Views of the containers that the contracts of the library speak of.
use crate::error::{Error, ErrorView};
use vstd::prelude::*;

verus! {

/// The view of an outcome: the view of the value, or the view of the error.
pub open spec fn result_view<T: View>(outcome: Result<T, Error>) -> Result<T::V, ErrorView> {
    match outcome {
        Ok(value) => Ok(value@),
        Err(error) => Err(error@),
    }
}

/// The view of an optional value: the view of the value, where there is one.
pub open spec fn option_view<T: View>(option: Option<T>) -> Option<T::V> {
    match option {
        Some(value) => Some(value@),
        None => None,
    }
}

/// The views of the items of a sequence, in the same order.
pub open spec fn seq_view<T: View>(items: Seq<T>) -> Seq<T::V> {
    items.map_values(|item: T| item@)
}

/// The views of no items are no views.
pub proof fn lemma_seq_view_empty<T: View>()
    ensures
        seq_view(Seq::<T>::empty()) == Seq::<T::V>::empty(),
{
    assert(seq_view(Seq::<T>::empty()) =~= Seq::<T::V>::empty());
}

/// Adding an item behind the others adds its view behind theirs.
pub proof fn lemma_seq_view_push<T: View>(items: Seq<T>, item: T)
    ensures
        seq_view(items.push(item)) == seq_view(items).push(item@),
{
    assert(seq_view(items.push(item)) =~= seq_view(items).push(item@));
}

/// The views of two sequences laid end to end are their views laid end to
/// end.
pub proof fn lemma_seq_view_add<T: View>(front: Seq<T>, back: Seq<T>)
    ensures
        seq_view(front + back) == seq_view(front) + seq_view(back),
{
    assert(seq_view(front + back) =~= seq_view(front) + seq_view(back));
}

} // verus!
