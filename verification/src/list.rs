//! Lists that cannot be empty: the `NonEmpty` of the `nonempty` crate, read
//! as the sequence of its head and its tail.

use vstd::prelude::*;
use nonempty::NonEmpty;

verus! {

/// `nonempty::NonEmpty`, with the two public fields that it has: the head
/// and the vector of the other items.
#[verifier::external_type_specification]
#[verifier::reject_recursive_types(T)]
pub struct ExNonEmpty<T>(NonEmpty<T>);

/// The items of a non-empty list, head first.
pub open spec fn nonempty_seq<T>(list: NonEmpty<T>) -> Seq<T> {
    seq![list.head] + list.tail@
}

/// `NonEmpty::from_vec` refuses an empty vector, and otherwise makes the
/// first item the head and the others the tail.
pub assume_specification<T>[ NonEmpty::<T>::from_vec ](vec: Vec<T>) -> (r: Option<NonEmpty<T>>)
    ensures
        r is Some <==> vec@.len() > 0,
        r matches Some(list) ==> list.head == vec@[0] && list.tail@ == vec@.skip(1),
;

/// `NonEmpty::len` is the length of the tail and one more.
pub assume_specification<T>[ NonEmpty::<T>::len ](list: &NonEmpty<T>) -> (n: usize)
    ensures
        n == list.tail@.len() + 1,
;

/// `NonEmpty::get` gives the head for index zero, the tail's item before
/// `index` for another index within the list, and nothing beyond it.
pub assume_specification<T>[ NonEmpty::<T>::get ](list: &NonEmpty<T>, index: usize) -> (r: Option<
    &T,
>)
    ensures
        r is Some <==> index <= list.tail@.len(),
        r matches Some(item) ==> *item == nonempty_seq(*list)[index as int],
;

/// The list that `from_vec` makes holds the vector's items in their order.
pub proof fn lemma_nonempty_seq_of_parts<T>(list: NonEmpty<T>, items: Seq<T>)
    requires
        items.len() > 0,
        list.head == items[0],
        list.tail@ == items.skip(1),
    ensures
        nonempty_seq(list) == items,
{
}

/// The item at `index`.
pub fn nonempty_get<T>(list: &NonEmpty<T>, index: usize) -> (r: &T)
    requires
        index < nonempty_seq(*list).len(),
    ensures
        *r == nonempty_seq(*list)[index as int],
{
    match list.get(index) {
        Some(item) => item,
        None => &list.head,
    }
}

} // verus!
