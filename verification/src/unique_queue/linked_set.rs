//! The insertion-ordered hash set that stores the queue's elements.
//!
//! `LinkedHashSet` comes from the `linked_hash_set` crate and is opaque to the
//! verifier. Its contents are named by [`set_items`], and each method that the
//! queue calls gets a wrapper whose contract is taken on trust from the crate's
//! source and documentation. Nothing in this file is proved.

use linked_hash_set::LinkedHashSet;
use std::collections::hash_map::RandomState;
use vstd::prelude::*;

verus! {

/// Makes `linked_hash_set::LinkedHashSet` known as an opaque type.
#[verifier::external_type_specification]
#[verifier::external_body]
#[verifier::reject_recursive_types(T)]
#[verifier::reject_recursive_types(S)]
pub struct ExLinkedHashSet<T, S>(LinkedHashSet<T, S>);

/// The elements of a set in the order in which it iterates: the one inserted
/// longest ago comes first, the one inserted last comes last.
pub uninterp spec fn set_items(set: LinkedHashSet<i32, RandomState>) -> Seq<i32>;

/// `LinkedHashSet::new`: a set without elements.
#[verifier::external_body]
pub(crate) fn set_new() -> (set: LinkedHashSet<i32, RandomState>)
    ensures
        set_items(set) == Seq::<i32>::empty(),
{
    LinkedHashSet::new()
}

/// `LinkedHashSet::with_capacity`: a set without elements, with room reserved
/// for `capacity` of them. The contract speaks of the set that comes back and
/// says nothing of the room reserved; as with every allocation, a request
/// that the machine cannot meet does not come back at all.
#[verifier::external_body]
pub(crate) fn set_with_capacity(capacity: usize) -> (set: LinkedHashSet<i32, RandomState>)
    ensures
        set_items(set) == Seq::<i32>::empty(),
{
    LinkedHashSet::with_capacity(capacity)
}

/// `LinkedHashSet::len`: the number of elements.
#[verifier::external_body]
pub(crate) fn set_len(set: &LinkedHashSet<i32, RandomState>) -> (n: usize)
    ensures
        n == set_items(*set).len(),
{
    set.len()
}

/// `LinkedHashSet::is_empty`: whether the set has no element.
#[verifier::external_body]
pub(crate) fn set_is_empty(set: &LinkedHashSet<i32, RandomState>) -> (b: bool)
    ensures
        b == (set_items(*set).len() == 0),
{
    set.is_empty()
}

/// `LinkedHashSet::contains`: whether `value` is among the elements.
#[verifier::external_body]
pub(crate) fn set_contains(set: &LinkedHashSet<i32, RandomState>, value: &i32) -> (b: bool)
    ensures
        b == set_items(*set).contains(*value),
{
    set.contains(value)
}

/// `LinkedHashSet::insert`: puts `value` at the end of the order, whether or
/// not the set held it already, and returns `true` exactly if it did not.
#[verifier::external_body]
pub(crate) fn set_insert(set: &mut LinkedHashSet<i32, RandomState>, value: i32) -> (fresh: bool)
    ensures
        fresh == !set_items(*old(set)).contains(value),
        fresh ==> set_items(*final(set)) == set_items(*old(set)).push(value),
        !fresh ==> set_items(*final(set)) == set_items(*old(set)).remove_value(value).push(value),
{
    set.insert(value)
}

/// `LinkedHashSet::front`: the element inserted longest ago, `None` for a set
/// without elements. The set stays as it is.
#[verifier::external_body]
pub(crate) fn set_front(set: &LinkedHashSet<i32, RandomState>) -> (first: Option<&i32>)
    ensures
        set_items(*set).len() == 0 ==> first is None,
        set_items(*set).len() > 0 ==> first == Some(&set_items(*set).first()),
{
    set.front()
}

/// `LinkedHashSet::back`: the element inserted last, `None` for a set without
/// elements. The set stays as it is.
#[verifier::external_body]
pub(crate) fn set_back(set: &LinkedHashSet<i32, RandomState>) -> (last: Option<&i32>)
    ensures
        set_items(*set).len() == 0 ==> last is None,
        set_items(*set).len() > 0 ==> last == Some(&set_items(*set).last()),
{
    set.back()
}

/// `LinkedHashSet::pop_front`: takes out the element inserted longest ago and
/// returns it; the others keep their order. On a set without elements it
/// returns `None` and changes nothing.
#[verifier::external_body]
pub(crate) fn set_pop_front(set: &mut LinkedHashSet<i32, RandomState>) -> (first: Option<i32>)
    ensures
        set_items(*old(set)).len() == 0 ==> first is None && set_items(*final(set)) == set_items(
            *old(set),
        ),
        set_items(*old(set)).len() > 0 ==> first == Some(set_items(*old(set)).first())
            && set_items(*final(set)) == set_items(*old(set)).drop_first(),
{
    set.pop_front()
}

/// `LinkedHashSet::clear`: removes every element.
#[verifier::external_body]
pub(crate) fn set_clear(set: &mut LinkedHashSet<i32, RandomState>)
    ensures
        set_items(*final(set)) == Seq::<i32>::empty(),
{
    set.clear()
}

/// `LinkedHashSet::clone`: a set of its own with the same elements in the
/// same order.
#[verifier::external_body]
pub(crate) fn set_clone(set: &LinkedHashSet<i32, RandomState>) -> (copy: LinkedHashSet<
    i32,
    RandomState,
>)
    ensures
        set_items(copy) == set_items(*set),
{
    set.clone()
}

/// `LinkedHashSet::iter`, collected: the elements in the set's order.
#[verifier::external_body]
pub(crate) fn set_to_vec(set: &LinkedHashSet<i32, RandomState>) -> (items: Vec<i32>)
    ensures
        items@ == set_items(*set),
{
    set.iter().copied().collect()
}

} // verus!
