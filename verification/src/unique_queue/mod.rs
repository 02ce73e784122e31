//! The queue itself: a `LinkedHashSet` together with the capacity that the
//! queue was made with.

pub mod laws;
pub mod linked_set;
pub mod types;

use crate::unique_queue::linked_set::{
    set_back, set_clear, set_clone, set_contains, set_front, set_insert, set_is_empty, set_items,
    set_len, set_new, set_pop_front, set_to_vec, set_with_capacity,
};
use crate::unique_queue::types::{valid_state, IsUniqueQueue, UniqueBufferError};
use linked_hash_set::LinkedHashSet;
use std::hash::Hash;
use vstd::prelude::*;
use vstd::std_specs::vec::into_iter_elts;

verus! {

/// The capacity of a queue made by [`UniqueQueue::default`].
pub const DEFAULT_CAPACITY: usize = 100;

/// A bounded first-in, first-out queue without repeated elements.
///
/// The elements live in a hash set that remembers the order of insertion, so
/// that membership, appending and removing the oldest element each take
/// constant time. The capacity is fixed when the queue is made.
///
/// The operations are provided for `i32` elements, whose equality is the one
/// that the contracts and the hash set agree on.
#[derive(Debug, PartialEq, Eq, Hash)]
#[verifier::reject_recursive_types(T)]
pub struct UniqueQueue<T: Clone + Eq + Hash> {
    queue: LinkedHashSet<T>,
    capacity: usize,
}

impl View for UniqueQueue<i32> {
    type V = Seq<i32>;

    /// The elements, oldest first.
    closed spec fn view(&self) -> Seq<i32> {
        set_items(self.queue)
    }
}

impl UniqueQueue<i32> {
    /// A queue without elements that may hold up to `capacity` of them. Room
    /// for that many is reserved at once.
    pub fn with_capacity(capacity: usize) -> (queue: UniqueQueue<i32>)
        ensures
            queue.well_formed(),
            queue@ == Seq::<i32>::empty(),
            queue.spec_capacity() == capacity,
    {
        UniqueQueue { queue: set_with_capacity(capacity), capacity }
    }

    /// A queue of capacity 0: it has no element and accepts none.
    pub fn empty() -> (queue: UniqueQueue<i32>)
        ensures
            queue.well_formed(),
            queue@ == Seq::<i32>::empty(),
            queue.spec_capacity() == 0,
    {
        UniqueQueue { queue: set_new(), capacity: 0 }
    }

    /// A queue without elements of capacity [`DEFAULT_CAPACITY`].
    pub fn default() -> (queue: UniqueQueue<i32>)
        ensures
            queue.well_formed(),
            queue@ == Seq::<i32>::empty(),
            queue.spec_capacity() == DEFAULT_CAPACITY,
    {
        UniqueQueue { queue: set_with_capacity(DEFAULT_CAPACITY), capacity: DEFAULT_CAPACITY }
    }

    /// The most elements that the queue may hold.
    pub fn capacity(&self) -> (capacity: usize)
        ensures
            capacity == self.spec_capacity(),
    {
        self.capacity
    }

    /// The elements in the order in which they would leave the queue.
    pub fn to_vec(&self) -> (items: Vec<i32>)
        ensures
            items@ == self@,
    {
        set_to_vec(&self.queue)
    }
}

impl Clone for UniqueQueue<i32> {
    /// A queue of its own with the same elements in the same order and the
    /// same capacity.
    fn clone(&self) -> (copy: UniqueQueue<i32>)
        ensures
            copy@ == self@,
            copy.spec_capacity() == self.spec_capacity(),
            copy.well_formed() == self.well_formed(),
    {
        UniqueQueue { queue: set_clone(&self.queue), capacity: self.capacity }
    }
}

impl IntoIterator for UniqueQueue<i32> {
    type Item = i32;

    type IntoIter = std::vec::IntoIter<i32>;

    /// Takes the queue apart: the iterator yields the elements, oldest first.
    fn into_iter(self) -> (iter: std::vec::IntoIter<i32>)
        ensures
            into_iter_elts(iter) == self@,
    {
        self.to_vec().into_iter()
    }
}

impl<'a> IntoIterator for &'a UniqueQueue<i32> {
    type Item = i32;

    type IntoIter = std::vec::IntoIter<i32>;

    /// Leaves the queue as it is: the iterator yields copies of the elements,
    /// oldest first, however often it is asked for.
    fn into_iter(self) -> (iter: std::vec::IntoIter<i32>)
        ensures
            into_iter_elts(iter) == self@,
    {
        self.to_vec().into_iter()
    }
}

impl IsUniqueQueue<i32> for UniqueQueue<i32> {
    closed spec fn spec_capacity(&self) -> nat {
        self.capacity as nat
    }

    open spec fn well_formed(&self) -> bool {
        valid_state(self@, self.spec_capacity())
    }

    proof fn lemma_well_formed(&self) {
    }

    fn enqueue(&mut self, val: i32) -> (res: Result<i32, UniqueBufferError>) {
        if set_len(&self.queue) >= self.capacity {
            return Err(UniqueBufferError::EnqueuedFullBuffer);
        }
        if set_contains(&self.queue, &val) {
            return Err(UniqueBufferError::EnqueuedDuplicateValue);
        }
        set_insert(&mut self.queue, val);
        Ok(val)
    }

    fn dequeue(&mut self) -> (res: Result<i32, UniqueBufferError>) {
        if set_is_empty(&self.queue) {
            return Err(UniqueBufferError::DequeuedEmptyBuffer);
        }
        Ok(set_pop_front(&mut self.queue).unwrap())
    }

    fn front(&self) -> (res: Result<i32, UniqueBufferError>) {
        match set_front(&self.queue) {
            Some(val) => Ok(*val),
            None => Err(UniqueBufferError::PeekedEmptyBuffer),
        }
    }

    fn back(&self) -> (res: Result<i32, UniqueBufferError>) {
        match set_back(&self.queue) {
            Some(val) => Ok(*val),
            None => Err(UniqueBufferError::PeekedEmptyBuffer),
        }
    }

    fn clear(&mut self) {
        set_clear(&mut self.queue);
    }

    fn contains(&self, val: i32) -> (found: bool) {
        set_contains(&self.queue, &val)
    }

    fn capacity(&self) -> (capacity: usize) {
        self.capacity
    }

    fn size(&self) -> (size: usize) {
        set_len(&self.queue)
    }
}

} // verus!
