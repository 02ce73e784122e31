//! The error type, the abstract model of a unique queue, and the trait that
//! states what every operation does to that model.

use std::hash::Hash;
use vstd::prelude::*;

verus! {

/// Why an operation on a unique queue did not go through. No failure changes
/// the queue.
#[derive(Debug, Clone, Copy, PartialEq, Eq, Structural)]
pub enum UniqueBufferError {
    /// `dequeue` was called on a queue without elements.
    DequeuedEmptyBuffer,
    /// `front` or `back` was called on a queue without elements.
    PeekedEmptyBuffer,
    /// `enqueue` was called on a queue that already holds as many elements as
    /// its capacity allows.
    EnqueuedFullBuffer,
    /// `enqueue` was called with a value that the queue already holds.
    EnqueuedDuplicateValue,
}

impl UniqueBufferError {
    /// The text of [`UniqueBufferError::message`].
    pub open spec fn spec_message(self) -> Seq<char> {
        match self {
            UniqueBufferError::DequeuedEmptyBuffer => {
                "Failed to dequeue: buffer contains no elements"@
            },
            UniqueBufferError::PeekedEmptyBuffer => {
                "Failed to peek the head of the queue, buffer is empty"@
            },
            UniqueBufferError::EnqueuedFullBuffer => "Failed to enqueue: buffer is full"@,
            UniqueBufferError::EnqueuedDuplicateValue => {
                "Failed to enqueue: value already in buffer"@
            },
        }
    }

    /// A sentence for the user that says what failed.
    pub fn message(&self) -> (text: &'static str)
        ensures
            text@ == self.spec_message(),
    {
        match self {
            UniqueBufferError::DequeuedEmptyBuffer => {
                "Failed to dequeue: buffer contains no elements"
            },
            UniqueBufferError::PeekedEmptyBuffer => {
                "Failed to peek the head of the queue, buffer is empty"
            },
            UniqueBufferError::EnqueuedFullBuffer => "Failed to enqueue: buffer is full",
            UniqueBufferError::EnqueuedDuplicateValue => {
                "Failed to enqueue: value already in buffer"
            },
        }
    }
}

/// A queue's state is in order if no element occurs twice and the elements are
/// no more than the capacity allows.
pub open spec fn valid_state<T>(items: Seq<T>, capacity: nat) -> bool {
    &&& items.no_duplicates()
    &&& items.len() <= capacity
}

/// What `enqueue` returns for a queue that holds `items`, oldest first. A queue
/// at its capacity refuses every value, also one that it already holds;
/// otherwise a value that it already holds is refused as a duplicate.
pub open spec fn enqueue_result<T>(items: Seq<T>, capacity: nat, val: T) -> Result<
    T,
    UniqueBufferError,
> {
    if items.len() >= capacity {
        Err(UniqueBufferError::EnqueuedFullBuffer)
    } else if items.contains(val) {
        Err(UniqueBufferError::EnqueuedDuplicateValue)
    } else {
        Ok(val)
    }
}

/// The elements after `enqueue`: the value comes last if it was accepted, and
/// nothing changes if it was not.
pub open spec fn after_enqueue<T>(items: Seq<T>, capacity: nat, val: T) -> Seq<T> {
    if enqueue_result(items, capacity, val) is Ok {
        items.push(val)
    } else {
        items
    }
}

/// What `dequeue` returns: the oldest element, if there is one.
pub open spec fn dequeue_result<T>(items: Seq<T>) -> Result<T, UniqueBufferError> {
    if items.len() == 0 {
        Err(UniqueBufferError::DequeuedEmptyBuffer)
    } else {
        Ok(items.first())
    }
}

/// The elements after `dequeue`: all but the oldest, in their order.
pub open spec fn after_dequeue<T>(items: Seq<T>) -> Seq<T> {
    if items.len() == 0 {
        items
    } else {
        items.drop_first()
    }
}

/// What `front` returns: the oldest element, if there is one.
pub open spec fn front_result<T>(items: Seq<T>) -> Result<T, UniqueBufferError> {
    if items.len() == 0 {
        Err(UniqueBufferError::PeekedEmptyBuffer)
    } else {
        Ok(items.first())
    }
}

/// What `back` returns: the element enqueued last, if there is one.
pub open spec fn back_result<T>(items: Seq<T>) -> Result<T, UniqueBufferError> {
    if items.len() == 0 {
        Err(UniqueBufferError::PeekedEmptyBuffer)
    } else {
        Ok(items.last())
    }
}

/// A bounded first-in, first-out queue without repeated elements.
///
/// The view of a queue is the sequence of its elements, oldest first. Together
/// with the capacity it is the whole state that the contracts speak of.
pub trait IsUniqueQueue<T: Clone + Eq + Hash>: View<V = Seq<T>> {
    /// The most elements that the queue may hold. No operation changes it.
    spec fn spec_capacity(&self) -> nat;

    /// The queue's invariant. Every constructor establishes it and every
    /// operation keeps it.
    spec fn well_formed(&self) -> bool;

    /// A well-formed queue holds no element twice and no more elements than its
    /// capacity.
    proof fn lemma_well_formed(&self)
        requires
            self.well_formed(),
        ensures
            valid_state(self@, self.spec_capacity()),
    ;

    /// Appends `val` as the newest element and hands it back, unless the queue
    /// is at its capacity or holds `val` already.
    fn enqueue(&mut self, val: T) -> (res: Result<T, UniqueBufferError>)
        requires
            old(self).well_formed(),
        ensures
            final(self).well_formed(),
            final(self).spec_capacity() == old(self).spec_capacity(),
            res == enqueue_result(old(self)@, old(self).spec_capacity(), val),
            final(self)@ == after_enqueue(old(self)@, old(self).spec_capacity(), val),
    ;

    /// Removes the oldest element and returns it.
    fn dequeue(&mut self) -> (res: Result<T, UniqueBufferError>)
        requires
            old(self).well_formed(),
        ensures
            final(self).well_formed(),
            final(self).spec_capacity() == old(self).spec_capacity(),
            res == dequeue_result(old(self)@),
            final(self)@ == after_dequeue(old(self)@),
    ;

    /// Returns a copy of the oldest element.
    fn front(&self) -> (res: Result<T, UniqueBufferError>)
        requires
            self.well_formed(),
        ensures
            res == front_result(self@),
    ;

    /// Returns a copy of the element enqueued last.
    fn back(&self) -> (res: Result<T, UniqueBufferError>)
        requires
            self.well_formed(),
        ensures
            res == back_result(self@),
    ;

    /// Removes every element. The capacity stays.
    fn clear(&mut self)
        requires
            old(self).well_formed(),
        ensures
            final(self).well_formed(),
            final(self).spec_capacity() == old(self).spec_capacity(),
            final(self)@ == Seq::<T>::empty(),
    ;

    /// Whether the queue holds `val`.
    fn contains(&self, val: T) -> (found: bool)
        requires
            self.well_formed(),
        ensures
            found == self@.contains(val),
    ;

    /// The most elements that the queue may hold.
    fn capacity(&self) -> (capacity: usize)
        requires
            self.well_formed(),
        ensures
            capacity == self.spec_capacity(),
    ;

    /// The number of elements held, which never exceeds the capacity.
    fn size(&self) -> (size: usize)
        requires
            self.well_formed(),
        ensures
            size == self@.len(),
            size <= self.spec_capacity(),
    ;
}

} // verus!
