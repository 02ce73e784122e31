//! What follows from the contracts of the queue's operations, stated over the
//! model of [`crate::unique_queue::types`] and proved once for every element
//! type, every capacity and every state.

use crate::unique_queue::types::{
    after_dequeue, after_enqueue, back_result, dequeue_result, enqueue_result, front_result,
    valid_state, UniqueBufferError,
};
use vstd::prelude::*;

verus! {

/// The elements after enqueueing `vals` one after the other, first to last.
pub open spec fn after_enqueues<T>(items: Seq<T>, capacity: nat, vals: Seq<T>) -> Seq<T>
    decreases vals.len(),
{
    if vals.len() == 0 {
        items
    } else {
        after_enqueues(after_enqueue(items, capacity, vals.first()), capacity, vals.drop_first())
    }
}

/// What enqueueing `vals` one after the other returns, call by call.
pub open spec fn enqueue_results<T>(items: Seq<T>, capacity: nat, vals: Seq<T>) -> Seq<
    Result<T, UniqueBufferError>,
>
    decreases vals.len(),
{
    if vals.len() == 0 {
        Seq::empty()
    } else {
        seq![enqueue_result(items, capacity, vals.first())] + enqueue_results(
            after_enqueue(items, capacity, vals.first()),
            capacity,
            vals.drop_first(),
        )
    }
}

/// The elements after `n` calls of `dequeue`.
pub open spec fn after_dequeues<T>(items: Seq<T>, n: nat) -> Seq<T>
    decreases n,
{
    if n == 0 {
        items
    } else {
        after_dequeues(after_dequeue(items), (n - 1) as nat)
    }
}

/// What `n` calls of `dequeue` return, call by call.
pub open spec fn dequeue_results<T>(items: Seq<T>, n: nat) -> Seq<Result<T, UniqueBufferError>>
    decreases n,
{
    if n == 0 {
        Seq::empty()
    } else {
        seq![dequeue_result(items)] + dequeue_results(after_dequeue(items), (n - 1) as nat)
    }
}

/// `vals`, each as the result of a call that succeeded.
pub open spec fn all_ok<T>(vals: Seq<T>) -> Seq<Result<T, UniqueBufferError>> {
    Seq::new(vals.len(), |i: int| Ok(vals[i]))
}

/// No operation leads out of the valid states: whatever is enqueued, and
/// whether or not it is accepted, after `enqueue`, `dequeue` and `clear` the
/// queue still holds no element twice and no more than its capacity.
pub proof fn lemma_operations_keep_validity<T>(items: Seq<T>, capacity: nat, val: T)
    requires
        valid_state(items, capacity),
    ensures
        valid_state(after_enqueue(items, capacity, val), capacity),
        valid_state(after_dequeue(items), capacity),
        valid_state(Seq::<T>::empty(), capacity),
{
}

/// A queue below its capacity accepts a value that it does not hold: the
/// value is handed back, is then held, and is what `back` returns. The
/// elements held before keep their places.
pub proof fn lemma_enqueue_accepts_new_value<T>(items: Seq<T>, capacity: nat, val: T)
    requires
        items.len() < capacity,
        !items.contains(val),
    ensures
        enqueue_result(items, capacity, val) == Ok::<T, UniqueBufferError>(val),
        after_enqueue(items, capacity, val).len() == items.len() + 1,
        after_enqueue(items, capacity, val).contains(val),
        back_result(after_enqueue(items, capacity, val)) == Ok::<T, UniqueBufferError>(val),
        forall|i: int|
            0 <= i < items.len() ==> #[trigger] after_enqueue(items, capacity, val)[i] == items[i],
{
    let after = after_enqueue(items, capacity, val);
    assert(after[items.len() as int] == val);
}

/// A queue below its capacity refuses a value that it holds as a duplicate,
/// and stays as it is.
pub proof fn lemma_enqueue_refuses_duplicate<T>(items: Seq<T>, capacity: nat, val: T)
    requires
        items.len() < capacity,
        items.contains(val),
    ensures
        enqueue_result(items, capacity, val) == Err::<T, UniqueBufferError>(
            UniqueBufferError::EnqueuedDuplicateValue,
        ),
        after_enqueue(items, capacity, val) == items,
{
}

/// A queue at its capacity refuses every value as full, whether or not it
/// holds the value, and stays as it is.
pub proof fn lemma_enqueue_refuses_when_full<T>(items: Seq<T>, capacity: nat, val: T)
    requires
        items.len() >= capacity,
    ensures
        enqueue_result(items, capacity, val) == Err::<T, UniqueBufferError>(
            UniqueBufferError::EnqueuedFullBuffer,
        ),
        after_enqueue(items, capacity, val) == items,
{
}

/// From a queue that holds something, `dequeue` returns the oldest element.
/// Afterwards the queue no longer holds it, is one element shorter, and every
/// other element has moved up by one place.
pub proof fn lemma_dequeue_takes_oldest<T>(items: Seq<T>)
    requires
        items.no_duplicates(),
        items.len() > 0,
    ensures
        dequeue_result(items) == Ok::<T, UniqueBufferError>(items[0]),
        front_result(items) == Ok::<T, UniqueBufferError>(items[0]),
        !after_dequeue(items).contains(items[0]),
        after_dequeue(items).len() == items.len() - 1,
        forall|i: int|
            0 <= i < items.len() - 1 ==> #[trigger] after_dequeue(items)[i] == items[i + 1],
{
}

/// On a queue without elements `dequeue`, `front` and `back` each fail with
/// their own error, and `dequeue` leaves the queue as it is.
pub proof fn lemma_empty_queue_fails<T>(items: Seq<T>)
    requires
        items.len() == 0,
    ensures
        dequeue_result(items) == Err::<T, UniqueBufferError>(
            UniqueBufferError::DequeuedEmptyBuffer,
        ),
        front_result(items) == Err::<T, UniqueBufferError>(UniqueBufferError::PeekedEmptyBuffer),
        back_result(items) == Err::<T, UniqueBufferError>(UniqueBufferError::PeekedEmptyBuffer),
        after_dequeue(items) == items,
{
}

/// Values that differ from each other and from the elements held, and that
/// fit below the capacity together with them, are all accepted: each call
/// hands its value back, and the values end up behind the elements held
/// before, in the order in which they were enqueued.
pub proof fn lemma_enqueue_distinct_values<T>(items: Seq<T>, capacity: nat, vals: Seq<T>)
    requires
        (items + vals).no_duplicates(),
        items.len() + vals.len() <= capacity,
    ensures
        enqueue_results(items, capacity, vals) == all_ok(vals),
        after_enqueues(items, capacity, vals) == items + vals,
    decreases vals.len(),
{
    if vals.len() == 0 {
        assert(items + vals =~= items);
        assert(enqueue_results(items, capacity, vals) =~= all_ok(vals));
    } else {
        let val = vals.first();
        let rest = vals.drop_first();
        let all = items + vals;
        assert(all[items.len() as int] == val);
        assert(!items.contains(val)) by {
            if items.contains(val) {
                let i = choose|i: int| 0 <= i < items.len() && items[i] == val;
                assert(all[i] == val);
            }
        }
        assert(after_enqueue(items, capacity, val) == items.push(val));
        assert(items.push(val) + rest =~= all);
        lemma_enqueue_distinct_values(items.push(val), capacity, rest);
        assert(enqueue_results(items, capacity, vals) =~= all_ok(vals)) by {
            assert(forall|i: int| 0 <= i < rest.len() ==> all_ok(rest)[i] == all_ok(vals)[i + 1]);
        }
    }
}

/// As long as elements are left, `dequeue` returns them in the order in which
/// they are held: `n` calls return the first `n` elements and leave the rest.
pub proof fn lemma_dequeue_in_order<T>(items: Seq<T>, n: nat)
    requires
        n <= items.len(),
    ensures
        dequeue_results(items, n) == all_ok(items.take(n as int)),
        after_dequeues(items, n) == items.skip(n as int),
    decreases n,
{
    if n == 0 {
        assert(items.skip(0) =~= items);
        assert(dequeue_results(items, n) =~= all_ok(items.take(0)));
    } else {
        let rest = items.drop_first();
        let m = (n - 1) as nat;
        lemma_dequeue_in_order(rest, m);
        assert(rest.skip(m as int) =~= items.skip(n as int));
        assert(dequeue_results(items, n) =~= all_ok(items.take(n as int))) by {
            assert(forall|i: int|
                0 <= i < m ==> all_ok(rest.take(m as int))[i] == all_ok(items.take(n as int))[i
                    + 1]);
        }
    }
}

/// First in, first out: a queue without elements accepts values that differ
/// from each other and are no more than its capacity, and as many calls of
/// `dequeue` then return the same values in the same order and leave the
/// queue without elements.
pub proof fn lemma_round_trip<T>(capacity: nat, vals: Seq<T>)
    requires
        vals.no_duplicates(),
        vals.len() <= capacity,
    ensures
        enqueue_results(Seq::<T>::empty(), capacity, vals) == all_ok(vals),
        dequeue_results(after_enqueues(Seq::<T>::empty(), capacity, vals), vals.len()) == all_ok(
            vals,
        ),
        after_dequeues(after_enqueues(Seq::<T>::empty(), capacity, vals), vals.len())
            == Seq::<T>::empty(),
{
    assert(Seq::<T>::empty() + vals =~= vals);
    lemma_enqueue_distinct_values(Seq::<T>::empty(), capacity, vals);
    lemma_dequeue_in_order(vals, vals.len());
    assert(vals.take(vals.len() as int) =~= vals);
    assert(vals.skip(vals.len() as int) =~= Seq::<T>::empty());
}

/// A cleared queue can be filled again up to its capacity: from the state
/// that `clear` leaves, values that differ from each other and are no more
/// than the capacity are all accepted and then make up the queue.
pub proof fn lemma_refill_after_clear<T>(capacity: nat, vals: Seq<T>)
    requires
        vals.no_duplicates(),
        vals.len() <= capacity,
    ensures
        enqueue_results(Seq::<T>::empty(), capacity, vals) == all_ok(vals),
        after_enqueues(Seq::<T>::empty(), capacity, vals) == vals,
{
    assert(Seq::<T>::empty() + vals =~= vals);
    lemma_enqueue_distinct_values(Seq::<T>::empty(), capacity, vals);
}

} // verus!
