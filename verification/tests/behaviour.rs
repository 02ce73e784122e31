use std::sync::atomic::AtomicUsize;
use std::sync::atomic::Ordering;

use unique_queue::allocation_count;
use unique_queue::IsUniqueQueue;
use unique_queue::UniqueBufferError;
use unique_queue::UniqueQueue;

fn filled(capacity: usize, values: &[i32]) -> UniqueQueue<i32> {
    let mut queue = UniqueQueue::with_capacity(capacity);
    for value in values {
        assert_eq!(queue.enqueue(*value), Ok(*value));
    }
    queue
}

#[test]
fn constructors_give_exact_capacities() {
    assert_eq!(UniqueQueue::empty().capacity(), 0);
    assert_eq!(UniqueQueue::default().capacity(), 100);
    assert_eq!(UniqueQueue::with_capacity(10).capacity(), 10);
    assert_eq!(UniqueQueue::with_capacity(0).capacity(), 0);
    assert_eq!(UniqueQueue::with_capacity(1).capacity(), 1);
}

#[test]
fn constructors_give_queues_without_elements() {
    assert_eq!(UniqueQueue::empty().size(), 0);
    assert_eq!(UniqueQueue::default().size(), 0);
    assert_eq!(UniqueQueue::with_capacity(10).size(), 0);
    assert!(!UniqueQueue::with_capacity(10).contains(0));
}

#[test]
fn empty_queue_accepts_nothing() {
    let mut queue = UniqueQueue::empty();
    assert_eq!(queue.enqueue(7), Err(UniqueBufferError::EnqueuedFullBuffer));
    assert_eq!(queue.size(), 0);
    assert!(!queue.contains(7));
    assert_eq!(queue.capacity(), 0);
}

#[test]
fn eleventh_enqueue_is_refused_as_full() {
    let mut queue: UniqueQueue<i32> = UniqueQueue::with_capacity(10);
    for i in 0..10 {
        assert_eq!(queue.enqueue(i), Ok(i));
        let expected: usize = (i + 1).try_into().unwrap();
        assert_eq!(queue.size(), expected);
        assert_eq!(queue.front(), Ok(0));
        assert_eq!(queue.back(), Ok(i));
    }
    assert_eq!(queue.enqueue(10), Err(UniqueBufferError::EnqueuedFullBuffer));
    assert_eq!(queue.size(), 10);
    assert!(!queue.contains(10));
    assert_eq!(queue.back(), Ok(9));
}

#[test]
fn size_never_exceeds_capacity() {
    let mut queue = UniqueQueue::with_capacity(3);
    let steps: [i32; 8] = [5, 5, 6, 7, 8, 6, 9, 5];
    for value in steps {
        let _ = queue.enqueue(value);
        assert!(queue.size() <= queue.capacity());
        assert_eq!(queue.capacity(), 3);
    }
    assert_eq!(queue.to_vec(), vec![5, 6, 7]);
    while queue.dequeue().is_ok() {
        assert!(queue.size() <= queue.capacity());
        assert_eq!(queue.capacity(), 3);
    }
    queue.clear();
    assert!(queue.size() <= queue.capacity());
}

#[test]
fn new_value_is_accepted_held_and_last() {
    let mut queue = filled(5, &[4, 8]);
    assert!(!queue.contains(15));
    assert_eq!(queue.enqueue(15), Ok(15));
    assert!(queue.contains(15));
    assert_eq!(queue.back(), Ok(15));
    assert_eq!(queue.front(), Ok(4));
    assert_eq!(queue.size(), 3);
    assert_eq!(queue.to_vec(), vec![4, 8, 15]);
}

#[test]
fn held_value_is_refused_as_duplicate() {
    let mut queue = filled(5, &[4, 8, 15]);
    assert_eq!(queue.enqueue(8), Err(UniqueBufferError::EnqueuedDuplicateValue));
    assert_eq!(queue.size(), 3);
    assert_eq!(queue.to_vec(), vec![4, 8, 15]);
    assert_eq!(queue.back(), Ok(15));
}

#[test]
fn full_queue_reports_full_even_for_a_held_value() {
    let mut queue = filled(3, &[4, 8, 15]);
    assert_eq!(queue.size(), queue.capacity());
    assert_eq!(queue.enqueue(8), Err(UniqueBufferError::EnqueuedFullBuffer));
    assert_eq!(queue.enqueue(16), Err(UniqueBufferError::EnqueuedFullBuffer));
    assert_eq!(queue.to_vec(), vec![4, 8, 15]);

    let mut single = filled(1, &[1]);
    assert_eq!(single.enqueue(1), Err(UniqueBufferError::EnqueuedFullBuffer));
}

#[test]
fn dequeue_takes_the_oldest() {
    let mut queue = filled(5, &[23, 4, 42]);
    assert_eq!(queue.dequeue(), Ok(23));
    assert!(!queue.contains(23));
    assert_eq!(queue.size(), 2);
    assert_eq!(queue.front(), Ok(4));
    assert_eq!(queue.back(), Ok(42));
    assert_eq!(queue.capacity(), 5);
    assert_eq!(queue.to_vec(), vec![4, 42]);
}

#[test]
fn dequeued_value_can_come_back_as_the_newest() {
    let mut queue = filled(3, &[1, 2, 3]);
    assert_eq!(queue.dequeue(), Ok(1));
    assert_eq!(queue.enqueue(1), Ok(1));
    assert_eq!(queue.to_vec(), vec![2, 3, 1]);
    assert_eq!(queue.front(), Ok(2));
    assert_eq!(queue.back(), Ok(1));
}

#[test]
fn operations_on_a_queue_without_elements_fail() {
    let mut queue: UniqueQueue<i32> = UniqueQueue::with_capacity(4);
    assert_eq!(queue.dequeue(), Err(UniqueBufferError::DequeuedEmptyBuffer));
    assert_eq!(queue.front(), Err(UniqueBufferError::PeekedEmptyBuffer));
    assert_eq!(queue.back(), Err(UniqueBufferError::PeekedEmptyBuffer));
    assert_eq!(queue.size(), 0);
    assert_eq!(queue.capacity(), 4);

    let mut none: UniqueQueue<i32> = UniqueQueue::empty();
    assert_eq!(none.dequeue(), Err(UniqueBufferError::DequeuedEmptyBuffer));
    assert_eq!(none.front(), Err(UniqueBufferError::PeekedEmptyBuffer));
    assert_eq!(none.back(), Err(UniqueBufferError::PeekedEmptyBuffer));
}

#[test]
fn peeking_changes_nothing() {
    let queue = filled(4, &[9, 7]);
    assert_eq!(queue.front(), Ok(9));
    assert_eq!(queue.front(), Ok(9));
    assert_eq!(queue.back(), Ok(7));
    assert_eq!(queue.back(), Ok(7));
    assert_eq!(queue.size(), 2);
    assert_eq!(queue.to_vec(), vec![9, 7]);
}

#[test]
fn front_and_back_of_a_single_element() {
    let queue = filled(2, &[-3]);
    assert_eq!(queue.front(), Ok(-3));
    assert_eq!(queue.back(), Ok(-3));
}

#[test]
fn round_trip_is_first_in_first_out() {
    let mut queue: UniqueQueue<i32> = UniqueQueue::with_capacity(50);
    for i in 0..50 {
        assert_eq!(queue.enqueue(i), Ok(i));
    }
    for i in 0..50 {
        assert_eq!(queue.dequeue(), Ok(i));
    }
    assert_eq!(queue.size(), 0);
    assert_eq!(queue.dequeue(), Err(UniqueBufferError::DequeuedEmptyBuffer));
}

#[test]
fn round_trip_keeps_an_arbitrary_order() {
    let values: [i32; 6] = [31, -4, 15, 0, i32::MAX, i32::MIN];
    let mut queue = filled(6, &values);
    let mut out: Vec<i32> = Vec::new();
    while let Ok(value) = queue.dequeue() {
        out.push(value);
    }
    assert_eq!(out, values.to_vec());
}

#[test]
fn two_in_two_out() {
    let mut queue = UniqueQueue::default();
    assert_eq!(queue.enqueue(1), Ok(1));
    assert_eq!(queue.enqueue(2), Ok(2));
    assert_eq!(queue.dequeue(), Ok(1));
    assert_eq!(queue.dequeue(), Ok(2));
    assert_eq!(queue.size(), 0);
    assert!(!queue.contains(1));
    assert!(!queue.contains(2));
}

#[test]
fn clear_empties_and_keeps_the_capacity() {
    let mut queue = filled(4, &[1, 2, 3, 4]);
    queue.clear();
    assert_eq!(queue.size(), 0);
    assert_eq!(queue.capacity(), 4);
    assert!(!queue.contains(1));
    assert_eq!(queue.front(), Err(UniqueBufferError::PeekedEmptyBuffer));
    assert_eq!(queue.dequeue(), Err(UniqueBufferError::DequeuedEmptyBuffer));
    for i in 1..5 {
        assert_eq!(queue.enqueue(i), Ok(i));
    }
    assert_eq!(queue.enqueue(5), Err(UniqueBufferError::EnqueuedFullBuffer));
    assert_eq!(queue.to_vec(), vec![1, 2, 3, 4]);
}

#[test]
fn clear_of_a_queue_without_elements() {
    let mut queue: UniqueQueue<i32> = UniqueQueue::with_capacity(2);
    queue.clear();
    assert_eq!(queue.size(), 0);
    assert_eq!(queue.capacity(), 2);
    assert_eq!(queue.enqueue(1), Ok(1));
}

#[test]
fn capacity_stays_through_a_long_run() {
    let mut queue: UniqueQueue<i32> = UniqueQueue::default();
    for round in 0..5 {
        for i in 0..100 {
            assert_eq!(queue.enqueue(round * 100 + i), Ok(round * 100 + i));
        }
        assert_eq!(queue.enqueue(-1), Err(UniqueBufferError::EnqueuedFullBuffer));
        assert_eq!(queue.size(), 100);
        for i in 0..100 {
            assert_eq!(queue.dequeue(), Ok(round * 100 + i));
            assert_eq!(queue.capacity(), 100);
        }
    }
}

#[test]
fn contains_tells_held_from_not_held() {
    let queue = filled(4, &[10, 20]);
    assert!(queue.contains(10));
    assert!(queue.contains(20));
    assert!(!queue.contains(30));
    assert!(!queue.contains(0));
}

#[test]
fn iterating_by_reference_leaves_the_queue() {
    let queue = filled(4, &[3, 1, 2]);
    let mut seen: Vec<i32> = Vec::new();
    for value in &queue {
        seen.push(value);
    }
    assert_eq!(seen, vec![3, 1, 2]);
    let again: Vec<i32> = (&queue).into_iter().collect();
    assert_eq!(again, vec![3, 1, 2]);
    assert_eq!(queue.size(), 3);
}

#[test]
fn iterating_by_value_yields_every_element_in_order() {
    let queue = filled(4, &[3, 1, 2]);
    let all: Vec<i32> = queue.into_iter().collect();
    assert_eq!(all, vec![3, 1, 2]);
    let nothing: Vec<i32> = UniqueQueue::with_capacity(4).into_iter().collect();
    assert_eq!(nothing, Vec::<i32>::new());
}

#[test]
fn to_vec_starts_at_the_current_front() {
    let mut queue = filled(4, &[3, 1, 2]);
    assert_eq!(queue.dequeue(), Ok(3));
    assert_eq!(queue.to_vec(), vec![1, 2]);
    assert_eq!(UniqueQueue::empty().to_vec(), Vec::<i32>::new());
}

#[test]
fn clone_is_a_queue_of_its_own() {
    let mut queue = filled(3, &[7, 5]);
    let mut copy = queue.clone();
    assert_eq!(copy.to_vec(), vec![7, 5]);
    assert_eq!(copy.capacity(), 3);
    assert_eq!(copy.front(), Ok(7));
    assert_eq!(copy.back(), Ok(5));

    assert_eq!(copy.enqueue(6), Ok(6));
    assert_eq!(copy.enqueue(8), Err(UniqueBufferError::EnqueuedFullBuffer));
    assert_eq!(queue.to_vec(), vec![7, 5]);

    assert_eq!(queue.dequeue(), Ok(7));
    assert_eq!(copy.to_vec(), vec![7, 5, 6]);
}

#[test]
fn queues_compare_by_elements_and_capacity() {
    assert_eq!(filled(3, &[1, 2]), filled(3, &[1, 2]));
    assert_ne!(filled(3, &[1, 2]), filled(3, &[1]));
    assert_ne!(filled(3, &[1, 2]), filled(4, &[1, 2]));
}

#[test]
fn each_error_has_its_message() {
    assert_eq!(
        UniqueBufferError::DequeuedEmptyBuffer.message(),
        "Failed to dequeue: buffer contains no elements"
    );
    assert_eq!(
        UniqueBufferError::PeekedEmptyBuffer.message(),
        "Failed to peek the head of the queue, buffer is empty"
    );
    assert_eq!(
        UniqueBufferError::EnqueuedFullBuffer.message(),
        "Failed to enqueue: buffer is full"
    );
    assert_eq!(
        UniqueBufferError::EnqueuedDuplicateValue.message(),
        "Failed to enqueue: value already in buffer"
    );
}

#[test]
fn errors_compare_and_copy() {
    let error = UniqueBufferError::EnqueuedFullBuffer;
    let copy = error;
    assert_eq!(error, copy);
    assert_ne!(error, UniqueBufferError::EnqueuedDuplicateValue);
    assert_ne!(
        UniqueBufferError::DequeuedEmptyBuffer,
        UniqueBufferError::PeekedEmptyBuffer
    );
    assert_eq!(format!("{:?}", error), "EnqueuedFullBuffer");
}

#[test]
fn allocation_count_reads_the_counter() {
    let counter = AtomicUsize::new(0);
    assert_eq!(allocation_count(&counter), 0);
    counter.fetch_add(3, Ordering::SeqCst);
    assert_eq!(allocation_count(&counter), 3);
    counter.fetch_add(1, Ordering::SeqCst);
    assert_eq!(allocation_count(&counter), 4);
}
