//! Reading a counter of heap allocations.
//!
//! A program that wants to watch how often the queue allocates installs an
//! allocator that counts in an atomic integer. The counter is the program's:
//! this module only reads it.

use std::sync::atomic::AtomicUsize;
use std::sync::atomic::Ordering;
use vstd::prelude::*;

verus! {

/// The number that `counter` holds at the moment of the call, read in
/// sequentially consistent order. Other threads may count on meanwhile, so
/// nothing is promised of the number.
pub fn allocation_count(counter: &AtomicUsize) -> usize {
    counter.load(Ordering::SeqCst)
}

} // verus!
