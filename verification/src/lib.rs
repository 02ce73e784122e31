//! A bounded first-in, first-out queue that never holds the same element twice.
//!
//! The queue keeps its elements in a [`linked_hash_set::LinkedHashSet`], which
//! remembers the order of insertion. Every operation carries a contract over
//! the sequence of elements, oldest first, and over the capacity that the queue
//! was made with.

pub mod alloc_count;
pub mod unique_queue;

pub use crate::alloc_count::allocation_count;
pub use crate::unique_queue::types::IsUniqueQueue;
pub use crate::unique_queue::types::UniqueBufferError;
pub use crate::unique_queue::UniqueQueue;
