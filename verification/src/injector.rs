//! Trusted view of the shared injector queue.
//!
//! Runnables scheduled from foreign threads travel through a lock-free
//! multi-producer queue.  Other threads push and pop it concurrently through
//! shared references, so no contract here can tie one call's result to the
//! queue's earlier contents; the scheduler therefore takes whatever comes
//! back as an input and is verified for every possible answer.  Runnables are
//! carried as plain `u64` tokens; the embedding runtime keeps the mapping
//! from token to task.

use vstd::prelude::*;

verus! {

#[verifier::external_type_specification]
#[verifier::external_body]
#[verifier::reject_recursive_types(T)]
pub struct ExConcurrentQueue<T>(concurrent_queue::ConcurrentQueue<T>);

/// Relies on ConcurrentQueue::unbounded: a fresh unbounded queue.
#[verifier::external_body]
pub(crate) fn injector_new() -> concurrent_queue::ConcurrentQueue<u64> {
    concurrent_queue::ConcurrentQueue::unbounded()
}

/// Relies on ConcurrentQueue::push: on an unbounded queue it fails only if
/// the queue has been closed, and the rejected item comes back unchanged.
/// This module never closes a queue.
#[verifier::external_body]
pub(crate) fn injector_push(q: &concurrent_queue::ConcurrentQueue<u64>, item: u64) -> (rejected:
    Option<u64>)
    ensures
        rejected is Some ==> rejected == Some(item),
{
    match q.push(item) {
        Ok(()) => None,
        Err(e) => Some(e.into_inner()),
    }
}

/// Relies on ConcurrentQueue::pop: an item other threads pushed earlier, or
/// nothing.  Which one arrives depends on the interleaving with concurrent
/// producers, so nothing more is promised of the result.
#[verifier::external_body]
pub(crate) fn injector_pop(q: &concurrent_queue::ConcurrentQueue<u64>) -> (r: Option<u64>) {
    q.pop().ok()
}

} // verus!
