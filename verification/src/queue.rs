//! Trusted boundary around `crossbeam_queue::ArrayQueue<u8>`, the bounded
//! lock-free byte queue that carries bytes from interrupt context to task
//! context.
//!
//! The queue itself is outside code; Verus sees it only through the two
//! uninterpreted names below and the contracts of the wrapper functions.
//! All wrappers take the queue by `&mut`, so each call is one atomic step
//! with exclusive access, which is exactly the view a verified caller has.

use crossbeam_queue::ArrayQueue;
use vstd::prelude::*;

verus! {

#[verifier::external_type_specification]
#[verifier::external_body]
#[verifier::reject_recursive_types(T)]
pub struct ExArrayQueue<T>(ArrayQueue<T>);

/// The bytes currently stored, oldest first.
pub uninterp spec fn queue_bytes(q: ArrayQueue<u8>) -> Seq<u8>;

/// The fixed capacity the queue was created with.
pub uninterp spec fn queue_capacity(q: ArrayQueue<u8>) -> nat;

/// Relies on `crossbeam_queue::ArrayQueue::new`: returns an empty queue of the
/// given capacity. It panics when `cap` is zero or when the ring's stamp
/// arithmetic would overflow, so those capacities are excluded here.
#[verifier::external_body]
pub(crate) fn queue_new(cap: usize) -> (q: ArrayQueue<u8>)
    requires
        1 <= cap <= usize::MAX / 4,
    ensures
        queue_bytes(q) == Seq::<u8>::empty(),
        queue_capacity(q) == cap,
{
    ArrayQueue::new(cap)
}

/// Relies on `crossbeam_queue::ArrayQueue::push_mut`: appends the byte at the
/// tail when the queue is not full, and otherwise hands the byte back and
/// leaves the queue unchanged.
#[verifier::external_body]
pub(crate) fn queue_push(q: &mut ArrayQueue<u8>, b: u8) -> (r: Result<(), u8>)
    ensures
        queue_capacity(*final(q)) == queue_capacity(*old(q)),
        r == (if queue_bytes(*old(q)).len() < queue_capacity(*old(q)) {
            Ok::<(), u8>(())
        } else {
            Err::<(), u8>(b)
        }),
        queue_bytes(*final(q)) == (if queue_bytes(*old(q)).len() < queue_capacity(*old(q)) {
            queue_bytes(*old(q)).push(b)
        } else {
            queue_bytes(*old(q))
        }),
{
    q.push_mut(b)
}

/// Relies on `crossbeam_queue::ArrayQueue::pop_mut`: removes and returns the
/// oldest byte, or returns `None` and changes nothing when the queue is empty.
#[verifier::external_body]
pub(crate) fn queue_pop(q: &mut ArrayQueue<u8>) -> (r: Option<u8>)
    ensures
        queue_capacity(*final(q)) == queue_capacity(*old(q)),
        r == (if queue_bytes(*old(q)).len() > 0 {
            Some(queue_bytes(*old(q))[0])
        } else {
            None::<u8>
        }),
        queue_bytes(*final(q)) == (if queue_bytes(*old(q)).len() > 0 {
            queue_bytes(*old(q)).drop_first()
        } else {
            queue_bytes(*old(q))
        }),
{
    q.pop_mut()
}

} // verus!
