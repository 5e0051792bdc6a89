//! Trusted face of the lock-free SPSC ring buffers.
//!
//! The two halves of a ring may live on different threads, and the other
//! half mutates the shared buffer between any two calls on this one. The
//! contracts here therefore state only what holds of every outcome; all
//! decisions about the values moved through a ring are made by verified
//! code on either side.

use vstd::prelude::*;

verus! {

#[verifier::external_type_specification]
#[verifier::external_body]
#[verifier::reject_recursive_types(T)]
pub struct ExRingBuffer<T>(ringbuf::RingBuffer<T>);

#[verifier::external_type_specification]
#[verifier::external_body]
#[verifier::reject_recursive_types(T)]
pub struct ExProducer<T>(ringbuf::Producer<T>);

#[verifier::external_type_specification]
#[verifier::external_body]
#[verifier::reject_recursive_types(T)]
pub struct ExConsumer<T>(ringbuf::Consumer<T>);

/// Relies on ringbuf::RingBuffer::new: an empty ring that accepts up to
/// `capacity` items.
#[verifier::external_body]
pub(crate) fn ring_new<T>(capacity: usize) -> ringbuf::RingBuffer<T> {
    ringbuf::RingBuffer::new(capacity)
}

/// Relies on ringbuf::RingBuffer::split: the producing and consuming
/// halves of one ring.
#[verifier::external_body]
pub(crate) fn ring_split<T>(ring: ringbuf::RingBuffer<T>) -> (ringbuf::Producer<T>, ringbuf::Consumer<
    T,
>) {
    ring.split()
}

/// Relies on ringbuf::Producer::push: on failure the ring is full at that
/// moment and the rejected value comes back unchanged.
#[verifier::external_body]
pub(crate) fn ring_push<T>(producer: &mut ringbuf::Producer<T>, value: T) -> (r: Result<(), T>)
    ensures
        r matches Err(v) ==> v == value,
{
    producer.push(value)
}

/// Relies on ringbuf::Consumer::pop: the oldest item, or nothing when the
/// ring is empty at that moment.
#[verifier::external_body]
pub(crate) fn ring_pop<T>(consumer: &mut ringbuf::Consumer<T>) -> (r: Option<T>) {
    consumer.pop()
}

/// Relies on ringbuf::Producer::is_full: whether the ring has no free slot
/// at this moment.
#[verifier::external_body]
pub(crate) fn ring_is_full<T>(producer: &ringbuf::Producer<T>) -> bool {
    producer.is_full()
}

} // verus!
