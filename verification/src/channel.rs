//! The bounded channels that carry samples between threads.
//!
//! The queue itself is `crossbeam_channel`'s. What it holds at any moment
//! depends on the thread at its other end, so nothing here speaks of its
//! contents: the functions below fix which outcomes each operation can have,
//! and the callers are verified for every one of them.

use crossbeam_channel::{Receiver, Sender};
use vstd::prelude::*;

verus! {

/// The largest capacity a channel may be opened with.
pub const MAX_CHANNEL_CAPACITY: usize = 0x0100_0000;

/// The default capacity: a tenth of a second of audio at 48 kHz.
pub const DEFAULT_CHANNEL_CAPACITY: usize = 4800;

/// The consumer half of a channel, from `crossbeam_channel`. Opaque here.
#[verifier::external_type_specification]
#[verifier::external_body]
#[verifier::reject_recursive_types(T)]
pub struct ExReceiver<T>(Receiver<T>);

/// The producer half of a channel, from `crossbeam_channel`. Opaque here.
#[verifier::external_type_specification]
#[verifier::external_body]
#[verifier::reject_recursive_types(T)]
pub struct ExSender<T>(Sender<T>);

/// Why a receive returned no sample.
#[derive(Clone, Copy, Debug, PartialEq, Eq, Structural)]
pub enum ReceiveError {
    /// Nothing is queued right now; the producer is still there.
    Empty,
    /// Nothing is queued and the producer is gone: nothing will ever come.
    Closed,
}

/// How a send ended.
#[derive(Clone, Copy, Debug, PartialEq, Eq, Structural)]
pub enum Delivery {
    /// The sample is in the queue.
    Enqueued,
    /// The queue was full; the sample was not queued.
    Full,
    /// The consumer is gone; the sample was not queued.
    ReceiverDropped,
}

/// Calls `crossbeam_channel::bounded`, which allocates the slots at once.
/// Nothing is claimed of the two endpoints. The outside function panics on a
/// capacity too large for its index arithmetic, which the bound keeps far
/// away.
#[verifier::external_body]
pub(crate) fn channel_bounded<T>(capacity: usize) -> (ends: (Sender<T>, Receiver<T>))
    requires
        capacity <= MAX_CHANNEL_CAPACITY,
{
    crossbeam_channel::bounded(capacity)
}

/// Calls `Receiver::try_recv`, which never waits, and renames its two
/// errors. Which outcome comes depends on the producer: nothing is claimed.
#[verifier::external_body]
pub(crate) fn channel_try_recv<T>(consumer: &Receiver<T>) -> (received: Result<T, ReceiveError>) {
    match consumer.try_recv() {
        Ok(sample) => Ok(sample),
        Err(crossbeam_channel::TryRecvError::Empty) => Err(ReceiveError::Empty),
        Err(crossbeam_channel::TryRecvError::Disconnected) => Err(ReceiveError::Closed),
    }
}

/// Calls `Receiver::recv`, which waits until a sample is queued or the
/// channel is empty and disconnected; `None` stands for its one error.
#[verifier::external_body]
pub(crate) fn channel_recv<T>(consumer: &Receiver<T>) -> (received: Option<T>) {
    match consumer.recv() {
        Ok(sample) => Some(sample),
        Err(crossbeam_channel::RecvError) => None,
    }
}

/// Calls `Receiver::len`: how many samples were queued at some moment during
/// the call. Nothing is claimed of the number.
#[verifier::external_body]
pub(crate) fn channel_len<T>(consumer: &Receiver<T>) -> (queued: usize) {
    consumer.len()
}

/// Calls `Sender::try_send`, which never waits, and renames its outcomes.
/// The sample that comes back inside an error is dropped.
#[verifier::external_body]
pub(crate) fn channel_try_send<T>(producer: &Sender<T>, sample: T) -> (delivery: Delivery) {
    match producer.try_send(sample) {
        Ok(()) => Delivery::Enqueued,
        Err(crossbeam_channel::TrySendError::Full(_)) => Delivery::Full,
        Err(crossbeam_channel::TrySendError::Disconnected(_)) => Delivery::ReceiverDropped,
    }
}

/// Calls `Sender::send`, which waits while the queue is full. Its one error
/// is a disconnected channel, reported as `false`.
#[verifier::external_body]
pub(crate) fn channel_send<T>(producer: &Sender<T>, sample: T) -> (sent: bool) {
    match producer.send(sample) {
        Ok(()) => true,
        Err(crossbeam_channel::SendError(_)) => false,
    }
}

/// The sample that a receive yielded, or `fallback` where it yielded none.
pub open spec fn sample_or<T>(received: Result<T, ReceiveError>, fallback: T) -> T {
    match received {
        Ok(sample) => sample,
        Err(_) => fallback,
    }
}

/// The result of a blocking receive, from what the channel gave.
pub fn closed_unless<T>(received: Option<T>) -> (outcome: Result<T, ReceiveError>)
    ensures
        outcome == match received {
            Some(sample) => Ok::<T, ReceiveError>(sample),
            None => Err::<T, ReceiveError>(ReceiveError::Closed),
        },
{
    match received {
        Some(sample) => Ok(sample),
        None => Err(ReceiveError::Closed),
    }
}

/// Waits until a sample is queued or the channel is closed for good. Not for
/// the render callback. It never reports `Empty`.
pub fn receive_blocking<T>(consumer: &Receiver<T>) -> (received: Result<T, ReceiveError>)
    ensures
        received is Err ==> received == Err::<T, ReceiveError>(ReceiveError::Closed),
{
    closed_unless(channel_recv(consumer))
}

/// The delivery that a blocking send amounts to.
pub fn delivery_of_blocking(sent: bool) -> (delivery: Delivery)
    ensures
        delivery == if sent {
            Delivery::Enqueued
        } else {
            Delivery::ReceiverDropped
        },
{
    if sent {
        Delivery::Enqueued
    } else {
        Delivery::ReceiverDropped
    }
}

/// Queues `sample`, waiting for room while the queue is full. Only for a
/// thread without a deadline. It never reports `Full`.
pub fn send_blocking<T>(producer: &Sender<T>, sample: T) -> (delivery: Delivery)
    ensures
        delivery != Delivery::Full,
{
    delivery_of_blocking(channel_send(producer, sample))
}

} // verus!
