//! The bounded buffer of pending raw trigger markers.
//!
//! The Poller side pushes one marker per observed raw edge; the Evaluator
//! side pops them. Both operations are non-blocking and drop-on-full /
//! empty-handed rather than waiting, so neither loop can stall the other.
//! The queue itself is a `tokio` bounded mpsc channel whose two halves both
//! live inside [`RawEventBuffer`]; its behaviour is trusted, stated over the
//! uninterpreted [`buffered_markers`] and [`buffer_bound`] below.

use tokio::sync::mpsc::Receiver;
use tokio::sync::mpsc::Sender;
use vstd::prelude::*;

verus! {

#[verifier::external_type_specification]
#[verifier::external_body]
#[verifier::reject_recursive_types(T)]
pub struct ExSender<T>(Sender<T>);

#[verifier::external_type_specification]
#[verifier::external_body]
#[verifier::reject_recursive_types(T)]
pub struct ExReceiver<T>(Receiver<T>);

/// Bounded queue of raw trigger markers, produced by Poll and consumed by
/// Evaluate. Holds both halves of one `tokio` bounded channel, so nothing
/// else can send into it, receive from it, or close it.
#[derive(Debug)]
pub struct RawEventBuffer {
    sender: Sender<bool>,
    receiver: Receiver<bool>,
}

/// Number of markers queued inside the buffer's channel.
pub uninterp spec fn buffered_markers(b: RawEventBuffer) -> nat;

/// The bound the buffer's channel was created with.
pub uninterp spec fn buffer_bound(b: RawEventBuffer) -> nat;

impl RawEventBuffer {
    /// Relies on tokio::sync::mpsc::channel: creates an empty channel that
    /// queues at most `bound` messages. tokio panics on a bound of zero or
    /// above its semaphore's maximum number of permits, `usize::MAX >> 3`.
    #[verifier::external_body]
    pub(crate) fn new(bound: usize) -> (b: RawEventBuffer)
        requires
            1 <= bound <= usize::MAX / 8,
        ensures
            buffered_markers(b) == 0,
            buffer_bound(b) == bound,
    {
        let (sender, receiver) = tokio::sync::mpsc::channel(bound);
        RawEventBuffer { sender, receiver }
    }

    /// Relies on tokio's Sender::try_send: enqueues the message while the
    /// channel is below its bound and returns Err(Full) once at it; it
    /// never blocks, and Err(Closed) cannot happen because the receiving
    /// half lives in this struct and is never closed.
    #[verifier::external_body]
    pub(crate) fn push_marker(&mut self) -> (accepted: bool)
        ensures
            buffer_bound(*final(self)) == buffer_bound(*old(self)),
            accepted == (buffered_markers(*old(self)) < buffer_bound(*old(self))),
            accepted ==> buffered_markers(*final(self)) == buffered_markers(*old(self)) + 1,
            !accepted ==> buffered_markers(*final(self)) == buffered_markers(*old(self)),
    {
        self.sender.try_send(true).is_ok()
    }

    /// Relies on tokio's Receiver::try_recv: dequeues the oldest queued
    /// message, or returns Err(Empty) — never spuriously, and only when the
    /// queue is empty — without blocking.
    #[verifier::external_body]
    pub(crate) fn pop_marker(&mut self) -> (got: bool)
        ensures
            buffer_bound(*final(self)) == buffer_bound(*old(self)),
            got == (buffered_markers(*old(self)) > 0),
            got ==> buffered_markers(*final(self)) + 1 == buffered_markers(*old(self)),
            !got ==> buffered_markers(*final(self)) == buffered_markers(*old(self)),
    {
        self.receiver.try_recv().is_ok()
    }
}

} // verus!
