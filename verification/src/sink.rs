//! Sinks: the producer ends of the channels through which the dispatcher
//! forwards events. There are two kinds. Connection and websocket sinks are
//! unbounded queues whose send never waits; the scheduler sink is a channel
//! of the standard library that leads into another execution context.
//!
//! A sink carries events, and an event may carry a sink, so both handles are
//! opaque here: a contract can say which handle a slot holds, not what has
//! become of the events that were handed to it.

use crate::event::Event;
use vstd::prelude::*;

verus! {

/// `futures::sync::mpsc::UnboundedReceiver`, the consumer end of an unbounded
/// queue. It is a stream of the values that were sent, in the order of their
/// arrival.
#[verifier::external_type_specification]
#[verifier::external_body]
#[verifier::reject_recursive_types(T)]
pub struct ExUnboundedReceiver<T>(futures::sync::mpsc::UnboundedReceiver<T>);

/// `std::sync::mpsc::Receiver`, the consumer end of a channel of the standard
/// library.
#[verifier::external_type_specification]
#[verifier::external_body]
#[verifier::reject_recursive_types(T)]
pub struct ExReceiver<T>(std::sync::mpsc::Receiver<T>);

/// The consumer end of the channel made by [`channel`].
pub type EventReceiver = futures::sync::mpsc::UnboundedReceiver<Event>;

/// The consumer end of the channel made by [`scheduler_channel`].
pub type SchedulerReceiver = std::sync::mpsc::Receiver<Event>;

/// The producer end of an unbounded queue of events: a
/// `futures::sync::mpsc::UnboundedSender<Event>`. The publish handle holds
/// one, and so do the connection and websocket slots of the dispatcher.
#[verifier::external_body]
#[derive(Debug)]
pub struct EventSender {
    inner: futures::sync::mpsc::UnboundedSender<Event>,
}

/// The producer end of the scheduler's channel: a
/// `std::sync::mpsc::Sender<Event>`.
#[verifier::external_body]
#[derive(Debug)]
pub struct SchedulerSender {
    inner: std::sync::mpsc::Sender<Event>,
}

impl Clone for EventSender {
    /// `Clone::clone` of `futures::sync::mpsc::UnboundedSender`: one more
    /// handle on the same queue. Nothing is claimed of the new handle. The
    /// queue counts its handles and panics when the count is exhausted, at a
    /// quarter of `usize::MAX` handles.
    #[verifier::external_body]
    fn clone(&self) -> (handle: Self) {
        EventSender { inner: self.inner.clone() }
    }
}

impl Clone for SchedulerSender {
    /// `Clone::clone` of `std::sync::mpsc::Sender`: one more handle on the
    /// same channel. Nothing is claimed of the new handle.
    #[verifier::external_body]
    fn clone(&self) -> (handle: Self) {
        SchedulerSender { inner: self.inner.clone() }
    }
}

/// `futures::sync::mpsc::unbounded`: a fresh unbounded queue of events, as
/// its producer end and its consumer end. Nothing is claimed of the pair.
#[verifier::external_body]
pub fn channel() -> (ends: (EventSender, EventReceiver)) {
    let (tx, rx) = futures::sync::mpsc::unbounded();
    (EventSender { inner: tx }, rx)
}

/// `std::sync::mpsc::channel`: a fresh channel of the kind that the scheduler
/// listens on, as its producer end and its consumer end. Nothing is claimed
/// of the pair.
#[verifier::external_body]
pub fn scheduler_channel() -> (ends: (SchedulerSender, SchedulerReceiver)) {
    let (tx, rx) = std::sync::mpsc::channel();
    (SchedulerSender { inner: tx }, rx)
}

impl EventSender {
    /// `futures::sync::mpsc::UnboundedSender::unbounded_send`: appends the
    /// event to the queue without waiting, or, when the consumer end has been
    /// closed or dropped, returns an error that holds the event. Whether the
    /// consumer is still there is not known here, so the contract claims one
    /// thing only: an event that comes back is the event that was handed in.
    /// The queue counts its messages and panics when the count is exhausted,
    /// at half of `usize::MAX` messages waiting.
    #[verifier::external_body]
    pub(crate) fn try_send(&self, event: Event) -> (sent: Result<(), Event>)
        ensures
            sent matches Err(returned) ==> returned == event,
    {
        match self.inner.unbounded_send(event) {
            Ok(()) => Ok(()),
            Err(error) => Err(error.into_inner()),
        }
    }
}

impl SchedulerSender {
    /// `std::sync::mpsc::Sender::send`: hands the event to the channel, or,
    /// when the receiver has been dropped, returns an error that holds the
    /// event. Whether the receiver is still there is not known here, so the
    /// contract claims one thing only: an event that comes back is the event
    /// that was handed in.
    #[verifier::external_body]
    pub(crate) fn send(&self, event: Event) -> (sent: Result<(), Event>)
        ensures
            sent matches Err(returned) ==> returned == event,
    {
        match self.inner.send(event) {
            Ok(()) => Ok(()),
            Err(error) => Err(error.0),
        }
    }
}

} // verus!
