//! The publish handle: the one capability that every component holds.

use crate::event::Event;
use crate::sink::EventSender;
use vstd::prelude::*;

verus! {

/// The producer end of the hub's channel. It can be cloned freely: all the
/// clones feed the same dispatcher, which sees the events in the order of
/// their arrival.
#[derive(Clone, Debug)]
pub struct EventHandler(EventSender);

/// The dispatcher was gone when an event was published. The dispatcher is
/// meant to outlive every publisher, so this is a defect in the order of
/// startup or shutdown, to be treated as fatal. The event is handed back.
#[derive(Debug)]
pub struct Disconnected(pub Event);

/// What a send into the hub's channel returned, as the result of a publish.
pub fn published(sent: Result<(), Event>) -> (result: Result<(), Disconnected>)
    ensures
        result is Ok <==> sent is Ok,
        result matches Err(failure) ==> sent == Err::<(), Event>(failure.0),
{
    match sent {
        Ok(()) => Ok(()),
        Err(event) => Err(Disconnected(event)),
    }
}

impl EventHandler {
    /// The producer end into which the handle publishes.
    pub closed spec fn sender(self) -> EventSender {
        self.0
    }

    /// A handle that publishes into the queue behind `sender`.
    pub fn new(sender: EventSender) -> (handler: Self)
        ensures
            handler.sender() == sender,
    {
        EventHandler(sender)
    }

    /// Appends `event` to the hub's channel, without waiting. Whether the
    /// dispatcher is still there to take it is decided outside; if it is not,
    /// the event comes back unchanged in the error.
    pub fn publish(&self, event: Event) -> (result: Result<(), Disconnected>)
        ensures
            result matches Err(failure) ==> failure.0 == event,
    {
        published(self.0.try_send(event))
    }
}

} // verus!
