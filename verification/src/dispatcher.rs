//! The dispatcher: three slots, each empty or holding one sink, and the rules
//! by which an event changes the slots or is forwarded to their occupants.
//!
//! What the dispatcher does with an event is a function of the slots and the
//! event alone. [`EventDispatcher::after`] gives the slots that follow, and
//! [`EventDispatcher::planned`] gives, slot by slot, what is forwarded. The
//! executable functions are stated over these two.

use crate::event::{Event, EventView, Slot};
use crate::sink::{EventSender, SchedulerSender};
use vstd::prelude::*;

verus! {

/// The dispatcher's state. A slot is empty until the first registration for
/// it arrives; a later registration replaces the occupant; nothing empties a
/// slot again.
pub struct EventDispatcher {
    pub connection: Option<EventSender>,
    pub scheduler: Option<SchedulerSender>,
    pub websocket: Option<EventSender>,
}

/// How one forward ended.
#[derive(Clone, Copy, Debug, PartialEq, Eq, Structural)]
pub enum Delivery {
    /// The sink took the event.
    Delivered,
    /// The consumer behind the sink is gone. The event is lost.
    Disconnected,
}

/// The forwards that one event calls for: for each slot, the copy of the
/// event that goes to the sink in that slot, or nothing.
#[derive(Debug)]
pub struct Forwards {
    pub connection: Option<Event>,
    pub websocket: Option<Event>,
    pub scheduler: Option<Event>,
}

/// What became of the forwards of one event: for each slot, how the forward
/// through it ended, or nothing where none was made.
#[derive(Clone, Copy, Debug, PartialEq, Eq, Structural)]
pub struct Report {
    pub connection: Option<Delivery>,
    pub websocket: Option<Delivery>,
    pub scheduler: Option<Delivery>,
}

impl Forwards {
    /// The event that goes through `slot`, as a mathematical value.
    pub open spec fn at(self, slot: Slot) -> Option<EventView> {
        match slot {
            Slot::Connection => match self.connection {
                Some(event) => Some(event@),
                None => None,
            },
            Slot::Websocket => match self.websocket {
                Some(event) => Some(event@),
                None => None,
            },
            Slot::Scheduler => match self.scheduler {
                Some(event) => Some(event@),
                None => None,
            },
        }
    }
}

impl Report {
    /// How the forward through `slot` ended.
    pub open spec fn at(self, slot: Slot) -> Option<Delivery> {
        match slot {
            Slot::Connection => self.connection,
            Slot::Websocket => self.websocket,
            Slot::Scheduler => self.scheduler,
        }
    }

    /// How the forward through `slot` ended.
    pub fn get(&self, slot: Slot) -> (delivery: Option<Delivery>)
        ensures
            delivery == self.at(slot),
    {
        match slot {
            Slot::Connection => self.connection,
            Slot::Websocket => self.websocket,
            Slot::Scheduler => self.scheduler,
        }
    }
}

/// The events of a sequence as mathematical values.
pub open spec fn views(events: Seq<Event>) -> Seq<EventView> {
    Seq::new(events.len(), |i: int| events[i]@)
}

/// What a send returned, as the outcome of a forward. A failed send is not an
/// error of the dispatcher: the event that came back is dropped here.
pub fn outcome(sent: Result<(), Event>) -> (delivery: Delivery)
    ensures
        delivery == (if sent is Ok {
            Delivery::Delivered
        } else {
            Delivery::Disconnected
        }),
{
    match sent {
        Ok(()) => Delivery::Delivered,
        Err(_) => Delivery::Disconnected,
    }
}

impl EventDispatcher {
    /// Whether `slot` holds a sink.
    pub open spec fn occupied(self, slot: Slot) -> bool {
        match slot {
            Slot::Connection => self.connection is Some,
            Slot::Websocket => self.websocket is Some,
            Slot::Scheduler => self.scheduler is Some,
        }
    }

    /// The slots after `event` has been processed. A registration puts its
    /// sink into its slot, whatever was there; every other event leaves the
    /// slots as they are.
    pub open spec fn after(self, event: EventView) -> EventDispatcher {
        match event {
            EventView::RegisterConnection(sink) => EventDispatcher {
                connection: Some(sink),
                ..self
            },
            EventView::RegisterWebsocket(sink) => EventDispatcher {
                websocket: Some(sink),
                ..self
            },
            EventView::RegisterScheduler(sink) => EventDispatcher {
                scheduler: Some(sink),
                ..self
            },
            _ => self,
        }
    }

    /// What `event` sends through `slot`: the event itself where the routing
    /// table names the slot and the slot holds a sink, else nothing.
    pub open spec fn planned(self, event: EventView, slot: Slot) -> Option<EventView> {
        if event.routes_to(slot) && self.occupied(slot) {
            Some(event)
        } else {
            None
        }
    }

    /// Whether `report` records a forward through exactly those slots
    /// through which `event` is forwarded. How each forward ended is decided
    /// by the sink, and is not part of this.
    pub open spec fn reported(self, event: EventView, report: Report) -> bool {
        &&& report.connection is Some <==> self.planned(event, Slot::Connection) is Some
        &&& report.websocket is Some <==> self.planned(event, Slot::Websocket) is Some
        &&& report.scheduler is Some <==> self.planned(event, Slot::Scheduler) is Some
    }

    /// The slots after `events` have been processed, one after the other.
    pub open spec fn after_all(self, events: Seq<EventView>) -> EventDispatcher
        decreases events.len(),
    {
        if events.len() == 0 {
            self
        } else {
            self.after_all(events.drop_last()).after(events.last())
        }
    }

    /// Whether `event` is forwarded to `sink`, through the websocket slot or
    /// through the connection slot.
    pub open spec fn reaches(self, event: EventView, sink: EventSender) -> bool {
        ||| event.routes_to(Slot::Websocket) && self.websocket == Some(sink)
        ||| event.routes_to(Slot::Connection) && self.connection == Some(sink)
    }

    /// Whether `event` is forwarded to `sink` through the scheduler slot.
    pub open spec fn reaches_scheduler(self, event: EventView, sink: SchedulerSender) -> bool {
        event.routes_to(Slot::Scheduler) && self.scheduler == Some(sink)
    }

    /// Whether `slot` holds a sink.
    pub fn is_occupied(&self, slot: Slot) -> (held: bool)
        ensures
            held == self.occupied(slot),
    {
        match slot {
            Slot::Connection => self.connection.is_some(),
            Slot::Websocket => self.websocket.is_some(),
            Slot::Scheduler => self.scheduler.is_some(),
        }
    }
}

impl EventDispatcher {
    /// The copy of `event` that goes through `slot`, or nothing.
    fn copy_for(&self, event: &Event, slot: Slot) -> (copy: Option<Event>)
        ensures
            copy is Some <==> self.planned(event@, slot) is Some,
            copy matches Some(forwarded) ==> forwarded@ == event@,
    {
        if event.routes_to(slot) && self.is_occupied(slot) {
            event.duplicate()
        } else {
            None
        }
    }

    /// Decides what `event` calls for, without sending anything: one copy of
    /// the event for each slot that the routing table names and that holds a
    /// sink.
    pub fn plan(&self, event: &Event) -> (forwards: Forwards)
        ensures
            forwards.at(Slot::Connection) == self.planned(event@, Slot::Connection),
            forwards.at(Slot::Websocket) == self.planned(event@, Slot::Websocket),
            forwards.at(Slot::Scheduler) == self.planned(event@, Slot::Scheduler),
    {
        Forwards {
            connection: self.copy_for(event, Slot::Connection),
            websocket: self.copy_for(event, Slot::Websocket),
            scheduler: self.copy_for(event, Slot::Scheduler),
        }
    }

    /// Hands each planned copy to the sink in its slot: the scheduler's
    /// first, then the websocket's, then the connection's. Every send is
    /// made, however the one before it ended. A sink whose consumer is gone
    /// stays in its slot, and the failure shows only in the report.
    pub fn deliver(&self, forwards: Forwards) -> (report: Report)
        ensures
            report.connection is Some <==> forwards.connection is Some && self.connection is Some,
            report.websocket is Some <==> forwards.websocket is Some && self.websocket is Some,
            report.scheduler is Some <==> forwards.scheduler is Some && self.scheduler is Some,
    {
        let Forwards { connection, websocket, scheduler } = forwards;
        let to_scheduler = match (&self.scheduler, scheduler) {
            (Some(sink), Some(event)) => Some(outcome(sink.send(event))),
            _ => None,
        };
        let to_websocket = match (&self.websocket, websocket) {
            (Some(sink), Some(event)) => Some(outcome(sink.try_send(event))),
            _ => None,
        };
        let to_connection = match (&self.connection, connection) {
            (Some(sink), Some(event)) => Some(outcome(sink.try_send(event))),
            _ => None,
        };
        Report { connection: to_connection, websocket: to_websocket, scheduler: to_scheduler }
    }

    /// Processes one event to completion. A registration puts its sink into
    /// its slot and forwards nothing. Any other event leaves the slots as
    /// they are and is forwarded as the routing table says, to the sinks
    /// that are there; where none is, the event is lost. No outcome of a
    /// send changes the slots or stops the dispatcher.
    pub fn dispatch(&mut self, event: Event) -> (report: Report)
        ensures
            *final(self) == old(self).after(event@),
            old(self).reported(event@, report),
    {
        match event {
            Event::RegisterConnection(sink) => {
                self.connection = Some(sink);
                Report { connection: None, websocket: None, scheduler: None }
            },
            Event::RegisterWebsocket(sink) => {
                self.websocket = Some(sink);
                Report { connection: None, websocket: None, scheduler: None }
            },
            Event::RegisterScheduler(sink) => {
                self.scheduler = Some(sink);
                Report { connection: None, websocket: None, scheduler: None }
            },
            data => {
                let forwards = self.plan(&data);
                self.deliver(forwards)
            },
        }
    }
}

impl EventDispatcher {
    /// One turn of the dispatch loop, in the shape that a fold over the
    /// stream of events takes: the dispatcher goes in, processes the event,
    /// and comes out for the next turn. A turn never fails, so no event, and
    /// no sink whose consumer is gone, ends the loop.
    pub fn turn(self, event: Event) -> (next: Result<EventDispatcher, ()>)
        ensures
            next == Ok::<EventDispatcher, ()>(self.after(event@)),
    {
        let mut dispatcher = self;
        dispatcher.dispatch(event);
        Ok(dispatcher)
    }

    /// Processes `events` in their order, each to completion before the
    /// next, and reports on each. Event `i` meets the slots as the events
    /// before it left them.
    pub fn run(&mut self, events: Vec<Event>) -> (reports: Vec<Report>)
        ensures
            *final(self) == old(self).after_all(views(events@)),
            reports@.len() == events@.len(),
            forall|i: int|
                0 <= i < events@.len() ==> old(self).after_all(views(events@).take(i)).reported(
                    events@[i]@,
                    #[trigger] reports@[i],
                ),
    {
        let ghost all = views(events@);
        let mut reports: Vec<Report> = Vec::new();
        for event in iter: events.into_iter()
            invariant
                all == views(iter.seq()),
                iter.seq() == events@,
                *self == old(self).after_all(all.take(iter.index() as int)),
                reports@.len() == iter.index(),
                forall|i: int|
                    0 <= i < iter.index() ==> old(self).after_all(all.take(i)).reported(
                        all[i],
                        #[trigger] reports@[i],
                    ),
        {
            proof {
                let done = iter.index() as int;
                assert(all.take(done + 1).drop_last() == all.take(done));
                assert(all.take(done + 1).last() == event@);
            }
            let report = self.dispatch(event);
            reports.push(report);
        }
        proof {
            assert(all.take(all.len() as int) == all);
        }
        reports
    }
}

impl Default for EventDispatcher {
    /// The dispatcher with which the loop starts: no slot holds a sink.
    fn default() -> (dispatcher: Self)
        ensures
            dispatcher.connection is None,
            dispatcher.scheduler is None,
            dispatcher.websocket is None,
    {
        EventDispatcher { connection: None, scheduler: None, websocket: None }
    }
}

} // verus!
