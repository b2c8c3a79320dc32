//! The event vocabulary and the routing table.

use crate::payload::{Config, Message, Telemetry, TimeSlot, TimeSlots};
use crate::sink::{EventSender, SchedulerSender};
use vstd::prelude::*;

verus! {

/// What components publish into the hub: six kinds of data, three
/// registrations, and log lines.
#[derive(Clone, Debug)]
pub enum Event {
    /// A new complete telemetry frame.
    TelemetryUpdate(Telemetry),
    /// An incremental change of some telemetry fields.
    TelemetryPartialUpdate(serde_json::Value),
    /// A single timing event.
    Timeslot(TimeSlot),
    /// A bulk timing refresh.
    TimeslotsUpdate(TimeSlots),
    /// The configuration changed.
    ConfigUpdate(Config),
    /// A message arrived from an external source.
    MessageReceived(Message),
    /// The connection subsystem announces its sink.
    RegisterConnection(EventSender),
    /// The websocket subsystem announces its sink.
    RegisterWebsocket(EventSender),
    /// The scheduler announces its sink.
    RegisterScheduler(SchedulerSender),
    /// A log line of the given severity.
    Log(u8, String),
}

/// An event as a mathematical value: payloads as sequences, sinks as the
/// handles themselves.
pub enum EventView {
    TelemetryUpdate(Seq<u8>),
    TelemetryPartialUpdate(serde_json::Value),
    Timeslot(Seq<u8>),
    TimeslotsUpdate(Seq<Seq<u8>>),
    ConfigUpdate(Seq<u8>),
    MessageReceived(Seq<u8>),
    RegisterConnection(EventSender),
    RegisterWebsocket(EventSender),
    RegisterScheduler(SchedulerSender),
    Log(u8, Seq<char>),
}

impl View for Event {
    type V = EventView;

    open spec fn view(&self) -> EventView {
        match *self {
            Event::TelemetryUpdate(telemetry) => EventView::TelemetryUpdate(telemetry@),
            Event::TelemetryPartialUpdate(value) => EventView::TelemetryPartialUpdate(value),
            Event::Timeslot(slot) => EventView::Timeslot(slot@),
            Event::TimeslotsUpdate(slots) => EventView::TimeslotsUpdate(slots@),
            Event::ConfigUpdate(config) => EventView::ConfigUpdate(config@),
            Event::MessageReceived(message) => EventView::MessageReceived(message@),
            Event::RegisterConnection(sink) => EventView::RegisterConnection(sink),
            Event::RegisterWebsocket(sink) => EventView::RegisterWebsocket(sink),
            Event::RegisterScheduler(sink) => EventView::RegisterScheduler(sink),
            Event::Log(severity, text) => EventView::Log(severity, text@),
        }
    }
}

/// The three positions of the dispatcher, each of which holds at most one
/// sink.
#[derive(Clone, Copy, Debug, PartialEq, Eq, Structural)]
pub enum Slot {
    Connection,
    Websocket,
    Scheduler,
}

impl EventView {
    /// Whether the event announces a sink.
    pub open spec fn is_registration(self) -> bool {
        self is RegisterConnection || self is RegisterWebsocket || self is RegisterScheduler
    }

    /// The routing table: whether an event of this category is forwarded to
    /// the sink in `slot`, if there is one.
    ///
    /// Telemetry, whole or partial, goes to the websocket and to the
    /// connection; log lines and single time-slots go to the websocket;
    /// messages go to the scheduler and to the websocket. Registrations,
    /// configuration updates and bulk time-slot refreshes go nowhere.
    pub open spec fn routes_to(self, slot: Slot) -> bool {
        match self {
            EventView::TelemetryUpdate(_) | EventView::TelemetryPartialUpdate(_) => {
                slot == Slot::Websocket || slot == Slot::Connection
            },
            EventView::Log(_, _) | EventView::Timeslot(_) => slot == Slot::Websocket,
            EventView::MessageReceived(_) => slot == Slot::Scheduler || slot == Slot::Websocket,
            EventView::ConfigUpdate(_) | EventView::TimeslotsUpdate(_) => false,
            EventView::RegisterConnection(_)
            | EventView::RegisterWebsocket(_)
            | EventView::RegisterScheduler(_) => false,
        }
    }
}

impl Event {
    /// Whether the event announces a sink.
    pub fn is_registration(&self) -> (registers: bool)
        ensures
            registers == self@.is_registration(),
    {
        match self {
            Event::RegisterConnection(_) => true,
            Event::RegisterWebsocket(_) => true,
            Event::RegisterScheduler(_) => true,
            _ => false,
        }
    }

    /// A copy of a data event, for a forward to one more sink. A registration
    /// is not copied: the handle it carries goes into its slot and nowhere
    /// else.
    pub fn duplicate(&self) -> (copy: Option<Event>)
        ensures
            copy is Some <==> !self@.is_registration(),
            copy matches Some(event) ==> event@ == self@,
    {
        match self {
            Event::TelemetryUpdate(telemetry) => Some(Event::TelemetryUpdate(telemetry.clone())),
            Event::TelemetryPartialUpdate(value) => Some(
                Event::TelemetryPartialUpdate(value.clone()),
            ),
            Event::Timeslot(slot) => Some(Event::Timeslot(slot.clone())),
            Event::TimeslotsUpdate(slots) => Some(Event::TimeslotsUpdate(slots.clone())),
            Event::ConfigUpdate(config) => Some(Event::ConfigUpdate(config.clone())),
            Event::MessageReceived(message) => Some(Event::MessageReceived(message.clone())),
            Event::Log(severity, text) => Some(Event::Log(*severity, text.clone())),
            Event::RegisterConnection(_)
            | Event::RegisterWebsocket(_)
            | Event::RegisterScheduler(_) => None,
        }
    }

    /// Looks the event up in the routing table.
    pub fn routes_to(&self, slot: Slot) -> (routed: bool)
        ensures
            routed == self@.routes_to(slot),
    {
        match self {
            Event::TelemetryUpdate(_) | Event::TelemetryPartialUpdate(_) => match slot {
                Slot::Websocket | Slot::Connection => true,
                Slot::Scheduler => false,
            },
            Event::Log(_, _) | Event::Timeslot(_) => match slot {
                Slot::Websocket => true,
                _ => false,
            },
            Event::MessageReceived(_) => match slot {
                Slot::Scheduler | Slot::Websocket => true,
                Slot::Connection => false,
            },
            Event::ConfigUpdate(_) | Event::TimeslotsUpdate(_) => false,
            Event::RegisterConnection(_)
            | Event::RegisterWebsocket(_)
            | Event::RegisterScheduler(_) => false,
        }
    }
}

} // verus!
