//! What holds of the dispatcher in every state and for every event, proved
//! from the model in which its contracts are stated.

use crate::dispatcher::EventDispatcher;
use crate::event::{EventView, Slot};
use crate::sink::{EventSender, SchedulerSender};
use vstd::prelude::*;

verus! {

/// Whether `event` is the registration for `slot`.
pub open spec fn registers(event: EventView, slot: Slot) -> bool {
    match slot {
        Slot::Connection => event is RegisterConnection,
        Slot::Websocket => event is RegisterWebsocket,
        Slot::Scheduler => event is RegisterScheduler,
    }
}

/// An event that is no registration changes no slot, whatever became of its
/// forwards. So a sink whose consumer is gone is never evicted: it stays in
/// its slot until a registration replaces it.
pub proof fn data_events_keep_slots(dispatcher: EventDispatcher, event: EventView)
    requires
        !event.is_registration(),
    ensures
        dispatcher.after(event) == dispatcher,
{
}

/// A registration is forwarded to no sink, and changes no slot but its own.
pub proof fn registration_fills_one_slot(dispatcher: EventDispatcher, event: EventView, slot: Slot)
    requires
        event.is_registration(),
    ensures
        dispatcher.planned(event, slot) is None,
        registers(event, slot) ==> dispatcher.after(event).occupied(slot),
        !registers(event, slot) ==> (match slot {
            Slot::Connection => dispatcher.after(event).connection == dispatcher.connection,
            Slot::Websocket => dispatcher.after(event).websocket == dispatcher.websocket,
            Slot::Scheduler => dispatcher.after(event).scheduler == dispatcher.scheduler,
        }),
{
}

/// A slot keeps its occupant through every sequence of events that holds no
/// registration for it.
pub proof fn slot_keeps_occupant(dispatcher: EventDispatcher, events: Seq<EventView>, slot: Slot)
    requires
        forall|i: int| 0 <= i < events.len() ==> !registers(#[trigger] events[i], slot),
    ensures
        match slot {
            Slot::Connection => dispatcher.after_all(events).connection == dispatcher.connection,
            Slot::Websocket => dispatcher.after_all(events).websocket == dispatcher.websocket,
            Slot::Scheduler => dispatcher.after_all(events).scheduler == dispatcher.scheduler,
        },
    decreases events.len(),
{
    if events.len() > 0 {
        let before = events.drop_last();
        assert forall|i: int| 0 <= i < before.len() implies !registers(
            #[trigger] before[i],
            slot,
        ) by {
            assert(before[i] == events[i]);
        }
        slot_keeps_occupant(dispatcher, before, slot);
        assert(!registers(events[events.len() - 1], slot));
    }
}

/// It does not matter how a stream of events is cut into batches: processing
/// one batch and then another leaves the slots that processing both as one
/// would have left.
pub proof fn batches_compose(
    dispatcher: EventDispatcher,
    first: Seq<EventView>,
    second: Seq<EventView>,
)
    ensures
        dispatcher.after_all(first + second) == dispatcher.after_all(first).after_all(second),
    decreases second.len(),
{
    if second.len() == 0 {
        assert(first + second == first);
    } else {
        batches_compose(dispatcher, first, second.drop_last());
        assert((first + second).drop_last() == first + second.drop_last());
        assert((first + second).last() == second.last());
    }
}

/// Once a slot holds a sink it holds one for good: no event empties a slot.
pub proof fn occupancy_is_monotonic(
    dispatcher: EventDispatcher,
    events: Seq<EventView>,
    slot: Slot,
)
    requires
        dispatcher.occupied(slot),
    ensures
        dispatcher.after_all(events).occupied(slot),
    decreases events.len(),
{
    if events.len() > 0 {
        occupancy_is_monotonic(dispatcher, events.drop_last(), slot);
    }
}

/// Registering a second websocket sink leaves no trace of the first. After
/// both registrations, and after any events that follow them without
/// registering a websocket sink again, the slots are what the second
/// registration alone would have made them; the websocket slot holds the
/// second sink; every event that is routed to the websocket reaches the
/// second sink; and the first sink, if it is another one, is reached only
/// where it also sits in the connection slot.
pub proof fn registration_overwrites(
    start: EventDispatcher,
    first: EventSender,
    second: EventSender,
    between: Seq<EventView>,
    later: EventView,
)
    requires
        forall|i: int| 0 <= i < between.len() ==> !registers(#[trigger] between[i], Slot::Websocket),
    ensures
        ({
            let now = start.after(EventView::RegisterWebsocket(first)).after(
                EventView::RegisterWebsocket(second),
            ).after_all(between);
            &&& now == start.after(EventView::RegisterWebsocket(second)).after_all(between)
            &&& now.websocket == Some(second)
            &&& later.routes_to(Slot::Websocket) ==> now.reaches(later, second)
                && now.planned(later, Slot::Websocket) == Some(later)
            &&& first != second ==> (now.reaches(later, first) <==> later.routes_to(
                Slot::Connection,
            ) && now.connection == Some(first))
        }),
{
    let both = start.after(EventView::RegisterWebsocket(first)).after(
        EventView::RegisterWebsocket(second),
    );
    assert(both == start.after(EventView::RegisterWebsocket(second)));
    slot_keeps_occupant(both, between, Slot::Websocket);
}

/// With a sink in the connection slot and one in the websocket slot, a
/// telemetry update, whole or partial, goes to both of them and to nothing
/// else, each receiving the update itself, and the slots stay as they are.
pub proof fn telemetry_fans_out(dispatcher: EventDispatcher, update: EventView)
    requires
        update is TelemetryUpdate || update is TelemetryPartialUpdate,
        dispatcher.connection is Some,
        dispatcher.websocket is Some,
    ensures
        dispatcher.planned(update, Slot::Websocket) == Some(update),
        dispatcher.planned(update, Slot::Connection) == Some(update),
        dispatcher.planned(update, Slot::Scheduler) is None,
        dispatcher.reaches(update, dispatcher.websocket->Some_0),
        dispatcher.reaches(update, dispatcher.connection->Some_0),
        dispatcher.after(update) == dispatcher,
{
}

/// Configuration updates and bulk time-slot refreshes are absorbed: in every
/// state of the dispatcher they are forwarded through no slot, reach no
/// sink, and change nothing.
pub proof fn absorbed_events_reach_no_sink(dispatcher: EventDispatcher, event: EventView)
    requires
        event is ConfigUpdate || event is TimeslotsUpdate,
    ensures
        forall|slot: Slot| #[trigger] dispatcher.planned(event, slot) is None,
        forall|sink: EventSender| !#[trigger] dispatcher.reaches(event, sink),
        forall|sink: SchedulerSender| !#[trigger] dispatcher.reaches_scheduler(event, sink),
        dispatcher.after(event) == dispatcher,
{
}

/// An event whose target slots are all empty is lost: nothing is forwarded,
/// and unless the event is a registration nothing changes.
pub proof fn unoccupied_targets_lose_event(dispatcher: EventDispatcher, event: EventView)
    requires
        forall|slot: Slot| #[trigger] event.routes_to(slot) ==> !dispatcher.occupied(slot),
    ensures
        forall|slot: Slot| #[trigger] dispatcher.planned(event, slot) is None,
        forall|sink: EventSender| !#[trigger] dispatcher.reaches(event, sink),
        forall|sink: SchedulerSender| !#[trigger] dispatcher.reaches_scheduler(event, sink),
        !event.is_registration() ==> dispatcher.after(event) == dispatcher,
{
    assert(event.routes_to(Slot::Websocket) ==> !dispatcher.occupied(Slot::Websocket));
    assert(event.routes_to(Slot::Connection) ==> !dispatcher.occupied(Slot::Connection));
    assert(event.routes_to(Slot::Scheduler) ==> !dispatcher.occupied(Slot::Scheduler));
}

/// Which slots an event is forwarded through depends on the dispatcher only
/// by which of its slots hold a sink, not by which sinks they hold.
pub proof fn forwards_depend_on_occupancy(
    one: EventDispatcher,
    other: EventDispatcher,
    event: EventView,
    slot: Slot,
)
    requires
        one.occupied(slot) == other.occupied(slot),
    ensures
        one.planned(event, slot) == other.planned(event, slot),
{
}

/// An event reaches a sink exactly when it is forwarded through a slot that
/// holds that sink.
pub proof fn reaching_is_forwarding(
    dispatcher: EventDispatcher,
    event: EventView,
    sink: EventSender,
    scheduler: SchedulerSender,
)
    ensures
        dispatcher.reaches(event, sink) <==> {
            ||| dispatcher.planned(event, Slot::Websocket) is Some && dispatcher.websocket == Some(
                sink,
            )
            ||| dispatcher.planned(event, Slot::Connection) is Some && dispatcher.connection
                == Some(sink)
        },
        dispatcher.reaches_scheduler(event, scheduler) <==> dispatcher.planned(
            event,
            Slot::Scheduler,
        ) is Some && dispatcher.scheduler == Some(scheduler),
{
}

} // verus!
