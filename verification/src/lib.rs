//! An in-process event hub: components publish events into one ordered
//! channel, and a dispatcher forwards each event to the sinks registered for
//! its category.

pub mod dispatcher;
pub mod event;
pub mod handler;
pub mod laws;
pub mod payload;
pub mod sink;

pub use dispatcher::{outcome, Delivery, EventDispatcher, Forwards, Report};
pub use event::{Event, EventView, Slot};
pub use handler::{published, Disconnected, EventHandler};
pub use payload::{Config, Message, Telemetry, TimeSlot, TimeSlots};
pub use sink::{
    channel, scheduler_channel, EventReceiver, EventSender, SchedulerReceiver, SchedulerSender,
};
