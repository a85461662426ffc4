//! Handling the events of the device's worker thread.
//!
//! As with the request queue, the library decides and its user acts: each step
//! tells what came of the last action and gets the next one.
use vstd::prelude::*;

verus! {

/// The last event number that the event loop keeps for itself.
pub const EPOLL_HELPER_EVENT_LAST: u16 = 15;

/// The event of new descriptors on the request queue.
pub const QUEUE_AVAIL_EVENT: u16 = EPOLL_HELPER_EVENT_LAST + 1;

/// What happened.
#[derive(Clone, Copy, Debug, PartialEq, Eq, Structural)]
pub enum EventStep {
    /// The event loop reported an event with this data.
    Received { data: u64 },
    /// The queue's eventfd was read, or could not be.
    Drained { ok: bool },
    /// The request queue was processed, with or without a chain given back, or
    /// could not be.
    Processed { used: Option<bool> },
    /// The driver was notified, or could not be.
    Signalled { ok: bool },
}

/// Why handling an event failed.
#[derive(Clone, Copy, Debug, PartialEq, Eq, Structural)]
pub enum EventFailure {
    /// The queue's eventfd could not be read.
    QueueEvent,
    /// The request queue could not be processed.
    ProcessQueue,
    /// The driver could not be notified.
    SignalUsedQueue,
    /// The event is none of the device's.
    Unexpected { ev_type: u16 },
}

/// What is to be done next.
#[derive(Clone, Copy, Debug, PartialEq, Eq, Structural)]
pub enum EventAction {
    /// Read the queue's eventfd.
    Drain,
    /// Process the request queue.
    Process,
    /// Notify the driver of used descriptors.
    Signal,
    /// Nothing: the event is handled.
    Done,
    /// Stop with a failure.
    Fail { failure: EventFailure },
}

/// The event number in an event's data: its low 16 bits.
pub open spec fn event_type(data: u64) -> u16 {
    (data % 0x1_0000) as u16
}

/// What is to be done after a step.
pub open spec fn event_action(step: EventStep) -> EventAction {
    match step {
        EventStep::Received { data } => if event_type(data) == QUEUE_AVAIL_EVENT {
            EventAction::Drain
        } else {
            EventAction::Fail { failure: EventFailure::Unexpected { ev_type: event_type(data) } }
        },
        EventStep::Drained { ok } => if ok {
            EventAction::Process
        } else {
            EventAction::Fail { failure: EventFailure::QueueEvent }
        },
        EventStep::Processed { used } => match used {
            Some(true) => EventAction::Signal,
            Some(false) => EventAction::Done,
            None => EventAction::Fail { failure: EventFailure::ProcessQueue },
        },
        EventStep::Signalled { ok } => if ok {
            EventAction::Done
        } else {
            EventAction::Fail { failure: EventFailure::SignalUsedQueue }
        },
    }
}

/// Decides what is to be done after a step of handling an event.
pub fn handle_event(step: EventStep) -> (action: EventAction)
    ensures
        action == event_action(step),
{
    match step {
        EventStep::Received { data } => {
            let ev_type = (data & 0xffff) as u16;
            assert(data & 0xffff == data % 0x1_0000) by (bit_vector);
            match ev_type {
                QUEUE_AVAIL_EVENT => EventAction::Drain,
                _ => EventAction::Fail { failure: EventFailure::Unexpected { ev_type } },
            }
        },
        EventStep::Drained { ok } => {
            if !ok {
                return EventAction::Fail { failure: EventFailure::QueueEvent };
            }
            EventAction::Process
        },
        EventStep::Processed { used } => match used {
            Some(needs_notification) => {
                if needs_notification {
                    EventAction::Signal
                } else {
                    EventAction::Done
                }
            },
            None => EventAction::Fail { failure: EventFailure::ProcessQueue },
        },
        EventStep::Signalled { ok } => {
            if !ok {
                return EventAction::Fail { failure: EventFailure::SignalUsedQueue };
            }
            EventAction::Done
        },
    }
}

} // verus!
