//! The interrupt sources that drive the responder.

use vstd::prelude::*;

verus! {

/// What woke a handler.
///
/// The first three come from the bus peripheral and share one interrupt
/// vector; the last is the falling edge on the reset pin.
#[derive(Clone, Copy, Debug, PartialEq, Eq, Structural)]
pub enum Event {
    /// The external controller addressed the responder for reading.
    IncomingRead,
    /// The external controller addressed the responder for writing.
    IncomingWrite,
    /// The bus transaction came to its end.
    BusStopped,
    /// The reset pin saw a falling edge.
    ResetRequested,
}

/// The bus event that a handler acts on, given which of the peripheral's
/// read and write flags are raised: read wins over write, and with neither
/// raised the interrupt is taken to be the stop.
pub open spec fn bus_event(read: bool, write: bool) -> Event {
    if read {
        Event::IncomingRead
    } else if write {
        Event::IncomingWrite
    } else {
        Event::BusStopped
    }
}

impl Event {
    /// Picks the bus event to act on from the peripheral's flags.
    pub fn pending(read: bool, write: bool) -> (event: Event)
        ensures
            event == bus_event(read, write),
            event.on_bus(),
    {
        if read {
            Event::IncomingRead
        } else if write {
            Event::IncomingWrite
        } else {
            Event::BusStopped
        }
    }

    /// Whether the event belongs to the bus peripheral's vector.
    pub open spec fn on_bus(self) -> bool {
        self != Event::ResetRequested
    }
}

} // verus!
