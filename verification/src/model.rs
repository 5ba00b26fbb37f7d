//! The mathematical model of the responder's state.

use vstd::prelude::*;
use crate::buffer::{zeroed, BUFFER_LEN};
use crate::event::Event;

verus! {

/// Which way a transfer moves bytes, seen from the responder.
#[derive(Clone, Copy, Debug, PartialEq, Eq, Structural)]
pub enum Direction {
    /// The buffer is the source: the external controller reads it.
    Transmit,
    /// The buffer is the destination: the external controller fills it.
    Receive,
}

/// Which record holds the buffer and the device.
#[derive(Clone, Copy, Debug, PartialEq, Eq, Structural)]
pub enum Phase {
    /// The idle record holds them; the device listens.
    Idle,
    /// A transfer in flight holds them.
    Running(Direction),
}

/// A transfer state as contracts see it: who holds the pair, what the buffer
/// contains, and the bus address of the device that travels with it.
pub struct TransferView {
    /// The record that holds the buffer and the device.
    pub phase: Phase,
    /// The bytes of the buffer.
    pub buffer: Seq<u8>,
    /// The bus address that the device answers to.
    pub address: u8,
}

impl TransferView {
    /// The buffer has its fixed length.
    pub open spec fn wf(self) -> bool {
        self.buffer.len() == BUFFER_LEN
    }
}

/// The state after a handler has served `event`.
///
/// A handler first takes the pair back from whichever record holds it, so
/// the phase that follows depends on the event alone. The bytes and the
/// device are carried over; only the reset changes the bytes.
pub open spec fn step(v: TransferView, event: Event) -> TransferView {
    match event {
        Event::IncomingRead => TransferView { phase: Phase::Running(Direction::Transmit), ..v },
        Event::IncomingWrite => TransferView { phase: Phase::Running(Direction::Receive), ..v },
        Event::BusStopped => TransferView { phase: Phase::Idle, ..v },
        Event::ResetRequested => TransferView { phase: Phase::Idle, buffer: zeroed(), ..v },
    }
}

/// The state after the DMA engine has moved `data` in from the bus.
///
/// The engine writes memory only while a receive is in flight, and then a
/// buffer's worth; at any other time nothing changes.
pub open spec fn received(v: TransferView, data: Seq<u8>) -> TransferView {
    if v.phase == Phase::Running(Direction::Receive) && data.len() == BUFFER_LEN {
        TransferView { buffer: data, ..v }
    } else {
        v
    }
}

/// The bytes that the DMA engine puts on the bus: the buffer while a
/// transmit is in flight, nothing otherwise.
pub open spec fn transmitted(v: TransferView) -> Option<Seq<u8>> {
    if v.phase == Phase::Running(Direction::Transmit) {
        Some(v.buffer)
    } else {
        None
    }
}

} // verus!
