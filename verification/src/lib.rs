//! Buffer ownership for a two-wire responder that shares one DMA buffer
//! between its idle record and the transfer in flight.
//!
//! The crate is the decision-making half of a firmware: interrupt handlers
//! hand it what the hardware reported, and it says who owns the buffer next.
//!
//! - [`buffer`], [`transfer`] and [`shared`] hold the buffer, the two records
//!   that can own it, and the slot in which the state rests between handlers.
//! - [`handlers`] is the start-up state and the two interrupt handlers;
//!   [`queue`] and [`controller`] are the deferred task that a reset spawns.
//! - [`event`] and [`model`] are the state machine as contracts see it.
//! - [`system`], [`laws`] and [`schedule`] state and prove what holds of every
//!   run: one owner at a time, idle after a stop, zeros after a reset, one
//!   task per reset, and no handler that meets an empty slot.

pub mod buffer;
pub mod controller;
pub mod event;
pub mod handlers;
pub mod laws;
pub mod model;
pub mod queue;
pub mod schedule;
pub mod shared;
pub mod system;
pub mod transfer;
