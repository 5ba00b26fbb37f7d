//! The start-up state and the two interrupt handlers.

use vstd::prelude::*;
use crate::buffer::{zeroed, DmaBuffer};
use crate::event::{bus_event, Event};
use crate::model::{step, Phase, TransferView};
use crate::queue::{SpawnError, TaskQueue};
use crate::shared::Shared;
use crate::system::{next, system_view, Activity};
use crate::transfer::{Responder, TwisTransfer, RESPONDER_ADDRESS};

verus! {

/// The state in which the firmware starts.
pub open spec fn initial() -> TransferView {
    TransferView { phase: Phase::Idle, buffer: zeroed(), address: RESPONDER_ADDRESS }
}

/// Sets the system up: the responder listens on its address with a cleared
/// buffer in the idle record, and no controller task is queued.
pub fn init() -> (system: (Shared, TaskQueue))
    ensures
        system.0@ == Some(initial()),
        !system.1.pending(),
{
    let buf = DmaBuffer::new();
    let twis = Responder::new(RESPONDER_ADDRESS);
    (Shared::new(TwisTransfer::Idle((buf, twis))), TaskQueue::new())
}

/// Serves the bus peripheral's interrupt.
///
/// `read` and `write` are the peripheral's read and write flags as the
/// handler finds them. The handler takes the state out of the slot, gets the
/// buffer and the device back from it, and then does exactly one of three
/// things: on a read it starts a transmit from the buffer, else on a write
/// it starts a receive into the buffer, else it takes the interrupt for the
/// stop and returns the pair to the idle record. The result names the event
/// it served, which is also the flag that is to be cleared on the device.
pub fn on_twis(shared: &mut Shared, read: bool, write: bool) -> (event: Event)
    requires
        old(shared).occupied(),
    ensures
        event == bus_event(read, write),
        event.on_bus(),
        final(shared)@ == Some(step(old(shared)@.unwrap(), event)),
        event == Event::BusStopped ==> final(shared)@.unwrap().phase is Idle,
        final(shared)@.unwrap().buffer == old(shared)@.unwrap().buffer,
        final(shared)@.unwrap().address == old(shared)@.unwrap().address,
{
    let (buf, twis) = shared.remove().resolve();
    if read {
        let tx = twis.tx(buf);
        let _ = shared.install(TwisTransfer::Running(tx));
        Event::IncomingRead
    } else if write {
        let rx = twis.rx(buf);
        let _ = shared.install(TwisTransfer::Running(rx));
        Event::IncomingWrite
    } else {
        let _ = shared.install(TwisTransfer::Idle((buf, twis)));
        Event::BusStopped
    }
}

/// Serves the reset pin's interrupt.
///
/// Whatever held the buffer gives it up, a transfer in flight by being
/// awaited; every byte is set to zero; the pair goes back to the idle
/// record; and one instance of the controller task is queued. The spawn is
/// turned down, after all the rest is done, exactly when an instance was
/// queued already.
pub fn on_gpiote(shared: &mut Shared, tasks: &mut TaskQueue) -> (spawned: Result<(), SpawnError>)
    requires
        old(shared).occupied(),
    ensures
        final(shared)@ == Some(step(old(shared)@.unwrap(), Event::ResetRequested)),
        final(shared)@.unwrap().phase is Idle,
        final(shared)@.unwrap().buffer == zeroed(),
        final(shared)@.unwrap().address == old(shared)@.unwrap().address,
        final(tasks).pending(),
        spawned is Ok <==> !old(tasks).pending(),
        spawned is Err ==> spawned == Err::<(), SpawnError>(SpawnError::AlreadyQueued),
        system_view(final(shared), final(tasks)) == next(
            system_view(old(shared), old(tasks)),
            Activity::Interrupt(Event::ResetRequested),
        ),
{
    let (mut buf, twis) = shared.remove().resolve();
    buf.clear();
    let _ = shared.install(TwisTransfer::Idle((buf, twis)));
    tasks.spawn()
}

} // verus!
