//! What holds of every run of the system, whatever the order of events.

use vstd::prelude::*;
use crate::buffer::{zeroed, BUFFER_LEN};
use crate::controller::{is_task_program, payload, TwimCommand};
use crate::event::Event;
use crate::model::{received, step, transmitted, Direction, Phase, TransferView};
use crate::queue::TaskQueue;
use crate::shared::Shared;
use crate::system::{
    admissible, backlog, exclusively_held, executions, holds, next, resets, run, system_view,
    Activity, Holder, SystemView,
};

verus! {

/// One activity keeps an occupied slot occupied, with the same device and a
/// buffer of the same length.
pub proof fn lemma_next_keeps_slot(s: SystemView, activity: Activity)
    requires
        s.slot is Some,
    ensures
        next(s, activity).slot is Some,
        next(s, activity).slot.unwrap().address == s.slot.unwrap().address,
        s.slot.unwrap().wf() ==> next(s, activity).slot.unwrap().wf(),
{
}

/// A run keeps an occupied slot occupied, with the same device.
pub proof fn lemma_run_keeps_slot(s: SystemView, trace: Seq<Activity>)
    requires
        s.slot is Some,
    ensures
        run(s, trace).slot is Some,
        run(s, trace).slot.unwrap().address == s.slot.unwrap().address,
        s.slot.unwrap().wf() ==> run(s, trace).slot.unwrap().wf(),
    decreases trace.len(),
{
    if trace.len() > 0 {
        lemma_run_keeps_slot(s, trace.drop_last());
        lemma_next_keeps_slot(run(s, trace.drop_last()), trace.last());
    }
}

/// From a start in which the slot holds a state, no order of bus events,
/// resets, DMA stores and task runs leads to a state in which the slot is
/// empty, or in which the idle record and a transfer in flight both have the
/// buffer, or neither has. This holds at the end of the run and at every
/// point between two of its activities.
pub proof fn lemma_exclusive_ownership(s: SystemView, trace: Seq<Activity>)
    requires
        s.slot is Some,
        s.slot.unwrap().wf(),
    ensures
        exclusively_held(run(s, trace)),
        forall|i: int| 0 <= i <= trace.len() ==> exclusively_held(#[trigger] run(s, trace.take(i))),
{
    lemma_run_keeps_slot(s, trace);
    assert forall|i: int| 0 <= i <= trace.len() implies exclusively_held(
        #[trigger] run(s, trace.take(i)),
    ) by {
        lemma_run_keeps_slot(s, trace.take(i));
    }
}

/// The same of the slot and the queue as the firmware holds them: once the
/// slot holds a state, ownership is exclusive at the end of every run from
/// there.
pub proof fn lemma_exclusive_ownership_from(
    shared: &Shared,
    tasks: &TaskQueue,
    trace: Seq<Activity>,
)
    requires
        shared.occupied(),
    ensures
        exclusively_held(system_view(shared, tasks)),
        exclusively_held(run(system_view(shared, tasks), trace)),
{
    shared.lemma_wf();
    lemma_exclusive_ownership(system_view(shared, tasks), trace);
}

/// A reset wipes whatever a cancelled receive had brought in: however much
/// the DMA engine stored before the handler ran, the buffer is zero after it.
pub proof fn lemma_reset_wipes_partial_receive(v: TransferView, data: Seq<u8>)
    ensures
        step(received(v, data), Event::ResetRequested) == step(v, Event::ResetRequested),
        step(received(v, data), Event::ResetRequested).buffer == zeroed(),
{
}

/// The controller task never reaches the buffer: a run of the task leaves
/// the slot exactly as it found it.
pub proof fn lemma_task_leaves_slot(s: SystemView)
    ensures
        next(s, Activity::ControllerTask).slot == s.slot,
{
}

/// Whatever came before, once the handler has served a bus stop the idle
/// record holds the buffer, with the bytes that the handler found in it.
pub proof fn lemma_stop_ends_idle(s: SystemView, trace: Seq<Activity>)
    requires
        s.slot is Some,
        trace.len() > 0,
        trace.last() == Activity::Interrupt(Event::BusStopped),
    ensures
        run(s, trace).slot matches Some(v) && v.phase is Idle,
        holds(run(s, trace), Holder::IdleRecord),
        run(s, trace).slot.unwrap().buffer == run(s, trace.drop_last()).slot.unwrap().buffer,
{
    lemma_run_keeps_slot(s, trace.drop_last());
}

/// Whatever came before, and whichever record held the buffer, once the
/// handler has served a reset the idle record holds the buffer, every byte
/// of it is zero, and the controller task is queued.
pub proof fn lemma_reset_clears(s: SystemView, trace: Seq<Activity>)
    requires
        s.slot is Some,
        trace.len() > 0,
        trace.last() == Activity::Interrupt(Event::ResetRequested),
    ensures
        run(s, trace).slot matches Some(v) && v.phase is Idle && v.buffer == zeroed(),
        run(s, trace).queued,
{
    lemma_run_keeps_slot(s, trace.drop_last());
}

/// In a run in which every reset finds room in the queue and the task runs
/// only when queued, the resets and the instances queued at the start are
/// matched one for one by the task runs and the instances still queued at
/// the end. So when the queue is empty at both ends, the task has run
/// exactly as often as the reset pin fell.
pub proof fn lemma_one_task_per_reset(s: SystemView, trace: Seq<Activity>)
    requires
        admissible(s, trace),
    ensures
        resets(trace) + backlog(s) == executions(trace) + backlog(run(s, trace)),
        !s.queued && !run(s, trace).queued ==> executions(trace) == resets(trace),
    decreases trace.len(),
{
    if trace.len() > 0 {
        lemma_one_task_per_reset(s, trace.drop_last());
    }
}

/// Bytes that a write brought in are in the buffer when the stop returns it
/// to the idle record; a read that follows sends out those bytes, and its
/// own stop finds them unchanged.
pub proof fn lemma_round_trip(v: TransferView, data: Seq<u8>)
    requires
        data.len() == BUFFER_LEN,
    ensures
        ({
            let filled = step(received(step(v, Event::IncomingWrite), data), Event::BusStopped);
            let sending = step(filled, Event::IncomingRead);
            &&& filled == (TransferView { phase: Phase::Idle, buffer: data, address: v.address })
            &&& sending.phase == Phase::Running(Direction::Transmit)
            &&& transmitted(sending) == Some(data)
            &&& step(sending, Event::BusStopped) == filled
        }),
{
}

/// When the responder serves the controller task, the task's read is
/// answered with the buffer as it stands, and once the task's write has been
/// received and stopped, the idle record holds the payload.
pub proof fn lemma_task_against_responder(v: TransferView, commands: Seq<TwimCommand>)
    requires
        is_task_program(commands),
    ensures
        ({
            let reading = step(v, Event::IncomingRead);
            let read_done = step(reading, Event::BusStopped);
            let writing = step(read_done, Event::IncomingWrite);
            let written = step(received(writing, commands[1]->payload@), Event::BusStopped);
            &&& transmitted(reading) == Some(v.buffer)
            &&& read_done.buffer == v.buffer
            &&& written == (TransferView { phase: Phase::Idle, buffer: payload(), address: v.address })
        }),
{
    assert(payload().len() == BUFFER_LEN);
}

} // verus!
