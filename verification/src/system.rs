//! The system as a whole: the slot, the task queue, and what the processor
//! may run next.

use vstd::prelude::*;
use crate::event::Event;
use crate::model::{received, step, TransferView};
use crate::queue::TaskQueue;
use crate::shared::Shared;

verus! {

/// The system between two activities: the slot and the task queue.
pub struct SystemView {
    /// The slot's content; `None` while it is empty.
    pub slot: Option<TransferView>,
    /// Whether an instance of the controller task is queued.
    pub queued: bool,
}

/// What happens next. The two handlers run at one priority, so each runs to
/// its end before the other starts, and nothing else touches the slot.
pub enum Activity {
    /// A handler serves an event from start to end.
    Interrupt(Event),
    /// The DMA engine moves bytes in from the bus.
    Dma(Seq<u8>),
    /// The scheduler runs the queued controller task to its end.
    ControllerTask,
}

/// The two records that can hold the buffer.
pub enum Holder {
    /// The pair that rests in the slot while the device listens.
    IdleRecord,
    /// The DMA transaction that was started and not yet awaited.
    TransferInFlight,
}

/// Whether `holder` has the buffer in `s`.
pub open spec fn holds(s: SystemView, holder: Holder) -> bool {
    match holder {
        Holder::IdleRecord => s.slot matches Some(v) && v.phase is Idle,
        Holder::TransferInFlight => s.slot matches Some(v) && v.phase is Running,
    }
}

/// Exactly one record has the buffer, and the buffer has its length.
pub open spec fn exclusively_held(s: SystemView) -> bool {
    &&& s.slot matches Some(v) && v.wf()
    &&& holds(s, Holder::IdleRecord) != holds(s, Holder::TransferInFlight)
}

/// The system after one activity.
///
/// A handler installs the successor of what it removed; from an empty slot
/// there is nothing to remove and nothing is installed. The reset queues the
/// controller task unless one is queued already. The DMA engine reaches the
/// buffer only through a receive in flight. Running the task empties the
/// queue and leaves the slot alone, since the task works on an interface and
/// a scratch buffer of its own.
pub open spec fn next(s: SystemView, activity: Activity) -> SystemView {
    match activity {
        Activity::Interrupt(event) => SystemView {
            slot: match s.slot {
                Some(v) => Some(step(v, event)),
                None => None,
            },
            queued: s.queued || event == Event::ResetRequested,
        },
        Activity::Dma(data) => SystemView {
            slot: match s.slot {
                Some(v) => Some(received(v, data)),
                None => None,
            },
            ..s
        },
        Activity::ControllerTask => SystemView { queued: false, ..s },
    }
}

/// The system after the activities of `trace`, first to last.
pub open spec fn run(s: SystemView, trace: Seq<Activity>) -> SystemView
    decreases trace.len(),
{
    if trace.len() == 0 {
        s
    } else {
        next(run(s, trace.drop_last()), trace.last())
    }
}

/// Whether the queue lets `activity` happen in `s`: a reset needs room for
/// the task it spawns, and the scheduler runs the task only when one is
/// queued.
pub open spec fn enabled(s: SystemView, activity: Activity) -> bool {
    match activity {
        Activity::Interrupt(Event::ResetRequested) => !s.queued,
        Activity::ControllerTask => s.queued,
        _ => true,
    }
}

/// Whether every activity of `trace` is enabled when its turn comes.
pub open spec fn admissible(s: SystemView, trace: Seq<Activity>) -> bool
    decreases trace.len(),
{
    trace.len() == 0 || (admissible(s, trace.drop_last()) && enabled(
        run(s, trace.drop_last()),
        trace.last(),
    ))
}

/// How many reset edges `trace` holds.
pub open spec fn resets(trace: Seq<Activity>) -> nat
    decreases trace.len(),
{
    if trace.len() == 0 {
        0
    } else if trace.last() == Activity::Interrupt(Event::ResetRequested) {
        resets(trace.drop_last()) + 1
    } else {
        resets(trace.drop_last())
    }
}

/// How many times the controller task runs in `trace`.
pub open spec fn executions(trace: Seq<Activity>) -> nat
    decreases trace.len(),
{
    if trace.len() == 0 {
        0
    } else if trace.last() == Activity::ControllerTask {
        executions(trace.drop_last()) + 1
    } else {
        executions(trace.drop_last())
    }
}

/// The number of task instances in the queue: none or one.
pub open spec fn backlog(s: SystemView) -> nat {
    if s.queued {
        1
    } else {
        0
    }
}

/// The model of a slot and a queue taken together.
pub open spec fn system_view(shared: &Shared, tasks: &TaskQueue) -> SystemView {
    SystemView { slot: shared@, queued: tasks.pending() }
}

} // verus!
