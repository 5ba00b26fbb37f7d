//! The run queue of the controller task.

use vstd::prelude::*;

verus! {

/// Why a spawn was turned down.
#[derive(Clone, Copy, Debug, PartialEq, Eq, Structural)]
pub enum SpawnError {
    /// An instance of the task is queued already; the queue holds one.
    AlreadyQueued,
}

/// A queue with room for one instance of the controller task.
///
/// The reset handler spawns into it; the scheduler dispatches from it at a
/// lower priority. A second spawn before the dispatch is turned down, never
/// dropped in silence.
#[derive(Debug)]
pub struct TaskQueue {
    queued: bool,
}

impl TaskQueue {
    /// Whether an instance waits to be run.
    pub closed spec fn pending(&self) -> bool {
        self.queued
    }

    /// An empty queue.
    pub fn new() -> (queue: Self)
        ensures
            !queue.pending(),
    {
        TaskQueue { queued: false }
    }

    /// Whether an instance waits to be run.
    #[verifier::when_used_as_spec(pending)]
    pub fn is_pending(&self) -> (b: bool)
        ensures
            b == self.pending(),
    {
        self.queued
    }

    /// Queues one instance. Fails, and changes nothing, exactly when one is
    /// queued already.
    pub fn spawn(&mut self) -> (result: Result<(), SpawnError>)
        ensures
            final(self).pending(),
            result is Ok <==> !old(self).pending(),
            result is Err ==> result == Err::<(), SpawnError>(SpawnError::AlreadyQueued),
    {
        if self.queued {
            Err(SpawnError::AlreadyQueued)
        } else {
            self.queued = true;
            Ok(())
        }
    }

    /// Takes the queued instance for running. The result says whether there
    /// was one; the queue is empty afterwards.
    pub fn dispatch(&mut self) -> (ran: bool)
        ensures
            ran == old(self).pending(),
            !final(self).pending(),
    {
        let ran = self.queued;
        self.queued = false;
        ran
    }
}

} // verus!
