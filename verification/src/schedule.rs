//! Why a handler never finds the slot empty: preemption by priority.
//!
//! A handler empties the slot when it starts and fills it before it ends.
//! In between the hole is there, and the handler must be the only one that
//! could look. The platform guarantees this without a blocking lock: a
//! context starts only if its priority is above the one at which the
//! processor runs, and while a context works on the slot the processor runs
//! at the slot's ceiling, the higher of the two handlers' priorities. With
//! both handlers at one priority the ceiling is that priority, and no lock
//! is taken at all.

use vstd::prelude::*;

verus! {

/// A piece of code that the processor can be in the middle of.
pub enum Context {
    /// The handler of the bus peripheral's interrupt.
    BusHandler,
    /// The handler of the reset pin's interrupt.
    ResetHandler,
    /// The deferred task that drives the controller-mode interface.
    ControllerTask,
}

impl Context {
    /// Whether the context removes the state from the slot when it starts
    /// and installs one when it ends.
    pub open spec fn uses_slot(self) -> bool {
        self != Context::ControllerTask
    }
}

/// The static priorities of the contexts; a higher number is more urgent.
pub struct Priorities {
    pub bus: nat,
    pub reset: nat,
    pub task: nat,
}

impl Priorities {
    /// The priority that `context` needs to start.
    pub open spec fn of(self, context: Context) -> nat {
        match context {
            Context::BusHandler => self.bus,
            Context::ResetHandler => self.reset,
            Context::ControllerTask => self.task,
        }
    }

    /// The priority at which the slot is worked on.
    pub open spec fn ceiling(self) -> nat {
        if self.bus >= self.reset {
            self.bus
        } else {
            self.reset
        }
    }

    /// The priority at which the processor runs while `context` is underway.
    pub open spec fn running(self, context: Context) -> nat {
        if context.uses_slot() {
            self.ceiling()
        } else {
            self.of(context)
        }
    }
}

/// The processor between two moves.
pub struct Processor {
    /// The contexts that have started and not ended: the preempted ones
    /// first, the one that runs last.
    pub active: Seq<Context>,
    /// Whether the slot holds a state.
    pub occupied: bool,
}

/// A change of what the processor runs.
pub enum Move {
    /// The context starts, preempting whatever runs.
    Enter(Context),
    /// The context that runs comes to its end.
    Leave,
}

/// The processor with nothing underway and the slot filled.
pub open spec fn at_rest() -> Processor {
    Processor { active: Seq::empty(), occupied: true }
}

/// Whether the platform lets `mv` happen: a context starts only above the
/// priority at which the processor runs, and only a context that runs can
/// end.
pub open spec fn permitted(p: Priorities, cpu: Processor, mv: Move) -> bool {
    match mv {
        Move::Enter(context) => cpu.active.len() == 0 || p.of(context) > p.running(
            cpu.active.last(),
        ),
        Move::Leave => cpu.active.len() > 0,
    }
}

/// The processor after `mv`: a handler that starts takes the state out of
/// the slot, and a handler that ends has put one in.
pub open spec fn after(cpu: Processor, mv: Move) -> Processor {
    match mv {
        Move::Enter(context) => Processor {
            active: cpu.active.push(context),
            occupied: cpu.occupied && !context.uses_slot(),
        },
        Move::Leave => Processor {
            active: cpu.active.drop_last(),
            occupied: cpu.occupied || cpu.active.last().uses_slot(),
        },
    }
}

/// Whether `mv` is a handler that starts and finds the slot empty.
pub open spec fn finds_slot_empty(cpu: Processor, mv: Move) -> bool {
    mv matches Move::Enter(context) && context.uses_slot() && !cpu.occupied
}

/// The processor after `moves`, first to last.
pub open spec fn play(cpu: Processor, moves: Seq<Move>) -> Processor
    decreases moves.len(),
{
    if moves.len() == 0 {
        cpu
    } else {
        after(play(cpu, moves.drop_last()), moves.last())
    }
}

/// Whether the platform lets every move of `moves` happen when its turn
/// comes.
pub open spec fn lawful(p: Priorities, cpu: Processor, moves: Seq<Move>) -> bool
    decreases moves.len(),
{
    moves.len() == 0 || (lawful(p, cpu, moves.drop_last()) && permitted(
        p,
        play(cpu, moves.drop_last()),
        moves.last(),
    ))
}

/// What the platform's rule maintains: each context underway runs above the
/// ones it preempted, and the slot is empty exactly while a handler is
/// underway.
pub open spec fn orderly(p: Priorities, cpu: Processor) -> bool {
    &&& forall|i: int, j: int|
        0 <= i < j < cpu.active.len() ==> p.running(#[trigger] cpu.active[i]) < p.running(
            #[trigger] cpu.active[j],
        )
    &&& cpu.occupied <==> forall|i: int|
        0 <= i < cpu.active.len() ==> !(#[trigger] cpu.active[i]).uses_slot()
}

/// A permitted move never is a handler that finds the slot empty, and it
/// leaves the processor orderly.
pub proof fn lemma_move_is_safe(p: Priorities, cpu: Processor, mv: Move)
    requires
        orderly(p, cpu),
        permitted(p, cpu, mv),
    ensures
        !finds_slot_empty(cpu, mv),
        orderly(p, after(cpu, mv)),
{
    let next = after(cpu, mv);
    match mv {
        Move::Enter(context) => {
            let n = cpu.active.len() as int;
            assert forall|i: int, j: int| 0 <= i < j < next.active.len() implies p.running(
                #[trigger] next.active[i],
            ) < p.running(#[trigger] next.active[j]) by {
                if j == n {
                    assert(p.running(cpu.active[i]) <= p.running(cpu.active.last()));
                }
            }
            if context.uses_slot() {
                assert forall|i: int| 0 <= i < n implies !(#[trigger] cpu.active[i]).uses_slot() by {
                    assert(p.running(cpu.active[i]) <= p.running(cpu.active.last()));
                }
                assert(next.active[n].uses_slot());
            } else {
                assert forall|i: int| 0 <= i < n implies cpu.active[i] == next.active[i] by {}
            }
        },
        Move::Leave => {
            let n = cpu.active.len() as int;
            if cpu.active.last().uses_slot() {
                assert forall|i: int| 0 <= i < n - 1 implies !(#[trigger] next.active[i]).uses_slot() by {
                    assert(p.running(cpu.active[i]) < p.running(cpu.active[n - 1]));
                }
            } else {
                assert(cpu.active[n - 1] == cpu.active.last());
                assert forall|i: int| 0 <= i < n - 1 implies cpu.active[i] == next.active[i] by {}
            }
        },
    }
}

/// Lawful moves from rest leave the processor orderly.
pub proof fn lemma_play_is_orderly(p: Priorities, moves: Seq<Move>)
    requires
        lawful(p, at_rest(), moves),
    ensures
        orderly(p, play(at_rest(), moves)),
    decreases moves.len(),
{
    if moves.len() > 0 {
        lemma_play_is_orderly(p, moves.drop_last());
        lemma_move_is_safe(p, play(at_rest(), moves.drop_last()), moves.last());
    }
}

/// A prefix of lawful moves is lawful.
pub proof fn lemma_prefix_is_lawful(p: Priorities, cpu: Processor, moves: Seq<Move>, k: int)
    requires
        lawful(p, cpu, moves),
        0 <= k <= moves.len(),
    ensures
        lawful(p, cpu, moves.take(k)),
        k < moves.len() ==> permitted(p, play(cpu, moves.take(k)), moves[k]),
    decreases moves.len(),
{
    if k == moves.len() {
        assert(moves.take(k) =~= moves);
    } else {
        assert(moves.drop_last().take(k) =~= moves.take(k));
        lemma_prefix_is_lawful(p, cpu, moves.drop_last(), k);
        if k == moves.len() - 1 {
            assert(moves.take(k) =~= moves.drop_last());
        }
    }
}

/// Whatever the priorities, and in whatever order interrupts and the task
/// come and preempt one another within the platform's rule, no handler ever
/// starts on an empty slot, and whenever no handler is underway the slot
/// holds a state.
pub proof fn lemma_no_handler_finds_slot_empty(p: Priorities, moves: Seq<Move>)
    requires
        lawful(p, at_rest(), moves),
    ensures
        forall|k: int|
            0 <= k < moves.len() ==> !finds_slot_empty(
                play(at_rest(), #[trigger] moves.take(k)),
                moves[k],
            ),
        play(at_rest(), moves).active.len() == 0 ==> play(at_rest(), moves).occupied,
{
    lemma_play_is_orderly(p, moves);
    assert forall|k: int| 0 <= k < moves.len() implies !finds_slot_empty(
        play(at_rest(), #[trigger] moves.take(k)),
        moves[k],
    ) by {
        lemma_prefix_is_lawful(p, at_rest(), moves, k);
        lemma_play_is_orderly(p, moves.take(k));
        lemma_move_is_safe(p, play(at_rest(), moves.take(k)), moves[k]);
    }
}

/// A handler runs to its end in one piece: while it is underway nothing is
/// permitted to start, the other handler no more than the task below the
/// ceiling. So the other handler sees the slot before the removal or after
/// the installation, never in between.
pub proof fn lemma_handler_is_not_preempted_by_handler(
    p: Priorities,
    cpu: Processor,
    context: Context,
)
    requires
        cpu.active.len() > 0,
        cpu.active.last().uses_slot(),
        context.uses_slot(),
    ensures
        !permitted(p, cpu, Move::Enter(context)),
{
}

} // verus!
