//! The tasks of a host, polled in order.

use crate::runner::CancellationScope;
use crate::runner::CancellationToken;
use crate::runner::Runner;
use crate::task::task_step;
use crate::task::Computation;
use crate::task::Phase;
use crate::task::Task;
use crate::task::TaskState;
use crate::task::TaskStatus;
use vstd::prelude::*;

verus! {

/// The live tasks of a host.
///
/// In every phase of a tick the host gives each task its turn, one after the
/// other, and drops the tasks that are done.
pub struct Scheduler<C: Computation> {
    tasks: Vec<Task<C>>,
}

impl<C: Computation> View for Scheduler<C> {
    type V = Seq<Task<C>>;

    closed spec fn view(&self) -> Seq<Task<C>> {
        self.tasks@
    }
}

/// Whether a task has more to do.
pub open spec fn is_live<C: Computation>(task: Task<C>) -> bool {
    task.state().status() == TaskStatus::Pending
}

/// The tasks among `tasks` that have more to do, in their order.
pub open spec fn live_of<C: Computation>(tasks: Seq<Task<C>>) -> Seq<Task<C>> {
    tasks.filter(|task: Task<C>| is_live(task))
}

/// One round at `phase`: every task is polled once, in order, each on the world
/// that the task before it has left. `worlds[i]` is the world before the poll
/// of `tasks[i]`, and `polled[i]` is that task after its poll.
pub open spec fn round<C: Computation>(
    tasks: Seq<Task<C>>,
    worlds: Seq<<C::Runner as Runner>::World>,
    phase: Phase,
    scope: CancellationScope,
    polled: Seq<Task<C>>,
) -> bool {
    &&& polled.len() == tasks.len()
    &&& worlds.len() == tasks.len() + 1
    &&& forall|i: int|
        0 <= i < tasks.len() ==> {
            &&& (#[trigger] polled[i]).spec_token() == tasks[i].spec_token()
            &&& task_step(
                tasks[i].state(),
                worlds[i],
                phase,
                scope.cancelled(tasks[i].spec_token()),
                polled[i].state(),
                worlds[i + 1],
            )
        }
}

impl<C: Computation> Scheduler<C> {
    /// Creates a scheduler without tasks.
    pub fn new() -> (scheduler: Self)
        ensures
            scheduler@ == Seq::<Task<C>>::empty(),
    {
        Scheduler { tasks: Vec::new() }
    }

    /// The number of live tasks.
    pub fn len(&self) -> (n: usize)
        ensures
            n == self@.len(),
    {
        self.tasks.len()
    }

    /// Tells whether no task is left.
    pub fn is_empty(&self) -> (empty: bool)
        ensures
            empty == (self@.len() == 0),
    {
        self.tasks.len() == 0
    }

    /// Adds the task that is to drive `computation` under `token`. Nothing of
    /// the computation runs before the task's first poll.
    pub fn schedule(&mut self, computation: C, token: CancellationToken)
        ensures
            final(self)@.len() == old(self)@.len() + 1,
            final(self)@.drop_last() == old(self)@,
            final(self)@.last().state() == TaskState::Idle(computation),
            final(self)@.last().spec_token() == token,
    {
        self.tasks.push(Task::new(computation, token));
    }

    /// Takes over the tasks of `other`; they come after the tasks that are there.
    pub fn append(&mut self, other: Scheduler<C>)
        ensures
            final(self)@ == old(self)@ + other@,
    {
        let mut other = other;
        self.tasks.append(&mut other.tasks);
    }

    /// Gives every task its turn at `phase`, in the order in which the tasks
    /// were scheduled, and drops those that have finished or were cancelled.
    pub fn poll(
        &mut self,
        world: &mut <C::Runner as Runner>::World,
        phase: Phase,
        scope: &CancellationScope,
    )
        ensures
            exists|worlds: Seq<<C::Runner as Runner>::World>, polled: Seq<Task<C>>|
                {
                    &&& #[trigger] round(old(self)@, worlds, phase, *scope, polled)
                    &&& worlds.first() == *old(world)
                    &&& worlds.last() == *final(world)
                    &&& final(self)@ == live_of(polled)
                },
    {
        let mut tasks: Vec<Task<C>> = Vec::new();
        std::mem::swap(&mut tasks, &mut self.tasks);
        let ghost before = tasks@;
        let ghost mut worlds = seq![*world];
        let ghost mut polled = Seq::<Task<C>>::empty();
        let mut kept: Vec<Task<C>> = Vec::new();
        for task in iter: tasks
            invariant
                iter.seq() == before,
                round(before.take(iter.index() as int), worlds, phase, *scope, polled),
                worlds.first() == *old(world),
                worlds.last() == *world,
                kept@ == live_of(polled),
        {
            let mut task = task;
            let status = task.poll(world, phase, scope);
            proof {
                polled.lemma_filter_push(task, |task: Task<C>| is_live(task));
                polled = polled.push(task);
                worlds = worlds.push(*world);
            }
            if status == TaskStatus::Pending {
                kept.push(task);
            }
        }
        assert(round(before, worlds, phase, *scope, polled));
        assert(before == old(self)@);
        self.tasks = kept;
    }
}

} // verus!
