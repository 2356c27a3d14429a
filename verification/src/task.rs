//! The object that drives one suspended computation across ticks.

use crate::action::seed::ActionSeed;
use crate::action::sequence::completes_at_once;
use crate::action::sequence::lemma_both_stages_in_one_poll;
use crate::action::sequence::SequenceRunner;
use crate::action::sequence::SequenceSeed;
use crate::action::Action;
use crate::runner::cancellation::ancestor_or_self;
use crate::runner::cancellation::lemma_cancel_reaches_descendants;
use crate::runner::cancellation::requested;
use crate::runner::cancellation::with_cancelled;
use crate::runner::poll_step;
use crate::runner::CancellationScope;
use crate::runner::CancellationToken;
use crate::runner::Output;
use crate::runner::Polling;
use crate::runner::Runner;
use crate::runner::TokenNode;
use vstd::prelude::*;

pub mod script;

pub use script::Script;

verus! {

/// A named point in the order in which the host runs each tick.
#[derive(Clone, Copy, Debug, PartialEq, Eq, Structural)]
pub enum Phase {
    /// The first phase of a tick.
    First,
    /// The phase before the update.
    PreUpdate,
    /// The phase in which state transitions are applied.
    StateTransition,
    /// The phase that runs the fixed-rate loop.
    RunFixedMainLoop,
    /// The update.
    Update,
    /// The phase after the update.
    PostUpdate,
    /// The last phase of a tick.
    Last,
    /// A phase that the host defines.
    Other(u32),
}

/// What a computation does when it is resumed: it runs up to its next await, or to its end.
pub enum Step<A> {
    /// The computation awaits an action that is to be polled in the given phase.
    Await(Phase, A),
    /// The computation has returned.
    Return,
}

/// A sequential computation that suspends itself at every action it awaits.
///
/// Between two awaits a computation runs ordinary code, without access to the
/// world. What it awaits it hands to the task that drives it, and what the
/// awaited action puts out is handed back when it is resumed.
pub trait Computation: Sized {
    /// The runner of the actions that the computation awaits.
    type Runner: Runner;

    /// The input of those actions.
    type Input;

    /// The seed of those actions.
    type Seed: ActionSeed<Self::Input, Runner = Self::Runner>;

    /// The outcomes that resuming may have: the computation after it and the
    /// step it has taken. `delivered` is what the awaited action has put out;
    /// it is `None` when the computation is started.
    open spec fn resumed(
        &self,
        delivered: &Option<<Self::Runner as Runner>::Output>,
        next: &Self,
        step: &Step<Action<Self::Input, Self::Seed>>,
    ) -> bool {
        true
    }

    /// Runs the computation up to its next await or to its end.
    fn resume(&mut self, delivered: Option<<Self::Runner as Runner>::Output>) -> (step: Step<
        Action<Self::Input, Self::Seed>,
    >)
        ensures
            old(self).resumed(&delivered, final(self), &step),
    ;
}

/// The states of a task.
pub enum TaskState<C: Computation> {
    /// The computation has not been started yet.
    Idle(C),
    /// The computation is suspended at an action whose runner is polled in `phase`.
    Active {
        /// The suspended computation.
        computation: C,
        /// The phase in which the awaited action is polled.
        phase: Phase,
        /// The runner of the awaited action.
        runner: C::Runner,
        /// The cell that the runner fills.
        output: Output<<C::Runner as Runner>::Output>,
    },
    /// The computation has returned.
    Finished,
    /// The task was cancelled; the computation is gone and was not resumed again.
    Cancelled,
}

/// What a poll tells the host about a task.
#[derive(Clone, Copy, Debug, PartialEq, Eq, Structural)]
pub enum TaskStatus {
    /// The task has more to do; poll it again.
    Pending,
    /// The computation has returned; the task can be removed.
    Finished,
    /// The task was cancelled; the task can be removed.
    Cancelled,
}

impl<C: Computation> TaskState<C> {
    /// What a task in this state tells the host.
    pub open spec fn status(self) -> TaskStatus {
        match self {
            TaskState::Idle(_) => TaskStatus::Pending,
            TaskState::Active { .. } => TaskStatus::Pending,
            TaskState::Finished => TaskStatus::Finished,
            TaskState::Cancelled => TaskStatus::Cancelled,
        }
    }

    /// The phase of the action that is awaited, if one is.
    pub open spec fn awaited(self) -> Option<Phase> {
        match self {
            TaskState::Active { phase, .. } => Some(phase),
            _ => None,
        }
    }

    /// Whether the runner of the awaited action, if there is one, fits its cell.
    pub open spec fn well_formed(self) -> bool {
        match self {
            TaskState::Active { runner, output, .. } => runner.inv(&output),
            _ => true,
        }
    }
}

/// A resumption: `computation` is handed `delivered` and runs on. If it awaits
/// an action, that action is realized into a runner with a fresh, empty cell and
/// the task is active in `next`; if it returns, the task is finished.
pub open spec fn advanced<C: Computation>(
    computation: C,
    delivered: Option<<C::Runner as Runner>::Output>,
    next: TaskState<C>,
) -> bool {
    exists|after: C, step: Step<Action<C::Input, C::Seed>>| #[trigger]
        computation.resumed(&delivered, &after, &step) && match step {
            Step::Await(awaited, action) => {
                &&& next matches TaskState::Active { computation, phase, runner, output }
                &&& computation == after
                &&& phase == awaited
                &&& action.1.realizes(&action.0, &runner)
                &&& output@ is None
                &&& runner.inv(&output)
            },
            Step::Return => next == TaskState::<C>::Finished,
        }
}

/// A poll of a task that is past its start.
///
/// At a phase other than the awaited one nothing happens. At the awaited phase
/// a cancelled task gives up; otherwise the runner is polled, and if it
/// completes, what it has put out is delivered and the computation resumed at
/// once. The runner of the next await is not polled by this poll any more.
pub open spec fn worked<C: Computation>(
    before: TaskState<C>,
    world: <C::Runner as Runner>::World,
    phase: Phase,
    cancelled: bool,
    after: TaskState<C>,
    after_world: <C::Runner as Runner>::World,
) -> bool {
    match before {
        TaskState::Active { computation, phase: awaited, runner, output } => {
            if awaited != phase {
                after == before && after_world == world
            } else if cancelled {
                after == TaskState::<C>::Cancelled && after_world == world
            } else {
                exists|polled: Polling<C::Runner>, done: bool| #[trigger]
                    poll_step(Polling { runner, world, output }, false, polled, done) && after_world
                        == polled.world && if done {
                        advanced(computation, polled.output@, after)
                    } else {
                        after == (TaskState::Active {
                            computation,
                            phase: awaited,
                            runner: polled.runner,
                            output: polled.output,
                        })
                    }
            }
        },
        _ => after == before && after_world == world,
    }
}

/// One poll of a task in the state `before`, at `phase`, under a token that is
/// `cancelled` or not: `after` and `after_world` are a possible outcome.
///
/// A task that has not been started gives up if it is cancelled; otherwise its
/// computation is started and, should it await an action of this very phase,
/// the runner is polled right away.
pub open spec fn task_step<C: Computation>(
    before: TaskState<C>,
    world: <C::Runner as Runner>::World,
    phase: Phase,
    cancelled: bool,
    after: TaskState<C>,
    after_world: <C::Runner as Runner>::World,
) -> bool {
    match before {
        TaskState::Idle(computation) => {
            if cancelled {
                after == TaskState::<C>::Cancelled && after_world == world
            } else {
                exists|started: TaskState<C>| #[trigger]
                    advanced(computation, None, started) && worked(
                        started,
                        world,
                        phase,
                        false,
                        after,
                        after_world,
                    )
            }
        },
        _ => worked(before, world, phase, cancelled, after, after_world),
    }
}

/// A poll at a phase other than the one of the awaited action changes neither
/// the world nor the task, cancelled or not.
pub proof fn lemma_other_phase_is_skipped<C: Computation>(
    before: TaskState<C>,
    world: <C::Runner as Runner>::World,
    phase: Phase,
    cancelled: bool,
    after: TaskState<C>,
    after_world: <C::Runner as Runner>::World,
)
    requires
        before.awaited() matches Some(awaited) && awaited != phase,
        task_step(before, world, phase, cancelled, after, after_world),
    ensures
        after == before,
        after_world == world,
{
}

/// A finished or cancelled task stays as it is and leaves the world alone.
pub proof fn lemma_terminal_task_rests<C: Computation>(
    before: TaskState<C>,
    world: <C::Runner as Runner>::World,
    phase: Phase,
    cancelled: bool,
    after: TaskState<C>,
    after_world: <C::Runner as Runner>::World,
)
    requires
        before.status() != TaskStatus::Pending,
        task_step(before, world, phase, cancelled, after, after_world),
    ensures
        after == before,
        after_world == world,
{
}

/// Once cancellation is requested of the token of a task, on that token or on an
/// ancestor of it, the computation is not resumed any more and the world is not
/// touched: a poll leaves the task as it is, which it does at a phase other than
/// the awaited one, or it leaves the task cancelled.
pub proof fn lemma_cancelled_task_gives_up<C: Computation>(
    nodes: Seq<TokenNode>,
    cancelled: int,
    token: int,
    before: TaskState<C>,
    world: <C::Runner as Runner>::World,
    phase: Phase,
    after: TaskState<C>,
    after_world: <C::Runner as Runner>::World,
)
    requires
        ancestor_or_self(nodes, cancelled, token),
        task_step(
            before,
            world,
            phase,
            requested(with_cancelled(nodes, cancelled), token),
            after,
            after_world,
        ),
    ensures
        after_world == world,
        after == before || after == TaskState::<C>::Cancelled,
        before.status() == TaskStatus::Pending && (before.awaited() matches Some(awaited)
            ==> awaited == phase) ==> after == TaskState::<C>::Cancelled,
{
    lemma_cancel_reaches_descendants(nodes, cancelled, token);
}

/// A task that awaits a sequence of two stages which each complete at once gets
/// through both in one poll at the awaited phase: the first stage is polled, the
/// second is polled on the world that the first has left, and the computation
/// is resumed with what the second has put out.
pub proof fn lemma_sequence_takes_one_poll<R1, R2, C>(
    before: TaskState<C>,
    world: R1::World,
    phase: Phase,
    after: TaskState<C>,
    after_world: R1::World,
) where
    R1: Runner,
    R2: Runner<World = R1::World>,
    C: Computation<Runner = SequenceRunner<R1, R2>>,

    requires
        before matches TaskState::Active { phase: awaited, runner, .. } && awaited == phase
            && runner.o1@ is None && completes_at_once(runner.r1) && completes_at_once(
            runner.r2,
        ),
        task_step(before, world, phase, false, after, after_world),
    ensures
        exists|mid: R1::World, first: Polling<R1>, second: Polling<R2>|
            {
                &&& #[trigger] poll_step(
                    Polling {
                        runner: before->runner.r1,
                        world,
                        output: before->runner.o1,
                    },
                    false,
                    first,
                    true,
                )
                &&& first.world == mid
                &&& #[trigger] poll_step(
                    Polling { runner: before->runner.r2, world: mid, output: before->output },
                    false,
                    second,
                    true,
                )
                &&& second.world == after_world
                &&& advanced(before->computation, second.output@, after)
            },
{
    let (polled, done) = choose|polled: Polling<C::Runner>, done: bool| #[trigger]
        poll_step(
            Polling { runner: before->runner, world, output: before->output },
            false,
            polled,
            done,
        ) && after_world == polled.world && if done {
            advanced(before->computation, polled.output@, after)
        } else {
            after == (TaskState::Active {
                computation: before->computation,
                phase: before->phase,
                runner: polled.runner,
                output: polled.output,
            })
        };
    let sequence = Polling { runner: before->runner, world, output: before->output };
    lemma_both_stages_in_one_poll(sequence, polled, done);
}

/// A task whose whole computation is to await one sequence of two stages that
/// each complete at once is finished by its first poll at the phase of that
/// await: the poll starts the computation, polls the first stage, polls the
/// second on the world that the first has left, and lets the computation
/// return. By `lemma_terminal_task_rests` no later poll does anything.
pub proof fn lemma_awaited_sequence_finishes_the_task<I1, S1, I2, S2>(
    script: Script<I1, SequenceSeed<S1, I2, S2>>,
    world: <S1::Runner as Runner>::World,
    phase: Phase,
    after: TaskState<Script<I1, SequenceSeed<S1, I2, S2>>>,
    after_world: <S1::Runner as Runner>::World,
) where
    S1: ActionSeed<I1>,
    S2: ActionSeed<I2>,
    S2::Runner: Runner<World = <S1::Runner as Runner>::World>,

    requires
        script@.len() == 1,
        script@[0].0 == phase,
        forall|first: S1::Runner| #[trigger]
            script@[0].1.1.first.realizes(&script@[0].1.0, &first) ==> completes_at_once(first),
        forall|second: S2::Runner| #[trigger]
            script@[0].1.1.second.1.realizes(&script@[0].1.1.second.0, &second)
                ==> completes_at_once(second),
        task_step(TaskState::Idle(script), world, phase, false, after, after_world),
    ensures
        after == TaskState::<Script<I1, SequenceSeed<S1, I2, S2>>>::Finished,
        exists|
            before: SequenceRunner<S1::Runner, S2::Runner>,
            mid: <S1::Runner as Runner>::World,
            first: Polling<S1::Runner>,
            second: Polling<S2::Runner>,
        |
            {
                &&& script@[0].1.1.realizes(&script@[0].1.0, &before)
                &&& #[trigger] poll_step(
                    Polling { runner: before.r1, world, output: before.o1 },
                    false,
                    first,
                    true,
                )
                &&& first.world == mid
                &&& #[trigger] poll_step(
                    Polling { runner: before.r2, world: mid, output: Output::holding(None) },
                    false,
                    second,
                    true,
                )
                &&& second.world == after_world
            },
{
    let started = choose|started: TaskState<Script<I1, SequenceSeed<S1, I2, S2>>>| #[trigger]
        advanced(script, None, started) && worked(started, world, phase, false, after, after_world);
    lemma_sequence_takes_one_poll::<S1::Runner, S2::Runner, Script<I1, SequenceSeed<S1, I2, S2>>>(
        started,
        world,
        phase,
        after,
        after_world,
    );
    started->output.lemma_view_decides(Output::holding(None));
    Output::<<S2::Runner as Runner>::Output>::lemma_holding_view(None);
}

/// One suspended computation and, while it awaits an action, the runner of that action.
pub struct Task<C: Computation> {
    token: CancellationToken,
    state: TaskState<C>,
}

impl<C: Computation> Task<C> {
    #[verifier::type_invariant]
    spec fn runner_fits_cell(self) -> bool {
        self.state.well_formed()
    }

    /// The state of the task.
    pub closed spec fn state(&self) -> TaskState<C> {
        self.state
    }

    /// The token under which the task and its runners run.
    pub closed spec fn spec_token(&self) -> CancellationToken {
        self.token
    }

    /// Creates the task that is to drive `computation`. Nothing of the
    /// computation runs before the first poll.
    pub fn new(computation: C, token: CancellationToken) -> (task: Self)
        ensures
            task.state() == TaskState::Idle(computation),
            task.spec_token() == token,
    {
        Task { token, state: TaskState::Idle(computation) }
    }

    /// The token under which the task and its runners run.
    #[verifier::when_used_as_spec(spec_token)]
    pub fn token(&self) -> (token: CancellationToken)
        ensures
            token == self.spec_token(),
    {
        self.token
    }

    /// What the task would tell the host now.
    pub fn status(&self) -> (status: TaskStatus)
        ensures
            status == self.state().status(),
    {
        match &self.state {
            TaskState::Idle(_) => TaskStatus::Pending,
            TaskState::Active { .. } => TaskStatus::Pending,
            TaskState::Finished => TaskStatus::Finished,
            TaskState::Cancelled => TaskStatus::Cancelled,
        }
    }

    /// Resumes `computation` and realizes what it awaits.
    fn advance(computation: C, delivered: Option<<C::Runner as Runner>::Output>) -> (next:
        TaskState<C>)
        ensures
            advanced(computation, delivered, next),
            next.well_formed(),
    {
        let mut computation = computation;
        let step = computation.resume(delivered);
        match step {
            Step::Await(phase, action) => {
                let output = Output::new();
                let runner = action.into_runner();
                TaskState::Active { computation, phase, runner, output }
            },
            Step::Return => TaskState::Finished,
        }
    }

    /// Polls the runner of an active task whose phase has come.
    fn work(
        state: TaskState<C>,
        world: &mut <C::Runner as Runner>::World,
        phase: Phase,
        token: CancellationToken,
        scope: &CancellationScope,
    ) -> (next: TaskState<C>)
        requires
            state.well_formed(),
        ensures
            worked(state, *old(world), phase, scope.cancelled(token), next, *final(world)),
            next.well_formed(),
    {
        match state {
            TaskState::Active { computation, phase: awaited, runner, output } => {
                if awaited != phase {
                    TaskState::Active { computation, phase: awaited, runner, output }
                } else {
                    let mut runner = runner;
                    let mut output = output;
                    let cancelled = token.requested_cancel(scope);
                    let done = runner.poll(world, token, scope, &mut output);
                    if cancelled {
                        TaskState::Cancelled
                    } else {
                        assert(poll_step(
                            Polling {
                                runner: state->runner,
                                world: *old(world),
                                output: state->output,
                            },
                            false,
                            Polling { runner, world: *world, output },
                            done,
                        ));
                        if done {
                            Self::advance(computation, output.take())
                        } else {
                            TaskState::Active { computation, phase: awaited, runner, output }
                        }
                    }
                }
            },
            other => other,
        }
    }

    /// Gives the task its turn at `phase`.
    ///
    /// The host calls this once per phase and tick, with exclusive access to the
    /// world. A finished or cancelled task does nothing; the host removes it.
    pub fn poll(
        &mut self,
        world: &mut <C::Runner as Runner>::World,
        phase: Phase,
        scope: &CancellationScope,
    ) -> (status: TaskStatus)
        ensures
            final(self).spec_token() == old(self).spec_token(),
            task_step(
                old(self).state(),
                *old(world),
                phase,
                scope.cancelled(old(self).spec_token()),
                final(self).state(),
                *final(world),
            ),
            status == final(self).state().status(),
            old(self).state().awaited() matches Some(awaited) && awaited != phase ==> {
                &&& final(self).state() == old(self).state()
                &&& *final(world) == *old(world)
            },
            scope.cancelled(old(self).spec_token()) ==> {
                &&& *final(world) == *old(world)
                &&& final(self).state() == old(self).state() || final(self).state()
                    == TaskState::<C>::Cancelled
            },
    {
        proof {
            use_type_invariant(&*self);
        }
        let token = self.token;
        let mut state = TaskState::Finished;
        std::mem::swap(&mut state, &mut self.state);
        let started = match state {
            TaskState::Idle(computation) => {
                if token.requested_cancel(scope) {
                    TaskState::Cancelled
                } else {
                    Self::advance(computation, None)
                }
            },
            other => other,
        };
        let next = Self::work(started, world, phase, token, scope);
        self.state = next;
        self.status()
    }
}

} // verus!
