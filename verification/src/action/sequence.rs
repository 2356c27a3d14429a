//! Sequential composition of actions.
//!
//! The composite polls its first stage until that stage has filled its cell and
//! then, within the very same poll, starts on the second. A stage never starts
//! before its predecessor has handed over.

use crate::action::seed::ActionSeed;
use crate::action::Action;
use crate::runner::is_run;
use crate::runner::poll_step;
use crate::runner::CancellationScope;
use crate::runner::CancellationToken;
use crate::runner::Output;
use crate::runner::Polling;
use crate::runner::Runner;
use vstd::prelude::*;

verus! {

/// Combines an action with the one that is to follow it.
pub trait Then<I1, S1>: Sized {
    /// Returns the action that runs `self` and then `action`. Its input is that
    /// of `self`, its output that of `action`.
    fn then<I2, S2>(self, action: Action<I2, S2>) -> Action<I1, SequenceSeed<S1, I2, S2>>;
}

impl<I1, S1> Then<I1, S1> for Action<I1, S1> {
    fn then<I2, S2>(self, action: Action<I2, S2>) -> (both: Action<I1, SequenceSeed<S1, I2, S2>>)
        ensures
            both == Action(self.0, SequenceSeed { first: self.1, second: action }),
    {
        Action(self.0, SequenceSeed { first: self.1, second: action })
    }
}

/// The seed of a sequence: the seed of the first stage, which still lacks its
/// input, and the whole second action.
pub struct SequenceSeed<S1, I2, S2> {
    /// The seed of the first stage.
    pub first: S1,
    /// The second stage.
    pub second: Action<I2, S2>,
}

impl<I1, S1, I2, S2> ActionSeed<I1> for SequenceSeed<S1, I2, S2> where
    S1: ActionSeed<I1>,
    S2: ActionSeed<I2>,
    S2::Runner: Runner<World = <S1::Runner as Runner>::World>,
 {
    type Runner = SequenceRunner<S1::Runner, S2::Runner>;

    open spec fn realizes(&self, input: &I1, runner: &Self::Runner) -> bool {
        &&& self.first.realizes(input, &runner.r1)
        &&& self.second.1.realizes(&self.second.0, &runner.r2)
        &&& runner.o1@ is None
    }

    fn create_runner(self, input: I1) -> (runner: Self::Runner) {
        let o1 = Output::new();
        let r1 = self.first.create_runner(input);
        let r2 = self.second.into_runner();
        SequenceRunner { r1, r2, o1 }
    }
}

/// Two runners in sequence and the private cell of the first.
pub struct SequenceRunner<R1: Runner, R2> {
    /// The first stage; it writes to `o1`.
    pub r1: R1,
    /// The second stage; it writes to the cell of the sequence.
    pub r2: R2,
    /// The cell of the first stage. What it holds is dropped: that it is filled
    /// is the signal to move on.
    pub o1: Output<R1::Output>,
}

/// The first half of a poll of a sequence: the first stage is polled if its cell
/// is still empty, and left alone if not. `mid` is the world that this leaves.
pub open spec fn first_polled<R1: Runner, R2>(
    before: SequenceRunner<R1, R2>,
    world: R1::World,
    after: SequenceRunner<R1, R2>,
    mid: R1::World,
) -> bool {
    if before.o1@ is None {
        exists|done: bool|
            poll_step(
                Polling { runner: before.r1, world, output: before.o1 },
                false,
                Polling { runner: after.r1, world: mid, output: after.o1 },
                done,
            )
    } else {
        after.r1 == before.r1 && after.o1 == before.o1 && mid == world
    }
}

/// The second half of a poll of a sequence: the second stage is polled on the
/// world `mid` if the cell of the first is filled by now; otherwise nothing
/// more happens and the sequence stays pending.
pub open spec fn second_polled<R1: Runner, R2: Runner<World = R1::World>>(
    before: SequenceRunner<R1, R2>,
    output: Output<R2::Output>,
    mid: R1::World,
    after: SequenceRunner<R1, R2>,
    next_world: R1::World,
    next_output: Output<R2::Output>,
    done: bool,
) -> bool {
    if after.o1@ is Some {
        poll_step(
            Polling { runner: before.r2, world: mid, output },
            false,
            Polling { runner: after.r2, world: next_world, output: next_output },
            done,
        )
    } else {
        after.r2 == before.r2 && next_world == mid && next_output == output && !done
    }
}

impl<R1: Runner, R2: Runner<World = R1::World>> Runner for SequenceRunner<R1, R2> {
    type World = R1::World;

    type Output = R2::Output;

    open spec fn inv(&self, output: &Output<R2::Output>) -> bool {
        self.r1.inv(&self.o1) && self.r2.inv(output)
    }

    open spec fn polled(
        &self,
        world: &R1::World,
        output: &Output<R2::Output>,
        next: &Self,
        next_world: &R1::World,
        next_output: &Output<R2::Output>,
        done: bool,
    ) -> bool {
        exists|mid: R1::World| #[trigger]
            first_polled(*self, *world, *next, mid) && second_polled(
                *self,
                *output,
                mid,
                *next,
                *next_world,
                *next_output,
                done,
            )
    }

    fn poll(
        &mut self,
        world: &mut R1::World,
        token: CancellationToken,
        scope: &CancellationScope,
        output: &mut Output<R2::Output>,
    ) -> (done: bool) {
        if token.requested_cancel(scope) {
            return true;
        }
        if self.o1.is_none() {
            let first_done = self.r1.poll(world, token, scope, &mut self.o1);
            assert(poll_step(
                Polling { runner: old(self).r1, world: *old(world), output: old(self).o1 },
                false,
                Polling { runner: self.r1, world: *world, output: self.o1 },
                first_done,
            ));
        }
        let ghost mid = *world;
        let done = if self.o1.is_some() {
            self.r2.poll(world, token, scope, output)
        } else {
            false
        };
        assert(first_polled(*old(self), *old(world), *self, mid));
        done
    }
}

/// Whether every poll of `runner` completes it, as long as no cancellation is requested.
pub open spec fn completes_at_once<R: Runner>(runner: R) -> bool {
    forall|world: R::World, output: Output<R::Output>, after: Polling<R>, done: bool| #[trigger]
        poll_step(Polling { runner, world, output }, false, after, done) ==> done
}

/// Two stages that each complete at once complete together: one poll of their
/// sequence polls the first, polls the second on the world that the first has
/// left, and reports completion.
pub proof fn lemma_both_stages_in_one_poll<R1: Runner, R2: Runner<World = R1::World>>(
    before: Polling<SequenceRunner<R1, R2>>,
    after: Polling<SequenceRunner<R1, R2>>,
    done: bool,
)
    requires
        before.runner.o1@ is None,
        completes_at_once(before.runner.r1),
        completes_at_once(before.runner.r2),
        poll_step(before, false, after, done),
    ensures
        done,
        exists|mid: R1::World|
            {
                &&& #[trigger] poll_step(
                    Polling {
                        runner: before.runner.r1,
                        world: before.world,
                        output: before.runner.o1,
                    },
                    false,
                    Polling { runner: after.runner.r1, world: mid, output: after.runner.o1 },
                    true,
                )
                &&& poll_step(
                    Polling { runner: before.runner.r2, world: mid, output: before.output },
                    false,
                    Polling { runner: after.runner.r2, world: after.world, output: after.output },
                    true,
                )
            },
{
}

/// While the cell of the first stage stays empty, a poll of the sequence is a
/// poll of the first stage and nothing else: the sequence stays pending, and the
/// second stage and the cell of the sequence are as they were.
pub proof fn lemma_pending_first_stage<R1: Runner, R2: Runner<World = R1::World>>(
    before: Polling<SequenceRunner<R1, R2>>,
    after: Polling<SequenceRunner<R1, R2>>,
    done: bool,
)
    requires
        before.runner.o1@ is None,
        after.runner.o1@ is None,
        poll_step(before, false, after, done),
    ensures
        !done,
        after.runner.r2 == before.runner.r2,
        after.output == before.output,
        exists|first_done: bool| #[trigger]
            poll_step(
                Polling { runner: before.runner.r1, world: before.world, output: before.runner.o1 },
                false,
                Polling { runner: after.runner.r1, world: after.world, output: after.runner.o1 },
                first_done,
            ),
{
}

/// The poll on which the first stage fills its cell is also the first poll of
/// the second stage: it works on the world that the first stage has just left,
/// and what it reports is what the sequence reports.
pub proof fn lemma_handover_within_one_poll<R1: Runner, R2: Runner<World = R1::World>>(
    before: Polling<SequenceRunner<R1, R2>>,
    after: Polling<SequenceRunner<R1, R2>>,
    done: bool,
)
    requires
        before.runner.o1@ is None,
        after.runner.o1@ is Some,
        poll_step(before, false, after, done),
    ensures
        exists|mid: R1::World, first_done: bool|
            {
                &&& #[trigger] poll_step(
                    Polling {
                        runner: before.runner.r1,
                        world: before.world,
                        output: before.runner.o1,
                    },
                    false,
                    Polling { runner: after.runner.r1, world: mid, output: after.runner.o1 },
                    first_done,
                )
                &&& poll_step(
                    Polling { runner: before.runner.r2, world: mid, output: before.output },
                    false,
                    Polling { runner: after.runner.r2, world: after.world, output: after.output },
                    done,
                )
            },
{
}

/// A first stage that fills its cell on its poll number `n + 1`, followed by a
/// stage that completes at once, makes a sequence that completes on exactly its
/// poll number `n + 1`: the `n` polls before are pending, and until then the
/// second stage has not been polled and the cell of the sequence is as it was.
pub proof fn lemma_sequence_completes_with_its_first_stage<
    R1: Runner,
    R2: Runner<World = R1::World>,
>(
    states: Seq<Polling<SequenceRunner<R1, R2>>>,
    dones: Seq<bool>,
    n: int,
)
    requires
        is_run(states, Seq::new(dones.len(), |k: int| false), dones),
        0 <= n,
        dones.len() == n + 1,
        forall|k: int| 0 <= k <= n ==> (#[trigger] states[k]).runner.o1@ is None,
        states[n + 1].runner.o1@ is Some,
        completes_at_once(states[0].runner.r2),
    ensures
        forall|k: int| 0 <= k < n ==> !#[trigger] dones[k],
        dones[n],
        forall|k: int|
            0 <= k <= n ==> (#[trigger] states[k]).runner.r2 == states[0].runner.r2
                && states[k].output == states[0].output,
        exists|mid: R1::World, first_done: bool|
            {
                &&& #[trigger] poll_step(
                    Polling {
                        runner: states[n].runner.r1,
                        world: states[n].world,
                        output: states[n].runner.o1,
                    },
                    false,
                    Polling {
                        runner: states[n + 1].runner.r1,
                        world: mid,
                        output: states[n + 1].runner.o1,
                    },
                    first_done,
                )
                &&& poll_step(
                    Polling {
                        runner: states[0].runner.r2,
                        world: mid,
                        output: states[0].output,
                    },
                    false,
                    Polling {
                        runner: states[n + 1].runner.r2,
                        world: states[n + 1].world,
                        output: states[n + 1].output,
                    },
                    true,
                )
            },
{
    assert forall|k: int| 0 <= k <= n implies (#[trigger] states[k]).runner.r2
        == states[0].runner.r2 && states[k].output == states[0].output && (k < n ==> !dones[k])
        by {
        lemma_second_stage_waits(states, dones, n, k);
    }
    lemma_handover_within_one_poll(states[n], states[n + 1], dones[n]);
}

proof fn lemma_second_stage_waits<R1: Runner, R2: Runner<World = R1::World>>(
    states: Seq<Polling<SequenceRunner<R1, R2>>>,
    dones: Seq<bool>,
    n: int,
    k: int,
)
    requires
        is_run(states, Seq::new(dones.len(), |k: int| false), dones),
        0 <= n,
        dones.len() == n + 1,
        forall|k: int| 0 <= k <= n ==> (#[trigger] states[k]).runner.o1@ is None,
        0 <= k <= n,
    ensures
        states[k].runner.r2 == states[0].runner.r2,
        states[k].output == states[0].output,
        forall|j: int| 0 <= j < k ==> !#[trigger] dones[j],
    decreases k,
{
    if k > 0 {
        lemma_second_stage_waits(states, dones, n, k - 1);
        lemma_pending_first_stage(states[k - 1], states[k], dones[k - 1]);
    }
}

} // verus!
