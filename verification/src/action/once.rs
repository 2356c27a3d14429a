//! Actions that do their work on the world once.

use crate::action::seed::ActionSeed;
use crate::action::sequence::SequenceSeed;
use crate::action::sequence::Then;
use crate::action::Action;
use crate::runner::poll_step;
use crate::runner::CancellationScope;
use crate::runner::CancellationToken;
use crate::runner::Output;
use crate::runner::Polling;
use crate::runner::Runner;
use bevy::prelude::World;
use std::marker::PhantomData;
use vstd::prelude::*;

pub mod non_send;
pub mod res;
pub mod switch;

verus! {

/// Whether `work` can be called on every input and every world.
pub open spec fn works_everywhere<F: FnOnce(I, &mut World) -> O, I, O>(work: F) -> bool {
    forall|input: I, world: &mut World| call_requires(work, (input, world))
}

/// The seed of the action that calls a function on the world once.
#[verifier::reject_recursive_types(I)]
#[verifier::reject_recursive_types(O)]
pub struct OnceSeed<F: FnOnce(I, &mut World) -> O, I, O> {
    work: F,
    marker: PhantomData<(I, O)>,
}

/// The runner that calls a function on the world once: on its first poll,
/// unless it is cancelled.
pub struct OnceRunner<F, I, O> {
    /// The function, until it is called.
    pub work: Option<F>,
    /// The input, until the function is called on it.
    pub input: Option<I>,
    /// What the function returns.
    pub marker: PhantomData<O>,
}

impl<F: FnOnce(I, &mut World) -> O, I, O> OnceSeed<F, I, O> {
    #[verifier::type_invariant]
    spec fn work_is_total(self) -> bool {
        works_everywhere::<F, I, O>(self.work)
    }

    /// The function that the action calls.
    pub closed spec fn work(self) -> F {
        self.work
    }
}

/// The action that calls `work` once, on its input and the world. Its output
/// is what `work` returns.
///
/// The work has the world to itself for the time of the call. It must be work
/// that can be done on every input and every world.
pub fn run<F, I, O>(work: F) -> (seed: OnceSeed<F, I, O>) where F: FnOnce(I, &mut World) -> O
    requires
        works_everywhere::<F, I, O>(work),
    ensures
        seed.work() == work,
{
    OnceSeed { work, marker: PhantomData }
}

/// The action that calls `work` once, on `input` and the world. Its output is
/// what `work` returns.
pub fn run_with<F, I, O>(input: I, work: F) -> (action: Action<I, OnceSeed<F, I, O>>) where
    F: FnOnce(I, &mut World) -> O,

    requires
        works_everywhere::<F, I, O>(work),
    ensures
        action.0 == input,
        action.1.work() == work,
{
    run(work).with(input)
}

impl<F: FnOnce((), &mut World) -> O, O> From<OnceSeed<F, (), O>> for Action<(), OnceSeed<F, (), O>> {
    /// A seed that takes no input is an action as it is.
    fn from(seed: OnceSeed<F, (), O>) -> (action: Self) {
        Action((), seed)
    }
}

impl<F: FnOnce((), &mut World) -> O, O> vstd::std_specs::convert::FromSpecImpl<OnceSeed<F, (), O>> for Action<(), OnceSeed<F, (), O>> {
    open spec fn obeys_from_spec() -> bool {
        true
    }

    open spec fn from_spec(seed: OnceSeed<F, (), O>) -> Self {
        Action((), seed)
    }
}

impl<F: FnOnce((), &mut World) -> O, O> Then<(), OnceSeed<F, (), O>> for OnceSeed<F, (), O> {
    fn then<I2, S2>(self, action: Action<I2, S2>) -> (both: Action<
        (),
        SequenceSeed<OnceSeed<F, (), O>, I2, S2>,
    >)
        ensures
            both == Action((), SequenceSeed { first: self, second: action }),
    {
        Action((), SequenceSeed { first: self, second: action })
    }
}

impl<F: FnOnce(I, &mut World) -> O, I, O> ActionSeed<I> for OnceSeed<F, I, O> {
    type Runner = OnceRunner<F, I, O>;

    open spec fn realizes(&self, input: &I, runner: &OnceRunner<F, I, O>) -> bool {
        runner.work == Some(self.work()) && runner.input == Some(*input)
    }

    fn create_runner(self, input: I) -> (runner: OnceRunner<F, I, O>) {
        proof {
            use_type_invariant(&self);
            Output::<O>::lemma_holding_view(None);
        }
        OnceRunner { work: Some(self.work), input: Some(input), marker: PhantomData }
    }
}

impl<F: FnOnce(I, &mut World) -> O, I, O> Runner for OnceRunner<F, I, O> {
    type World = World;

    type Output = O;

    /// The function and its input are there for as long as the cell is empty,
    /// and the function can be called on whatever world the poll is given.
    open spec fn inv(&self, output: &Output<O>) -> bool {
        &&& self.input is Some <==> output@ is None
        &&& self.work is Some <==> self.input is Some
        &&& self.work matches Some(work) ==> works_everywhere::<F, I, O>(work)
    }

    /// The first poll calls the function and fills the cell with what it
    /// returns; a later poll does nothing. Either way the runner has completed.
    /// What the call does to the world is said by `poll` itself.
    open spec fn polled(
        &self,
        world: &World,
        output: &Output<O>,
        next: &Self,
        next_world: &World,
        next_output: &Output<O>,
        done: bool,
    ) -> bool {
        &&& done
        &&& next.input is None
        &&& next.work is None
        &&& self.input is Some ==> next_output@ is Some
        &&& self.input is None ==> next_world == world && next_output == output
    }

    fn poll(
        &mut self,
        world: &mut World,
        token: CancellationToken,
        scope: &CancellationScope,
        output: &mut Output<O>,
    ) -> (done: bool)
        ensures
            !scope.cancelled(token) && old(self).input is Some ==> {
                &&& old(self).work is Some
                &&& final(output)@ is Some
                &&& exists|lent: &mut World|
                    {
                        &&& *lent == *old(world)
                        &&& *final(lent) == *final(world)
                        &&& #[trigger] call_ensures(
                            old(self).work->0,
                            (old(self).input->0, lent),
                            final(output)@->0,
                        )
                    }
            },
    {
        if token.requested_cancel(scope) {
            return true;
        }
        let work = self.work.take();
        let input = self.input.take();
        match (work, input) {
            (Some(work), Some(input)) => {
                let ghost given = input;
                let value = work(input, world);
                let ghost lent = choose|lent: &mut World|
                    {
                        &&& *lent == *old(world)
                        &&& *final(lent) == *world
                        &&& #[trigger] call_ensures(work, (given, lent), value)
                    };
                output.set(value);
                assert(call_ensures(old(self).work->0, (old(self).input->0, lent), output@->0));
                true
            },
            _ => true,
        }
    }
}

/// An action that calls a function once completes on its first poll.
pub proof fn lemma_once_completes_at_once<F: FnOnce(I, &mut World) -> O, I, O>(
    before: Polling<OnceRunner<F, I, O>>,
    cancelled: bool,
    after: Polling<OnceRunner<F, I, O>>,
    done: bool,
)
    requires
        poll_step(before, cancelled, after, done),
    ensures
        done,
        crate::action::sequence::completes_at_once(before.runner),
{
}

} // verus!
