//! The plainest of computations: a list of actions to await.

use crate::action::seed::ActionSeed;
use crate::action::Action;
use crate::runner::Runner;
use crate::task::Computation;
use crate::task::Phase;
use crate::task::Step;
use vstd::prelude::*;

verus! {

/// A computation that awaits the actions it was given, one after the other, and
/// then returns. What the actions put out is dropped.
pub struct Script<I, S> {
    awaits: Vec<(Phase, Action<I, S>)>,
}

impl<I, S> View for Script<I, S> {
    type V = Seq<(Phase, Action<I, S>)>;

    closed spec fn view(&self) -> Seq<(Phase, Action<I, S>)> {
        self.awaits@
    }
}

impl<I, S> Script<I, S> {
    /// Creates a script that awaits nothing.
    pub fn new() -> (script: Self)
        ensures
            script@ == Seq::<(Phase, Action<I, S>)>::empty(),
    {
        Script { awaits: Vec::new() }
    }

    /// Adds an await of `action`, to be polled in `phase`, after those that are there.
    pub fn will(self, phase: Phase, action: Action<I, S>) -> (script: Self)
        ensures
            script@ == self@.push((phase, action)),
    {
        let mut script = self;
        script.awaits.push((phase, action));
        script
    }

    /// The number of awaits that are still to come.
    pub fn len(&self) -> (n: usize)
        ensures
            n == self@.len(),
    {
        self.awaits.len()
    }
}

impl<I, S: ActionSeed<I>> Computation for Script<I, S> {
    type Runner = S::Runner;

    type Input = I;

    type Seed = S;

    /// The script takes its first await off the list; with none left it returns.
    open spec fn resumed(
        &self,
        delivered: &Option<<S::Runner as Runner>::Output>,
        next: &Self,
        step: &Step<Action<I, S>>,
    ) -> bool {
        if self@.len() == 0 {
            next@ == self@ && *step == Step::<Action<I, S>>::Return
        } else {
            next@ == self@.skip(1) && *step == Step::Await(self@[0].0, self@[0].1)
        }
    }

    fn resume(&mut self, delivered: Option<<S::Runner as Runner>::Output>) -> (step: Step<
        Action<I, S>,
    >) {
        if self.awaits.len() == 0 {
            Step::Return
        } else {
            let (phase, action) = self.awaits.remove(0);
            Step::Await(phase, action)
        }
    }
}

} // verus!
