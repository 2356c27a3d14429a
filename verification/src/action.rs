//! Deferred descriptions of work and the combinators that build them.

use crate::action::seed::ActionSeed;
use crate::runner::Output;
use crate::runner::Runner;
use vstd::prelude::*;

pub mod once;
pub mod record;
pub mod seed;
pub mod sequence;
pub mod switch;

verus! {

/// A seed bound to its input: the unit that is turned into a runner.
pub struct Action<I, S>(pub I, pub S);

impl<I, S: ActionSeed<I>> Action<I, S> {
    /// Realizes the action into its runner. The runner starts with an empty cell.
    pub fn into_runner(self) -> (runner: S::Runner)
        ensures
            self.1.realizes(&self.0, &runner),
            runner.inv(&Output::holding(None)),
    {
        self.1.create_runner(self.0)
    }
}

} // verus!
