//! The factory behind an action.

use crate::action::Action;
use crate::runner::Output;
use crate::runner::Runner;
use vstd::prelude::*;

verus! {

/// A description of work that still lacks its input.
///
/// A seed has no running state of its own. Bound to an input it is an
/// [`Action`]; handed the input it yields the runner that does the work.
pub trait ActionSeed<I>: Sized {
    /// The runner that the seed yields.
    type Runner: Runner;

    /// Whether `runner` is what this seed yields for `input`.
    open spec fn realizes(&self, input: &I, runner: &Self::Runner) -> bool {
        true
    }

    /// Yields the runner for `input`. The runner starts with an empty cell.
    fn create_runner(self, input: I) -> (runner: Self::Runner)
        ensures
            self.realizes(&input, &runner),
            runner.inv(&Output::holding(None)),
    ;

    /// Binds the input.
    fn with(self, input: I) -> (action: Action<I, Self>)
        ensures
            action == Action(input, self),
    {
        Action(input, self)
    }
}

} // verus!
