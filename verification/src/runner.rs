//! The unit of work that a host polls, and the two primitives it is handed on
//! every poll: the cell it writes its result to and the token it is cancelled by.

use vstd::prelude::*;

pub mod cancellation;
pub mod output;

use cancellation::ancestor_or_self;
use cancellation::lemma_cancel_reaches_descendants;
use cancellation::requested;
use cancellation::with_cancelled;

pub use cancellation::CancellationScope;
pub use cancellation::CancellationToken;
pub use cancellation::TokenNode;
pub use output::Output;

verus! {

/// One poll of a unit of work at a step.
///
/// A runner is polled again and again, each time with exclusive access to the
/// world, until it reports completion; after that it is dropped. Whoever polls it
/// lends it the token it runs under and the cell it has to fill.
///
/// An implementation states what its polls do in `polled` and what it expects of
/// its cell in `inv`. Whatever it states, `poll` owes every caller the clauses of
/// [`poll_step`]: under a cancelled token it completes at once and touches
/// nothing; it never rewrites a filled cell; and it reports completion only with
/// the cell filled.
pub trait Runner: Sized {
    /// The state that the host grants access to during a poll.
    type World;

    /// What the runner hands over when it completes.
    type Output;

    /// What holds between the runner and its cell from its realization on.
    open spec fn inv(&self, output: &Output<Self::Output>) -> bool {
        true
    }

    /// The outcomes that one poll may have while no cancellation is requested:
    /// the runner, the world and the cell after the poll, and whether the runner
    /// reports completion.
    open spec fn polled(
        &self,
        world: &Self::World,
        output: &Output<Self::Output>,
        next: &Self,
        next_world: &Self::World,
        next_output: &Output<Self::Output>,
        done: bool,
    ) -> bool {
        true
    }

    /// Performs the work of one step. Returns `true` once the runner has completed.
    fn poll(
        &mut self,
        world: &mut Self::World,
        token: CancellationToken,
        scope: &CancellationScope,
        output: &mut Output<Self::Output>,
    ) -> (done: bool)
        requires
            old(self).inv(old(output)),
        ensures
            final(self).inv(final(output)),
            old(output)@ is Some ==> final(output)@ == old(output)@,
            scope.cancelled(token) ==> done && *final(self) == *old(self) && *final(world) == *old(
                world,
            ) && *final(output) == *old(output),
            !scope.cancelled(token) ==> old(self).polled(
                old(world),
                old(output),
                final(self),
                final(world),
                final(output),
                done,
            ),
            !scope.cancelled(token) && done ==> final(output)@ is Some,
    ;
}

/// A runner together with what it works on when it is polled.
pub struct Polling<R: Runner> {
    /// The runner.
    pub runner: R,
    /// The world that the poll has access to.
    pub world: R::World,
    /// The cell that the runner fills.
    pub output: Output<R::Output>,
}

/// What `poll` guarantees, as one statement: `after` and `done` are a possible
/// outcome of polling `before` under a token that is `cancelled` or not.
pub open spec fn poll_step<R: Runner>(
    before: Polling<R>,
    cancelled: bool,
    after: Polling<R>,
    done: bool,
) -> bool {
    &&& after.runner.inv(&after.output)
    &&& before.output@ is Some ==> after.output@ == before.output@
    &&& if cancelled {
        done && after == before
    } else {
        &&& before.runner.polled(
            &before.world,
            &before.output,
            &after.runner,
            &after.world,
            &after.output,
            done,
        )
        &&& done ==> after.output@ is Some
    }
}

/// A history of polls of one runner: `states[k + 1]` and `dones[k]` are an outcome
/// of polling `states[k]` under a token that is cancelled as `cancels[k]` says.
pub open spec fn is_run<R: Runner>(
    states: Seq<Polling<R>>,
    cancels: Seq<bool>,
    dones: Seq<bool>,
) -> bool {
    &&& states.len() == dones.len() + 1
    &&& cancels.len() == dones.len()
    &&& forall|k: int|
        0 <= k < dones.len() ==> poll_step(
            states[k],
            cancels[k],
            states[k + 1],
            #[trigger] dones[k],
        )
}

/// A cell is written once: from the poll on after which it is seen filled, it
/// holds the same value after every later poll, whatever the runner does.
pub proof fn lemma_filled_cell_is_kept<R: Runner>(
    states: Seq<Polling<R>>,
    cancels: Seq<bool>,
    dones: Seq<bool>,
    seen: int,
    later: int,
)
    requires
        is_run(states, cancels, dones),
        0 <= seen <= later < states.len(),
        states[seen].output@ is Some,
    ensures
        states[later].output@ == states[seen].output@,
    decreases later - seen,
{
    if seen < later {
        lemma_filled_cell_is_kept(states, cancels, dones, seen, later - 1);
        assert(poll_step(states[later - 1], cancels[later - 1], states[later], dones[later - 1]));
    }
}

/// After `cancel` on a token, the next poll of a runner that runs under that
/// token or under a descendant of it completes and changes neither the world
/// nor the cell nor the runner.
pub proof fn lemma_cancelled_poll_is_idle<R: Runner>(
    nodes: Seq<TokenNode>,
    cancelled: int,
    token: int,
    before: Polling<R>,
    after: Polling<R>,
    done: bool,
)
    requires
        ancestor_or_self(nodes, cancelled, token),
        poll_step(before, requested(with_cancelled(nodes, cancelled), token), after, done),
    ensures
        done,
        after.world == before.world,
        after.output == before.output,
        after.runner == before.runner,
{
    lemma_cancel_reaches_descendants(nodes, cancelled, token);
}

} // verus!
