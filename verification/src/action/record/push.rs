//! The action that appends a track to the log.

use crate::action::record::PushError;
use crate::action::record::Record;
use crate::action::record::Track;
use crate::action::seed::ActionSeed;
use crate::runner::CancellationScope;
use crate::runner::CancellationToken;
use crate::runner::Output;
use crate::runner::Runner;
use crate::world::keeps_on_thread;
use crate::world::takes_as_resource;
use bevy::prelude::World;
use std::marker::PhantomData;
use vstd::prelude::*;

verus! {

/// The seed of the action that appends a track to the log of `Act`.
pub struct PushSeed<Act> {
    /// The kind of act.
    pub marker: PhantomData<Act>,
}

/// The runner that appends its track to the log of `Act`, once.
pub struct PushRunner<Act> {
    /// The track, until it is handed to the log.
    pub track: Option<Track<Act>>,
}

/// The action that appends the track it is given to the log of `Act` in the
/// world. Its output tells whether the log took the track: it does not while an
/// undo or a redo is under way.
pub fn push<Act>() -> (seed: PushSeed<Act>) where Act: Send + Sync + 'static
    ensures
        seed == (PushSeed::<Act> { marker: PhantomData }),
{
    PushSeed { marker: PhantomData }
}

/// What the action makes of the log: a log that is being replayed refuses the
/// track and stays as it is; any other log takes it at its end.
pub open spec fn pushed<Act>(
    record: Record<Act>,
    track: Track<Act>,
    after: Record<Act>,
    result: Result<(), PushError>,
) -> bool {
    &&& after.replaying() == record.replaying()
    &&& if record.replaying() {
        result == Err::<(), PushError>(PushError::UndoRedoInProgress) && after@ == record@
    } else {
        result == Ok::<(), PushError>(()) && after@ == record@.push(track)
    }
}

/// Whether `world` was handed to `World::get_resource_or_insert_with`, together
/// with the maker of an empty log, and `record` is the log that the call has
/// handed out; what the world is in the end is what is left when the log is
/// given back.
pub closed spec fn lent_record<Act: Send + Sync + 'static>(
    world: &mut World,
    record: &mut Record<Act>,
) -> bool {
    call_ensures(crate::world::resource_or_insert_with, (world, Record::<Act>::new), record)
}

/// Hands `track` to the log of `Act` that the world holds, or to a new, empty
/// one if it holds none, and returns the answer of the log. A world that keeps
/// such logs on its thread is left as it is.
fn push_in<Act: Send + Sync + 'static>(track: Track<Act>, world: &mut World) -> (result: Result<
    (),
    PushError,
>)
    ensures
        result == Err::<(), PushError>(PushError::KeptOnThread) ==> keeps_on_thread::<Record<Act>>(
            *old(world),
        ) && *final(world) == *old(world),
        result != Err::<(), PushError>(PushError::KeptOnThread) ==> takes_as_resource::<
            Record<Act>,
        >(*old(world)) && exists|lent: &mut World, record: &mut Record<Act>|
            {
                &&& *lent == *old(world)
                &&& *final(lent) == *final(world)
                &&& #[trigger] call_ensures(
                    crate::world::resource_or_insert_with,
                    (lent, Record::<Act>::new),
                    record,
                )
                &&& pushed(*record, track, *final(record), result)
            },
{
    if !crate::world::takes::<Record<Act>>(world) {
        return Err(PushError::KeptOnThread);
    }
    let record = crate::world::resource_or_insert_with(world, Record::<Act>::new);
    match record.push(track) {
        Ok(()) => Ok(()),
        Err(_) => Err(PushError::UndoRedoInProgress),
    }
}

impl<Act: Send + Sync + 'static> ActionSeed<Track<Act>> for PushSeed<Act> {
    type Runner = PushRunner<Act>;

    open spec fn realizes(&self, input: &Track<Act>, runner: &PushRunner<Act>) -> bool {
        runner.track == Some(*input)
    }

    fn create_runner(self, input: Track<Act>) -> (runner: PushRunner<Act>) {
        proof {
            Output::<Result<(), PushError>>::lemma_holding_view(None);
        }
        PushRunner { track: Some(input) }
    }
}

impl<Act: Send + Sync + 'static> Runner for PushRunner<Act> {
    type World = World;

    type Output = Result<(), PushError>;

    /// The track is there for as long as the cell is empty.
    open spec fn inv(&self, output: &Output<Result<(), PushError>>) -> bool {
        self.track is Some <==> output@ is None
    }

    /// The first poll hands the track to the log and fills the cell with what
    /// the log answered; a later poll does nothing. Either way the runner has
    /// completed. What the poll does to the world is said by `poll` itself.
    open spec fn polled(
        &self,
        world: &World,
        output: &Output<Result<(), PushError>>,
        next: &Self,
        next_world: &World,
        next_output: &Output<Result<(), PushError>>,
        done: bool,
    ) -> bool {
        &&& done
        &&& next.track is None
        &&& self.track is Some ==> next_output@ is Some
        &&& self.track is None ==> next_world == world && next_output == output
    }

    fn poll(
        &mut self,
        world: &mut World,
        token: CancellationToken,
        scope: &CancellationScope,
        output: &mut Output<Result<(), PushError>>,
    ) -> (done: bool)
        ensures
            !scope.cancelled(token) && old(self).track is Some ==> {
                &&& final(output)@ is Some
                &&& final(output)@ == Some(Err::<(), PushError>(PushError::KeptOnThread)) ==> {
                    &&& keeps_on_thread::<Record<Act>>(*old(world))
                    &&& *final(world) == *old(world)
                }
                &&& final(output)@ != Some(Err::<(), PushError>(PushError::KeptOnThread)) ==> {
                    &&& takes_as_resource::<Record<Act>>(*old(world))
                    &&& exists|lent: &mut World, record: &mut Record<Act>|
                        {
                            &&& *lent == *old(world)
                            &&& *final(lent) == *final(world)
                            &&& #[trigger] lent_record(lent, record)
                            &&& pushed(
                                *record,
                                old(self).track->0,
                                *final(record),
                                final(output)@->0,
                            )
                        }
                }
            },
    {
        if token.requested_cancel(scope) {
            return true;
        }
        match self.track.take() {
            Some(track) => {
                let ghost given = track;
                let result = push_in(track, world);
                proof {
                    if result != Err::<(), PushError>(PushError::KeptOnThread) {
                        let (lent, record) = choose|lent: &mut World, record: &mut Record<Act>|
                            {
                                &&& *lent == *old(world)
                                &&& *final(lent) == *world
                                &&& #[trigger] call_ensures(
                                    crate::world::resource_or_insert_with,
                                    (lent, Record::<Act>::new),
                                    record,
                                )
                                &&& pushed(*record, given, *final(record), result)
                            };
                        assert(lent_record(lent, record));
                    }
                }
                output.set(result);
                true
            },
            None => true,
        }
    }
}

} // verus!
