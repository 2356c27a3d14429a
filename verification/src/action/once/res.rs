//! Actions on the resources of the world.

use crate::action::once::run_with;
use crate::action::once::OnceSeed;
use crate::action::Action;
use crate::world::keeps_on_thread;
use crate::world::takes_as_resource;
use bevy::prelude::Resource;
use bevy::prelude::World;
use vstd::prelude::*;

verus! {

/// Why a world was left as it is: it keeps the kind of the resource among the
/// values that must stay on its thread, and takes none of it as a resource.
#[derive(Clone, Copy, Debug, PartialEq, Eq, Structural)]
pub struct KeptOnThread;

/// Whether a world took what an action had for it.
pub type Taken = Result<(), KeptOnThread>;

/// Inserts the default value of `R` unless the world holds an `R` already:
/// the world is handed to `World::init_resource`, and is what that call
/// leaves. A world that keeps `R` on its thread is left as it is.
fn init_in<R: Resource + Default>(input: (), world: &mut World) -> (result: Taken)
    ensures
        result is Ok ==> takes_as_resource::<R>(*old(world)) && exists|lent: &mut World|
            {
                &&& *lent == *old(world)
                &&& *final(lent) == *final(world)
                &&& #[trigger] call_ensures(crate::world::init_resource::<R>, (lent,), ())
            },
        result is Err ==> keeps_on_thread::<R>(*old(world)) && *final(world) == *old(world),
{
    if crate::world::takes::<R>(world) {
        crate::world::init_resource::<R>(world);
        Ok(())
    } else {
        Err(KeptOnThread)
    }
}

/// Inserts `resource` into the world: the world and `resource` are handed to
/// `World::insert_resource`, and the world is what that call leaves. A world
/// that keeps `R` on its thread is left as it is, and `resource` comes back.
fn insert_in<R: Resource>(resource: R, world: &mut World) -> (result: Result<(), R>)
    ensures
        result is Ok ==> takes_as_resource::<R>(*old(world)) && exists|lent: &mut World|
            {
                &&& *lent == *old(world)
                &&& *final(lent) == *final(world)
                &&& #[trigger] call_ensures(
                    crate::world::insert_resource::<R>,
                    (lent, resource),
                    (),
                )
            },
        result is Err ==> keeps_on_thread::<R>(*old(world)) && *final(world) == *old(world)
            && result == Err::<(), R>(resource),
{
    if crate::world::takes::<R>(world) {
        crate::world::insert_resource(world, resource);
        Ok(())
    } else {
        Err(resource)
    }
}

/// Takes the `R` out of the world and drops it: the world is handed to
/// `World::remove_resource`, and is what that call leaves.
fn remove_from<R: Resource>(input: (), world: &mut World)
    ensures
        exists|lent: &mut World, removed: Option<R>|
            {
                &&& *lent == *old(world)
                &&& *final(lent) == *final(world)
                &&& #[trigger] call_ensures(crate::world::remove_resource::<R>, (lent,), removed)
            },
{
    let _ = crate::world::remove_resource::<R>(world);
}

/// Whether `work` is the function of this module that inits `R`.
pub closed spec fn inits<R: Resource + Default, F: FnOnce((), &mut World) -> Taken>(
    work: F,
) -> bool {
    forall|lent: &mut World, result: Taken|
        call_ensures(work, ((), lent), result) <==> call_ensures(init_in::<R>, ((), lent), result)
}

/// Whether `work` is the function of this module that inserts the `R` it is given.
pub closed spec fn inserts<R: Resource, F: FnOnce(R, &mut World) -> Result<(), R>>(
    work: F,
) -> bool {
    forall|resource: R, lent: &mut World, result: Result<(), R>|
        call_ensures(work, (resource, lent), result) <==> call_ensures(
            insert_in::<R>,
            (resource, lent),
            result,
        )
}

/// Whether `work` is the function of this module that removes `R`.
pub closed spec fn removes<R: Resource, F: FnOnce((), &mut World) -> ()>(work: F) -> bool {
    forall|lent: &mut World|
        call_ensures(work, ((), lent), ()) <==> call_ensures(remove_from::<R>, ((), lent), ())
}

/// The action that, once, inserts the default value of `R` unless the world
/// holds an `R` already. Its output tells whether the world took it.
pub fn init<R>() -> (action: Action<
    (),
    OnceSeed<impl FnOnce((), &mut World) -> Taken, (), Taken>,
>) where R: Resource + Default + 'static
    ensures
        inits::<R, _>(action.1.work()),
{
    run_with((), init_in::<R>)
}

/// The action that, once, inserts `resource` into the world. Its output tells
/// whether the world took it; a world that did not gives it back.
pub fn insert<R>(resource: R) -> (action: Action<
    R,
    OnceSeed<impl FnOnce(R, &mut World) -> Result<(), R>, R, Result<(), R>>,
>) where R: Resource + 'static
    ensures
        action.0 == resource,
        inserts::<R, _>(action.1.work()),
{
    run_with(resource, insert_in::<R>)
}

/// The action that, once, takes the `R` out of the world, if there is one.
pub fn remove<R>() -> (action: Action<
    (),
    OnceSeed<impl FnOnce((), &mut World) -> (), (), ()>,
>) where R: Resource + 'static

    ensures
        removes::<R, _>(action.1.work()),
{
    run_with((), remove_from::<R>)
}

} // verus!
