//! Actions on the resources of the world that must stay on its thread.

use crate::action::once::run;
use crate::action::once::OnceSeed;
use bevy::prelude::World;
use vstd::prelude::*;

verus! {

/// Inserts the default value of `R` unless the world holds an `R` already:
/// the world is handed to `World::init_non_send_resource`, and is what that
/// call leaves.
fn init_in<R: Default + 'static>(input: (), world: &mut World)
    ensures
        exists|lent: &mut World|
            {
                &&& *lent == *old(world)
                &&& *final(lent) == *final(world)
                &&& #[trigger] call_ensures(
                    crate::world::init_non_send_resource::<R>,
                    (lent,),
                    (),
                )
            },
{
    crate::world::init_non_send_resource::<R>(world);
}

/// Whether `work` is the function of this module that inits `R`.
pub closed spec fn inits<R: Default + 'static, F: FnOnce((), &mut World) -> ()>(work: F) -> bool {
    forall|lent: &mut World|
        call_ensures(work, ((), lent), ()) <==> call_ensures(init_in::<R>, ((), lent), ())
}

/// The action that, once, inserts the default value of `R` unless the world
/// holds an `R` already.
pub fn init<R>() -> (seed: OnceSeed<impl FnOnce((), &mut World) -> (), (), ()>) where
    R: Default + 'static,

    ensures
        inits::<R, _>(seed.work()),
{
    run(init_in::<R>)
}

} // verus!
