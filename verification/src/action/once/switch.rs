//! Actions that turn a switch.

use crate::action::once::res::KeptOnThread;
use crate::action::once::res::Taken;
use crate::action::once::run_with;
use crate::action::once::OnceSeed;
use crate::action::switch::Switch;
use crate::action::Action;
use crate::world::keeps_on_thread;
use crate::world::takes_as_resource;
use bevy::prelude::World;
use vstd::prelude::*;

verus! {

/// A switch that has just been turned on.
fn turned_on<M>() -> (switch: Switch<M>)
    ensures
        switch.is_on(),
        switch.just_changed(),
{
    Switch::new(true)
}

/// A switch that has just been turned off.
fn turned_off<M>() -> (switch: Switch<M>)
    ensures
        !switch.is_on(),
        switch.just_changed(),
{
    Switch::new(false)
}

/// Turns the switch `M` of the world as `turn_on` says.
///
/// The world is handed to `World::get_resource_or_insert_with`, together with
/// the maker of a switch that has just been turned so, for a world that has no
/// such switch yet. The switch that the call hands out is then turned as
/// `Switch::set` turns it, and the world is what is left when the switch is
/// given back. A world that keeps the switch on its thread is left as it is.
fn turn<M: Send + Sync + 'static>(turn_on: bool, world: &mut World) -> (result: Taken)
    ensures
        result is Err ==> keeps_on_thread::<Switch<M>>(*old(world)) && *final(world) == *old(
            world,
        ),
        result is Ok ==> takes_as_resource::<Switch<M>>(*old(world)),
        result is Ok && turn_on ==> exists|lent: &mut World, switch: &mut Switch<M>|
            {
                &&& *lent == *old(world)
                &&& *final(lent) == *final(world)
                &&& #[trigger] call_ensures(
                    crate::world::resource_or_insert_with,
                    (lent, turned_on::<M>),
                    switch,
                )
                &&& final(switch).is_on()
                &&& final(switch).just_changed() == (switch.just_changed() || !switch.is_on())
            },
        result is Ok && !turn_on ==> exists|lent: &mut World, switch: &mut Switch<M>|
            {
                &&& *lent == *old(world)
                &&& *final(lent) == *final(world)
                &&& #[trigger] call_ensures(
                    crate::world::resource_or_insert_with,
                    (lent, turned_off::<M>),
                    switch,
                )
                &&& !final(switch).is_on()
                &&& final(switch).just_changed() == (switch.just_changed() || switch.is_on())
            },
{
    if !crate::world::takes::<Switch<M>>(world) {
        return Err(KeptOnThread);
    }
    if turn_on {
        let switch = crate::world::resource_or_insert_with(world, turned_on::<M>);
        switch.set(true);
    } else {
        let switch = crate::world::resource_or_insert_with(world, turned_off::<M>);
        switch.set(false);
    }
    Ok(())
}

/// Whether `work` is the function of this module that turns the switch `M` as
/// its input says.
pub closed spec fn turns<M: Send + Sync + 'static, F: FnOnce(bool, &mut World) -> Taken>(
    work: F,
) -> bool {
    forall|turn_on: bool, lent: &mut World, result: Taken|
        call_ensures(work, (turn_on, lent), result) <==> call_ensures(
            turn::<M>,
            (turn_on, lent),
            result,
        )
}

/// The action that, once, turns the switch `M` on. Its output tells whether
/// the world took the switch.
pub fn on<M>() -> (action: Action<
    bool,
    OnceSeed<impl FnOnce(bool, &mut World) -> Taken, bool, Taken>,
>) where M: Send + Sync + 'static
    ensures
        action.0,
        turns::<M, _>(action.1.work()),
{
    run_with(true, turn::<M>)
}

/// The action that, once, turns the switch `M` off. Its output tells whether
/// the world took the switch.
pub fn off<M>() -> (action: Action<
    bool,
    OnceSeed<impl FnOnce(bool, &mut World) -> Taken, bool, Taken>,
>) where M: Send + Sync + 'static
    ensures
        !action.0,
        turns::<M, _>(action.1.work()),
{
    run_with(false, turn::<M>)
}

} // verus!
