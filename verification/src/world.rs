//! The calls that the library makes into the host's world.
//!
//! The world is opaque to the verifier. None of these functions is verified:
//! each hands its arguments to one function of the host and what that function
//! returns back. Nothing is claimed of what the world holds afterwards. What a
//! contract asks before a call is said over the calls that read the world's
//! register of kinds, since that is all that is known of a world.

use bevy::ecs::component::ComponentId;
use bevy::ecs::component::ComponentInfo;
use bevy::ecs::component::Components;
use bevy::prelude::Resource;
use bevy::prelude::World;
use vstd::prelude::*;

verus! {

/// The world of the host, as a type that the verifier cannot look into.
#[verifier::external_type_specification]
#[verifier::external_body]
pub struct ExWorld(World);

/// The register in which a world keeps the kinds of values it has seen.
#[verifier::external_type_specification]
#[verifier::external_body]
pub struct ExComponents(Components);

/// The number under which a world has registered a kind.
#[verifier::external_type_specification]
#[verifier::external_body]
pub struct ExComponentId(ComponentId);

/// What a world has registered of a kind.
#[verifier::external_type_specification]
#[verifier::external_body]
pub struct ExComponentInfo(ComponentInfo);

/// Calls `World::components`, which hands out the register of the world. The
/// contract claims nothing of it.
#[verifier::external_body]
pub(crate) fn components(world: &World) -> &Components {
    world.components()
}

/// Calls `Components::resource_id`, which looks up the number under which the
/// kind `R` is registered, as a resource of whichever sort. The contract
/// claims nothing of the result.
#[verifier::external_body]
pub(crate) fn resource_id<R: Resource>(components: &Components) -> Option<ComponentId> {
    components.resource_id::<R>()
}

/// Calls `Components::get_info`, which looks up what is registered under `id`.
/// The contract claims nothing of the result.
#[verifier::external_body]
pub(crate) fn info(components: &Components, id: ComponentId) -> Option<&ComponentInfo> {
    components.get_info(id)
}

/// Calls `ComponentInfo::is_send_and_sync`, which tells whether the kind was
/// registered as one whose values may leave the thread of the world. The
/// contract claims nothing of the result.
#[verifier::external_body]
pub(crate) fn is_send_and_sync(info: &ComponentInfo) -> bool {
    info.is_send_and_sync()
}

/// Whether the register of `world`, read by the four calls above, has not
/// seen the kind `R` yet or has it as one whose values may leave the thread.
///
/// The host keeps such kinds apart from those that must stay on the thread,
/// and panics when a kind that it has registered as staying is put among the
/// others.
pub closed spec fn takes_as_resource<R: Resource>(world: World) -> bool {
    exists|register: &Components, id: Option<ComponentId>|
        {
            &&& #[trigger] call_ensures(components, (&world,), register)
            &&& #[trigger] call_ensures(resource_id::<R>, (register,), id)
            &&& id matches Some(id) ==> exists|found: &ComponentInfo|
                {
                    &&& #[trigger] call_ensures(info, (register, id), Some(found))
                    &&& call_ensures(is_send_and_sync, (found,), true)
                }
        }
}

/// Whether the register of `world`, read by the four calls above, has the
/// kind `R` under a number and does not say of that number that its values
/// may leave the thread.
pub closed spec fn keeps_on_thread<R: Resource>(world: World) -> bool {
    exists|register: &Components, id: ComponentId|
        {
            &&& #[trigger] call_ensures(components, (&world,), register)
            &&& #[trigger] call_ensures(resource_id::<R>, (register,), Some(id))
            &&& call_ensures(info, (register, id), None::<&ComponentInfo>) || exists|
                found: &ComponentInfo,
            |
                {
                    &&& #[trigger] call_ensures(info, (register, id), Some(found))
                    &&& call_ensures(is_send_and_sync, (found,), false)
                }
        }
}

/// Reads the register of `world` and tells whether the world takes `R` as a
/// resource. A register that does not know what it has numbered is not
/// trusted: the answer is then no.
pub(crate) fn takes<R: Resource>(world: &World) -> (yes: bool)
    ensures
        yes ==> takes_as_resource::<R>(*world),
        !yes ==> keeps_on_thread::<R>(*world),
{
    let register = components(world);
    match resource_id::<R>(register) {
        None => true,
        Some(id) => match info(register, id) {
            Some(found) => is_send_and_sync(found),
            None => false,
        },
    }
}

/// Calls `World::init_resource`, which inserts the default value of `R` unless
/// the world holds an `R` already. The contract asks for a world that takes
/// `R` as a resource and claims nothing of the world afterwards.
#[verifier::external_body]
pub(crate) fn init_resource<R: Resource + Default>(world: &mut World)
    requires
        takes_as_resource::<R>(*old(world)),
{
    world.init_resource::<R>();
}

/// Calls `World::insert_resource`, which inserts `value`, in place of the `R`
/// that the world may hold already. The contract asks for a world that takes
/// `R` as a resource and claims nothing of the world afterwards.
#[verifier::external_body]
pub(crate) fn insert_resource<R: Resource>(world: &mut World, value: R)
    requires
        takes_as_resource::<R>(*old(world)),
{
    world.insert_resource(value);
}

/// Calls `World::remove_resource`, which takes the `R` out of the world, if
/// there is one. The contract claims nothing of the result or of the world
/// afterwards.
#[verifier::external_body]
pub(crate) fn remove_resource<R: Resource>(world: &mut World) -> Option<R> {
    world.remove_resource::<R>()
}

/// Calls `World::init_non_send_resource`, which does as `init_resource` for a
/// value that must stay on the thread of the world. The contract claims
/// nothing of the world afterwards.
#[verifier::external_body]
pub(crate) fn init_non_send_resource<R: Default + 'static>(world: &mut World) {
    world.init_non_send_resource::<R>();
}

/// Calls `World::get_resource_or_insert_with`, which hands out the `R` that the
/// world holds; if it holds none, `make` is called and what it returns is
/// inserted first. The contract asks for a world that takes `R` as a resource
/// and that `make` can be called, and claims nothing of the resource that is
/// handed out.
#[verifier::external_body]
pub(crate) fn resource_or_insert_with<R: Resource, F: FnOnce() -> R>(
    world: &mut World,
    make: F,
) -> (resource: &mut R)
    requires
        takes_as_resource::<R>(*old(world)),
        call_requires(make, ()),
{
    world.get_resource_or_insert_with(make).into_inner()
}

} // verus!
