//! Tasks that drive a script of awaits.

use bevy::ecs::system::IntoSystem;
use bevy::ecs::system::RunSystemOnce;
use bevy::prelude::In;
use bevy::prelude::ResMut;
use bevy::prelude::Resource;
use bevy::prelude::World;
use bevy_flurx::action::once;
use bevy_flurx::action::once::OnceSeed;
use bevy_flurx::action::Action;
use bevy_flurx::runner::CancellationScope;
use bevy_flurx::scheduler::Scheduler;
use bevy_flurx::task::Computation;
use bevy_flurx::task::Phase;
use bevy_flurx::task::Script;
use bevy_flurx::task::Task;
use bevy_flurx::task::TaskStatus;

#[derive(Debug, Default, PartialEq, Eq)]
struct Log(Vec<u32>);

impl Resource for Log {}

/// The work of running `system` once, as the host runs it.
fn system<Sys, I, O, M>(system: Sys) -> impl FnOnce(I, &mut World) -> O
where
    Sys: IntoSystem<I, O, M>,
{
    move |input: I, world: &mut World| world.run_system_once_with(input, system)
}

fn note(n: u32) -> Action<u32, OnceSeed<impl FnOnce(u32, &mut World), u32, ()>> {
    once::run_with(
        n,
        system(|In(n): In<u32>, mut log: ResMut<Log>| {
            log.0.push(n);
        }),
    )
}

const PHASES: [Phase; 7] = [
    Phase::First,
    Phase::PreUpdate,
    Phase::StateTransition,
    Phase::RunFixedMainLoop,
    Phase::Update,
    Phase::PostUpdate,
    Phase::Last,
];

#[test]
fn an_empty_script_finishes_on_the_first_poll() {
    let mut scope = CancellationScope::new();
    let token = scope.root();
    let mut script = Script::new().will(Phase::Update, note(1));
    script.resume(None);
    assert_eq!(script.len(), 0);
    let mut task = Task::new(script, token);
    let mut world = World::new();
    assert_eq!(task.poll(&mut world, Phase::First, &scope), TaskStatus::Finished);
}

#[test]
fn a_script_awaits_its_actions_in_order_one_per_tick() {
    let mut scope = CancellationScope::new();
    let token = scope.root();
    let script = Script::new()
        .will(Phase::Update, note(1))
        .will(Phase::Update, note(2))
        .will(Phase::Update, note(3));
    assert_eq!(script.len(), 3);
    let mut task = Task::new(script, token);
    let mut world = World::new();
    world.insert_resource(Log::default());

    for phase in PHASES {
        assert_eq!(task.poll(&mut world, phase, &scope), TaskStatus::Pending);
    }
    assert_eq!(world.resource::<Log>().0, vec![1]);
    for phase in PHASES {
        assert_eq!(task.poll(&mut world, phase, &scope), TaskStatus::Pending);
    }
    assert_eq!(world.resource::<Log>().0, vec![1, 2]);
    assert_eq!(task.poll(&mut world, Phase::First, &scope), TaskStatus::Pending);
    assert_eq!(task.poll(&mut world, Phase::Update, &scope), TaskStatus::Finished);
    assert_eq!(world.resource::<Log>().0, vec![1, 2, 3]);
}

#[test]
fn awaits_of_later_phases_are_served_in_the_same_tick() {
    let mut scope = CancellationScope::new();
    let token = scope.root();
    let script = Script::new()
        .will(Phase::First, note(1))
        .will(Phase::Update, note(2))
        .will(Phase::Last, note(3))
        .will(Phase::First, note(4));
    let mut task = Task::new(script, token);
    let mut world = World::new();
    world.insert_resource(Log::default());
    for phase in PHASES {
        assert_eq!(task.poll(&mut world, phase, &scope), TaskStatus::Pending);
    }
    assert_eq!(world.resource::<Log>().0, vec![1, 2, 3]);
    assert_eq!(task.poll(&mut world, Phase::First, &scope), TaskStatus::Finished);
    assert_eq!(world.resource::<Log>().0, vec![1, 2, 3, 4]);
}

#[test]
fn a_cancelled_script_stops_where_it_is() {
    let mut scope = CancellationScope::new();
    let token = scope.root();
    let script = Script::new().will(Phase::Update, note(1)).will(Phase::Update, note(2));
    let mut task = Task::new(script, token);
    let mut world = World::new();
    world.insert_resource(Log::default());
    assert_eq!(task.poll(&mut world, Phase::Update, &scope), TaskStatus::Pending);
    token.cancel(&mut scope);
    assert_eq!(task.poll(&mut world, Phase::Update, &scope), TaskStatus::Cancelled);
    assert_eq!(task.poll(&mut world, Phase::Update, &scope), TaskStatus::Cancelled);
    assert_eq!(world.resource::<Log>().0, vec![1]);
}

#[test]
fn scripts_on_one_world_take_turns() {
    let mut scope = CancellationScope::new();
    let token = scope.root();
    let mut scheduler = Scheduler::new();
    scheduler
        .schedule(Script::new().will(Phase::Update, note(1)).will(Phase::Update, note(3)), token);
    scheduler.schedule(Script::new().will(Phase::Update, note(2)), token);
    let mut world = World::new();
    world.insert_resource(Log::default());
    scheduler.poll(&mut world, Phase::Update, &scope);
    assert_eq!(world.resource::<Log>().0, vec![1, 2]);
    assert_eq!(scheduler.len(), 1);
    scheduler.poll(&mut world, Phase::Update, &scope);
    assert_eq!(world.resource::<Log>().0, vec![1, 2, 3]);
    assert!(scheduler.is_empty());
}
