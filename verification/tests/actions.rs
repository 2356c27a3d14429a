//! The actions of the library, driven by tasks on a real world.

use bevy::app::AppExit;
use bevy::ecs::system::IntoSystem;
use bevy::ecs::system::RunSystemOnce;
use bevy::prelude::IntoSystemConfigs;
use bevy::prelude::Res;
use bevy::prelude::ResMut;
use bevy::prelude::Resource;
use bevy::prelude::Schedule;
use bevy::prelude::World;
use bevy_flurx::action::once;
use bevy_flurx::action::record;
use bevy_flurx::action::record::Record;
use bevy_flurx::action::record::Track;
use bevy_flurx::action::seed::ActionSeed;
use bevy_flurx::action::sequence::Then;
use bevy_flurx::action::switch::Switch;
use bevy_flurx::action::Action;
use bevy_flurx::runner::CancellationScope;
use bevy_flurx::runner::CancellationToken;
use bevy_flurx::runner::Output;
use bevy_flurx::runner::Runner;
use bevy_flurx::scheduler::Scheduler;
use bevy_flurx::task::Computation;
use bevy_flurx::task::Phase;
use bevy_flurx::task::Step;
use std::cell::RefCell;
use std::collections::VecDeque;
use std::rc::Rc;

/// A runner of whatever kind, together with its cell.
struct AnyRunner {
    poll: Box<dyn FnMut(&mut World, CancellationToken, &CancellationScope) -> bool>,
}

impl Runner for AnyRunner {
    type World = World;
    type Output = ();

    fn poll(
        &mut self,
        world: &mut World,
        token: CancellationToken,
        scope: &CancellationScope,
        output: &mut Output<()>,
    ) -> bool {
        let cancelled = token.requested_cancel(scope);
        let done = (self.poll)(world, token, scope);
        if done && !cancelled && output.is_none() {
            output.set(());
        }
        done
    }
}

/// The seed whose input is the runner itself.
struct AnySeed;

impl ActionSeed<AnyRunner> for AnySeed {
    type Runner = AnyRunner;

    fn create_runner(self, input: AnyRunner) -> AnyRunner {
        input
    }
}

type AnyAction = Action<AnyRunner, AnySeed>;

type Slot<O> = Rc<RefCell<Option<O>>>;

fn slot<O>() -> Slot<O> {
    Rc::new(RefCell::new(None))
}

/// Awaits `action` in `phase`; what it puts out lands in `slot`.
fn will_into<A, I, S, O>(phase: Phase, action: A, slot: Slot<O>) -> (Phase, AnyAction)
where
    A: Into<Action<I, S>>,
    S: ActionSeed<I>,
    S::Runner: Runner<World = World, Output = O> + 'static,
    O: 'static,
{
    let mut runner = action.into().into_runner();
    let mut cell = Output::new();
    let poll = move |world: &mut World, token: CancellationToken, scope: &CancellationScope| {
        let done = runner.poll(world, token, scope, &mut cell);
        if done {
            if let Some(value) = std::mem::take(&mut cell).take() {
                *slot.borrow_mut() = Some(value);
            }
        }
        done
    };
    (phase, AnySeed.with(AnyRunner { poll: Box::new(poll) }))
}

/// Awaits `action` in `phase` and drops what it puts out.
fn will<A, I, S>(phase: Phase, action: A) -> (Phase, AnyAction)
where
    A: Into<Action<I, S>>,
    S: ActionSeed<I>,
    S::Runner: Runner<World = World> + 'static,
    <S::Runner as Runner>::Output: 'static,
{
    will_into(phase, action, slot())
}

type Stage = Box<dyn FnOnce() -> (Phase, AnyAction)>;

/// A computation that awaits one action after the other.
struct Script {
    stages: VecDeque<Stage>,
}

impl Script {
    fn new() -> Script {
        Script { stages: VecDeque::new() }
    }

    fn stage(mut self, stage: impl FnOnce() -> (Phase, AnyAction) + 'static) -> Script {
        self.stages.push_back(Box::new(stage));
        self
    }
}

impl Computation for Script {
    type Runner = AnyRunner;
    type Input = AnyRunner;
    type Seed = AnySeed;

    fn resume(&mut self, _delivered: Option<()>) -> Step<AnyAction> {
        match self.stages.pop_front() {
            Some(stage) => {
                let (phase, action) = stage();
                Step::Await(phase, action)
            }
            None => Step::Return,
        }
    }
}

/// A world, the tasks that run on it and the systems of its update.
struct App {
    world: World,
    scope: CancellationScope,
    token: CancellationToken,
    tasks: Scheduler<Script>,
    update: Schedule,
}

fn test_app() -> App {
    let mut scope = CancellationScope::new();
    let token = scope.root();
    let mut world = World::new();
    world.insert_resource(Bool(false));
    App { world, scope, token, tasks: Scheduler::new(), update: Schedule::default() }
}

impl App {
    fn spawn(&mut self, script: Script) {
        self.tasks.schedule(script, self.token);
    }

    fn update(&mut self) {
        let phases = [
            Phase::First,
            Phase::PreUpdate,
            Phase::StateTransition,
            Phase::RunFixedMainLoop,
            Phase::Update,
            Phase::PostUpdate,
            Phase::Last,
        ];
        for phase in phases {
            self.tasks.poll(&mut self.world, phase, &self.scope);
            if phase == Phase::Update {
                self.update.run(&mut self.world);
            }
        }
    }

    fn is_bool_true(&self) -> bool {
        self.world.resource::<Bool>().0
    }

    fn is_bool_false(&self) -> bool {
        !self.world.resource::<Bool>().0
    }
}

struct Bool(bool);

impl Resource for Bool {}

#[derive(Default)]
struct TestResource;

impl Resource for TestResource {}

#[derive(Eq, PartialEq, Debug)]
struct Mark1;

impl Resource for Mark1 {}

#[derive(Eq, PartialEq, Debug)]
struct Mark2;

impl Resource for Mark2 {}

#[derive(Eq, PartialEq, Debug)]
struct OutputUSize(usize);

impl Resource for OutputUSize {}

#[derive(Default)]
struct H1;

#[derive(Default)]
struct H2;

struct T;

fn switch_just_turned_on(switch: Option<Res<Switch<T>>>) -> bool {
    switch.is_some_and(|s| s.just_turned_on())
}

fn switch_just_turned_off(switch: Option<Res<Switch<T>>>) -> bool {
    switch.is_some_and(|s| s.just_turned_off())
}

/// The work of running `system` once, as the host runs it.
fn system<Sys, I, O, M>(system: Sys) -> impl FnOnce(I, &mut World) -> O
where
    Sys: IntoSystem<I, O, M>,
{
    move |input: I, world: &mut World| world.run_system_once_with(input, system)
}

/// The action that inserts `resource` among the values that stay on the thread.
fn non_send_insert<R: 'static>(
    resource: R,
) -> Action<R, once::OnceSeed<impl FnOnce(R, &mut World), R, ()>> {
    once::run_with(resource, |resource: R, world: &mut World| {
        world.insert_non_send_resource(resource);
    })
}

/// The action that removes `R` from the values that stay on the thread.
fn non_send_remove<R: 'static>() -> once::OnceSeed<impl FnOnce((), &mut World), (), ()> {
    once::run(|_: (), world: &mut World| {
        let _ = world.remove_non_send_resource::<R>();
    })
}

fn push<Act: Send + Sync + 'static>(act: Act) -> Action<Track<Act>, record::push::PushSeed<Act>> {
    record::push().with(Track { act })
}

#[test]
fn init_non_send_resource() {
    let mut app = test_app();
    app.spawn(
        Script::new().stage(|| will(Phase::First, once::non_send::init::<TestResource>())),
    );

    app.update();
    assert!(app.world.get_non_send_resource::<TestResource>().is_some());
}

#[test]
fn insert_non_send_resource() {
    let mut app = test_app();
    app.spawn(Script::new().stage(|| will(Phase::First, non_send_insert(TestResource))));

    app.update();
    assert!(app.world.get_non_send_resource::<TestResource>().is_some());
}

#[test]
fn remove_non_send_resource() {
    let mut app = test_app();
    app.world.init_resource::<TestResource>();
    app.spawn(
        Script::new()
            .stage(|| will(Phase::First, non_send_remove::<TestResource>())),
    );

    app.update();
    assert!(app.world.get_non_send_resource::<TestResource>().is_none());
}

#[test]
fn success_run_all_schedule_labels() {
    let mut app = test_app();
    app.spawn(
        Script::new()
            .stage(|| will(Phase::First, non_send_insert(AppExit)))
            .stage(|| {
                println!("First finished");
                will(Phase::First, non_send_insert(AppExit))
            })
            .stage(|| {
                println!("PreUpdate finished");
                will(Phase::First, non_send_insert(AppExit))
            })
            .stage(|| {
                println!("Update finished");
                will(Phase::First, non_send_insert(AppExit))
            })
            .stage(|| {
                println!("PostUpdate finished");
                will(Phase::First, non_send_insert(AppExit))
            }),
    );

    println!("First");
    app.update();
    assert!(app.world.remove_non_send_resource::<AppExit>().is_some());

    println!("PreUpdate");
    app.update();
    assert!(app.world.remove_non_send_resource::<AppExit>().is_some());

    println!("Update");
    app.update();
    assert!(app.world.remove_non_send_resource::<AppExit>().is_some());

    println!("PostUpdate");
    app.update();
    assert!(app.world.remove_non_send_resource::<AppExit>().is_some());

    println!("Last");
    app.update();
    assert!(app.world.remove_non_send_resource::<AppExit>().is_some());

    println!("After Reactor Finished");
    app.update();
    assert!(app.world.remove_non_send_resource::<AppExit>().is_none());
}

#[test]
fn init_resource() {
    let mut app = test_app();
    app.spawn(Script::new().stage(|| will(Phase::First, once::res::init::<TestResource>())));

    app.update();
    assert!(app.world.get_resource::<TestResource>().is_some());
}

#[test]
fn insert_resource() {
    let mut app = test_app();
    app.spawn(Script::new().stage(|| will(Phase::First, once::res::insert(TestResource))));

    app.update();
    assert!(app.world.get_resource::<TestResource>().is_some());
}

#[test]
fn remove_resource() {
    let mut app = test_app();
    app.world.init_resource::<TestResource>();
    app.spawn(Script::new().stage(|| will(Phase::First, once::res::remove::<TestResource>())));

    app.update();
    assert!(app.world.get_resource::<TestResource>().is_none());
}

#[test]
fn once_switch_on() {
    let mut app = test_app();
    app.spawn(Script::new().stage(|| will(Phase::Update, once::switch::on::<T>())));
    app.update.add_systems(
        (|mut b: ResMut<Bool>| {
            b.0 = true;
        })
        .run_if(switch_just_turned_on),
    );

    app.update();
    assert!(app.is_bool_true());
}

#[test]
fn once_switch_on_after_1frame() {
    let mut app = test_app();
    app.spawn(
        Script::new()
            .stage(|| will(Phase::Update, once::run(system(|| {}))))
            .stage(|| will(Phase::Update, once::switch::on::<T>())),
    );
    app.update.add_systems(
        (|mut b: ResMut<Bool>| {
            b.0 = true;
        })
        .run_if(switch_just_turned_on),
    );

    app.update();
    assert!(app.is_bool_false());
    app.update();
    assert!(app.is_bool_true());
}

#[test]
fn once_switch_off() {
    let mut app = test_app();
    app.spawn(Script::new().stage(|| will(Phase::Update, once::switch::off::<T>())));
    app.update.add_systems(
        (|mut b: ResMut<Bool>| {
            b.0 = true;
        })
        .run_if(switch_just_turned_off),
    );

    app.update();
    assert!(app.is_bool_true());
}

#[test]
fn once_switch_off_after_1frame() {
    let mut app = test_app();
    app.spawn(
        Script::new()
            .stage(|| will(Phase::Update, once::run(system(|| {}))))
            .stage(|| will(Phase::Update, once::switch::off::<T>())),
    );
    app.update.add_systems(
        (|mut b: ResMut<Bool>| {
            b.0 = true;
        })
        .run_if(switch_just_turned_off),
    );

    app.update();
    assert!(app.is_bool_false());
    app.update();
    assert!(app.is_bool_true());
}

#[test]
fn push1() {
    let mut app = test_app();
    app.spawn(Script::new().stage(|| will(Phase::Update, push(H1))));
    app.update();
    assert_eq!(app.world.resource::<Record<H1>>().len(), 1);
}

#[test]
fn push2() {
    let mut app = test_app();
    app.spawn(
        Script::new()
            .stage(|| will(Phase::Update, push(H1)))
            .stage(|| will(Phase::Update, push(H1))),
    );
    app.update();
    assert_eq!(app.world.resource::<Record<H1>>().len(), 1);
    app.update();
    assert_eq!(app.world.resource::<Record<H1>>().len(), 2);
}

#[test]
fn multi_push() {
    let mut app = test_app();
    app.world.init_resource::<Record<H2>>();
    app.spawn(
        Script::new()
            .stage(|| will(Phase::Update, push(H1)))
            .stage(|| will(Phase::Update, push(H2)))
            .stage(|| will(Phase::Update, push(H1))),
    );
    app.update();
    assert_eq!(app.world.resource::<Record<H1>>().len(), 1);
    assert_eq!(app.world.resource::<Record<H2>>().len(), 0);
    app.update();
    assert_eq!(app.world.resource::<Record<H1>>().len(), 1);
    assert_eq!(app.world.resource::<Record<H2>>().len(), 1);
    app.update();
    assert_eq!(app.world.resource::<Record<H1>>().len(), 2);
    assert_eq!(app.world.resource::<Record<H2>>().len(), 1);
}

#[test]
fn two() {
    let mut app = test_app();
    app.spawn(Script::new().stage(|| {
        will(Phase::Update, once::run(system(|| {})).then(once::res::insert(Mark1)))
    }));
    app.update();
    assert_eq!(app.world.resource::<Mark1>(), &Mark1);
}

#[test]
fn three() {
    let mut app = test_app();
    app.spawn(Script::new().stage(|| {
        will(
            Phase::Update,
            once::run(system(|| {}))
                .then(once::res::insert(Mark1))
                .then(once::res::insert(Mark2)),
        )
    }));
    app.update();
    assert_eq!(app.world.resource::<Mark1>(), &Mark1);
    assert_eq!(app.world.resource::<Mark2>(), &Mark2);
}

#[test]
fn output_is_2() {
    let mut app = test_app();
    let output = slot::<usize>();
    let delivered = output.clone();
    app.spawn(
        Script::new()
            .stage(move || {
                will_into(
                    Phase::Update,
                    once::run(system(|| {}))
                        .then(once::res::insert(Mark1))
                        .then(once::res::insert(Mark2))
                        .then(once::run(system(|| 1 + 1)).into()),
                    output,
                )
            })
            .stage(move || {
                let output = delivered.borrow_mut().take().unwrap();
                will(Phase::Update, once::res::insert(OutputUSize(output)))
            }),
    );
    app.update();
    app.update();
    assert_eq!(app.world.resource::<OutputUSize>(), &OutputUSize(2));
}

#[test]
fn using_sequence_macro() {
    let mut app = test_app();
    let output = slot::<usize>();
    let delivered = output.clone();
    app.spawn(
        Script::new()
            .stage(move || {
                will_into(
                    Phase::Update,
                    once::run(system(|| {}))
                        .then(once::res::insert(Mark1))
                        .then(once::res::insert(Mark2))
                        .then(once::run(system(|| 1 + 1)).into()),
                    output,
                )
            })
            .stage(move || {
                let output = delivered.borrow_mut().take().unwrap();
                will(Phase::Update, once::res::insert(OutputUSize(output)))
            }),
    );
    app.update();
    assert_eq!(app.world.resource::<Mark1>(), &Mark1);
    assert_eq!(app.world.resource::<Mark2>(), &Mark2);
    app.update();
    assert_eq!(app.world.resource::<OutputUSize>(), &OutputUSize(2));
}
