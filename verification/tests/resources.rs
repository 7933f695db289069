use bevy::ecs::system::CommandQueue;
use bevy::ecs::system::Commands;
use bevy::ecs::system::Resource;
use bevy::ecs::world::World;
use bevy_restrict::lifecycle::state_resource_from_world;
use bevy_restrict::lifecycle::state_resource_given;
use bevy_restrict::lifecycle::Transition;
use bevy_restrict::resource::resource_cleanup_system;
use bevy_restrict::resource::ResourceHandle;

#[derive(Clone, Debug, PartialEq)]
struct Score(u32);

impl Resource for Score {}

impl Default for Score {
    fn default() -> Self {
        Score(7)
    }
}

#[derive(Clone, Debug, PartialEq)]
struct Other(u32);

impl Resource for Other {}

fn given(world: &mut World, resource: &Score, transition: Transition) {
    let mut queue = CommandQueue::default();
    let mut handle = ResourceHandle::<Score>::new(Commands::new(&mut queue, world));
    state_resource_given(&mut handle, resource, transition);
    drop(handle);
    queue.apply(world);
}

fn from_world(world: &mut World, transition: Transition) {
    let mut queue = CommandQueue::default();
    let mut handle = ResourceHandle::<Score>::new(Commands::new(&mut queue, world));
    state_resource_from_world(&mut handle, transition);
    drop(handle);
    queue.apply(world);
}

#[test]
fn insert_stores_the_value_once_the_buffer_is_applied() {
    let mut world = World::new();
    let mut queue = CommandQueue::default();
    let mut handle = ResourceHandle::<Score>::new(Commands::new(&mut queue, &world));
    handle.insert(Score(3));
    drop(handle);
    assert!(!world.contains_resource::<Score>());
    queue.apply(&mut world);
    assert_eq!(world.get_resource::<Score>(), Some(&Score(3)));
}

#[test]
fn insert_replaces_an_earlier_value() {
    let mut world = World::new();
    world.insert_resource(Score(1));
    let mut queue = CommandQueue::default();
    let mut handle = ResourceHandle::<Score>::new(Commands::new(&mut queue, &world));
    handle.insert(Score(2));
    handle.insert(Score(5));
    drop(handle);
    queue.apply(&mut world);
    assert_eq!(world.get_resource::<Score>(), Some(&Score(5)));
}

#[test]
fn init_builds_the_value_and_keeps_one_that_is_there() {
    let mut world = World::new();
    let mut queue = CommandQueue::default();
    let mut handle = ResourceHandle::<Score>::new(Commands::new(&mut queue, &world));
    handle.init();
    drop(handle);
    queue.apply(&mut world);
    assert_eq!(world.get_resource::<Score>(), Some(&Score(7)));

    world.insert_resource(Score(9));
    let mut queue = CommandQueue::default();
    let mut handle = ResourceHandle::<Score>::new(Commands::new(&mut queue, &world));
    handle.init();
    drop(handle);
    queue.apply(&mut world);
    assert_eq!(world.get_resource::<Score>(), Some(&Score(9)));
}

#[test]
fn remove_drops_the_resource_of_its_type_only() {
    let mut world = World::new();
    world.insert_resource(Score(1));
    world.insert_resource(Other(2));
    let mut queue = CommandQueue::default();
    let mut handle = ResourceHandle::<Score>::new(Commands::new(&mut queue, &world));
    handle.remove();
    drop(handle);
    assert!(world.contains_resource::<Score>());
    queue.apply(&mut world);
    assert!(!world.contains_resource::<Score>());
    assert_eq!(world.get_resource::<Other>(), Some(&Other(2)));
}

#[test]
fn requests_apply_in_the_order_they_were_made() {
    let mut world = World::new();
    let mut queue = CommandQueue::default();
    let mut handle = ResourceHandle::<Score>::new(Commands::new(&mut queue, &world));
    handle.insert(Score(4));
    handle.remove();
    drop(handle);
    queue.apply(&mut world);
    assert!(!world.contains_resource::<Score>());

    let mut queue = CommandQueue::default();
    let mut handle = ResourceHandle::<Score>::new(Commands::new(&mut queue, &world));
    handle.remove();
    handle.insert(Score(4));
    let mut commands = handle.into_commands();
    commands.insert_resource(Other(6));
    drop(commands);
    queue.apply(&mut world);
    assert_eq!(world.get_resource::<Score>(), Some(&Score(4)));
    assert_eq!(world.get_resource::<Other>(), Some(&Other(6)));
}

#[test]
fn cleanup_of_an_absent_resource_changes_nothing() {
    let mut world = World::new();
    let witness = world.spawn_empty().id();
    world.insert_resource(Other(2));
    for _ in 0..2 {
        let mut queue = CommandQueue::default();
        let mut handle = ResourceHandle::<Score>::new(Commands::new(&mut queue, &world));
        resource_cleanup_system(&mut handle);
        drop(handle);
        queue.apply(&mut world);
        assert!(!world.contains_resource::<Score>());
        assert_eq!(world.get_resource::<Other>(), Some(&Other(2)));
        assert!(world.get_entity(witness).is_some());
        assert_eq!(world.entities().len(), 1);
    }
}

#[test]
fn cleanup_removes_a_present_resource() {
    let mut world = World::new();
    world.insert_resource(Score(1));
    let mut queue = CommandQueue::default();
    let mut handle = ResourceHandle::<Score>::new(Commands::new(&mut queue, &world));
    resource_cleanup_system(&mut handle);
    drop(handle);
    queue.apply(&mut world);
    assert!(!world.contains_resource::<Score>());
}

#[test]
fn a_given_resource_follows_its_state() {
    let mut world = World::new();
    let bound = Score(11);
    given(&mut world, &bound, Transition::Enter);
    assert_eq!(world.get_resource::<Score>(), Some(&Score(11)));

    world.resource_mut::<Score>().0 = 99;
    given(&mut world, &bound, Transition::Exit);
    assert!(!world.contains_resource::<Score>());

    given(&mut world, &bound, Transition::Enter);
    assert_eq!(world.get_resource::<Score>(), Some(&Score(11)));
    assert_eq!(bound, Score(11));
}

#[test]
fn entering_twice_leaves_one_fresh_instance() {
    let mut world = World::new();
    let bound = Score(11);
    given(&mut world, &bound, Transition::Enter);
    world.resource_mut::<Score>().0 = 99;
    given(&mut world, &bound, Transition::Enter);
    assert_eq!(world.get_resource::<Score>(), Some(&Score(11)));
}

#[test]
fn a_world_built_resource_follows_its_state() {
    let mut world = World::new();
    from_world(&mut world, Transition::Enter);
    assert_eq!(world.get_resource::<Score>(), Some(&Score(7)));

    world.resource_mut::<Score>().0 = 99;
    from_world(&mut world, Transition::Exit);
    assert!(!world.contains_resource::<Score>());

    from_world(&mut world, Transition::Enter);
    assert_eq!(world.get_resource::<Score>(), Some(&Score(7)));
}

#[test]
fn leaving_a_state_that_was_never_entered_is_harmless() {
    let mut world = World::new();
    from_world(&mut world, Transition::Exit);
    given(&mut world, &Score(1), Transition::Exit);
    assert!(!world.contains_resource::<Score>());
}

#[test]
fn entering_rebuilds_a_world_built_resource_that_is_there() {
    let mut world = World::new();
    world.insert_resource(Score(99));
    from_world(&mut world, Transition::Enter);
    assert_eq!(world.get_resource::<Score>(), Some(&Score(7)));

    world.resource_mut::<Score>().0 = 50;
    from_world(&mut world, Transition::Enter);
    assert_eq!(world.get_resource::<Score>(), Some(&Score(7)));
}

#[test]
fn entering_leaves_other_resources_alone() {
    let mut world = World::new();
    world.insert_resource(Other(2));
    from_world(&mut world, Transition::Enter);
    given(&mut world, &Score(3), Transition::Enter);
    assert_eq!(world.get_resource::<Other>(), Some(&Other(2)));
    assert_eq!(world.get_resource::<Score>(), Some(&Score(3)));
}
