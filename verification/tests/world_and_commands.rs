use comfy::commands::{flush, Command, CommandBuffer, DespawnQueue};
use comfy::world::World;

#[test]
fn world_operations() {
    let mut world = World::new();
    assert_eq!(world.len(), 0);
    assert!(world.spawn(1));
    assert!(!world.spawn(1));
    assert!(world.contains(1));
    assert!(!world.contains(2));
    assert!(world.insert(1, 10, 100));
    assert!(!world.insert(2, 10, 100));
    assert_eq!(world.get(1, 10), Some(100));
    assert_eq!(world.get(1, 11), None);
    assert_eq!(world.get(2, 10), None);
    assert!(world.insert(1, 10, 101));
    assert_eq!(world.get(1, 10), Some(101));
    // an entity that is alive keeps its components when it is spawned again
    assert!(!world.spawn(1));
    assert_eq!(world.get(1, 10), Some(101));
    assert_eq!(world.remove(1, 10), Some(101));
    assert_eq!(world.remove(1, 10), None);
    assert_eq!(world.remove(2, 10), None);
    assert!(world.despawn(1));
    assert!(!world.despawn(1));
    assert_eq!(world.len(), 0);
}

#[test]
fn despawning_twice_removes_once() {
    let mut world = World::new();
    world.spawn(1);
    world.spawn(2);
    world.insert(2, 5, 55);
    let mut commands = CommandBuffer::new();
    let mut despawns = DespawnQueue::new();
    despawns.enqueue_despawn(1);
    despawns.enqueue_despawn(1);
    assert_eq!(despawns.len(), 2);
    flush(&mut world, &mut commands, &mut despawns);
    assert!(!world.contains(1));
    assert!(world.contains(2));
    assert_eq!(world.get(2, 5), Some(55));
    assert_eq!(world.len(), 1);
    assert_eq!(despawns.len(), 0);
    // flushing again is a no-op
    flush(&mut world, &mut commands, &mut despawns);
    assert!(!world.contains(1));
    assert!(world.contains(2));
    assert_eq!(world.get(2, 5), Some(55));
    assert_eq!(world.len(), 1);
}

#[test]
fn commands_are_applied_in_the_order_they_were_queued() {
    let mut world = World::new();
    let mut commands = CommandBuffer::new();
    let mut despawns = DespawnQueue::new();
    commands.enqueue_command(Command::Spawn { entity: 1 });
    commands.enqueue_command(Command::Insert { entity: 1, kind: 7, value: 1 });
    commands.enqueue_command(Command::Insert { entity: 1, kind: 7, value: 2 });
    commands.enqueue_command(Command::Insert { entity: 1, kind: 8, value: 3 });
    commands.enqueue_command(Command::Remove { entity: 1, kind: 8 });
    commands.enqueue_command(Command::Spawn { entity: 2 });
    commands.enqueue_command(Command::Despawn { entity: 2 });
    commands.enqueue_command(Command::Insert { entity: 2, kind: 7, value: 9 });
    assert_eq!(commands.len(), 8);
    flush(&mut world, &mut commands, &mut despawns);
    assert_eq!(commands.len(), 0);
    assert_eq!(world.get(1, 7), Some(2));
    assert_eq!(world.get(1, 8), None);
    assert!(!world.contains(2));
    assert_eq!(world.len(), 1);
}

#[test]
fn commands_run_before_despawns() {
    let mut world = World::new();
    let mut commands = CommandBuffer::new();
    let mut despawns = DespawnQueue::new();
    despawns.enqueue_despawn(5);
    commands.enqueue_command(Command::Spawn { entity: 5 });
    flush(&mut world, &mut commands, &mut despawns);
    assert!(!world.contains(5));
}

#[test]
fn stale_entities_are_ignored() {
    let mut world = World::new();
    world.spawn(1);
    world.insert(1, 1, 1);
    let mut commands = CommandBuffer::new();
    let mut despawns = DespawnQueue::new();
    commands.enqueue_command(Command::Insert { entity: 42, kind: 1, value: 1 });
    commands.enqueue_command(Command::Remove { entity: 42, kind: 1 });
    commands.enqueue_command(Command::Despawn { entity: 42 });
    despawns.enqueue_despawn(43);
    flush(&mut world, &mut commands, &mut despawns);
    assert_eq!(world.len(), 1);
    assert_eq!(world.get(1, 1), Some(1));
    assert!(!world.contains(42));
    assert!(!world.contains(43));
}

#[test]
fn order_of_despawns_does_not_matter() {
    let mut a = World::new();
    let mut b = World::new();
    for e in 0..5u64 {
        a.spawn(e);
        b.spawn(e);
    }
    let mut qa = DespawnQueue::new();
    let mut qb = DespawnQueue::new();
    for e in [1u64, 3, 1, 4] {
        qa.enqueue_despawn(e);
    }
    for e in [4u64, 1, 3] {
        qb.enqueue_despawn(e);
    }
    qa.run_on(&mut a);
    qb.run_on(&mut b);
    for e in 0..5u64 {
        assert_eq!(a.contains(e), b.contains(e));
        assert_eq!(a.contains(e), e == 0 || e == 2);
    }
}

#[test]
fn command_buffer_runs_alone() {
    let mut world = World::new();
    let mut commands = CommandBuffer::new();
    commands.enqueue_command(Command::Spawn { entity: 3 });
    commands.run_on(&mut world);
    assert!(world.contains(3));
    assert_eq!(commands.len(), 0);
    commands.run_on(&mut world);
    assert_eq!(world.len(), 1);
}
