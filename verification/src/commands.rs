//! Deferred mutation of the world: a buffer of commands and a queue of
//! entities to remove, both applied at one point of the frame.
//!
//! Game logic that walks the world must not change its structure on the
//! way. It records what it wants done; [`flush`] does it afterwards.

use crate::world::{attached, despawned, detached, spawned, World, WorldModel};
use vstd::prelude::*;

verus! {

/// One deferred change of the world. A command states an intent: where the
/// entity it names is gone by the time the command is applied, nothing
/// happens.
#[derive(Copy, Clone, Debug, PartialEq, Eq, Structural)]
pub enum Command {
    /// Bring the entity to life.
    Spawn { entity: u64 },
    /// Set a component of the entity.
    Insert { entity: u64, kind: u32, value: u64 },
    /// Take a component off the entity.
    Remove { entity: u64, kind: u32 },
    /// Remove the entity with all its components.
    Despawn { entity: u64 },
}

/// The world after one command.
pub open spec fn applied(w: WorldModel, command: Command) -> WorldModel {
    match command {
        Command::Spawn { entity } => spawned(w, entity),
        Command::Insert { entity, kind, value } => attached(w, entity, kind, value),
        Command::Remove { entity, kind } => detached(w, entity, kind),
        Command::Despawn { entity } => despawned(w, entity),
    }
}

/// The world after each of `commands`, applied once, in their order.
pub open spec fn applied_all(w: WorldModel, commands: Seq<Command>) -> WorldModel
    decreases commands.len(),
{
    if commands.len() == 0 {
        w
    } else {
        applied(applied_all(w, commands.drop_last()), commands.last())
    }
}

/// The world after each of `entities` was removed, in their order.
pub open spec fn despawned_all(w: WorldModel, entities: Seq<u64>) -> WorldModel
    decreases entities.len(),
{
    if entities.len() == 0 {
        w
    } else {
        despawned(despawned_all(w, entities.drop_last()), entities.last())
    }
}

/// The world after a flush: every command in the order it was queued, then
/// every queued removal.
pub open spec fn flushed(w: WorldModel, commands: Seq<Command>, despawns: Seq<u64>) -> WorldModel {
    despawned_all(applied_all(w, commands), despawns)
}

/// Commands waiting for the next flush, in the order they were queued.
pub struct CommandBuffer {
    commands: Vec<Command>,
}

impl View for CommandBuffer {
    type V = Seq<Command>;

    closed spec fn view(&self) -> Seq<Command> {
        self.commands@
    }
}

impl CommandBuffer {
    /// An empty buffer.
    pub fn new() -> (r: CommandBuffer)
        ensures
            r@ == Seq::<Command>::empty(),
    {
        CommandBuffer { commands: Vec::new() }
    }

    /// The number of commands waiting.
    pub fn len(&self) -> (n: usize)
        ensures
            n == self@.len(),
    {
        self.commands.len()
    }

    /// Queues `command` behind the commands that wait already.
    pub fn enqueue_command(&mut self, command: Command)
        ensures
            final(self)@ == old(self)@.push(command),
    {
        self.commands.push(command);
    }

    /// Applies every waiting command to `world`, once, in the order they were
    /// queued, and leaves the buffer empty.
    pub fn run_on(&mut self, world: &mut World)
        ensures
            final(world)@ == applied_all(old(world)@, old(self)@),
            final(self)@ == Seq::<Command>::empty(),
    {
        // The batch is taken out first: whatever is queued from here on
        // belongs to the next flush.
        let mut batch: Vec<Command> = Vec::new();
        std::mem::swap(&mut batch, &mut self.commands);
        let mut i: usize = 0;
        while i < batch.len()
            invariant
                i <= batch@.len(),
                batch@ == old(self)@,
                self.commands@ == Seq::<Command>::empty(),
                world@ == applied_all(old(world)@, batch@.take(i as int)),
            decreases batch@.len() - i,
        {
            proof {
                assert(batch@.take(i + 1).drop_last() =~= batch@.take(i as int));
            }
            match batch[i] {
                Command::Spawn { entity } => {
                    let _ = world.spawn(entity);
                },
                Command::Insert { entity, kind, value } => {
                    let _ = world.insert(entity, kind, value);
                },
                Command::Remove { entity, kind } => {
                    let _ = world.remove(entity, kind);
                },
                Command::Despawn { entity } => {
                    let _ = world.despawn(entity);
                },
            }
            i = i + 1;
        }
        proof {
            assert(batch@.take(i as int) =~= batch@);
        }
    }
}

/// Entities waiting to be removed at the next flush. An entity may wait more
/// than once.
pub struct DespawnQueue {
    entities: Vec<u64>,
}

impl View for DespawnQueue {
    type V = Seq<u64>;

    closed spec fn view(&self) -> Seq<u64> {
        self.entities@
    }
}

impl DespawnQueue {
    /// An empty queue.
    pub fn new() -> (r: DespawnQueue)
        ensures
            r@ == Seq::<u64>::empty(),
    {
        DespawnQueue { entities: Vec::new() }
    }

    /// The number of entries waiting, repeated ones counted each time.
    pub fn len(&self) -> (n: usize)
        ensures
            n == self@.len(),
    {
        self.entities.len()
    }

    /// Queues `entity` for removal.
    pub fn enqueue_despawn(&mut self, entity: u64)
        ensures
            final(self)@ == old(self)@.push(entity),
    {
        self.entities.push(entity);
    }

    /// Removes every waiting entity from `world` and leaves the queue empty.
    pub fn run_on(&mut self, world: &mut World)
        ensures
            final(world)@ == despawned_all(old(world)@, old(self)@),
            final(self)@ == Seq::<u64>::empty(),
    {
        let mut batch: Vec<u64> = Vec::new();
        std::mem::swap(&mut batch, &mut self.entities);
        let mut i: usize = 0;
        while i < batch.len()
            invariant
                i <= batch@.len(),
                batch@ == old(self)@,
                self.entities@ == Seq::<u64>::empty(),
                world@ == despawned_all(old(world)@, batch@.take(i as int)),
            decreases batch@.len() - i,
        {
            proof {
                assert(batch@.take(i + 1).drop_last() =~= batch@.take(i as int));
            }
            let _ = world.despawn(batch[i]);
            i = i + 1;
        }
        proof {
            assert(batch@.take(i as int) =~= batch@);
        }
    }
}

/// The one point of a frame at which deferred changes reach the world: every
/// queued command is applied in the order it was queued, then every queued
/// entity is removed, and both queues are left empty.
pub fn flush(world: &mut World, commands: &mut CommandBuffer, despawns: &mut DespawnQueue)
    ensures
        final(world)@ == flushed(old(world)@, old(commands)@, old(despawns)@),
        final(commands)@ == Seq::<Command>::empty(),
        final(despawns)@ == Seq::<u64>::empty(),
{
    commands.run_on(world);
    despawns.run_on(world);
}

/// Removing a list of entities leaves exactly the entities that the list
/// does not name, each as it was: neither the order of the list nor how often
/// it names an entity matters.
pub proof fn law_despawns_remove_the_named(w: WorldModel, entities: Seq<u64>)
    ensures
        despawned_all(w, entities) == w.remove_keys(entities.to_set()),
    decreases entities.len(),
{
    if entities.len() == 0 {
        assert(entities.to_set() =~= Set::<u64>::empty());
        assert(w.remove_keys(entities.to_set()) =~= w);
    } else {
        let front = entities.drop_last();
        law_despawns_remove_the_named(w, front);
        assert forall|e: u64| entities.to_set().contains(e) == (front.to_set().contains(e) || e
            == entities.last()) by {
            if front.contains(e) {
                let j = choose|j: int| 0 <= j < front.len() && front[j] == e;
                assert(entities[j] == e);
            }
            if e == entities.last() {
                assert(entities[entities.len() - 1] == e);
            }
            if entities.contains(e) && e != entities.last() {
                let j = choose|j: int| 0 <= j < entities.len() && entities[j] == e;
                assert(front[j] == e);
            }
        }
        assert(despawned_all(w, entities) =~= w.remove_keys(entities.to_set()));
    }
}

/// Removing an entity twice is removing it once.
pub proof fn law_despawn_twice_is_despawn_once(w: WorldModel, entity: u64)
    ensures
        despawned(despawned(w, entity), entity) == despawned(w, entity),
        despawned_all(w, seq![entity, entity]) == despawned(w, entity),
        !despawned(w, entity).contains_key(entity),
{
    assert(despawned(despawned(w, entity), entity) =~= despawned(w, entity));
    let twice = seq![entity, entity];
    law_despawns_remove_the_named(w, twice);
    assert(twice[0] == entity);
    assert(twice.to_set() =~= set![entity]);
    assert(w.remove_keys(set![entity]) =~= despawned(w, entity));
}

/// A flush with nothing queued changes nothing: flushing again right after a
/// flush is harmless.
pub proof fn law_flush_of_nothing(w: WorldModel)
    ensures
        flushed(w, Seq::<Command>::empty(), Seq::<u64>::empty()) == w,
{
}

/// A command or a removal that names an entity which is not alive changes
/// nothing, a command that brings the entity to life excepted.
pub proof fn law_stale_entities_are_ignored(w: WorldModel, command: Command)
    ensures
        (match command {
            Command::Spawn { entity } => w.contains_key(entity),
            Command::Insert { entity, .. } => !w.contains_key(entity),
            Command::Remove { entity, .. } => !w.contains_key(entity),
            Command::Despawn { entity } => !w.contains_key(entity),
        }) ==> applied(w, command) == w,
{
    match command {
        Command::Despawn { entity } => {
            if !w.contains_key(entity) {
                assert(despawned(w, entity) =~= w);
            }
        },
        _ => {},
    }
}

} // verus!
