//! The simulation graph: entities, found by identifier, and the component
//! data attached to them.

use std::collections::HashMap;
use vstd::prelude::*;

verus! {

broadcast use vstd::std_specs::hash::group_hash_axioms;

/// What a world holds: for each live entity, the value of each component
/// attached to it, found by the component's kind.
pub type WorldModel = Map<u64, Map<u32, u64>>;

/// The world with `entity` alive. An entity that is alive already keeps its
/// components.
pub open spec fn spawned(w: WorldModel, entity: u64) -> WorldModel {
    if w.contains_key(entity) {
        w
    } else {
        w.insert(entity, Map::<u32, u64>::empty())
    }
}

/// The world without `entity` and its components. Where there is no such
/// entity the world is unchanged.
pub open spec fn despawned(w: WorldModel, entity: u64) -> WorldModel {
    w.remove(entity)
}

/// The world with the component `kind` of `entity` set to `value`. Where
/// there is no such entity the world is unchanged.
pub open spec fn attached(w: WorldModel, entity: u64, kind: u32, value: u64) -> WorldModel {
    if w.contains_key(entity) {
        w.insert(entity, w[entity].insert(kind, value))
    } else {
        w
    }
}

/// The world without the component `kind` of `entity`. Where there is no
/// such entity, or it has no such component, the world is unchanged.
pub open spec fn detached(w: WorldModel, entity: u64, kind: u32) -> WorldModel {
    if w.contains_key(entity) {
        w.insert(entity, w[entity].remove(kind))
    } else {
        w
    }
}

pub struct World {
    entities: HashMap<u64, HashMap<u32, u64>>,
}

impl View for World {
    type V = WorldModel;

    closed spec fn view(&self) -> WorldModel {
        Map::new(
            |entity: u64| self.entities@.contains_key(entity),
            |entity: u64| self.entities@[entity]@,
        )
    }
}

impl World {
    /// A world without entities.
    pub fn new() -> (w: World)
        ensures
            w@ == Map::<u64, Map<u32, u64>>::empty(),
    {
        let w = World { entities: HashMap::new() };
        assert(w@ =~= Map::<u64, Map<u32, u64>>::empty());
        w
    }

    /// The number of live entities.
    pub fn len(&self) -> (n: usize)
        ensures
            n == self@.dom().len(),
            self@.dom().finite(),
    {
        assert(self@.dom() =~= self.entities@.dom());
        self.entities.len()
    }

    /// Whether `entity` is alive.
    pub fn contains(&self, entity: u64) -> (b: bool)
        ensures
            b == self@.contains_key(entity),
    {
        self.entities.contains_key(&entity)
    }

    /// The value of the component `kind` of `entity`, if the entity is alive
    /// and has one.
    pub fn get(&self, entity: u64, kind: u32) -> (r: Option<u64>)
        ensures
            r == (if self@.contains_key(entity) && self@[entity].contains_key(kind) {
                Some(self@[entity][kind])
            } else {
                None
            }),
    {
        match self.entities.get(&entity) {
            Some(components) => match components.get(&kind) {
                Some(value) => Some(*value),
                None => None,
            },
            None => None,
        }
    }

    /// Brings `entity` to life, with no components. The answer says whether
    /// it was created; an entity that is alive already is left as it is.
    pub fn spawn(&mut self, entity: u64) -> (created: bool)
        ensures
            created == !old(self)@.contains_key(entity),
            final(self)@ == spawned(old(self)@, entity),
    {
        if self.entities.contains_key(&entity) {
            false
        } else {
            let _ = self.entities.insert(entity, HashMap::new());
            assert(self@ =~= spawned(old(self)@, entity));
            true
        }
    }

    /// Removes `entity` with all its components. The answer says whether it
    /// was alive; removing an entity that is not alive does nothing.
    pub fn despawn(&mut self, entity: u64) -> (removed: bool)
        ensures
            removed == old(self)@.contains_key(entity),
            final(self)@ == despawned(old(self)@, entity),
    {
        let gone = self.entities.remove(&entity);
        assert(self@ =~= despawned(old(self)@, entity));
        gone.is_some()
    }

    /// Sets the component `kind` of `entity` to `value`, in place of any
    /// value it had. The answer says whether the entity is alive; on an
    /// entity that is not alive this does nothing.
    pub fn insert(&mut self, entity: u64, kind: u32, value: u64) -> (done: bool)
        ensures
            done == old(self)@.contains_key(entity),
            final(self)@ == attached(old(self)@, entity, kind, value),
    {
        match self.entities.remove(&entity) {
            Some(components) => {
                let mut components = components;
                let _ = components.insert(kind, value);
                let _ = self.entities.insert(entity, components);
                assert(self@ =~= attached(old(self)@, entity, kind, value));
                true
            },
            None => {
                assert(self@ =~= old(self)@);
                false
            },
        }
    }

    /// Takes the component `kind` off `entity`. The answer is the value it
    /// had; where the entity is not alive or has no such component this does
    /// nothing.
    pub fn remove(&mut self, entity: u64, kind: u32) -> (taken: Option<u64>)
        ensures
            taken == (if old(self)@.contains_key(entity) && old(self)@[entity].contains_key(kind) {
                Some(old(self)@[entity][kind])
            } else {
                None
            }),
            final(self)@ == detached(old(self)@, entity, kind),
    {
        match self.entities.remove(&entity) {
            Some(components) => {
                let mut components = components;
                let taken = components.remove(&kind);
                let _ = self.entities.insert(entity, components);
                assert(self@ =~= detached(old(self)@, entity, kind));
                taken
            },
            None => {
                assert(self@ =~= old(self)@);
                None
            },
        }
    }
}

} // verus!
