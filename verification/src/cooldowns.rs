//! The cooldown registry: countdown timers found by key.

use vstd::prelude::*;

verus! {

/// The state of one timer.
#[derive(Copy, Clone, Debug, PartialEq, Eq, Structural)]
pub struct Cooldown {
    /// Ticks still to run; it never goes below zero.
    pub remaining: u64,
    /// Set once the timer has run out, and kept until the timer is consumed
    /// or started again.
    pub ready: bool,
}

/// One timer after `delta` ticks have passed: the remaining time goes down by
/// `delta` and stops at zero, and a timer that is at zero is ready.
pub open spec fn tick_one(c: Cooldown, delta: u64) -> Cooldown {
    let remaining = if c.remaining <= delta {
        0u64
    } else {
        (c.remaining - delta) as u64
    };
    Cooldown { remaining, ready: c.ready || remaining == 0 }
}

/// Every timer of `m` after `delta` ticks have passed.
pub open spec fn tick_all(m: Map<u64, Cooldown>, delta: u64) -> Map<u64, Cooldown> {
    Map::new(|k: u64| m.contains_key(k), |k: u64| tick_one(m[k], delta))
}

struct Slot {
    key: u64,
    state: Cooldown,
}

pub struct Cooldowns {
    slots: Vec<Slot>,
}

spec fn holds_key(slots: Seq<Slot>, key: u64) -> bool {
    exists|i: int| 0 <= i < slots.len() && #[trigger] slots[i].key == key
}

spec fn slot_of(slots: Seq<Slot>, key: u64) -> int {
    choose|i: int| 0 <= i < slots.len() && #[trigger] slots[i].key == key
}

spec fn distinct_keys(slots: Seq<Slot>) -> bool {
    forall|i: int, j: int|
        0 <= i < slots.len() && 0 <= j < slots.len() && i != j ==> #[trigger] slots[i].key
            != #[trigger] slots[j].key
}

spec fn as_map(slots: Seq<Slot>) -> Map<u64, Cooldown> {
    Map::new(|k: u64| holds_key(slots, k), |k: u64| slots[slot_of(slots, k)].state)
}

proof fn lemma_slot_found(slots: Seq<Slot>, i: int)
    requires
        distinct_keys(slots),
        0 <= i < slots.len(),
    ensures
        holds_key(slots, slots[i].key),
        slot_of(slots, slots[i].key) == i,
        as_map(slots).contains_key(slots[i].key),
        as_map(slots)[slots[i].key] == slots[i].state,
{
}

impl View for Cooldowns {
    type V = Map<u64, Cooldown>;

    closed spec fn view(&self) -> Map<u64, Cooldown> {
        as_map(self.slots@)
    }
}

impl Cooldowns {
    #[verifier::type_invariant]
    closed spec fn well_formed(&self) -> bool {
        distinct_keys(self.slots@)
    }

    /// A registry without timers.
    pub fn new() -> (r: Cooldowns)
        ensures
            r@ == Map::<u64, Cooldown>::empty(),
    {
        let r = Cooldowns { slots: Vec::new() };
        assert(r@ =~= Map::<u64, Cooldown>::empty());
        r
    }

    /// Where the timer of `key` is kept, if there is one.
    fn find(&self, key: u64) -> (r: Option<usize>)
        ensures
            match r {
                Some(i) => i < self.slots@.len() && self.slots@[i as int].key == key,
                None => !holds_key(self.slots@, key),
            },
    {
        let mut i: usize = 0;
        while i < self.slots.len()
            invariant
                i <= self.slots@.len(),
                forall|j: int| 0 <= j < i ==> self.slots@[j].key != key,
            decreases self.slots@.len() - i,
        {
            if self.slots[i].key == key {
                return Some(i);
            }
            i = i + 1;
        }
        None
    }

    /// The number of timers, running or ready.
    pub fn len(&self) -> (n: usize)
        ensures
            n == self@.dom().len(),
            self@.dom().finite(),
    {
        proof {
            use_type_invariant(self);
            lemma_domain_size(self.slots@);
        }
        self.slots.len()
    }

    /// Whether a timer of `key` exists.
    pub fn contains(&self, key: u64) -> (b: bool)
        ensures
            b == self@.contains_key(key),
    {
        self.find(key).is_some()
    }

    /// The state of the timer of `key`, if there is one.
    pub fn get(&self, key: u64) -> (r: Option<Cooldown>)
        ensures
            r == (if self@.contains_key(key) {
                Some(self@[key])
            } else {
                None
            }),
    {
        proof {
            use_type_invariant(self);
        }
        match self.find(key) {
            Some(i) => {
                proof {
                    lemma_slot_found(self.slots@, i as int);
                }
                Some(self.slots[i].state)
            },
            None => None,
        }
    }

    /// The ticks that the timer of `key` still has to run; zero where there
    /// is no such timer.
    pub fn remaining(&self, key: u64) -> (r: u64)
        ensures
            r == (if self@.contains_key(key) {
                self@[key].remaining
            } else {
                0
            }),
    {
        match self.get(key) {
            Some(c) => c.remaining,
            None => 0,
        }
    }

    /// Whether the timer of `key` has run out and was not consumed since. A
    /// key without a timer is not ready.
    pub fn is_ready(&self, key: u64) -> (b: bool)
        ensures
            b == (self@.contains_key(key) && self@[key].ready),
    {
        match self.get(key) {
            Some(c) => c.ready,
            None => false,
        }
    }

    /// Starts the timer of `key` with `duration` ticks to run. A timer that
    /// already exists under `key` is overwritten, whatever state it was in.
    pub fn start(&mut self, key: u64, duration: u64)
        ensures
            final(self)@ == old(self)@.insert(key, Cooldown { remaining: duration, ready: false }),
    {
        proof {
            use_type_invariant(&*self);
        }
        let fresh = Slot { key, state: Cooldown { remaining: duration, ready: false } };
        let found = self.find(key);
        let mut slots: Vec<Slot> = Vec::new();
        std::mem::swap(&mut slots, &mut self.slots);
        match found {
            Some(i) => {
                proof {
                    lemma_replace(slots@, i as int, fresh);
                }
                slots.set(i, fresh);
            },
            None => {
                proof {
                    lemma_append(slots@, fresh);
                }
                slots.push(fresh);
            },
        }
        self.slots = slots;
    }

    /// Uses up the readiness of the timer of `key`: where the timer is ready
    /// it is taken out of the registry and the answer is `true`. A timer that
    /// is still running is left to run, a key without a timer changes
    /// nothing, and the answer is `false`.
    pub fn consume(&mut self, key: u64) -> (used: bool)
        ensures
            used == (old(self)@.contains_key(key) && old(self)@[key].ready),
            used ==> final(self)@ == old(self)@.remove(key),
            !used ==> final(self)@ == old(self)@,
    {
        proof {
            use_type_invariant(&*self);
        }
        match self.find(key) {
            Some(i) => {
                proof {
                    lemma_slot_found(self.slots@, i as int);
                }
                if self.slots[i].state.ready {
                    let mut slots: Vec<Slot> = Vec::new();
                    std::mem::swap(&mut slots, &mut self.slots);
                    proof {
                        lemma_take_out(slots@, i as int);
                    }
                    let _ = slots.remove(i);
                    self.slots = slots;
                    true
                } else {
                    false
                }
            },
            None => false,
        }
    }

    /// Lets `delta` ticks pass for every timer: each remaining time goes down
    /// by `delta` and stops at zero, and every timer that is at zero
    /// afterwards is ready.
    pub fn tick(&mut self, delta: u64)
        ensures
            final(self)@ == tick_all(old(self)@, delta),
    {
        proof {
            use_type_invariant(&*self);
        }
        let mut slots: Vec<Slot> = Vec::new();
        std::mem::swap(&mut slots, &mut self.slots);
        let ghost before = slots@;
        let mut i: usize = 0;
        while i < slots.len()
            invariant
                i <= slots@.len(),
                slots@.len() == before.len(),
                forall|j: int| 0 <= j < slots@.len() ==> #[trigger] slots@[j].key == before[j].key,
                forall|j: int|
                    0 <= j < i ==> #[trigger] slots@[j].state == tick_one(before[j].state, delta),
                forall|j: int| i <= j < slots@.len() ==> #[trigger] slots@[j].state == before[j].state,
            decreases slots@.len() - i,
        {
            let key: u64 = slots[i].key;
            let was = slots[i].state;
            let remaining: u64 = if was.remaining <= delta {
                0
            } else {
                was.remaining - delta
            };
            let now = Cooldown { remaining, ready: was.ready || remaining == 0 };
            slots.set(i, Slot { key, state: now });
            i = i + 1;
        }
        proof {
            lemma_ticked(before, slots@, delta);
        }
        self.slots = slots;
    }
}

/// One timer after each of `deltas` has passed in turn.
pub open spec fn tick_through(c: Cooldown, deltas: Seq<u64>) -> Cooldown
    decreases deltas.len(),
{
    if deltas.len() == 0 {
        c
    } else {
        tick_one(tick_through(c, deltas.drop_last()), deltas.last())
    }
}

/// The time that `deltas` add up to.
pub open spec fn elapsed(deltas: Seq<u64>) -> int
    decreases deltas.len(),
{
    if deltas.len() == 0 {
        0
    } else {
        elapsed(deltas.drop_last()) + deltas.last()
    }
}

/// A ready timer stays ready however much more time passes, a pass of no
/// time at all included: only consuming or restarting it takes readiness away.
pub proof fn law_ready_persists(c: Cooldown, deltas: Seq<u64>)
    requires
        c.ready,
    ensures
        tick_through(c, deltas).ready,
    decreases deltas.len(),
{
    if deltas.len() > 0 {
        law_ready_persists(c, deltas.drop_last());
    }
}

/// A timer started with `duration` ticks has, after any number of ticks,
/// what is left of `duration` once the elapsed time is taken off, and not
/// less than zero; after at least one tick it is ready exactly when the
/// elapsed time has reached `duration`.
pub proof fn law_ready_when_time_is_up(duration: u64, deltas: Seq<u64>)
    ensures
        elapsed(deltas) >= 0,
        tick_through(Cooldown { remaining: duration, ready: false }, deltas).remaining == (if elapsed(
            deltas,
        ) >= duration {
            0
        } else {
            duration - elapsed(deltas)
        }),
        deltas.len() > 0 ==> (tick_through(
            Cooldown { remaining: duration, ready: false },
            deltas,
        ).ready <==> elapsed(deltas) >= duration),
    decreases deltas.len(),
{
    if deltas.len() > 0 {
        law_ready_when_time_is_up(duration, deltas.drop_last());
    }
}

/// Ticking the registry ticks each timer on its own: no timer is added, none
/// is lost, and the timer of `key` is what `tick_one` makes of it.
pub proof fn law_tick_is_per_timer(m: Map<u64, Cooldown>, delta: u64, key: u64)
    ensures
        tick_all(m, delta).contains_key(key) == m.contains_key(key),
        m.contains_key(key) ==> tick_all(m, delta)[key] == tick_one(m[key], delta),
{
}

proof fn lemma_replace(before: Seq<Slot>, i: int, fresh: Slot)
    requires
        distinct_keys(before),
        0 <= i < before.len(),
        before[i].key == fresh.key,
    ensures
        distinct_keys(before.update(i, fresh)),
        as_map(before.update(i, fresh)) == as_map(before).insert(fresh.key, fresh.state),
{
    let after = before.update(i, fresh);
    assert forall|a: int, b: int|
        0 <= a < after.len() && 0 <= b < after.len() && a != b implies #[trigger] after[a].key
        != #[trigger] after[b].key by {
        assert(after[a].key == before[a].key && after[b].key == before[b].key);
    }
    let want = as_map(before).insert(fresh.key, fresh.state);
    assert forall|k: u64| as_map(after).contains_key(k) == want.contains_key(k) by {
        if holds_key(before, k) {
            assert(after[slot_of(before, k)].key == k);
        }
        if k == fresh.key {
            assert(after[i].key == k);
        }
        if holds_key(after, k) {
            assert(before[slot_of(after, k)].key == k);
        }
    }
    assert forall|k: u64| as_map(after).contains_key(k) implies #[trigger] as_map(after)[k]
        == want[k] by {
        let j = slot_of(after, k);
        lemma_slot_found(after, j);
        if k != fresh.key {
            assert(before[j].key == k);
            lemma_slot_found(before, j);
        }
    }
    assert(as_map(after) =~= want);
}

proof fn lemma_append(before: Seq<Slot>, fresh: Slot)
    requires
        distinct_keys(before),
        !holds_key(before, fresh.key),
    ensures
        distinct_keys(before.push(fresh)),
        as_map(before.push(fresh)) == as_map(before).insert(fresh.key, fresh.state),
{
    let after = before.push(fresh);
    assert forall|a: int, b: int|
        0 <= a < after.len() && 0 <= b < after.len() && a != b implies #[trigger] after[a].key
        != #[trigger] after[b].key by {
        if a < before.len() {
            assert(before[a].key == after[a].key);
        }
        if b < before.len() {
            assert(before[b].key == after[b].key);
        }
    }
    let want = as_map(before).insert(fresh.key, fresh.state);
    assert forall|k: u64| as_map(after).contains_key(k) == want.contains_key(k) by {
        if holds_key(before, k) {
            assert(after[slot_of(before, k)].key == k);
        }
        if k == fresh.key {
            assert(after[before.len() as int].key == k);
        }
        if holds_key(after, k) && k != fresh.key {
            assert(before[slot_of(after, k)].key == k);
        }
    }
    assert forall|k: u64| as_map(after).contains_key(k) implies #[trigger] as_map(after)[k]
        == want[k] by {
        let j = slot_of(after, k);
        lemma_slot_found(after, j);
        if k != fresh.key {
            assert(before[j].key == k);
            lemma_slot_found(before, j);
        }
    }
    assert(as_map(after) =~= want);
}

proof fn lemma_take_out(before: Seq<Slot>, i: int)
    requires
        distinct_keys(before),
        0 <= i < before.len(),
    ensures
        distinct_keys(before.remove(i)),
        as_map(before.remove(i)) == as_map(before).remove(before[i].key),
{
    let after = before.remove(i);
    let gone = before[i].key;
    // where slot `a` of `after` stood in `before`
    let origin = |a: int| if a < i { a } else { a + 1 };
    assert forall|a: int| 0 <= a < after.len() implies #[trigger] after[a] == before[origin(a)] by {}
    assert forall|a: int, b: int|
        0 <= a < after.len() && 0 <= b < after.len() && a != b implies #[trigger] after[a].key
        != #[trigger] after[b].key by {
        assert(after[a] == before[origin(a)] && after[b] == before[origin(b)]);
    }
    let want = as_map(before).remove(gone);
    assert forall|k: u64| as_map(after).contains_key(k) == want.contains_key(k) by {
        if holds_key(before, k) && k != gone {
            let j = slot_of(before, k);
            let a = if j < i { j } else { j - 1 };
            assert(after[a] == before[origin(a)]);
            assert(after[a].key == k);
        }
        if holds_key(after, k) {
            let a = slot_of(after, k);
            assert(after[a] == before[origin(a)]);
            assert(before[origin(a)].key == k);
        }
    }
    assert forall|k: u64| as_map(after).contains_key(k) implies #[trigger] as_map(after)[k]
        == want[k] by {
        let a = slot_of(after, k);
        lemma_slot_found(after, a);
        assert(after[a] == before[origin(a)]);
        lemma_slot_found(before, origin(a));
    }
    assert(as_map(after) =~= want);
}

proof fn lemma_ticked(before: Seq<Slot>, after: Seq<Slot>, delta: u64)
    requires
        distinct_keys(before),
        after.len() == before.len(),
        forall|j: int| 0 <= j < after.len() ==> #[trigger] after[j].key == before[j].key,
        forall|j: int|
            0 <= j < after.len() ==> #[trigger] after[j].state == tick_one(before[j].state, delta),
    ensures
        distinct_keys(after),
        as_map(after) == tick_all(as_map(before), delta),
{
    let want = tick_all(as_map(before), delta);
    assert forall|k: u64| as_map(after).contains_key(k) == want.contains_key(k) by {
        if holds_key(before, k) {
            assert(after[slot_of(before, k)].key == k);
        }
        if holds_key(after, k) {
            assert(before[slot_of(after, k)].key == k);
        }
    }
    assert forall|k: u64| as_map(after).contains_key(k) implies #[trigger] as_map(after)[k]
        == want[k] by {
        let j = slot_of(after, k);
        lemma_slot_found(after, j);
        assert(before[j].key == k);
        lemma_slot_found(before, j);
    }
    assert(as_map(after) =~= want);
}

/// With distinct keys there are as many keys as slots.
proof fn lemma_domain_size(slots: Seq<Slot>)
    requires
        distinct_keys(slots),
    ensures
        as_map(slots).dom().finite(),
        as_map(slots).dom().len() == slots.len(),
    decreases slots.len(),
{
    if slots.len() == 0 {
        assert(as_map(slots).dom() =~= Set::<u64>::empty());
    } else {
        let front = slots.drop_last();
        let last = slots.last();
        lemma_domain_size(front);
        assert(!holds_key(front, last.key)) by {
            if holds_key(front, last.key) {
                let j = slot_of(front, last.key);
                assert(slots[j].key == slots[slots.len() - 1].key);
            }
        }
        assert forall|k: u64| holds_key(slots, k) == (holds_key(front, k) || k == last.key) by {
            if holds_key(front, k) {
                let j = slot_of(front, k);
                assert(slots[j].key == k);
            }
            if k == last.key {
                assert(slots[slots.len() - 1].key == k);
            }
            if holds_key(slots, k) && k != last.key {
                let j = slot_of(slots, k);
                assert(front[j].key == k);
            }
        }
        assert(as_map(slots).dom() =~= as_map(front).dom().insert(last.key));
    }
}

} // verus!
