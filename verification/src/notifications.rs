//! The notification queue: short-lived messages, each with a time at which
//! it expires.

use vstd::prelude::*;

verus! {

/// A queued message and the time at which it stops being shown.
pub struct Notification {
    pub message: String,
    /// The first tick at which the message is no longer visible: the time of
    /// insertion plus the lifetime.
    pub expiry: u128,
}

/// Whether a message that expires at `expiry` is shown at time `now`: from
/// its insertion up to, but not at, its expiry.
pub open spec fn visible_at(expiry: u128, now: u64) -> bool {
    now < expiry
}

/// The entries of `entries` that are visible at `now`, in their order.
pub open spec fn still_visible(entries: Seq<Notification>, now: u64) -> Seq<Notification>
    decreases entries.len(),
{
    if entries.len() == 0 {
        entries
    } else if visible_at(entries.last().expiry, now) {
        still_visible(entries.drop_last(), now).push(entries.last())
    } else {
        still_visible(entries.drop_last(), now)
    }
}

/// Whether the entries expire in the order in which they were inserted.
pub open spec fn expiries_ascend(entries: Seq<Notification>) -> bool {
    forall|i: int, j: int|
        0 <= i <= j < entries.len() ==> (#[trigger] entries[i]).expiry <= (
        #[trigger] entries[j]).expiry
}

pub struct Notifications {
    now: u64,
    entries: Vec<Notification>,
}

impl View for Notifications {
    type V = Seq<Notification>;

    closed spec fn view(&self) -> Seq<Notification> {
        self.entries@
    }
}

impl Notifications {
    /// The time of the latest drain, which is the insertion time of the
    /// messages pushed next.
    pub closed spec fn spec_now(&self) -> u64 {
        self.now
    }

    /// An empty queue at time zero.
    pub fn new() -> (r: Notifications)
        ensures
            r@ == Seq::<Notification>::empty(),
            r.spec_now() == 0,
    {
        Notifications { now: 0, entries: Vec::new() }
    }

    #[verifier::when_used_as_spec(spec_now)]
    pub fn now(&self) -> (t: u64)
        ensures
            t == self.spec_now(),
    {
        self.now
    }

    /// The number of queued messages, expired ones that were not drained yet
    /// included.
    pub fn len(&self) -> (n: usize)
        ensures
            n == self@.len(),
    {
        self.entries.len()
    }

    /// Queues `message` behind the others, to be shown for `lifetime` ticks
    /// from the current time on.
    pub fn push(&mut self, message: String, lifetime: u64)
        ensures
            final(self).spec_now() == old(self).spec_now(),
            final(self)@ == old(self)@.push(
                (Notification { message, expiry: (old(self).spec_now() + lifetime) as u128 }),
            ),
    {
        let expiry: u128 = self.now as u128 + lifetime as u128;
        self.entries.push(Notification { message, expiry });
    }

    /// Moves the queue to time `now`: drops every message that has expired
    /// by then, keeps the others in their order, and returns the messages
    /// that were kept.
    pub fn drain_visible(&mut self, now: u64) -> (shown: Vec<String>)
        ensures
            final(self).spec_now() == now,
            final(self)@ == still_visible(old(self)@, now),
            shown@.len() == final(self)@.len(),
            forall|i: int| 0 <= i < shown@.len() ==> #[trigger] shown@[i]@ == final(self)@[i].message@,
    {
        let mut kept: Vec<Notification> = Vec::new();
        let mut shown: Vec<String> = Vec::new();
        let mut i: usize = 0;
        while i < self.entries.len()
            invariant
                i <= self.entries@.len(),
                self.entries@ == old(self).entries@,
                kept@ == still_visible(self.entries@.take(i as int), now),
                shown@.len() == kept@.len(),
                forall|j: int| 0 <= j < shown@.len() ==> #[trigger] shown@[j]@ == kept@[j].message@,
            decreases self.entries@.len() - i,
        {
            proof {
                assert(self.entries@.take(i + 1).drop_last() =~= self.entries@.take(i as int));
            }
            if (now as u128) < self.entries[i].expiry {
                let message = self.entries[i].message.clone();
                let copy = self.entries[i].message.clone();
                kept.push(Notification { message, expiry: self.entries[i].expiry });
                shown.push(copy);
                proof {
                    assert(kept@.last() == self.entries@[i as int]);
                }
            }
            i = i + 1;
        }
        proof {
            assert(self.entries@.take(i as int) =~= self.entries@);
        }
        self.entries = kept;
        self.now = now;
        shown
    }
}

/// Draining keeps nothing but visible messages, and loses none of them.
pub proof fn law_drain_keeps_the_visible(entries: Seq<Notification>, now: u64)
    ensures
        still_visible(entries, now).len() <= entries.len(),
        forall|i: int|
            0 <= i < still_visible(entries, now).len() ==> visible_at(
                #[trigger] still_visible(entries, now)[i].expiry,
                now,
            ),
        forall|i: int|
            0 <= i < entries.len() && visible_at(entries[i].expiry, now) ==> still_visible(
                entries,
                now,
            ).contains(#[trigger] entries[i]),
    decreases entries.len(),
{
    if entries.len() > 0 {
        let front = entries.drop_last();
        law_drain_keeps_the_visible(front, now);
        let kept = still_visible(entries, now);
        assert forall|i: int| 0 <= i < entries.len() && visible_at(entries[i].expiry, now)
            implies kept.contains(#[trigger] entries[i]) by {
            if i < front.len() {
                assert(front[i] == entries[i]);
                let j = choose|j: int|
                    0 <= j < still_visible(front, now).len() && still_visible(front, now)[j]
                        == front[i];
                assert(kept[j] == entries[i]);
            } else {
                assert(kept[kept.len() - 1] == entries[i]);
            }
        }
    }
}

/// A queue whose messages expire in the order of their insertion stays so:
/// a drain never disturbs the order, and a push keeps it as long as the new
/// message does not expire before the one inserted last. Messages that all
/// get the same lifetime, pushed as time goes on, are such a queue.
pub proof fn law_order_of_expiry_is_kept(entries: Seq<Notification>, next: Notification, now: u64)
    requires
        expiries_ascend(entries),
    ensures
        expiries_ascend(still_visible(entries, now)),
        entries.len() == 0 || entries.last().expiry <= next.expiry ==> expiries_ascend(
            entries.push(next),
        ),
    decreases entries.len(),
{
    if entries.len() > 0 {
        let front = entries.drop_last();
        assert(expiries_ascend(front)) by {
            assert forall|i: int, j: int| 0 <= i <= j < front.len() implies (
            #[trigger] front[i]).expiry <= (#[trigger] front[j]).expiry by {
                assert(entries[i].expiry <= entries[j].expiry);
            }
        }
        law_order_of_expiry_is_kept(front, next, now);
        law_drain_keeps_the_visible(front, now);
        lemma_kept_were_queued(front, now);
        let kept = still_visible(entries, now);
        let kept_front = still_visible(front, now);
        assert forall|i: int, j: int| 0 <= i <= j < kept.len() implies (#[trigger] kept[i]).expiry
            <= (#[trigger] kept[j]).expiry by {
            if j < kept_front.len() {
                assert(kept_front[i].expiry <= kept_front[j].expiry);
            } else if i < kept_front.len() {
                let k = choose|k: int| 0 <= k < front.len() && front[k] == kept_front[i];
                assert(entries[k].expiry <= entries[entries.len() - 1].expiry);
            }
        }
    }
    if entries.len() == 0 || entries.last().expiry <= next.expiry {
        let grown = entries.push(next);
        assert forall|i: int, j: int| 0 <= i <= j < grown.len() implies (#[trigger] grown[i]).expiry
            <= (#[trigger] grown[j]).expiry by {
            if j < entries.len() {
                assert(entries[i].expiry <= entries[j].expiry);
            } else if i < entries.len() {
                assert(entries[i].expiry <= entries[entries.len() - 1].expiry);
            }
        }
    }
}

/// Every message that a drain keeps was in the queue before.
proof fn lemma_kept_were_queued(entries: Seq<Notification>, now: u64)
    ensures
        forall|k: int|
            0 <= k < still_visible(entries, now).len() ==> exists|i: int|
                0 <= i < entries.len() && entries[i] == #[trigger] still_visible(entries, now)[k],
    decreases entries.len(),
{
    if entries.len() > 0 {
        let front = entries.drop_last();
        lemma_kept_were_queued(front, now);
        let kept = still_visible(entries, now);
        let kept_front = still_visible(front, now);
        assert forall|k: int| 0 <= k < kept.len() implies exists|i: int|
            0 <= i < entries.len() && entries[i] == #[trigger] kept[k] by {
            if k < kept_front.len() {
                let i = choose|i: int| 0 <= i < front.len() && front[i] == kept_front[k];
                assert(entries[i] == kept[k]);
            } else {
                assert(entries[entries.len() - 1] == kept[k]);
            }
        }
    }
}

/// A message pushed at time `pushed_at` with `lifetime` ticks to live is
/// still in the queue after a drain at time `now` exactly when `now` is
/// before `pushed_at + lifetime`.
pub proof fn law_visible_for_its_lifetime(
    entries: Seq<Notification>,
    message: String,
    pushed_at: u64,
    lifetime: u64,
    now: u64,
)
    ensures
        ({
            let note = Notification { message, expiry: (pushed_at + lifetime) as u128 };
            let kept = still_visible(entries.push(note), now);
            if now < pushed_at + lifetime {
                kept.len() > 0 && kept.last() == note
            } else {
                kept == still_visible(entries, now)
            }
        }),
{
    let note = Notification { message, expiry: (pushed_at + lifetime) as u128 };
    assert(entries.push(note).drop_last() =~= entries);
}

/// A drain at the time of the last drain changes nothing.
pub proof fn law_drain_twice_is_drain_once(entries: Seq<Notification>, now: u64)
    ensures
        still_visible(still_visible(entries, now), now) == still_visible(entries, now),
    decreases entries.len(),
{
    if entries.len() > 0 {
        law_drain_twice_is_drain_once(entries.drop_last(), now);
        if visible_at(entries.last().expiry, now) {
            let once = still_visible(entries, now);
            assert(once.drop_last() =~= still_visible(entries.drop_last(), now));
        }
    }
}

} // verus!
