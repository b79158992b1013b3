//! Rolling statistics over the most recent samples.

use std::collections::VecDeque;
use vstd::prelude::*;

verus! {

/// The window after `value` came in: the new sample goes to the back, and
/// the oldest sample leaves where the window would otherwise hold more than
/// `capacity` samples.
pub open spec fn pushed(window: Seq<u64>, value: u64, capacity: usize) -> Seq<u64> {
    if window.len() + 1 > capacity {
        window.push(value).drop_first()
    } else {
        window.push(value)
    }
}

/// The sum of the samples.
pub open spec fn sum_of(samples: Seq<u64>) -> int
    decreases samples.len(),
{
    if samples.len() == 0 {
        0
    } else {
        sum_of(samples.drop_last()) + samples.last()
    }
}

/// Whether `m` is the smallest of the samples.
pub open spec fn is_min_of(m: u64, samples: Seq<u64>) -> bool {
    &&& samples.contains(m)
    &&& forall|i: int| 0 <= i < samples.len() ==> m <= #[trigger] samples[i]
}

/// Whether `m` is the largest of the samples.
pub open spec fn is_max_of(m: u64, samples: Seq<u64>) -> bool {
    &&& samples.contains(m)
    &&& forall|i: int| 0 <= i < samples.len() ==> m >= #[trigger] samples[i]
}

/// The last `capacity` samples of a series, oldest first.
pub struct MovingStats {
    capacity: usize,
    window: VecDeque<u64>,
}

impl View for MovingStats {
    type V = Seq<u64>;

    closed spec fn view(&self) -> Seq<u64> {
        self.window@
    }
}

impl MovingStats {
    #[verifier::type_invariant]
    closed spec fn well_formed(&self) -> bool {
        self.window@.len() <= self.capacity
    }

    pub closed spec fn spec_capacity(&self) -> usize {
        self.capacity
    }

    /// An empty window that will hold up to `capacity` samples.
    pub fn new(capacity: usize) -> (r: MovingStats)
        ensures
            r@ == Seq::<u64>::empty(),
            r.spec_capacity() == capacity,
    {
        MovingStats { capacity, window: VecDeque::new() }
    }

    #[verifier::when_used_as_spec(spec_capacity)]
    pub fn capacity(&self) -> (r: usize)
        ensures
            r == self.spec_capacity(),
    {
        self.capacity
    }

    /// The number of samples in the window, never above the capacity.
    pub fn len(&self) -> (n: usize)
        ensures
            n == self@.len(),
            n <= self.spec_capacity(),
    {
        proof {
            use_type_invariant(self);
        }
        self.window.len()
    }

    /// Takes in the next sample of the series.
    pub fn next(&mut self, value: u64)
        ensures
            final(self).spec_capacity() == old(self).spec_capacity(),
            final(self)@ == pushed(old(self)@, value, old(self).spec_capacity()),
    {
        proof {
            use_type_invariant(&*self);
        }
        let mut window: VecDeque<u64> = VecDeque::new();
        std::mem::swap(&mut window, &mut self.window);
        if window.len() >= self.capacity {
            // The window is full: the oldest sample makes room. A window of
            // capacity zero has none to give up and takes none in.
            let _ = window.pop_front();
            if self.capacity > 0 {
                window.push_back(value);
            }
        } else {
            window.push_back(value);
        }
        assert(window@ =~= pushed(old(self)@, value, self.capacity));
        self.window = window;
    }

    /// The mean of the samples in the window, rounded down; `None` while the
    /// window is empty.
    pub fn mean(&self) -> (r: Option<u64>)
        ensures
            self@.len() == 0 ==> r.is_none(),
            self@.len() > 0 ==> r == Some((sum_of(self@) / (self@.len() as int)) as u64),
            self@.len() > 0 ==> 0 <= sum_of(self@) / (self@.len() as int) <= u64::MAX,
    {
        let n: usize = self.window.len();
        if n == 0 {
            return None;
        }
        let mut sum: u128 = 0;
        let mut i: usize = 0;
        while i < n
            invariant
                n == self.window@.len(),
                i <= n,
                sum == sum_of(self.window@.take(i as int)),
                sum <= i * 0xffff_ffff_ffff_ffff,
            decreases n - i,
        {
            proof {
                assert(self.window@.take(i + 1).drop_last() =~= self.window@.take(i as int));
            }
            sum = sum + self.window[i] as u128;
            i = i + 1;
        }
        proof {
            assert(self.window@.take(n as int) =~= self.window@);
            lemma_mean_fits(sum as int, n as int);
        }
        Some((sum / n as u128) as u64)
    }

    /// The smallest sample in the window; `None` while the window is empty.
    pub fn min(&self) -> (r: Option<u64>)
        ensures
            match r {
                Some(m) => is_min_of(m, self@),
                None => self@.len() == 0,
            },
    {
        let n: usize = self.window.len();
        if n == 0 {
            return None;
        }
        let mut best: u64 = self.window[0];
        let mut i: usize = 1;
        while i < n
            invariant
                n == self.window@.len(),
                1 <= i <= n,
                exists|j: int| 0 <= j < i && self.window@[j] == best,
                forall|j: int| 0 <= j < i ==> best <= #[trigger] self.window@[j],
            decreases n - i,
        {
            if self.window[i] < best {
                best = self.window[i];
            }
            i = i + 1;
        }
        Some(best)
    }

    /// The largest sample in the window; `None` while the window is empty.
    pub fn max(&self) -> (r: Option<u64>)
        ensures
            match r {
                Some(m) => is_max_of(m, self@),
                None => self@.len() == 0,
            },
    {
        let n: usize = self.window.len();
        if n == 0 {
            return None;
        }
        let mut best: u64 = self.window[0];
        let mut i: usize = 1;
        while i < n
            invariant
                n == self.window@.len(),
                1 <= i <= n,
                exists|j: int| 0 <= j < i && self.window@[j] == best,
                forall|j: int| 0 <= j < i ==> best >= #[trigger] self.window@[j],
            decreases n - i,
        {
            if self.window[i] > best {
                best = self.window[i];
            }
            i = i + 1;
        }
        Some(best)
    }
}

/// The mean of `n` samples of 64 bits fits in 64 bits.
proof fn lemma_mean_fits(sum: int, n: int)
    requires
        n > 0,
        0 <= sum <= n * 0xffff_ffff_ffff_ffff,
    ensures
        0 <= sum / n <= 0xffff_ffff_ffff_ffff,
{
    vstd::arithmetic::div_mod::lemma_div_pos_is_pos(sum, n);
    vstd::arithmetic::div_mod::lemma_div_is_ordered(sum, n * 0xffff_ffff_ffff_ffff, n);
    vstd::arithmetic::div_mod::lemma_div_multiples_vanish(0xffff_ffff_ffff_ffff, n);
}

/// However many samples come in, the window never holds more than its
/// capacity, and the newest sample is at the back of a window that has room
/// for any.
pub proof fn law_window_is_bounded(window: Seq<u64>, value: u64, capacity: usize)
    requires
        window.len() <= capacity,
    ensures
        pushed(window, value, capacity).len() <= capacity,
        capacity > 0 ==> pushed(window, value, capacity).last() == value,
        window.len() < capacity ==> pushed(window, value, capacity) == window.push(value),
{
}

} // verus!
