//! The frame clock: a fixed-timestep accumulator.
//!
//! Real time arrives in uneven frame deltas; the simulation advances in
//! steps of one fixed size. The clock collects the deltas and says, frame by
//! frame, how many whole steps are due and what fraction of a step is left.

use vstd::prelude::*;

verus! {

/// The frame delta that is actually accumulated: a negative delta (the wall
/// clock went backward) counts as no time at all, and a delta above
/// `max_delta` (a debugger pause, a suspended machine) counts as `max_delta`.
pub open spec fn clamp_delta(real_delta: int, max_delta: int) -> int {
    if real_delta < 0 {
        0
    } else if real_delta > max_delta {
        max_delta
    } else {
        real_delta
    }
}

/// The number of steps run for `total` ticks of accumulated time: every whole
/// step that fits, but never more than `max_steps` in one frame.
pub open spec fn steps_due(total: int, fixed_step: int, max_steps: int) -> int {
    if total / fixed_step > max_steps {
        max_steps
    } else {
        total / fixed_step
    }
}

/// The time carried to the next frame: what is left of `total` after all whole
/// steps are taken out. Whole steps beyond the per-frame limit are dropped,
/// not queued, so the carry is below one step in every case.
pub open spec fn carry_over(total: int, fixed_step: int) -> int {
    total % fixed_step
}

/// The time from `previous` to `now` as a frame delta: negative where the
/// wall clock went backward, and held to the range of a signed delta.
pub open spec fn signed_span(previous: u64, now: u64) -> int {
    if now - previous > i64::MAX {
        i64::MAX as int
    } else if now - previous < i64::MIN {
        i64::MIN as int
    } else {
        now - previous
    }
}

/// What one call of [`FrameClock::advance`] reports.
#[derive(Copy, Clone, Debug, PartialEq, Eq, Structural)]
pub struct Advance {
    /// How many fixed steps to run this frame.
    pub steps: u32,
    /// Ticks left in the accumulator, below one fixed step. Divided by the
    /// fixed step it is the interpolation factor between the last two
    /// simulation states.
    pub remainder: u64,
}

/// Why a clock cannot be built.
#[derive(Copy, Clone, Debug, PartialEq, Eq, Structural)]
pub enum ClockError {
    /// The fixed step is zero ticks long.
    ZeroStep,
}

pub struct FrameClock {
    fixed_step: u64,
    max_delta: u64,
    max_steps: u32,
    accumulator: u64,
    previous_time: u64,
}

impl FrameClock {
    #[verifier::type_invariant]
    pub closed spec fn well_formed(&self) -> bool {
        &&& self.fixed_step > 0
        &&& self.accumulator < self.fixed_step
    }

    pub closed spec fn spec_fixed_step(&self) -> u64 {
        self.fixed_step
    }

    pub closed spec fn spec_max_delta(&self) -> u64 {
        self.max_delta
    }

    pub closed spec fn spec_max_steps(&self) -> u32 {
        self.max_steps
    }

    pub closed spec fn spec_accumulator(&self) -> u64 {
        self.accumulator
    }

    pub closed spec fn spec_previous_time(&self) -> u64 {
        self.previous_time
    }

    /// A clock with an empty accumulator. `fixed_step` is the length of one
    /// simulation step, `max_delta` the longest frame delta that is taken at
    /// face value, `max_steps` the most steps run in one frame, and `now` the
    /// wall time at which the clock starts.
    pub fn new(fixed_step: u64, max_delta: u64, max_steps: u32, now: u64) -> (r: Result<
        FrameClock,
        ClockError,
    >)
        ensures
            fixed_step == 0 <==> r is Err,
            r is Err ==> r == Err::<FrameClock, ClockError>(ClockError::ZeroStep),
            r matches Ok(c) ==> {
                &&& c.spec_fixed_step() == fixed_step
                &&& c.spec_max_delta() == max_delta
                &&& c.spec_max_steps() == max_steps
                &&& c.spec_accumulator() == 0
                &&& c.spec_previous_time() == now
            },
    {
        if fixed_step == 0 {
            Err(ClockError::ZeroStep)
        } else {
            Ok(FrameClock { fixed_step, max_delta, max_steps, accumulator: 0, previous_time: now })
        }
    }

    #[verifier::when_used_as_spec(spec_fixed_step)]
    pub fn fixed_step(&self) -> (r: u64)
        ensures
            r == self.spec_fixed_step(),
            r > 0,
    {
        proof {
            use_type_invariant(self);
        }
        self.fixed_step
    }

    #[verifier::when_used_as_spec(spec_accumulator)]
    pub fn accumulator(&self) -> (r: u64)
        ensures
            r == self.spec_accumulator(),
            r < self.spec_fixed_step(),
    {
        proof {
            use_type_invariant(self);
        }
        self.accumulator
    }

    #[verifier::when_used_as_spec(spec_max_delta)]
    pub fn max_delta(&self) -> (r: u64)
        ensures
            r == self.spec_max_delta(),
    {
        self.max_delta
    }

    #[verifier::when_used_as_spec(spec_max_steps)]
    pub fn max_steps(&self) -> (r: u32)
        ensures
            r == self.spec_max_steps(),
    {
        self.max_steps
    }

    #[verifier::when_used_as_spec(spec_previous_time)]
    pub fn previous_time(&self) -> (r: u64)
        ensures
            r == self.spec_previous_time(),
    {
        self.previous_time
    }

    /// The interpolation factor between the last two simulation states, in
    /// millionths: the accumulator as a fraction of one fixed step.
    pub fn alpha_millionths(&self) -> (r: u32)
        ensures
            r == self.spec_accumulator() * 1_000_000 / (self.spec_fixed_step() as int),
            r < 1_000_000,
    {
        proof {
            use_type_invariant(self);
            lemma_fraction_below_one(
                self.accumulator as int,
                self.fixed_step as int,
                1_000_000,
            );
        }
        let scaled: u128 = self.accumulator as u128 * 1_000_000u128;
        (scaled / self.fixed_step as u128) as u32
    }

    /// Changes the length of a step. Whole steps of the new length that the
    /// accumulator already holds are dropped, so that less than one step is
    /// carried. A length of zero is refused and changes nothing.
    pub fn set_fixed_step(&mut self, fixed_step: u64) -> (r: Result<(), ClockError>)
        ensures
            fixed_step == 0 <==> r is Err,
            r is Err ==> r == Err::<(), ClockError>(ClockError::ZeroStep),
            fixed_step == 0 ==> *final(self) == *old(self),
            fixed_step > 0 ==> {
                &&& final(self).spec_fixed_step() == fixed_step
                &&& final(self).spec_accumulator() == carry_over(
                    old(self).spec_accumulator() as int,
                    fixed_step as int,
                )
                &&& final(self).spec_max_delta() == old(self).spec_max_delta()
                &&& final(self).spec_max_steps() == old(self).spec_max_steps()
                &&& final(self).spec_previous_time() == old(self).spec_previous_time()
            },
    {
        if fixed_step == 0 {
            return Err(ClockError::ZeroStep);
        }
        let rest: u64 = self.accumulator % fixed_step;
        let next = FrameClock {
            fixed_step,
            max_delta: self.max_delta,
            max_steps: self.max_steps,
            accumulator: rest,
            previous_time: self.previous_time,
        };
        *self = next;
        Ok(())
    }

    /// The frame delta of a frame that starts at wall time `now`: the time
    /// since the wall time that the clock remembers.
    pub fn elapsed_to(&self, now: u64) -> (real_delta: i64)
        ensures
            real_delta == signed_span(self.spec_previous_time(), now),
    {
        if now >= self.previous_time {
            let span: u64 = now - self.previous_time;
            if span > i64::MAX as u64 {
                i64::MAX
            } else {
                span as i64
            }
        } else {
            let span: u64 = self.previous_time - now;
            if span > i64::MAX as u64 {
                i64::MIN
            } else {
                -(span as i64)
            }
        }
    }

    /// Remembers `now` as the wall time of the last frame. The accumulator
    /// is not touched.
    pub fn set_previous_time(&mut self, now: u64)
        ensures
            final(self).spec_previous_time() == now,
            final(self).spec_fixed_step() == old(self).spec_fixed_step(),
            final(self).spec_max_delta() == old(self).spec_max_delta(),
            final(self).spec_max_steps() == old(self).spec_max_steps(),
            final(self).spec_accumulator() == old(self).spec_accumulator(),
    {
        proof {
            use_type_invariant(&*self);
        }
        self.previous_time = now;
    }

    /// The part of `real_delta` that the clock takes into account.
    pub fn clamp(&self, real_delta: i64) -> (delta: u64)
        ensures
            delta == clamp_delta(real_delta as int, self.spec_max_delta() as int),
    {
        if real_delta < 0 {
            0
        } else if real_delta as u64 > self.max_delta {
            self.max_delta
        } else {
            real_delta as u64
        }
    }

    /// Changes the longest delta taken at face value and the most steps run
    /// in one frame. The accumulator is not touched.
    pub fn set_limits(&mut self, max_delta: u64, max_steps: u32)
        ensures
            final(self).spec_max_delta() == max_delta,
            final(self).spec_max_steps() == max_steps,
            final(self).spec_fixed_step() == old(self).spec_fixed_step(),
            final(self).spec_accumulator() == old(self).spec_accumulator(),
            final(self).spec_previous_time() == old(self).spec_previous_time(),
    {
        proof {
            use_type_invariant(&*self);
        }
        self.max_delta = max_delta;
        self.max_steps = max_steps;
    }

    /// Advances by the wall time that has passed since the last call, and
    /// remembers `now`. A `now` before the remembered time counts as no time
    /// passed.
    pub fn advance_to(&mut self, now: u64) -> (r: Advance)
        ensures
            final(self).spec_fixed_step() == old(self).spec_fixed_step(),
            final(self).spec_max_delta() == old(self).spec_max_delta(),
            final(self).spec_max_steps() == old(self).spec_max_steps(),
            final(self).spec_previous_time() == now,
            r.steps == steps_due(
                old(self).spec_accumulator() + clamp_delta(
                    now - old(self).spec_previous_time(),
                    old(self).spec_max_delta() as int,
                ),
                old(self).spec_fixed_step() as int,
                old(self).spec_max_steps() as int,
            ),
            r.remainder == carry_over(
                old(self).spec_accumulator() + clamp_delta(
                    now - old(self).spec_previous_time(),
                    old(self).spec_max_delta() as int,
                ),
                old(self).spec_fixed_step() as int,
            ),
            final(self).spec_accumulator() == r.remainder,
            r.steps <= old(self).spec_max_steps(),
            r.remainder < old(self).spec_fixed_step(),
    {
        proof {
            use_type_invariant(&*self);
        }
        let elapsed: u64 = if now >= self.previous_time {
            now - self.previous_time
        } else {
            0
        };
        let delta: u64 = if elapsed > self.max_delta {
            self.max_delta
        } else {
            elapsed
        };
        let r = self.accumulate(delta);
        self.previous_time = now;
        r
    }

    /// Accumulates one frame delta and takes the whole steps out.
    ///
    /// The delta is clamped to `[0, max_delta]` first. The accumulator then
    /// gives up one fixed step at a time until less than a step is left or
    /// the per-frame limit is reached; whole steps still left at the limit
    /// are dropped.
    pub fn advance(&mut self, real_delta: i64) -> (r: Advance)
        ensures
            final(self).spec_fixed_step() == old(self).spec_fixed_step(),
            final(self).spec_max_delta() == old(self).spec_max_delta(),
            final(self).spec_max_steps() == old(self).spec_max_steps(),
            final(self).spec_previous_time() == old(self).spec_previous_time(),
            r.steps == steps_due(
                old(self).spec_accumulator() + clamp_delta(
                    real_delta as int,
                    old(self).spec_max_delta() as int,
                ),
                old(self).spec_fixed_step() as int,
                old(self).spec_max_steps() as int,
            ),
            r.remainder == carry_over(
                old(self).spec_accumulator() + clamp_delta(
                    real_delta as int,
                    old(self).spec_max_delta() as int,
                ),
                old(self).spec_fixed_step() as int,
            ),
            final(self).spec_accumulator() == r.remainder,
            r.steps <= old(self).spec_max_steps(),
            r.remainder < old(self).spec_fixed_step(),
    {
        let delta: u64 = self.clamp(real_delta);
        self.accumulate(delta)
    }

    /// Adds `delta`, already clamped, to the accumulator and takes the whole
    /// steps out, one at a time, up to the per-frame limit.
    fn accumulate(&mut self, delta: u64) -> (r: Advance)
        ensures
            final(self).spec_fixed_step() == old(self).spec_fixed_step(),
            final(self).spec_max_delta() == old(self).spec_max_delta(),
            final(self).spec_max_steps() == old(self).spec_max_steps(),
            final(self).spec_previous_time() == old(self).spec_previous_time(),
            r.steps == steps_due(
                old(self).spec_accumulator() + delta,
                old(self).spec_fixed_step() as int,
                old(self).spec_max_steps() as int,
            ),
            r.remainder == carry_over(
                old(self).spec_accumulator() + delta,
                old(self).spec_fixed_step() as int,
            ),
            final(self).spec_accumulator() == r.remainder,
            r.steps <= old(self).spec_max_steps(),
            r.remainder < old(self).spec_fixed_step(),
    {
        proof {
            use_type_invariant(&*self);
        }
        let step: u64 = self.fixed_step;
        let ghost total: int = self.accumulator as int + delta as int;
        let mut left: u128 = self.accumulator as u128 + delta as u128;
        let mut steps: u32 = 0;
        while left >= step as u128 && steps < self.max_steps
            invariant
                step > 0,
                step == self.fixed_step,
                0 <= steps <= self.max_steps,
                left + steps * step == total,
                0 <= total < 0x2_0000_0000_0000_0000,
            decreases left,
        {
            proof {
                assert((steps + 1) * step == steps * step + step) by (nonlinear_arith);
            }
            left = left - step as u128;
            steps = steps + 1;
        }
        proof {
            lemma_steps_taken(total, step as int, steps as int, left as int);
            vstd::arithmetic::div_mod::lemma_mod_bound(left as int, step as int);
        }
        let rest: u64 = (left % step as u128) as u64;
        self.accumulator = rest;
        Advance { steps, remainder: rest }
    }
}

/// The sum of a sequence of frame deltas.
pub open spec fn total_time(deltas: Seq<int>) -> int
    decreases deltas.len(),
{
    if deltas.len() == 0 {
        0
    } else {
        total_time(deltas.drop_last()) + deltas.last()
    }
}

/// The accumulator after a clock that starts with `accumulator` has been
/// advanced by each of `deltas` in turn.
pub open spec fn carry_after(
    accumulator: int,
    deltas: Seq<int>,
    fixed_step: int,
    max_delta: int,
) -> int
    decreases deltas.len(),
{
    if deltas.len() == 0 {
        accumulator
    } else {
        carry_over(
            carry_after(accumulator, deltas.drop_last(), fixed_step, max_delta) + clamp_delta(
                deltas.last(),
                max_delta,
            ),
            fixed_step,
        )
    }
}

/// The number of steps that a clock starting with `accumulator` reports in
/// all, over one call of `advance` for each of `deltas` in turn.
pub open spec fn steps_after(
    accumulator: int,
    deltas: Seq<int>,
    fixed_step: int,
    max_delta: int,
    max_steps: int,
) -> int
    decreases deltas.len(),
{
    if deltas.len() == 0 {
        0
    } else {
        steps_after(accumulator, deltas.drop_last(), fixed_step, max_delta, max_steps) + steps_due(
            carry_after(accumulator, deltas.drop_last(), fixed_step, max_delta) + clamp_delta(
                deltas.last(),
                max_delta,
            ),
            fixed_step,
            max_steps,
        )
    }
}

/// Every delta is taken at face value and never asks for more steps than
/// one frame may run: none is negative, none is above `max_delta`, and none
/// is longer than `max_steps` whole steps.
pub open spec fn unthrottled(deltas: Seq<int>, fixed_step: int, max_delta: int, max_steps: int) -> bool {
    forall|i: int|
        0 <= i < deltas.len() ==> 0 <= #[trigger] deltas[i] <= max_delta && deltas[i] <= max_steps
            * fixed_step
}

/// Whatever the deltas, the accumulator stays within `[0, fixed_step)`.
pub proof fn law_carry_stays_below_one_step(
    accumulator: int,
    deltas: Seq<int>,
    fixed_step: int,
    max_delta: int,
)
    requires
        fixed_step > 0,
        0 <= accumulator < fixed_step,
    ensures
        0 <= carry_after(accumulator, deltas, fixed_step, max_delta) < fixed_step,
    decreases deltas.len(),
{
    if deltas.len() > 0 {
        let before = carry_after(accumulator, deltas.drop_last(), fixed_step, max_delta);
        vstd::arithmetic::div_mod::lemma_mod_bound(
            before + clamp_delta(deltas.last(), max_delta),
            fixed_step,
        );
    }
}

/// No frame runs more than `max_steps` steps, however long its delta: a
/// sequence of `n` frames runs at most `n * max_steps` steps in all.
pub proof fn law_catch_up_is_bounded(
    accumulator: int,
    deltas: Seq<int>,
    fixed_step: int,
    max_delta: int,
    max_steps: int,
)
    requires
        fixed_step > 0,
        max_steps >= 0,
    ensures
        steps_after(accumulator, deltas, fixed_step, max_delta, max_steps) <= deltas.len()
            * max_steps,
    decreases deltas.len(),
{
    if deltas.len() > 0 {
        law_catch_up_is_bounded(accumulator, deltas.drop_last(), fixed_step, max_delta, max_steps);
        assert((deltas.len() - 1) * max_steps + max_steps == deltas.len() * max_steps)
            by (nonlinear_arith);
    }
}

/// While no delta is clamped and no frame reaches the step limit, no time is
/// lost: the steps run so far, times the step length, plus the accumulator,
/// are the time that was fed in.
pub proof fn law_time_is_conserved(
    accumulator: int,
    deltas: Seq<int>,
    fixed_step: int,
    max_delta: int,
    max_steps: int,
)
    requires
        fixed_step > 0,
        0 <= accumulator < fixed_step,
        unthrottled(deltas, fixed_step, max_delta, max_steps),
    ensures
        steps_after(accumulator, deltas, fixed_step, max_delta, max_steps) * fixed_step
            + carry_after(accumulator, deltas, fixed_step, max_delta) == accumulator + total_time(
            deltas,
        ),
        steps_after(accumulator, deltas, fixed_step, max_delta, max_steps) >= 0,
    decreases deltas.len(),
{
    if deltas.len() > 0 {
        let front = deltas.drop_last();
        law_time_is_conserved(accumulator, front, fixed_step, max_delta, max_steps);
        law_carry_stays_below_one_step(accumulator, front, fixed_step, max_delta);
        let before = carry_after(accumulator, front, fixed_step, max_delta);
        let done = steps_after(accumulator, front, fixed_step, max_delta, max_steps);
        let delta = deltas.last();
        assert(clamp_delta(delta, max_delta) == delta);
        let total = before + delta;
        vstd::arithmetic::div_mod::lemma_fundamental_div_mod(total, fixed_step);
        vstd::arithmetic::div_mod::lemma_div_pos_is_pos(total, fixed_step);
        // total < (max_steps + 1) * fixed_step, so the limit is not reached
        assert(total / fixed_step <= max_steps) by (nonlinear_arith)
            requires
                fixed_step > 0,
                0 <= total < fixed_step + max_steps * fixed_step,
        ;
        assert(steps_due(total, fixed_step, max_steps) == total / fixed_step);
        assert((done + total / fixed_step) * fixed_step == done * fixed_step + fixed_step * (total
            / fixed_step)) by (nonlinear_arith);
    }
}

/// Fed, from an empty accumulator, with deltas that add up to exactly `n`
/// fixed steps, the clock runs exactly `n` steps and ends with an empty
/// accumulator, provided no delta is clamped and no frame reaches the step
/// limit.
pub proof fn law_whole_steps_in_whole_steps_out(
    deltas: Seq<int>,
    n: int,
    fixed_step: int,
    max_delta: int,
    max_steps: int,
)
    requires
        fixed_step > 0,
        unthrottled(deltas, fixed_step, max_delta, max_steps),
        total_time(deltas) == n * fixed_step,
    ensures
        steps_after(0, deltas, fixed_step, max_delta, max_steps) == n,
        carry_after(0, deltas, fixed_step, max_delta) == 0,
{
    law_time_is_conserved(0, deltas, fixed_step, max_delta, max_steps);
    law_carry_stays_below_one_step(0, deltas, fixed_step, max_delta);
    let s = steps_after(0, deltas, fixed_step, max_delta, max_steps);
    let c = carry_after(0, deltas, fixed_step, max_delta);
    assert(s == n && c == 0) by (nonlinear_arith)
        requires
            fixed_step > 0,
            0 <= c < fixed_step,
            s * fixed_step + c == n * fixed_step,
    ;
}

/// A part `part` of a whole `whole`, scaled by `scale`, stays below `scale`.
proof fn lemma_fraction_below_one(part: int, whole: int, scale: int)
    requires
        0 <= part < whole,
        scale > 0,
    ensures
        0 <= part * scale / whole < scale,
{
    assert(0 <= part * scale < scale * whole) by (nonlinear_arith)
        requires
            0 <= part < whole,
            scale > 0,
    ;
    vstd::arithmetic::div_mod::lemma_div_pos_is_pos(part * scale, whole);
    vstd::arithmetic::div_mod::lemma_div_by_multiple_is_strongly_ordered(
        part * scale,
        scale * whole,
        scale,
        whole,
    );
    vstd::arithmetic::div_mod::lemma_div_multiples_vanish(scale, whole);
    vstd::arithmetic::mul::lemma_mul_is_commutative(scale, whole);
}

/// After `steps` subtractions of `step` from `total` leave `left`, the whole
/// steps in `total` are those taken out plus those still in `left`, and the
/// remainder has not changed.
proof fn lemma_steps_taken(total: int, step: int, steps: int, left: int)
    requires
        step > 0,
        steps >= 0,
        left >= 0,
        left + steps * step == total,
    ensures
        total / step == steps + left / step,
        total % step == left % step,
        left < step ==> left / step == 0,
        left >= step ==> left / step >= 1,
{
    vstd::arithmetic::div_mod::lemma_hoist_over_denominator(left, steps, step as nat);
    vstd::arithmetic::div_mod::lemma_mod_multiples_vanish(steps, left, step);
    vstd::arithmetic::mul::lemma_mul_is_commutative(step, steps);
    if left < step {
        vstd::arithmetic::div_mod::lemma_basic_div(left, step);
    } else {
        assert(left / step >= 1) by (nonlinear_arith)
            requires
                left >= step,
                step > 0,
        ;
    }
}

} // verus!
