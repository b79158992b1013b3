use comfy::clock::{Advance, ClockError, FrameClock};
use comfy::config::TICKS_PER_SECOND;

const STEP_240: u64 = TICKS_PER_SECOND / 240;

fn clock(max_delta: u64, max_steps: u32) -> FrameClock {
    FrameClock::new(STEP_240, max_delta, max_steps, 0).unwrap()
}

#[test]
fn a_240th_of_a_second_is_a_whole_number_of_ticks() {
    assert_eq!(STEP_240, 2_940_000);
    assert_eq!(STEP_240 * 240, TICKS_PER_SECOND);
    let seconds: f64 = 1.0 / 240.0;
    assert_eq!((seconds * TICKS_PER_SECOND as f64).round() as u64, STEP_240);
}

#[test]
fn zero_step_is_refused() {
    assert!(matches!(FrameClock::new(0, 10, 10, 0), Err(ClockError::ZeroStep)));
    assert!(FrameClock::new(1, 0, 0, 0).is_ok());
}

#[test]
fn new_clock_holds_what_it_was_given() {
    let c = FrameClock::new(STEP_240, 77, 9, 1234).unwrap();
    assert_eq!(c.fixed_step(), STEP_240);
    assert_eq!(c.max_delta(), 77);
    assert_eq!(c.max_steps(), 9);
    assert_eq!(c.accumulator(), 0);
    assert_eq!(c.previous_time(), 1234);
}

#[test]
fn deltas_that_sum_to_whole_steps_give_those_steps() {
    // sixty frames of a sixtieth of a second: 240 steps, nothing left
    let mut c = clock(TICKS_PER_SECOND, 60);
    let mut steps: u64 = 0;
    for _ in 0..60 {
        steps += c.advance((TICKS_PER_SECOND / 60) as i64).steps as u64;
    }
    assert_eq!(steps, 240);
    assert_eq!(c.accumulator(), 0);
}

#[test]
fn uneven_deltas_that_sum_to_whole_steps_give_those_steps() {
    let mut c = clock(TICKS_PER_SECOND, 60);
    let deltas: [i64; 5] = [1_000_000, 1_940_000, 3 * 2_940_000 + 5, 2_940_000 - 5, 7 * 2_940_000];
    let total: i64 = deltas.iter().sum();
    assert_eq!(total, 12 * 2_940_000);
    let mut steps: u64 = 0;
    let mut seen: Vec<Advance> = Vec::new();
    for d in deltas {
        let a = c.advance(d);
        steps += a.steps as u64;
        seen.push(a);
    }
    assert_eq!(steps, 12);
    assert_eq!(c.accumulator(), 0);
    assert_eq!(seen[0], Advance { steps: 0, remainder: 1_000_000 });
    assert_eq!(seen[1], Advance { steps: 1, remainder: 0 });
    assert_eq!(seen[2], Advance { steps: 3, remainder: 5 });
    assert_eq!(seen[3], Advance { steps: 1, remainder: 0 });
    assert_eq!(seen[4], Advance { steps: 7, remainder: 0 });
}

#[test]
fn accumulator_stays_below_one_step() {
    let mut c = clock(TICKS_PER_SECOND, 3);
    let deltas: [i64; 8] =
        [0, 1, 2_939_999, 2_940_000, 2_940_001, 100_000_000, -5, i64::MAX];
    for d in deltas {
        let a = c.advance(d);
        assert!(a.remainder < STEP_240);
        assert_eq!(c.accumulator(), a.remainder);
        assert!(a.steps <= 3);
    }
}

#[test]
fn ten_seconds_at_once_run_five_steps_and_drop_the_rest() {
    let ten_seconds = 10 * TICKS_PER_SECOND;
    let mut c = clock(ten_seconds, 5);
    let a = c.advance(ten_seconds as i64);
    assert_eq!(a.steps, 5);
    assert_ne!(a.steps, 2400);
    assert_eq!(a.remainder, 0);
    // the excess was dropped, not queued: the next frame owes nothing
    let b = c.advance(0);
    assert_eq!(b, Advance { steps: 0, remainder: 0 });
}

#[test]
fn whole_steps_beyond_the_limit_are_dropped_but_the_fraction_is_kept() {
    let mut c = clock(u64::MAX, 2);
    let a = c.advance((7 * STEP_240 + 123) as i64);
    assert_eq!(a, Advance { steps: 2, remainder: 123 });
}

#[test]
fn negative_delta_counts_as_no_time() {
    let mut c = clock(TICKS_PER_SECOND, 60);
    let _ = c.advance(1_000);
    let a = c.advance(-1_000_000_000);
    assert_eq!(a, Advance { steps: 0, remainder: 1_000 });
    let b = c.advance(i64::MIN);
    assert_eq!(b, Advance { steps: 0, remainder: 1_000 });
}

#[test]
fn large_delta_is_clamped_to_the_maximum() {
    // at most a quarter of a second is taken: 60 steps of a 240th
    let mut c = clock(TICKS_PER_SECOND / 4, 1000);
    assert_eq!(c.clamp(i64::MAX), TICKS_PER_SECOND / 4);
    assert_eq!(c.clamp(-1), 0);
    assert_eq!(c.clamp(17), 17);
    let a = c.advance(3 * TICKS_PER_SECOND as i64);
    assert_eq!(a, Advance { steps: 60, remainder: 0 });
}

#[test]
fn same_deltas_give_same_steps() {
    let deltas: [i64; 6] = [4_000_000, 15, 9_999_999, 0, 2_940_000, 123_456_789];
    let mut first = clock(TICKS_PER_SECOND, 7);
    let mut second = clock(TICKS_PER_SECOND, 7);
    for d in deltas {
        assert_eq!(first.advance(d), second.advance(d));
    }
    assert_eq!(first.accumulator(), second.accumulator());
}

#[test]
fn alpha_is_the_fraction_of_a_step() {
    let mut c = clock(TICKS_PER_SECOND, 60);
    assert_eq!(c.alpha_millionths(), 0);
    let _ = c.advance((STEP_240 / 2) as i64);
    assert_eq!(c.alpha_millionths(), 500_000);
    let _ = c.advance((STEP_240 / 4) as i64);
    assert_eq!(c.alpha_millionths(), 750_000);
    let alpha = c.accumulator() as f64 / c.fixed_step() as f64;
    assert!((alpha - 0.75).abs() < 1e-9);
}

#[test]
fn advance_to_measures_from_the_previous_time() {
    let mut c = FrameClock::new(10, 1_000, 100, 500).unwrap();
    let a = c.advance_to(535);
    assert_eq!(a, Advance { steps: 3, remainder: 5 });
    assert_eq!(c.previous_time(), 535);
    // the wall clock went backward: no time passed
    let b = c.advance_to(100);
    assert_eq!(b, Advance { steps: 0, remainder: 5 });
    assert_eq!(c.previous_time(), 100);
    // a long pause is clamped
    let d = c.advance_to(1_000_000);
    assert_eq!(d, Advance { steps: 100, remainder: 5 });
}

#[test]
fn changing_the_step_keeps_less_than_one_step() {
    let mut c = FrameClock::new(100, 1_000, 100, 0).unwrap();
    let _ = c.advance(77);
    assert!(matches!(c.set_fixed_step(0), Err(ClockError::ZeroStep)));
    assert_eq!(c.fixed_step(), 100);
    assert_eq!(c.accumulator(), 77);
    assert!(c.set_fixed_step(30).is_ok());
    assert_eq!(c.fixed_step(), 30);
    assert_eq!(c.accumulator(), 17);
    c.set_limits(5, 1);
    assert_eq!(c.max_delta(), 5);
    assert_eq!(c.max_steps(), 1);
    assert_eq!(c.accumulator(), 17);
    assert_eq!(c.advance(1_000), Advance { steps: 0, remainder: 22 });
}

#[test]
fn elapsed_time_is_signed() {
    let mut c = FrameClock::new(10, 1_000, 100, 500).unwrap();
    assert_eq!(c.elapsed_to(535), 35);
    assert_eq!(c.elapsed_to(500), 0);
    assert_eq!(c.elapsed_to(100), -400);
    assert_eq!(c.elapsed_to(u64::MAX), i64::MAX);
    c.set_previous_time(u64::MAX);
    assert_eq!(c.previous_time(), u64::MAX);
    assert_eq!(c.accumulator(), 0);
    assert_eq!(c.elapsed_to(0), i64::MIN);
    assert_eq!(c.elapsed_to(u64::MAX - 7), -7);
}
