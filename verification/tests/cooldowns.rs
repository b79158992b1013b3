use comfy::config::TICKS_PER_SECOND;
use comfy::cooldowns::{Cooldown, Cooldowns};

#[test]
fn cooldown_of_two_seconds_is_ready_after_two_seconds() {
    let mut timers = Cooldowns::new();
    timers.start(7, 2 * TICKS_PER_SECOND);
    assert!(!timers.is_ready(7));
    timers.tick(TICKS_PER_SECOND);
    assert!(!timers.is_ready(7));
    assert_eq!(timers.remaining(7), TICKS_PER_SECOND);
    timers.tick(TICKS_PER_SECOND);
    assert!(timers.is_ready(7));
    assert_eq!(timers.remaining(7), 0);
    timers.tick(0);
    assert!(timers.is_ready(7));
    assert!(timers.consume(7));
    assert!(!timers.is_ready(7));
    assert!(!timers.contains(7));
    timers.tick(0);
    assert!(!timers.is_ready(7));
}

#[test]
fn two_queries_in_one_tick_agree() {
    let mut timers = Cooldowns::new();
    timers.start(1, 10);
    timers.tick(10);
    assert!(timers.is_ready(1));
    assert!(timers.is_ready(1));
}

#[test]
fn remaining_time_stops_at_zero() {
    let mut timers = Cooldowns::new();
    timers.start(1, 10);
    timers.tick(u64::MAX);
    assert_eq!(timers.get(1), Some(Cooldown { remaining: 0, ready: true }));
    timers.tick(5);
    assert_eq!(timers.get(1), Some(Cooldown { remaining: 0, ready: true }));
}

#[test]
fn unknown_key_is_not_ready() {
    let mut timers = Cooldowns::new();
    assert!(!timers.is_ready(99));
    assert_eq!(timers.remaining(99), 0);
    assert_eq!(timers.get(99), None);
    assert!(!timers.contains(99));
    assert!(!timers.consume(99));
    assert_eq!(timers.len(), 0);
}

#[test]
fn starting_again_resets_the_timer() {
    let mut timers = Cooldowns::new();
    timers.start(3, 100);
    timers.tick(100);
    assert!(timers.is_ready(3));
    timers.start(3, 40);
    assert_eq!(timers.get(3), Some(Cooldown { remaining: 40, ready: false }));
    assert_eq!(timers.len(), 1);
    timers.tick(39);
    assert_eq!(timers.get(3), Some(Cooldown { remaining: 1, ready: false }));
    timers.start(3, 500);
    assert_eq!(timers.remaining(3), 500);
}

#[test]
fn consuming_a_running_timer_leaves_it_running() {
    let mut timers = Cooldowns::new();
    timers.start(3, 100);
    timers.tick(30);
    assert!(!timers.consume(3));
    assert_eq!(timers.get(3), Some(Cooldown { remaining: 70, ready: false }));
}

#[test]
fn every_timer_is_ticked_on_its_own() {
    let mut timers = Cooldowns::new();
    timers.start(1, 10);
    timers.start(2, 20);
    timers.start(3, 30);
    assert_eq!(timers.len(), 3);
    timers.tick(20);
    assert_eq!(timers.get(1), Some(Cooldown { remaining: 0, ready: true }));
    assert_eq!(timers.get(2), Some(Cooldown { remaining: 0, ready: true }));
    assert_eq!(timers.get(3), Some(Cooldown { remaining: 10, ready: false }));
    assert!(timers.consume(2));
    assert_eq!(timers.len(), 2);
    assert_eq!(timers.get(1), Some(Cooldown { remaining: 0, ready: true }));
    assert_eq!(timers.get(2), None);
    assert_eq!(timers.get(3), Some(Cooldown { remaining: 10, ready: false }));
}

#[test]
fn a_timer_of_no_duration_is_ready_after_the_next_tick() {
    let mut timers = Cooldowns::new();
    timers.start(1, 0);
    assert_eq!(timers.get(1), Some(Cooldown { remaining: 0, ready: false }));
    timers.tick(0);
    assert!(timers.is_ready(1));
}
