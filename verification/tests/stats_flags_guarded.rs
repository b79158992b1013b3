use comfy::flags::FlagSet;
use comfy::guarded::{AccessError, Guarded};
use comfy::stats::MovingStats;

#[test]
fn moving_stats_keep_the_last_samples() {
    let mut stats = MovingStats::new(3);
    assert_eq!(stats.capacity(), 3);
    assert_eq!(stats.len(), 0);
    assert_eq!(stats.mean(), None);
    assert_eq!(stats.min(), None);
    assert_eq!(stats.max(), None);
    stats.next(10);
    assert_eq!(stats.mean(), Some(10));
    stats.next(20);
    stats.next(31);
    assert_eq!(stats.len(), 3);
    assert_eq!(stats.mean(), Some(20));
    assert_eq!(stats.min(), Some(10));
    assert_eq!(stats.max(), Some(31));
    stats.next(100);
    assert_eq!(stats.len(), 3);
    // 20, 31, 100
    assert_eq!(stats.mean(), Some(50));
    assert_eq!(stats.min(), Some(20));
    assert_eq!(stats.max(), Some(100));
}

#[test]
fn moving_stats_mean_of_large_samples() {
    let mut stats = MovingStats::new(2);
    stats.next(u64::MAX);
    stats.next(u64::MAX);
    assert_eq!(stats.mean(), Some(u64::MAX));
    stats.next(u64::MAX - 2);
    assert_eq!(stats.mean(), Some(u64::MAX - 1));
}

#[test]
fn moving_stats_of_no_capacity_stay_empty() {
    let mut stats = MovingStats::new(0);
    stats.next(5);
    stats.next(6);
    assert_eq!(stats.len(), 0);
    assert_eq!(stats.mean(), None);
}

#[test]
fn flags_are_set_and_cleared_by_name() {
    let mut flags = FlagSet::new();
    let debug = String::from("debug");
    let fast = String::from("fast");
    assert!(!flags.contains(&debug));
    assert!(flags.insert(debug.clone()));
    assert!(!flags.insert(debug.clone()));
    assert!(flags.insert(fast.clone()));
    assert!(flags.contains(&debug));
    assert!(flags.contains(&fast));
    assert!(!flags.contains(&String::from("slow")));
    assert!(flags.remove(&debug));
    assert!(!flags.remove(&debug));
    assert!(!flags.contains(&debug));
    assert!(flags.contains(&fast));
}

#[test]
fn second_loan_is_refused() {
    let mut cell = Guarded::new(5u32);
    assert!(cell.is_available());
    assert_eq!(cell.try_lend(), Ok(5));
    assert!(!cell.is_available());
    assert_eq!(cell.try_lend(), Err(AccessError::AlreadyLent));
    assert_eq!(cell.try_lend(), Err(AccessError::AlreadyLent));
    assert_eq!(cell.try_get(), None);
    assert_eq!(cell.give_back(6), None);
    assert!(cell.is_available());
    assert_eq!(*cell.get(), 6);
    assert_eq!(cell.try_get(), Some(&6));
    assert_eq!(cell.lend(), 6);
    assert_eq!(cell.try_lend(), Err(AccessError::AlreadyLent));
}

#[test]
fn giving_back_to_a_full_cell_displaces_its_value() {
    let mut cell = Guarded::new(1u32);
    assert_eq!(cell.give_back(2), Some(1));
    assert_eq!(*cell.get(), 2);
    *cell.get_mut() = 3;
    assert_eq!(*cell.get(), 3);
    assert!(cell.is_available());
}
