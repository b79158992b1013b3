use comfy::changes::ChangeTracker;

#[test]
fn drain_returns_and_clears() {
    let mut changes = ChangeTracker::new();
    changes.mark(4);
    changes.mark(9);
    changes.mark(4);
    assert_eq!(changes.len(), 2);
    assert!(changes.is_dirty(4));
    assert!(changes.is_dirty(9));
    assert!(!changes.is_dirty(5));
    let keys = changes.drain();
    assert_eq!(keys.len(), 2);
    assert!(keys.contains(&4));
    assert!(keys.contains(&9));
    assert_eq!(changes.len(), 0);
    assert!(!changes.is_dirty(4));
}

#[test]
fn keys_marked_after_a_drain_belong_to_the_next_drain() {
    let mut changes = ChangeTracker::new();
    changes.mark(1);
    let first = changes.drain();
    changes.mark(2);
    let second = changes.drain();
    assert!(first.contains(&1) && !first.contains(&2));
    assert!(second.contains(&2) && !second.contains(&1));
    assert_eq!(second.len(), 1);
    assert!(changes.drain().is_empty());
}

#[test]
fn clear_forgets_every_key() {
    let mut changes = ChangeTracker::new();
    changes.mark(1);
    changes.mark(2);
    changes.clear();
    assert_eq!(changes.len(), 0);
    assert!(!changes.is_dirty(1));
    assert!(changes.drain().is_empty());
}
