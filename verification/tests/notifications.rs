use comfy::config::{COMBAT_TEXT_LIFETIME, TICKS_PER_SECOND};
use comfy::notifications::Notifications;

fn ticks(seconds: f64) -> u64 {
    (seconds * TICKS_PER_SECOND as f64).round() as u64
}

#[test]
fn combat_text_lives_four_tenths_of_a_second() {
    assert_eq!(COMBAT_TEXT_LIFETIME, ticks(0.4));
    assert_eq!(COMBAT_TEXT_LIFETIME, 282_240_000);
}

#[test]
fn notification_is_visible_until_its_lifetime_is_over() {
    let mut queue = Notifications::new();
    assert_eq!(queue.now(), 0);
    queue.push(String::from("level up"), ticks(0.4));
    let shown = queue.drain_visible(ticks(0.3));
    assert_eq!(shown, vec![String::from("level up")]);
    assert_eq!(queue.len(), 1);
    let shown = queue.drain_visible(ticks(0.5));
    assert!(shown.is_empty());
    assert_eq!(queue.len(), 0);
}

#[test]
fn notification_expires_exactly_at_its_expiry() {
    let mut queue = Notifications::new();
    queue.push(String::from("a"), 100);
    assert_eq!(queue.drain_visible(99), vec![String::from("a")]);
    assert!(queue.drain_visible(100).is_empty());
}

#[test]
fn lifetime_counts_from_the_time_of_insertion() {
    let mut queue = Notifications::new();
    let _ = queue.drain_visible(1_000);
    assert_eq!(queue.now(), 1_000);
    queue.push(String::from("late"), 50);
    assert_eq!(queue.drain_visible(1_049), vec![String::from("late")]);
    assert!(queue.drain_visible(1_050).is_empty());
}

#[test]
fn visible_messages_keep_their_order() {
    let mut queue = Notifications::new();
    queue.push(String::from("first"), 300);
    queue.push(String::from("second"), 100);
    queue.push(String::from("third"), 200);
    queue.push(String::from("fourth"), u64::MAX);
    assert_eq!(queue.len(), 4);
    assert_eq!(
        queue.drain_visible(50),
        vec![
            String::from("first"),
            String::from("second"),
            String::from("third"),
            String::from("fourth")
        ]
    );
    assert_eq!(
        queue.drain_visible(150),
        vec![String::from("first"), String::from("third"), String::from("fourth")]
    );
    assert_eq!(queue.len(), 3);
    assert_eq!(queue.drain_visible(u64::MAX - 1), vec![String::from("fourth")]);
    // draining twice at one time changes nothing
    assert_eq!(queue.drain_visible(u64::MAX - 1), vec![String::from("fourth")]);
    assert!(queue.drain_visible(u64::MAX).is_empty());
}

#[test]
fn expiry_beyond_the_last_tick_never_comes() {
    let mut queue = Notifications::new();
    let _ = queue.drain_visible(1);
    queue.push(String::from("forever"), u64::MAX);
    assert_eq!(queue.drain_visible(u64::MAX), vec![String::from("forever")]);
}

#[test]
fn expired_message_does_not_come_back() {
    let mut queue = Notifications::new();
    queue.push(String::from("gone"), 10);
    assert!(queue.drain_visible(20).is_empty());
    assert!(queue.drain_visible(5).is_empty());
    assert_eq!(queue.now(), 5);
}
