use airwire::sequence::{SequenceCounter, SequenceTracker, FIRST_ID, LAST_ID, ROLLOVER_ID};

#[test]
fn first_id_is_always_accepted() {
    for id in [i64::MIN, -2, -1, 0, 1, i64::MAX] {
        let mut tracker = SequenceTracker::new();
        assert_eq!(tracker.last_accepted(), None);
        assert!(tracker.accept(id));
        assert_eq!(tracker.last_accepted(), Some(id));
    }
}

#[test]
fn strictly_increasing_ids_are_all_accepted() {
    let mut tracker = SequenceTracker::new();
    for id in [-5i64, -4, -1, 0, 3, 4, 100, i64::MAX] {
        assert!(tracker.accept(id), "id {}", id);
        assert_eq!(tracker.last_accepted(), Some(id));
    }
}

#[test]
fn repeated_id_is_rejected() {
    let mut tracker = SequenceTracker::new();
    assert!(tracker.accept(7));
    assert!(!tracker.accept(7));
    assert_eq!(tracker.last_accepted(), Some(7));
    let mut negative = SequenceTracker::new();
    assert!(negative.accept(-7));
    assert!(!negative.accept(-7));
}

#[test]
fn decreasing_id_is_rejected() {
    let mut tracker = SequenceTracker::new();
    assert!(tracker.accept(10));
    assert!(!tracker.accept(9));
    assert!(!tracker.accept(0));
    assert_eq!(tracker.last_accepted(), Some(10));
    let mut negative = SequenceTracker::new();
    assert!(negative.accept(-3));
    assert!(!negative.accept(-4));
    assert_eq!(negative.last_accepted(), Some(-3));
}

#[test]
fn rollover_is_accepted_once() {
    let mut tracker = SequenceTracker::new();
    assert!(tracker.accept(1000));
    assert!(tracker.accept(-2));
    assert_eq!(tracker.last_accepted(), Some(-2));
    assert!(!tracker.accept(-2));
    assert!(!tracker.accept(-3));
    assert!(tracker.accept(-1));
    assert!(tracker.accept(0));
    assert!(tracker.accept(-2));
}

#[test]
fn rollover_from_zero() {
    let mut tracker = SequenceTracker::new();
    assert!(tracker.accept(0));
    assert!(tracker.accept(i64::MIN));
    assert!(!tracker.accept(i64::MIN));
}

#[test]
fn counter_starts_at_minus_one_and_counts_up() {
    let mut counter = SequenceCounter::new();
    assert_eq!(FIRST_ID, -1);
    assert_eq!(counter.peek(), -1);
    assert_eq!(counter.advance(), -1);
    assert_eq!(counter.advance(), 0);
    assert_eq!(counter.advance(), 1);
    assert_eq!(counter.peek(), 2);
}

#[test]
fn counter_rolls_over_to_minus_two() {
    assert_eq!(LAST_ID, i64::MAX - 16);
    assert_eq!(ROLLOVER_ID, -2);
    let mut counter = SequenceCounter::starting_at(i64::MAX - 17);
    assert_eq!(counter.advance(), i64::MAX - 17);
    assert_eq!(counter.peek(), i64::MAX - 16);
    assert_eq!(counter.advance(), i64::MAX - 16);
    assert_eq!(counter.peek(), -2);
    assert_eq!(counter.advance(), -2);
    assert_eq!(counter.peek(), -1);
}

#[test]
fn counter_never_overflows() {
    let mut counter = SequenceCounter::starting_at(i64::MAX);
    assert_eq!(counter.advance(), i64::MAX);
    assert_eq!(counter.peek(), -2);
}

#[test]
fn rollover_after_five_transmissions() {
    let mut counter = SequenceCounter::starting_at(i64::MAX - 20);
    let mut tracker = SequenceTracker::new();
    let mut sent = Vec::new();
    for _ in 0..5 {
        let id = counter.advance();
        sent.push(id);
        assert!(tracker.accept(id), "id {}", id);
    }
    assert_eq!(counter.peek(), -2);
    assert_eq!(
        sent,
        vec![i64::MAX - 20, i64::MAX - 19, i64::MAX - 18, i64::MAX - 17, i64::MAX - 16]
    );
    for id in sent {
        assert!(!tracker.accept(id), "replay of {}", id);
    }
    assert_eq!(tracker.last_accepted(), Some(i64::MAX - 16));
}

#[test]
fn receiver_follows_sender_across_rollover() {
    let mut counter = SequenceCounter::starting_at(i64::MAX - 18);
    let mut tracker = SequenceTracker::new();
    let mut seen = Vec::new();
    for _ in 0..8 {
        let id = counter.advance();
        assert!(tracker.accept(id), "id {}", id);
        assert!(!tracker.accept(id), "duplicate of {}", id);
        seen.push(id);
    }
    assert_eq!(
        seen,
        vec![i64::MAX - 18, i64::MAX - 17, i64::MAX - 16, -2, -1, 0, 1, 2]
    );
}
