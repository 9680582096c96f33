use niri::utils::transaction::{BlockerState, Transaction, TIME_LIMIT};

#[test]
fn completes_when_the_last_handle_drops() {
    let mut tx = Transaction::new(0);
    assert!(tx.is_last());
    assert_eq!(tx.blocker_state(), BlockerState::Pending);
    let notified = tx.drop_handle();
    assert!(notified.is_empty());
    assert!(tx.is_completed());
    assert_eq!(tx.blocker_state(), BlockerState::Released);
}

#[test]
fn clones_keep_it_pending() {
    let mut tx = Transaction::new(0);
    tx.clone_handle();
    tx.add_notification(7);
    tx.add_notification(9);
    assert!(!tx.is_last());
    assert!(tx.drop_handle().is_empty());
    assert!(!tx.is_completed());
    assert!(tx.is_last());
    assert_eq!(tx.drop_handle(), vec![7, 9]);
    assert!(tx.is_completed());
}

#[test]
fn deadline_releases_a_held_clone() {
    let mut tx = Transaction::new(1_000);
    tx.add_notification(3);
    assert_eq!(tx.register_deadline_timer(), Some(1_000 + TIME_LIMIT));
    assert_eq!(tx.register_deadline_timer(), None);
    assert!(tx.on_deadline(1_000 + TIME_LIMIT - 1).is_empty());
    assert_eq!(tx.blocker_state(), BlockerState::Pending);
    assert_eq!(tx.on_deadline(1_000 + TIME_LIMIT), vec![3]);
    assert_eq!(tx.blocker_state(), BlockerState::Released);
}

#[test]
fn completion_is_final_and_notifies_once() {
    let mut tx = Transaction::new(0);
    tx.clone_handle();
    tx.add_notification(1);
    assert_eq!(tx.complete(), vec![1]);
    assert!(tx.complete().is_empty());
    tx.add_notification(2);
    assert!(tx.on_deadline(u64::MAX).is_empty());
    assert!(tx.drop_handle().is_empty());
    assert!(tx.is_completed());
    assert_eq!(tx.blocker_state(), BlockerState::Released);
}

#[test]
fn deadline_saturates() {
    let mut tx = Transaction::new(u64::MAX - 5);
    assert_eq!(tx.register_deadline_timer(), Some(u64::MAX));
}
