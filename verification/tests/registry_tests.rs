use appit::event::{Theme, WindowEvent, WindowId, WindowMessage};
use appit::mailbox::Mailbox;
use appit::registry::{SendOutcome, Windows};

fn registry_with(ids: &[u64], capacity: usize) -> Windows<u32> {
    let mut windows: Windows<u32> = Windows::default();
    for id in ids {
        windows.open(WindowId(*id), Mailbox::new(capacity));
    }
    windows
}

#[test]
fn open_then_get_finds_the_window() {
    let windows = registry_with(&[1, 2], 16);
    assert!(windows.get(WindowId(1)).is_some());
    assert!(windows.get(WindowId(2)).is_some());
    assert!(windows.get(WindowId(3)).is_none());
    assert_eq!(windows.get(WindowId(2)).unwrap().id, WindowId(2));
}

#[test]
fn send_enqueues_into_the_right_mailbox() {
    let mut windows = registry_with(&[1, 2], 16);
    assert_eq!(
        windows.send(WindowId(1), WindowMessage::User(7)),
        SendOutcome::Delivered
    );
    assert_eq!(windows.get(WindowId(1)).unwrap().mailbox.len(), 1);
    assert_eq!(windows.get(WindowId(2)).unwrap().mailbox.len(), 0);
}

#[test]
fn send_to_unknown_window_is_ignored() {
    let mut windows = registry_with(&[1], 16);
    assert_eq!(
        windows.send(WindowId(9), WindowMessage::User(7)),
        SendOutcome::NotFound
    );
}

#[test]
fn send_to_disconnected_window_removes_the_entry() {
    let mut windows: Windows<u32> = Windows::default();
    let mut mailbox = Mailbox::new(16);
    mailbox.disconnect();
    windows.open(WindowId(4), mailbox);
    assert!(windows.get(WindowId(4)).is_some());
    assert_eq!(
        windows.send(WindowId(4), WindowMessage::User(1)),
        SendOutcome::Disconnected
    );
    // Lazy cleanup: the entry is gone, later sends find nothing.
    assert!(windows.get(WindowId(4)).is_none());
    assert_eq!(
        windows.send(WindowId(4), WindowMessage::User(1)),
        SendOutcome::NotFound
    );
}

#[test]
fn closed_id_is_never_found_again() {
    let mut windows = registry_with(&[1, 2], 16);
    assert!(!windows.close(WindowId(1)));
    assert!(windows.get(WindowId(1)).is_none());
    assert_eq!(
        windows.send(WindowId(1), WindowMessage::User(3)),
        SendOutcome::NotFound
    );
    // Other windows are untouched.
    assert!(windows.get(WindowId(2)).is_some());
}

#[test]
fn closing_the_last_window_signals_shutdown() {
    let mut windows = registry_with(&[1, 2], 16);
    assert!(!windows.should_shutdown());
    assert!(!windows.close(WindowId(1)));
    assert!(windows.close(WindowId(2)));
    assert!(windows.should_shutdown());
}

#[test]
fn a_guard_blocks_shutdown_until_released() {
    // Open window A, close it while the guard count is one: no shutdown
    // signal. Release the guard: the signal comes.
    let mut windows = registry_with(&[1], 16);
    windows.prevent_shutdown();
    assert!(!windows.close(WindowId(1)));
    assert!(!windows.should_shutdown());
    assert!(windows.allow_shutdown());
    assert!(windows.should_shutdown());
}

#[test]
fn a_guard_acquired_after_the_last_close_still_blocks() {
    let mut windows = registry_with(&[1], 16);
    assert!(windows.close(WindowId(1)));
    windows.prevent_shutdown();
    assert!(!windows.should_shutdown());
    windows.prevent_shutdown();
    assert!(!windows.allow_shutdown());
    assert!(windows.allow_shutdown());
}

#[test]
fn theme_change_reaches_every_open_window() {
    let mut windows = registry_with(&[1, 2, 3], 16);
    windows.theme_changed(Theme::Light);
    for id in [1u64, 2, 3] {
        assert_eq!(windows.get(WindowId(id)).unwrap().mailbox.len(), 1);
        assert_eq!(
            windows.pop_message(WindowId(id)),
            Some(WindowMessage::Event(WindowEvent::ThemeChanged(Theme::Light)))
        );
    }
}

#[test]
fn workers_consume_in_fifo_order() {
    let mut windows = registry_with(&[1], 16);
    windows.send(WindowId(1), WindowMessage::User(10));
    windows.send(WindowId(1), WindowMessage::User(11));
    assert_eq!(windows.pop_message(WindowId(1)), Some(WindowMessage::User(10)));
    assert_eq!(windows.pop_message(WindowId(1)), Some(WindowMessage::User(11)));
    assert_eq!(windows.pop_message(WindowId(1)), None);
    assert_eq!(windows.pop_message(WindowId(9)), None);
}

#[test]
fn overflow_drops_the_tail_and_spares_neighbours() {
    let mut windows = registry_with(&[1, 2], 4);
    for n in 0..6u32 {
        windows.send(WindowId(1), WindowMessage::User(n));
    }
    let a = windows.get(WindowId(1)).unwrap();
    assert_eq!(a.mailbox.len(), 4);
    assert_eq!(a.mailbox.dropped_count(), 2);
    let b = windows.get(WindowId(2)).unwrap();
    assert_eq!(b.mailbox.len(), 0);
    assert_eq!(b.mailbox.dropped_count(), 0);
}

#[test]
fn theme_event_is_the_message_delivered() {
    let mut windows = registry_with(&[1], 4);
    windows.theme_changed(Theme::Dark);
    // Peeking is not offered; send one more and check the order survives in
    // the worker by draining through a fresh mailbox instead.
    let mut mailbox: Mailbox<u32> = Mailbox::new(4);
    mailbox.try_send(WindowMessage::Event(WindowEvent::ThemeChanged(Theme::Dark)));
    assert_eq!(
        mailbox.pop(),
        Some(WindowMessage::Event(WindowEvent::ThemeChanged(Theme::Dark)))
    );
}
