use devserve::registry::{Registry, WatchAction, WatchEvent, WRITE_TIMEOUT_MILLIS};

fn registry_of(count: usize) -> Registry {
    let mut registry = Registry::new();
    for _ in 0..count {
        registry.subscribe();
    }
    registry
}

#[test]
fn new_registry_is_empty() {
    let registry = Registry::new();
    assert!(registry.is_empty());
    assert_eq!(registry.len(), 0);
    assert_eq!(registry.subscribers(), Vec::<u64>::new());
    assert!(!registry.contains(0));
}

#[test]
fn subscribers_are_numbered_in_order() {
    let mut registry = Registry::new();
    assert_eq!(registry.subscribe(), Some(0));
    assert_eq!(registry.subscribe(), Some(1));
    assert_eq!(registry.subscribe(), Some(2));
    assert_eq!(registry.len(), 3);
    assert!(!registry.is_empty());
    assert_eq!(registry.subscribers(), vec![0, 1, 2]);
    assert!(registry.contains(1));
    assert!(!registry.contains(3));
}

#[test]
fn change_is_broadcast_to_every_subscriber_once() {
    let registry = registry_of(4);
    assert_eq!(
        registry.on_watch_event(WatchEvent::Changed),
        WatchAction::Broadcast { frame: b"data: update\n\n".to_vec(), targets: vec![0, 1, 2, 3] }
    );
    assert_eq!(registry.subscribers(), vec![0, 1, 2, 3]);
}

#[test]
fn change_without_subscribers_targets_nobody() {
    let registry = Registry::new();
    assert_eq!(
        registry.on_watch_event(WatchEvent::Changed),
        WatchAction::Broadcast { frame: b"data: update\n\n".to_vec(), targets: Vec::new() }
    );
}

#[test]
fn watcher_failure_is_only_reported() {
    let registry = registry_of(2);
    assert_eq!(registry.on_watch_event(WatchEvent::Failed), WatchAction::Report);
    assert_eq!(registry.subscribers(), vec![0, 1]);
}

#[test]
fn settling_drops_the_failed_and_keeps_the_rest() {
    let mut registry = registry_of(5);
    let dropped = registry.settle(&vec![3, 1]);
    assert_eq!(dropped, vec![1, 3]);
    assert_eq!(registry.subscribers(), vec![0, 2, 4]);
    assert!(!registry.contains(1));
    assert!(!registry.contains(3));
    assert!(registry.contains(0) && registry.contains(2) && registry.contains(4));
}

#[test]
fn settling_without_failures_changes_nothing() {
    let mut registry = registry_of(3);
    assert_eq!(registry.settle(&Vec::new()), Vec::<u64>::new());
    assert_eq!(registry.subscribers(), vec![0, 1, 2]);
}

#[test]
fn settling_ignores_strangers_and_repeats() {
    let mut registry = registry_of(3);
    assert_eq!(registry.settle(&vec![7, 2, 2, 99]), vec![2]);
    assert_eq!(registry.subscribers(), vec![0, 1]);
}

#[test]
fn settling_can_drop_everyone() {
    let mut registry = registry_of(3);
    assert_eq!(registry.settle(&vec![0, 1, 2]), vec![0, 1, 2]);
    assert!(registry.is_empty());
}

#[test]
fn dropped_subscriber_is_out_of_later_broadcasts() {
    let mut registry = registry_of(3);
    registry.settle(&vec![1]);
    assert_eq!(
        registry.on_watch_event(WatchEvent::Changed),
        WatchAction::Broadcast { frame: b"data: update\n\n".to_vec(), targets: vec![0, 2] }
    );
    registry.settle(&Vec::new());
    assert_eq!(registry.subscribers(), vec![0, 2]);
}

#[test]
fn numbers_are_never_handed_out_again() {
    let mut registry = registry_of(3);
    registry.settle(&vec![0, 1, 2]);
    assert_eq!(registry.subscribe(), Some(3));
    registry.settle(&vec![3]);
    assert_eq!(registry.subscribe(), Some(4));
    assert_eq!(registry.subscribers(), vec![4]);
    assert!(!registry.contains(0));
}

#[test]
fn late_subscriber_is_not_in_a_planned_broadcast() {
    let mut registry = registry_of(2);
    let planned = registry.on_watch_event(WatchEvent::Changed);
    let late = registry.subscribe();
    assert_eq!(late, Some(2));
    assert_eq!(
        planned,
        WatchAction::Broadcast { frame: b"data: update\n\n".to_vec(), targets: vec![0, 1] }
    );
    assert_eq!(registry.subscribers(), vec![0, 1, 2]);
}

#[test]
fn write_timeout_is_short() {
    assert_eq!(WRITE_TIMEOUT_MILLIS, 1000);
}
