use cxx_qt_gen::connection::SignalRegistry;

#[test]
fn new_registry_has_no_connections() {
    let registry: SignalRegistry<&str> = SignalRegistry::new();
    assert_eq!(registry.len(), 0);
}

#[test]
fn connect_hands_out_a_fresh_handle_each_time() {
    let mut registry = SignalRegistry::new();
    let first = registry.connect("first").unwrap();
    let second = registry.connect("second").unwrap();
    assert_ne!(first, second);
    assert_eq!(registry.len(), 2);
    assert!(registry.is_connected(first));
    assert!(registry.is_connected(second));
    assert_eq!(registry.handler(first), Some(&"first"));
    assert_eq!(registry.handler(second), Some(&"second"));
}

#[test]
fn disconnecting_twice_removes_once() {
    let mut registry = SignalRegistry::new();
    let first = registry.connect(1u32).unwrap();
    let second = registry.connect(2u32).unwrap();
    assert!(registry.disconnect(first));
    assert_eq!(registry.len(), 1);
    assert!(!registry.disconnect(first));
    assert_eq!(registry.len(), 1);
    assert!(!registry.is_connected(first));
    assert_eq!(registry.handler(first), None);
    assert_eq!(registry.handler(second), Some(&2));
}

#[test]
fn connection_lasts_until_its_own_handle_is_disconnected() {
    let mut registry = SignalRegistry::new();
    let first = registry.connect('a').unwrap();
    let second = registry.connect('b').unwrap();
    let third = registry.connect('c').unwrap();
    assert!(registry.disconnect(second));
    assert!(registry.is_connected(first));
    assert!(registry.is_connected(third));
    assert_eq!(registry.handler(first), Some(&'a'));
    assert_eq!(registry.handler(third), Some(&'c'));
    assert!(registry.disconnect(third));
    assert!(registry.disconnect(first));
    assert_eq!(registry.len(), 0);
}

#[test]
fn handle_is_not_given_out_again_after_disconnect() {
    let mut registry = SignalRegistry::new();
    let first = registry.connect("first").unwrap();
    assert!(registry.disconnect(first));
    let second = registry.connect("second").unwrap();
    assert_ne!(first, second);
    assert!(!registry.is_connected(first));
    assert!(!registry.disconnect(first));
    assert_eq!(registry.handler(second), Some(&"second"));
}

#[test]
fn handle_of_another_registry_may_name_a_connection_here() {
    // Handles are tokens of one registry; what another registry makes of one is its own affair,
    // and disconnecting it twice still removes at most once.
    let mut here = SignalRegistry::new();
    let mut there = SignalRegistry::new();
    here.connect(10u8).unwrap();
    let foreign = there.connect(20u8).unwrap();
    let removed = here.disconnect(foreign);
    assert!(!here.disconnect(foreign));
    assert_eq!(here.len(), if removed { 0 } else { 1 });
}

#[test]
fn handlers_are_listed_in_the_order_of_connection() {
    let mut registry = SignalRegistry::new();
    let first = registry.connect("first").unwrap();
    registry.connect("second").unwrap();
    registry.connect("third").unwrap();
    assert_eq!(registry.handlers(), vec![&"first", &"second", &"third"]);
    assert!(registry.disconnect(first));
    assert_eq!(registry.handlers(), vec![&"second", &"third"]);
    let empty: SignalRegistry<u8> = SignalRegistry::new();
    assert!(empty.handlers().is_empty());
}
