use navicula::anyhashable::AnyHashable;
use navicula::publisher::{next_version, PublisherState};
use navicula::runtime::{IdMap, Runtime, Timers};
use std::collections::hash_map::DefaultHasher;
use std::hash::{Hash, Hasher};

#[test]
fn str_hash_is_the_default_hasher() {
    let mut h = DefaultHasher::new();
    "chat-chats".hash(&mut h);
    assert_eq!(AnyHashable::from_str("chat-chats").id(), h.finish());
}

#[test]
fn string_hash_equals_str_hash() {
    let s = String::from("selected");
    assert_eq!(AnyHashable::from_string(&s), AnyHashable::from_str("selected"));
    assert_ne!(AnyHashable::from_str("a"), AnyHashable::from_str("b"));
}

#[test]
fn usize_hash_is_the_default_hasher() {
    let mut h = DefaultHasher::new();
    7usize.hash(&mut h);
    assert_eq!(AnyHashable::from_usize(7).id(), h.finish());
}

#[test]
fn from_id_keeps_the_id() {
    assert_eq!(AnyHashable::from_id(42).id(), 42);
}

#[test]
fn id_map_insert_remove() {
    let mut m: IdMap<&'static str> = IdMap::new();
    assert_eq!(m.insert(1, "a"), None);
    assert_eq!(m.insert(2, "b"), None);
    assert_eq!(m.insert(1, "c"), Some("a"));
    assert_eq!(m.len(), 2);
    assert_eq!(m.get(1), Some(&"c"));
    let mut ids = m.ids();
    ids.sort();
    assert_eq!(ids, vec![1, 2]);
    assert_eq!(m.remove(1), Some("c"));
    assert_eq!(m.remove(1), None);
    assert!(!m.contains(1));
    m.clear();
    assert_eq!(m.len(), 0);
}

#[test]
fn timers_start_and_cancel() {
    let mut t: Timers<u32> = Timers::new();
    let a = AnyHashable::from_str("a");
    assert_eq!(t.start(a, 1), None);
    assert!(t.is_running(a));
    // Starting again under the same identifier displaces the first timer.
    assert_eq!(t.start(a, 2), Some(1));
    assert_eq!(t.cancel(a), Some(2));
    assert!(!t.is_running(a));
    assert_eq!(t.cancel(a), None);
}

#[test]
fn version_wraps_around() {
    assert_eq!(next_version(0), 1);
    assert_eq!(next_version(41), 42);
    assert_eq!(next_version(u64::MAX), 0);
}

#[test]
fn publisher_notifies_subscribers() {
    let mut p: PublisherState<&'static str> = PublisherState::new();
    assert_eq!(p.version(), 0);
    assert!(p.mutated().is_empty());
    assert_eq!(p.version(), 1);
    let k1 = p.subscribe(AnyHashable::from_str("one"), "first");
    let k2 = p.subscribe(AnyHashable::from_str("two"), "second");
    assert_eq!(k1, AnyHashable::from_str("one").id());
    let mut told = p.mutated();
    told.sort();
    let mut expected = vec![k1, k2];
    expected.sort();
    assert_eq!(told, expected);
    assert_eq!(p.version(), 2);
    assert_eq!(p.subscriber(k1), Some(&"first"));
    assert_eq!(p.unsubscribe(k1), Some("first"));
    assert_eq!(p.unsubscribe(k1), None);
    assert_eq!(p.mutated(), vec![k2]);
}

#[test]
fn runtime_children_and_subscriptions() {
    let mut r: Runtime<&'static str, u32, u32, u32> = Runtime::new(3, "sender");
    assert_eq!(r.scope_id(), 3);
    assert_eq!(*r.sender(), "sender");
    assert!(!r.register_child(10, 1));
    // A second child in the same scope is reported.
    assert!(r.register_child(10, 2));
    assert_eq!(r.child(10), Some(&2));
    assert_eq!(r.child_scopes(), vec![10]);
    assert_eq!(r.remove_child(10), Some(2));
    assert_eq!(r.child(10), None);
    r.add_subscription(5);
    r.add_subscription(6);
    assert_eq!(r.take_subscriptions(), vec![5, 6]);
    assert!(r.take_subscriptions().is_empty());
}

#[test]
fn runtime_timers_outlive_an_update() {
    let mut r: Runtime<(), (), (), u32> = Runtime::new(1, ());
    let tick = AnyHashable::from_str("tick");
    assert_eq!(r.start_timer(tick, 7), None);
    // A later update finds the timer again and stops it.
    assert!(r.is_timer_running(tick));
    assert_eq!(r.start_timer(tick, 8), Some(7));
    assert_eq!(r.cancel_timer(tick), Some(8));
    assert!(!r.is_timer_running(tick));
    assert_eq!(r.cancel_timer(tick), None);
}

#[test]
fn cancelled_subscriber_is_not_told() {
    let mut p: PublisherState<&'static str> = PublisherState::new();
    let k0 = p.subscribe(AnyHashable::from_str("kept"), "kept");
    let k = p.subscribe(AnyHashable::from_str("gone"), "gone");
    assert_eq!(p.unsubscribe(k), Some("gone"));
    assert_eq!(p.unsubscribe(k), None);
    assert_eq!(p.mutated(), vec![k0]);
    assert_eq!(p.subscriber(k0), Some(&"kept"));
}
