use subgraph::entity::Endpoint;
use subgraph::entity::DEFAULT_COUNT;
use subgraph::fanout::Broadcaster;
use subgraph::fanout::Poll;
use subgraph::mutation::increment_value;
use subgraph::mutation::query_value;
use subgraph::store::KeyedStore;

#[test]
fn unknown_entity_gets_the_default() {
    let store = KeyedStore::new();
    let e = Endpoint::find_by_id("42", &store);
    assert_eq!(e.id, "42");
    assert_eq!(e.subgraph2_count, Some(100));
    assert_eq!(DEFAULT_COUNT, 100);
}

#[test]
fn recorded_entity_gets_its_count() {
    let mut store = KeyedStore::new();
    store.insert("endpoint_42", 7);
    store.insert("endpoint_43", 8);
    let e = Endpoint::find_by_id("42", &store);
    assert_eq!(e.id, "42");
    assert_eq!(e.subgraph2_count, Some(7));
    assert_eq!(Endpoint::find_by_id("43", &store).subgraph2_count, Some(8));
    assert_eq!(Endpoint::find_by_id("4", &store).subgraph2_count, Some(100));
}

#[test]
fn resolution_is_repeatable_and_reads_only() {
    let mut store = KeyedStore::new();
    store.insert("endpoint_x", -3);
    let first = Endpoint::find_by_id("x", &store);
    let second = Endpoint::find_by_id("x", &store);
    assert_eq!(first.subgraph2_count, second.subgraph2_count);
    assert_eq!(store.get("endpoint_x"), Some(-3));
    assert_eq!(store.get("endpoint_y"), None);
    let _ = Endpoint::find_by_id("y", &store);
    assert_eq!(store.get("endpoint_y"), None);
}

#[test]
fn counter_key_does_not_resolve_as_entity() {
    let mut store = KeyedStore::new();
    store.insert("counter", 5);
    assert_eq!(Endpoint::find_by_id("counter", &store).subgraph2_count, Some(100));
    assert_eq!(Endpoint::find_by_id("", &store).subgraph2_count, Some(100));
}

#[test]
fn store_insert_replaces() {
    let mut store = KeyedStore::new();
    assert_eq!(store.get("a"), None);
    store.insert("a", 1);
    store.insert("b", 2);
    store.insert("a", 3);
    assert_eq!(store.get("a"), Some(3));
    assert_eq!(store.get("b"), Some(2));
    assert_eq!(store.get(""), None);
}

#[test]
fn keyed_counter_starts_at_zero() {
    let store = KeyedStore::new();
    assert_eq!(query_value(&store), 0);
}

#[test]
fn keyed_increment_returns_and_records() {
    let fanout = Broadcaster::new();
    let mut s = fanout.subscribe();
    let mut store = KeyedStore::new();
    assert_eq!(increment_value(&mut store, &fanout, Some(5)), 5);
    assert_eq!(increment_value(&mut store, &fanout, None), 6);
    assert_eq!(query_value(&store), 6);
    assert_eq!(store.get("counter"), Some(6));
    assert_eq!(s.poll(), Poll::Item(5));
    assert_eq!(s.poll(), Poll::Item(6));
    assert_eq!(s.poll(), Poll::Pending);
}

#[test]
fn keyed_increment_wraps() {
    let fanout = Broadcaster::new();
    let mut store = KeyedStore::new();
    store.insert("counter", i32::MAX);
    assert_eq!(increment_value(&mut store, &fanout, None), i32::MIN);
    assert_eq!(query_value(&store), i32::MIN);
}
