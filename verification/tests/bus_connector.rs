use subgraph::bus::advance;
use subgraph::bus::begin;
use subgraph::bus::is_done;
use subgraph::bus::BusAction;
use subgraph::bus::Delivery;
use subgraph::bus::Link;
use subgraph::bus::Phase;
use subgraph::bus::Transition;
use subgraph::counter::Counter;
use subgraph::fanout::Broadcaster;
use subgraph::mutation::mutate;
use subgraph::wire::payload_for;
use subgraph::wire::push_decimal;
use subgraph::wire::subject_for;

fn run(link: Link, outcomes: &[bool]) -> (Transition, Vec<BusAction>) {
    let mut t = begin(link);
    let mut actions = vec![t.action];
    for ok in outcomes {
        if is_done(t.phase) {
            break;
        }
        t = advance(t.link, t.phase, *ok);
        actions.push(t.action);
    }
    (t, actions)
}

#[test]
fn cached_connection_is_tried_first() {
    let t = begin(Link::Connected);
    assert_eq!(t.phase, Phase::TryingCached);
    assert_eq!(t.action, BusAction::SendOnCached);
    assert_eq!(t.link, Link::Connected);
}

#[test]
fn without_connection_connect_comes_first() {
    let t = begin(Link::Disconnected);
    assert_eq!(t.phase, Phase::Connecting);
    assert_eq!(t.action, BusAction::Connect);
    assert_eq!(t.link, Link::Disconnected);
}

#[test]
fn send_on_cached_connection_succeeds() {
    let (t, actions) = run(Link::Connected, &[true]);
    assert_eq!(actions, vec![BusAction::SendOnCached, BusAction::Finish(Delivery::Delivered)]);
    assert_eq!(t.link, Link::Connected);
    assert_eq!(t.phase, Phase::Done(Delivery::Delivered));
}

#[test]
fn failed_send_reconnects_and_retries_once() {
    let (t, actions) = run(Link::Connected, &[false, true, true]);
    assert_eq!(
        actions,
        vec![
            BusAction::SendOnCached,
            BusAction::Connect,
            BusAction::CacheAndSend,
            BusAction::Finish(Delivery::Delivered),
        ]
    );
    assert_eq!(t.link, Link::Connected);
}

#[test]
fn failed_connect_drops_the_message() {
    let (t, actions) = run(Link::Connected, &[false, false]);
    assert_eq!(
        actions,
        vec![BusAction::SendOnCached, BusAction::Connect, BusAction::Finish(Delivery::Dropped)]
    );
    assert_eq!(t.link, Link::Disconnected);
    let (t, actions) = run(Link::Disconnected, &[false]);
    assert_eq!(actions, vec![BusAction::Connect, BusAction::Finish(Delivery::Dropped)]);
    assert_eq!(t.link, Link::Disconnected);
}

#[test]
fn failed_retry_drops_the_message() {
    let (t, actions) = run(Link::Disconnected, &[true, false]);
    assert_eq!(
        actions,
        vec![BusAction::Connect, BusAction::CacheAndSend, BusAction::Finish(Delivery::Dropped)]
    );
    assert_eq!(t.link, Link::Disconnected);
    assert_eq!(t.phase, Phase::Done(Delivery::Dropped));
}

#[test]
fn first_connection_is_cached_after_delivery() {
    let (t, actions) = run(Link::Disconnected, &[true, true]);
    assert_eq!(
        actions,
        vec![BusAction::Connect, BusAction::CacheAndSend, BusAction::Finish(Delivery::Delivered)]
    );
    assert_eq!(t.link, Link::Connected);
}

#[test]
fn settled_message_stays_settled() {
    let t = advance(Link::Connected, Phase::Done(Delivery::Dropped), true);
    assert_eq!(t.phase, Phase::Done(Delivery::Dropped));
    assert_eq!(t.action, BusAction::Finish(Delivery::Dropped));
    assert_eq!(t.link, Link::Connected);
}

#[test]
fn every_run_settles_within_three_outcomes() {
    for link in [Link::Connected, Link::Disconnected] {
        for bits in 0..8 {
            let outcomes = [bits & 1 != 0, bits & 2 != 0, bits & 4 != 0];
            let (t, actions) = run(link, &outcomes);
            assert!(is_done(t.phase));
            assert!(actions.len() <= 4);
            let connects = actions.iter().filter(|a| **a == BusAction::Connect).count();
            assert!(connects <= 1);
        }
    }
}

#[test]
fn bus_failure_does_not_change_the_result() {
    let fanout = Broadcaster::new();
    let mut failing = Counter::with_value(10);
    let mut m = mutate(&mut failing, &fanout, Link::Connected, Some(5));
    assert_eq!(m.action(), BusAction::SendOnCached);
    assert_eq!(m.report(false), BusAction::Connect);
    assert_eq!(m.report(false), BusAction::Finish(Delivery::Dropped));
    assert_eq!(m.value, 15);
    assert_eq!(m.payload, b"{\"value\":15}".to_vec());
    assert_eq!(failing.read(), 15);

    let mut working = Counter::with_value(10);
    let mut n = mutate(&mut working, &fanout, Link::Connected, Some(5));
    assert_eq!(n.report(true), BusAction::Finish(Delivery::Delivered));
    assert_eq!(n.value, m.value);
    assert_eq!(working.read(), failing.read());
}

#[test]
fn subject_is_built_from_the_profile() {
    assert_eq!(subject_for("subgraph"), "gema.subgraph.value.updated");
    assert_eq!(subject_for("a.b"), "gema.a.b.value.updated");
    assert_eq!(subject_for(""), "gema..value.updated");
}

#[test]
fn payload_is_a_single_field_object() {
    assert_eq!(payload_for(5), b"{\"value\":5}".to_vec());
    assert_eq!(payload_for(0), b"{\"value\":0}".to_vec());
    assert_eq!(payload_for(10), b"{\"value\":10}".to_vec());
    assert_eq!(payload_for(-42), b"{\"value\":-42}".to_vec());
    assert_eq!(payload_for(i32::MAX), b"{\"value\":2147483647}".to_vec());
    assert_eq!(payload_for(i32::MIN), b"{\"value\":-2147483648}".to_vec());
}

#[test]
fn payload_matches_std_formatting() {
    for v in [1, 9, 10, 99, 100, 101, 1000, -1, -9, -10, -1000, 123456789, -987654321] {
        assert_eq!(payload_for(v), format!("{{\"value\":{}}}", v).into_bytes());
    }
}

#[test]
fn push_decimal_appends() {
    let mut out = b"n=".to_vec();
    push_decimal(&mut out, -305);
    assert_eq!(out, b"n=-305".to_vec());
}
