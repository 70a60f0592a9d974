use subgraph::counter::requested_delta;
use subgraph::counter::Counter;
use subgraph::counter::DEFAULT_DELTA;

#[test]
fn new_cell_reads_zero() {
    let cell = Counter::new();
    assert_eq!(cell.read(), 0);
}

#[test]
fn apply_delta_returns_new_value() {
    let mut cell = Counter::new();
    assert_eq!(cell.apply_delta(5), 5);
    assert_eq!(cell.read(), 5);
    assert_eq!(cell.apply_delta(-7), -2);
    assert_eq!(cell.read(), -2);
}

#[test]
fn default_delta_is_one() {
    assert_eq!(DEFAULT_DELTA, 1);
    let mut a = Counter::with_value(41);
    let mut b = Counter::with_value(41);
    assert_eq!(a.apply(None), 42);
    assert_eq!(b.apply(Some(1)), 42);
    assert_eq!(a.read(), b.read());
}

#[test]
fn apply_wraps_at_the_upper_bound() {
    let mut cell = Counter::with_value(i32::MAX);
    assert_eq!(cell.apply(None), i32::MIN);
    assert_eq!(cell.read(), i32::MIN);
}

#[test]
fn apply_wraps_at_the_lower_bound() {
    let mut cell = Counter::with_value(i32::MIN);
    assert_eq!(cell.apply_delta(-1), i32::MAX);
    let mut other = Counter::with_value(-2);
    assert_eq!(other.apply_delta(i32::MIN), i32::MAX - 1);
}

#[test]
fn final_value_is_start_plus_sum_in_any_order() {
    let deltas = vec![5, -3, i32::MAX, 17, i32::MAX, -40, i32::MIN, 9];
    let mut forward = Counter::with_value(10);
    for d in deltas.iter() {
        forward.apply_delta(*d);
    }
    let mut backward = Counter::with_value(10);
    for d in deltas.iter().rev() {
        backward.apply_delta(*d);
    }
    let sum: i64 = deltas.iter().map(|d| *d as i64).sum::<i64>() + 10;
    assert_eq!(sum, 2147483644);
    assert_eq!(forward.read(), 2147483644);
    assert_eq!(backward.read(), 2147483644);
}

#[test]
fn wrapped_sum_matches_reduced_total() {
    let mut cell = Counter::with_value(0);
    cell.apply_delta(i32::MAX);
    cell.apply_delta(i32::MAX);
    cell.apply_delta(4);
    // 2 * (2^31 - 1) + 4 = 2^32 + 2
    assert_eq!(cell.read(), 2);
}

#[test]
fn requested_delta_defaults_when_missing() {
    assert_eq!(requested_delta(None), 1);
}

#[test]
fn requested_delta_keeps_small_values() {
    assert_eq!(requested_delta(Some(5)), 5);
    assert_eq!(requested_delta(Some(-5)), -5);
    assert_eq!(requested_delta(Some(0)), 0);
    assert_eq!(requested_delta(Some(i32::MAX as i64)), i32::MAX);
    assert_eq!(requested_delta(Some(i32::MIN as i64)), i32::MIN);
}

#[test]
fn requested_delta_reduces_wide_values() {
    assert_eq!(requested_delta(Some(4294967301)), 5);
    assert_eq!(requested_delta(Some(2147483648)), i32::MIN);
    assert_eq!(requested_delta(Some(-2147483649)), i32::MAX);
    assert_eq!(requested_delta(Some(i64::MAX)), -1);
    assert_eq!(requested_delta(Some(i64::MIN)), 0);
}
