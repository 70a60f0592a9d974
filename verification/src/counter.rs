//! The state cell: one signed 32-bit counter per instance.
//!
//! Arithmetic on the cell wraps around in two's complement; it never fails
//! and never saturates. Exclusive access (`&mut`) is the critical section:
//! whoever serialises access to the cell serialises the deltas, and the
//! laws below say that the order in which they are serialised does not
//! matter for the final value.

use vstd::prelude::*;
use vstd::arithmetic::div_mod::lemma_add_mod_noop;
use vstd::arithmetic::div_mod::lemma_mod_add_multiples_vanish;
use vstd::arithmetic::div_mod::lemma_mod_multiples_vanish;
use vstd::arithmetic::div_mod::lemma_small_mod;

verus! {

/// The delta applied when a caller names none.
pub const DEFAULT_DELTA: i32 = 1;

/// The value of `n` reduced into the range of a signed 32-bit integer.
pub open spec fn wrap32(n: int) -> int {
    (n + 0x8000_0000) % 0x1_0000_0000 - 0x8000_0000
}

/// The delta that a request stands for: its own, or the default.
pub open spec fn delta_or_default(by: Option<i32>) -> int {
    match by {
        Some(d) => d as int,
        None => DEFAULT_DELTA as int,
    }
}

/// The sum of a sequence of deltas, unbounded.
pub open spec fn sum_of(deltas: Seq<i32>) -> int
    decreases deltas.len(),
{
    if deltas.len() == 0 {
        0
    } else {
        sum_of(deltas.drop_last()) + deltas.last()
    }
}

/// The value of a cell that started at `start` after the deltas were
/// applied one after the other, each with wrap-around.
pub open spec fn after_all(start: int, deltas: Seq<i32>) -> int
    decreases deltas.len(),
{
    if deltas.len() == 0 {
        start
    } else {
        wrap32(after_all(start, deltas.drop_last()) + deltas.last())
    }
}

/// The delta that a raw request argument stands for: the argument reduced
/// to 32 bits, or the default where the argument is missing or is no
/// integer.
pub fn requested_delta(arg: Option<i64>) -> (by: i32)
    ensures
        by == match arg {
            Some(n) => wrap32(n as int),
            None => DEFAULT_DELTA as int,
        },
{
    match arg {
        Some(n) => {
            let lifted: i128 = n as i128 + 0x8000_0000 + 0x1_0000_0000 * 0x8000_0000;
            let reduced: i128 = lifted % 0x1_0000_0000 - 0x8000_0000;
            proof {
                lemma_mod_multiples_vanish(0x8000_0000, n + 0x8000_0000, 0x1_0000_0000);
            }
            reduced as i32
        },
        None => DEFAULT_DELTA,
    }
}

/// The state cell.
pub struct Counter {
    value: i32,
}

impl Counter {
    /// The value of record.
    pub closed spec fn view(&self) -> int {
        self.value as int
    }

    /// A cell at zero.
    pub fn new() -> (c: Counter)
        ensures
            c@ == 0,
    {
        Counter { value: 0 }
    }

    /// A cell at `value`.
    pub fn with_value(value: i32) -> (c: Counter)
        ensures
            c@ == value,
    {
        Counter { value }
    }

    /// The current value.
    pub fn read(&self) -> (v: i32)
        ensures
            v == self@,
    {
        self.value
    }

    /// Adds `by` to the cell, wrapping around on overflow, and returns the
    /// new value.
    pub fn apply_delta(&mut self, by: i32) -> (v: i32)
        ensures
            final(self)@ == wrap32(old(self)@ + by),
            i32::MIN <= old(self)@ + by <= i32::MAX ==> final(self)@ == old(self)@ + by,
            v == final(self)@,
    {
        let next: i32 = self.value.wrapping_add(by);
        proof {
            lemma_wrap32_cases(self.value + by);
        }
        self.value = next;
        next
    }

    /// Adds the requested delta, or the default where none is given.
    pub fn apply(&mut self, by: Option<i32>) -> (v: i32)
        ensures
            final(self)@ == wrap32(old(self)@ + delta_or_default(by)),
            i32::MIN <= old(self)@ + delta_or_default(by) <= i32::MAX ==> final(self)@ == old(
                self,
            )@ + delta_or_default(by),
            v == final(self)@,
    {
        let delta: i32 = match by {
            Some(d) => d,
            None => DEFAULT_DELTA,
        };
        self.apply_delta(delta)
    }
}

/// `wrap32` on a sum of two 32-bit values, case by case.
pub proof fn lemma_wrap32_cases(n: int)
    requires
        -0x1_0000_0000 <= n < 0x1_0000_0000,
    ensures
        n > i32::MAX ==> wrap32(n) == n - 0x1_0000_0000,
        n < i32::MIN ==> wrap32(n) == n + 0x1_0000_0000,
        i32::MIN <= n <= i32::MAX ==> wrap32(n) == n,
        i32::MIN <= wrap32(n) <= i32::MAX,
{
    let m = 0x1_0000_0000int;
    if n > i32::MAX {
        lemma_small_mod((n + 0x8000_0000 - m) as nat, m as nat);
        lemma_mod_add_multiples_vanish(n + 0x8000_0000 - m, m);
    } else if n < i32::MIN {
        lemma_small_mod((n + 0x8000_0000 + m) as nat, m as nat);
        lemma_mod_add_multiples_vanish(n + 0x8000_0000, m);
    } else {
        lemma_small_mod((n + 0x8000_0000) as nat, m as nat);
    }
}

/// Reducing an intermediate result changes nothing once the next delta is
/// reduced too.
pub proof fn lemma_wrap32_absorbs(a: int, b: int)
    ensures
        wrap32(wrap32(a) + b) == wrap32(a + b),
{
    let m = 0x1_0000_0000int;
    let h = 0x8000_0000int;
    // wrap32(a) + b + h == (a + h) % m + b
    lemma_add_mod_noop(a + h, b, m);
    lemma_small_mod(((a + h) % m) as nat, m as nat);
    assert(((a + h) % m + b % m) % m == (a + h + b) % m);
    lemma_add_mod_noop((a + h) % m, b, m);
    assert((((a + h) % m) % m + b % m) % m == ((a + h) % m + b) % m);
}

/// Whatever the deltas and however many of them wrapped on the way, the
/// cell ends at its starting value plus the sum of all deltas, reduced once.
pub proof fn lemma_final_value_is_start_plus_sum(start: int, deltas: Seq<i32>)
    requires
        i32::MIN <= start <= i32::MAX,
    ensures
        after_all(start, deltas) == wrap32(start + sum_of(deltas)),
    decreases deltas.len(),
{
    if deltas.len() == 0 {
        lemma_wrap32_cases(start);
    } else {
        lemma_final_value_is_start_plus_sum(start, deltas.drop_last());
        lemma_wrap32_absorbs(start + sum_of(deltas.drop_last()), deltas.last() as int);
    }
}

/// The sum of a sequence depends only on which deltas occur how often.
pub proof fn lemma_sum_of_is_order_free(a: Seq<i32>, b: Seq<i32>)
    requires
        a.to_multiset() == b.to_multiset(),
    ensures
        sum_of(a) == sum_of(b),
    decreases a.len(),
{
    broadcast use vstd::seq_lib::group_to_multiset_ensures;
    if a.len() == 0 {
        assert(a.to_multiset().len() == a.len());
        assert(b.to_multiset().len() == b.len());
        assert(b =~= Seq::<i32>::empty());
    } else {
        let x = a.last();
        assert(a.drop_last().push(x) =~= a);
        assert(a.to_multiset().count(x) > 0);
        assert(b.contains(x));
        let i = choose|i: int| 0 <= i < b.len() && b[i] == x;
        assert(a.drop_last().to_multiset() =~= a.to_multiset().remove(x));
        assert(b.remove(i).to_multiset() =~= b.to_multiset().remove(x));
        lemma_sum_of_is_order_free(a.drop_last(), b.remove(i));
        lemma_sum_of_remove(b, i);
    }
}

/// Taking one delta out of a sequence lowers the sum by that delta.
pub proof fn lemma_sum_of_remove(s: Seq<i32>, i: int)
    requires
        0 <= i < s.len(),
    ensures
        sum_of(s) == sum_of(s.remove(i)) + s[i],
    decreases s.len(),
{
    if i == s.len() - 1 {
        assert(s.remove(i) =~= s.drop_last());
    } else {
        lemma_sum_of_remove(s.drop_last(), i);
        assert(s.remove(i).drop_last() =~= s.drop_last().remove(i));
        assert(s.remove(i).last() == s.last());
    }
}

/// Atomicity of the cell: when a set of `apply_delta` calls is serialised in
/// any two orders, the cell ends at the same value, which is the starting
/// value plus the sum of all deltas, reduced into the 32-bit range.
pub proof fn lemma_interleaving_does_not_matter(start: int, a: Seq<i32>, b: Seq<i32>)
    requires
        i32::MIN <= start <= i32::MAX,
        a.to_multiset() == b.to_multiset(),
    ensures
        after_all(start, a) == after_all(start, b),
        after_all(start, a) == wrap32(start + sum_of(a)),
{
    lemma_final_value_is_start_plus_sum(start, a);
    lemma_final_value_is_start_plus_sum(start, b);
    lemma_sum_of_is_order_free(a, b);
}

/// A request without a delta is a request for a delta of one: the two leave
/// the same value in the cell and return the same value.
pub proof fn lemma_absent_delta_is_one(start: int)
    ensures
        delta_or_default(None) == delta_or_default(Some(1i32)),
        wrap32(start + delta_or_default(None)) == wrap32(start + delta_or_default(Some(1i32))),
{
}

} // verus!
