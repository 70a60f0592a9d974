//! What goes over the bus: the subject a profile publishes on, and the
//! payload that carries one new value.
//!
//! The subject is `gema.<profile>.value.updated`. The payload is the UTF-8
//! JSON object `{"value":N}`, with `N` the value in decimal, a leading `-`
//! for negative values, no padding and no white space.

use vstd::prelude::*;
use vstd::string::StringExecFns;

verus! {

/// The decimal digits of `n`, most significant first, as ASCII bytes.
pub open spec fn digits(n: nat) -> Seq<u8>
    decreases n,
{
    if n < 10 {
        seq![(48 + n) as u8]
    } else {
        digits(n / 10).push((48 + n % 10) as u8)
    }
}

/// The decimal form of a signed value, as ASCII bytes.
pub open spec fn decimal(v: int) -> Seq<u8> {
    if v < 0 {
        seq![45u8] + digits((-v) as nat)
    } else {
        digits(v as nat)
    }
}

/// The bytes of `{"value":`.
pub open spec fn payload_head() -> Seq<u8> {
    seq![123u8, 34u8, 118u8, 97u8, 108u8, 117u8, 101u8, 34u8, 58u8]
}

/// The bytes of `}`.
pub open spec fn payload_tail() -> Seq<u8> {
    seq![125u8]
}

/// The payload that announces `value`.
pub open spec fn payload_bytes(value: int) -> Seq<u8> {
    payload_head() + decimal(value) + payload_tail()
}

/// The subject on which instances of `profile` publish their updates.
pub open spec fn subject_of(profile: Seq<char>) -> Seq<char> {
    "gema."@ + profile + ".value.updated"@
}

/// Appends the decimal digits of `n` to `out`.
fn push_digits(out: &mut Vec<u8>, n: u32)
    ensures
        final(out)@ == old(out)@ + digits(n as nat),
    decreases n,
{
    if n >= 10 {
        push_digits(out, n / 10);
    }
    let d: u8 = (n % 10) as u8;
    out.push(48 + d);
    proof {
        if n >= 10 {
            assert(final(out)@ =~= old(out)@ + digits((n / 10) as nat).push((48 + n % 10) as u8));
        } else {
            assert(final(out)@ =~= old(out)@ + seq![(48 + n) as u8]);
        }
    }
}

/// Appends the decimal form of `v` to `out`.
pub fn push_decimal(out: &mut Vec<u8>, v: i32)
    ensures
        final(out)@ == old(out)@ + decimal(v as int),
{
    if v < 0 {
        out.push(45);
        let wide: i64 = v as i64;
        let magnitude: u32 = (-wide) as u32;
        push_digits(out, magnitude);
        assert(final(out)@ =~= old(out)@ + (seq![45u8] + digits((-v) as nat)));
    } else {
        push_digits(out, v as u32);
    }
}

/// The payload that announces `value`: `{"value":N}`.
pub fn payload_for(value: i32) -> (payload: Vec<u8>)
    ensures
        payload@ == payload_bytes(value as int),
{
    let mut out: Vec<u8> = Vec::new();
    out.push(123);
    out.push(34);
    out.push(118);
    out.push(97);
    out.push(108);
    out.push(117);
    out.push(101);
    out.push(34);
    out.push(58);
    assert(out@ =~= payload_head());
    push_decimal(&mut out, value);
    out.push(125);
    assert(out@ =~= payload_bytes(value as int));
    out
}

/// The subject on which instances of `profile` publish their updates.
pub fn subject_for(profile: &str) -> (subject: String)
    ensures
        subject@ == subject_of(profile@),
{
    let mut subject = String::from_str("gema.");
    subject.append(profile);
    subject.append(".value.updated");
    subject
}

} // verus!
