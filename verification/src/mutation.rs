//! The mutation handler: apply the delta, fan the new value out locally,
//! and prepare its publication on the bus.
//!
//! The three effects are isolated from each other. The value a mutation
//! returns is the state cell's value right after the delta was applied;
//! neither the number of local subscribers nor anything that happens on
//! the bus afterwards changes it.

use vstd::prelude::*;
use crate::bus::advance;
use crate::bus::advance_spec;
use crate::bus::begin;
use crate::bus::begin_spec;
use crate::bus::BusAction;
use crate::bus::Link;
use crate::bus::Transition;
use crate::counter::delta_or_default;
use crate::counter::lemma_wrap32_cases;
use crate::counter::wrap32;
use crate::counter::Counter;
use crate::counter::DEFAULT_DELTA;
use crate::fanout::Broadcaster;
use crate::store::counter_key;
use crate::store::KeyedStore;
use crate::wire::payload_bytes;
use crate::wire::payload_for;

verus! {

/// A mutation that has been applied and fanned out, and whose publication
/// on the bus is under way or settled.
pub struct Mutation {
    /// The state cell's value right after the delta was applied.
    pub value: i32,
    /// The number of local subscribers the value was handed to.
    pub reached: usize,
    /// The payload for the bus.
    pub payload: Vec<u8>,
    /// Where the publication on the bus stands.
    pub bus: Transition,
}

impl Mutation {
    /// What the owner of the bus connection is to do now.
    pub fn action(&self) -> (a: BusAction)
        ensures
            a == self.bus.action,
    {
        self.bus.action
    }

    /// The mutation after the outcome `ok` of the action under way was
    /// reported: the bus side moves on, the rest stays.
    pub open spec fn reported(self, ok: bool) -> Mutation {
        Mutation {
            value: self.value,
            reached: self.reached,
            payload: self.payload,
            bus: advance_spec(self.bus.link, self.bus.phase, ok),
        }
    }

    /// Takes the outcome of the action under way and returns the next one.
    /// Whether that action failed or not, the mutation's value and payload
    /// stay as they are, and no error is handed back.
    pub fn report(&mut self, ok: bool) -> (a: BusAction)
        ensures
            *final(self) == old(self).reported(ok),
            a == final(self).bus.action,
    {
        self.bus = advance(self.bus.link, self.bus.phase, ok);
        self.bus.action
    }
}

/// Applies a mutation: adds the requested delta, or the default where none
/// is given, to the state cell; hands the new value to the local
/// subscribers; and prepares its publication on the bus, given whether a
/// bus connection is cached.
pub fn mutate(cell: &mut Counter, fanout: &Broadcaster, link: Link, by: Option<i32>) -> (m:
    Mutation)
    ensures
        final(cell)@ == wrap32(old(cell)@ + delta_or_default(by)),
        i32::MIN <= old(cell)@ + delta_or_default(by) <= i32::MAX ==> final(cell)@ == old(cell)@
            + delta_or_default(by),
        m.value == final(cell)@,
        m.payload@ == payload_bytes(m.value as int),
        m.bus == begin_spec(link),
{
    let value: i32 = cell.apply(by);
    let reached: usize = fanout.publish(value);
    let payload = payload_for(value);
    Mutation { value, reached, payload, bus: begin(link) }
}

/// The counter of a keyed store: the value under the counter's key, zero
/// where there is none yet.
pub open spec fn counter_of(store: Map<Seq<char>, i32>) -> int {
    if store.contains_key(counter_key()) {
        store[counter_key()] as int
    } else {
        0
    }
}

/// The current counter of a keyed store.
pub fn query_value(store: &KeyedStore) -> (v: i32)
    requires
        store.wf(),
    ensures
        v == counter_of(store@),
{
    match store.get("counter") {
        Some(v) => v,
        None => 0,
    }
}

/// Applies a mutation to the counter of a keyed store, with wrap-around,
/// hands the new value to the local subscribers and returns it.
pub fn increment_value(store: &mut KeyedStore, fanout: &Broadcaster, by: Option<i32>) -> (v: i32)
    requires
        old(store).wf(),
    ensures
        final(store).wf(),
        v == wrap32(counter_of(old(store)@) + delta_or_default(by)),
        final(store)@ == old(store)@.insert(counter_key(), v),
{
    let current: i32 = query_value(store);
    let delta: i32 = match by {
        Some(d) => d,
        None => DEFAULT_DELTA,
    };
    let value: i32 = current.wrapping_add(delta);
    proof {
        lemma_wrap32_cases(current + delta);
    }
    store.insert("counter", value);
    let _ = fanout.publish(value);
    value
}

/// Nothing that happens on the bus changes what a mutation returns:
/// whatever outcomes are reported, failures included, the value and the
/// payload stay as they were when the delta was applied, and after three
/// reports at the latest the publication is settled.
pub proof fn lemma_bus_outcomes_keep_value(m: Mutation, first: bool, second: bool, third: bool)
    requires
        m.bus == begin_spec(m.bus.link),
    ensures
        m.reported(first).value == m.value,
        m.reported(first).reported(second).value == m.value,
        m.reported(first).reported(second).reported(third).value == m.value,
        m.reported(first).reported(second).reported(third).payload == m.payload,
        m.reported(first).reported(second).reported(third).bus.action is Finish,
{
}

} // verus!
