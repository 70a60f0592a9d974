//! The bus connector's decisions.
//!
//! Delivery to the bus is best effort. One message gets at most one send on
//! the cached connection, one connect attempt and one send on the fresh
//! connection; then it is delivered or silently dropped. The connector is
//! a state machine: whoever owns the connection performs each action and
//! reports whether it succeeded, and `advance` says what to do next.

use vstd::prelude::*;

verus! {

/// Whether a connection to the bus is cached.
#[derive(Clone, Copy, Debug, PartialEq, Eq, Structural)]
pub enum Link {
    Disconnected,
    Connected,
}

/// What became of a message.
#[derive(Clone, Copy, Debug, PartialEq, Eq, Structural)]
pub enum Delivery {
    Delivered,
    Dropped,
}

/// Where the handling of one message stands.
#[derive(Clone, Copy, Debug, PartialEq, Eq, Structural)]
pub enum Phase {
    /// A send on the cached connection is under way.
    TryingCached,
    /// A connect attempt is under way.
    Connecting,
    /// A send on the connection just made is under way.
    Retrying,
    /// The message is settled.
    Done(Delivery),
}

/// What the owner of the connection does next.
#[derive(Clone, Copy, Debug, PartialEq, Eq, Structural)]
pub enum BusAction {
    /// Send the message on the cached connection.
    SendOnCached,
    /// Discard any cached connection and try to make a new one.
    Connect,
    /// Cache the connection just made, replacing any other, and send the
    /// message on it.
    CacheAndSend,
    /// Nothing more: the message is settled.
    Finish(Delivery),
}

/// The connector after a decision.
#[derive(Clone, Copy, Debug, PartialEq, Eq, Structural)]
pub struct Transition {
    pub link: Link,
    pub phase: Phase,
    pub action: BusAction,
}

/// The first decision for a message.
pub open spec fn begin_spec(link: Link) -> Transition {
    match link {
        Link::Connected => Transition {
            link,
            phase: Phase::TryingCached,
            action: BusAction::SendOnCached,
        },
        Link::Disconnected => Transition {
            link,
            phase: Phase::Connecting,
            action: BusAction::Connect,
        },
    }
}

/// The decision that follows the outcome `ok` of the action under way.
pub open spec fn advance_spec(link: Link, phase: Phase, ok: bool) -> Transition {
    match phase {
        Phase::TryingCached => if ok {
            settled(Link::Connected, Delivery::Delivered)
        } else {
            Transition {
                link: Link::Disconnected,
                phase: Phase::Connecting,
                action: BusAction::Connect,
            }
        },
        Phase::Connecting => if ok {
            Transition {
                link: Link::Connected,
                phase: Phase::Retrying,
                action: BusAction::CacheAndSend,
            }
        } else {
            settled(Link::Disconnected, Delivery::Dropped)
        },
        Phase::Retrying => if ok {
            settled(Link::Connected, Delivery::Delivered)
        } else {
            settled(Link::Disconnected, Delivery::Dropped)
        },
        Phase::Done(d) => settled(link, d),
    }
}

/// A settled message.
pub open spec fn settled(link: Link, delivery: Delivery) -> Transition {
    Transition { link, phase: Phase::Done(delivery), action: BusAction::Finish(delivery) }
}

/// The number of outcomes that can still be asked for in a phase.
pub open spec fn steps_left(phase: Phase) -> nat {
    match phase {
        Phase::TryingCached => 3,
        Phase::Connecting => 2,
        Phase::Retrying => 1,
        Phase::Done(_) => 0,
    }
}

/// The first decision for a message: send on the cached connection where
/// there is one, connect where there is none.
pub fn begin(link: Link) -> (t: Transition)
    ensures
        t == begin_spec(link),
{
    match link {
        Link::Connected => Transition {
            link,
            phase: Phase::TryingCached,
            action: BusAction::SendOnCached,
        },
        Link::Disconnected => Transition {
            link,
            phase: Phase::Connecting,
            action: BusAction::Connect,
        },
    }
}

/// The decision that follows the outcome of the action under way: `ok`
/// says whether that send or connect succeeded.
pub fn advance(link: Link, phase: Phase, ok: bool) -> (t: Transition)
    ensures
        t == advance_spec(link, phase, ok),
{
    match phase {
        Phase::TryingCached => {
            if ok {
                finish(Link::Connected, Delivery::Delivered)
            } else {
                Transition {
                    link: Link::Disconnected,
                    phase: Phase::Connecting,
                    action: BusAction::Connect,
                }
            }
        },
        Phase::Connecting => {
            if ok {
                Transition {
                    link: Link::Connected,
                    phase: Phase::Retrying,
                    action: BusAction::CacheAndSend,
                }
            } else {
                finish(Link::Disconnected, Delivery::Dropped)
            }
        },
        Phase::Retrying => {
            if ok {
                finish(Link::Connected, Delivery::Delivered)
            } else {
                finish(Link::Disconnected, Delivery::Dropped)
            }
        },
        Phase::Done(d) => finish(link, d),
    }
}

/// A settled message.
fn finish(link: Link, delivery: Delivery) -> (t: Transition)
    ensures
        t == settled(link, delivery),
{
    Transition { link, phase: Phase::Done(delivery), action: BusAction::Finish(delivery) }
}

/// Whether `phase` is settled.
pub fn is_done(phase: Phase) -> (done: bool)
    ensures
        done == (phase is Done),
{
    match phase {
        Phase::Done(_) => true,
        _ => false,
    }
}

/// Every outcome brings an unsettled message closer to being settled, and
/// the action handed out is `Finish` exactly when it is settled.
pub proof fn lemma_advance_makes_progress(link: Link, phase: Phase, ok: bool)
    requires
        !(phase is Done),
    ensures
        steps_left(advance_spec(link, phase, ok).phase) < steps_left(phase),
        advance_spec(link, phase, ok).action is Finish <==> advance_spec(link, phase, ok).phase is Done,
{
}

/// No retry loop: whatever the three outcomes, a message is settled after
/// them at the latest. It is delivered exactly when the cached send
/// succeeded, or the connect and the send that followed it both did; and a
/// connection stays cached exactly when the last send succeeded.
pub proof fn lemma_send_settles(link: Link, first: bool, second: bool, third: bool)
    ensures
        ({
            let t0 = begin_spec(link);
            let t1 = advance_spec(t0.link, t0.phase, first);
            let t2 = advance_spec(t1.link, t1.phase, second);
            let t3 = advance_spec(t2.link, t2.phase, third);
            let delivered = match link {
                Link::Connected => first || (second && third),
                Link::Disconnected => first && second,
            };
            &&& t3.phase == Phase::Done(if delivered { Delivery::Delivered } else { Delivery::Dropped })
            &&& t3.action == BusAction::Finish(if delivered { Delivery::Delivered } else { Delivery::Dropped })
            &&& t3.link == if delivered { Link::Connected } else { Link::Disconnected }
        }),
{
}

/// A settled message stays settled, and its connection state with it.
pub proof fn lemma_done_is_final(link: Link, delivery: Delivery, ok: bool)
    ensures
        advance_spec(link, Phase::Done(delivery), ok) == settled(link, delivery),
{
}

} // verus!
