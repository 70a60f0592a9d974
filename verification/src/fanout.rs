//! Local fan-out: every new value goes to all subscribers attached at the
//! moment it is published.
//!
//! The channel is tokio's broadcast channel. It keeps the most recent
//! values in a ring that all subscribers read from, each at its own
//! position, so a slow subscriber holds up neither the publisher nor the
//! others.
//!
//! Backlog policy: a subscriber that falls so far behind that the channel
//! has overwritten values it has not read yet is disconnected. Its stream
//! ends when it next asks for a value and is told that some were lost; the
//! values still retained at that moment are not handed to it either, so it
//! never sees a sequence with a gap in it. The channel may retain more
//! unread values than it was asked to, never fewer.

use vstd::prelude::*;
use tokio::sync::broadcast::Receiver;
use tokio::sync::broadcast::Sender;
use tokio::sync::broadcast::error::TryRecvError;

verus! {

/// The sending half of tokio's broadcast channel. Opaque: its state is
/// shared with the receivers and changes behind shared references.
#[verifier::external_type_specification]
#[verifier::external_body]
#[verifier::reject_recursive_types(T)]
pub struct ExSender<T>(Sender<T>);

/// A receiving half of tokio's broadcast channel. Opaque.
#[verifier::external_type_specification]
#[verifier::external_body]
#[verifier::reject_recursive_types(T)]
pub struct ExReceiver<T>(Receiver<T>);

/// The number of values the channel is asked to retain for subscribers
/// that have not read them yet.
pub const BACKLOG: usize = 100;

/// What a subscriber's handle reports when asked for the next value.
#[derive(Clone, Copy, Debug, PartialEq, Eq, Structural)]
pub enum Received {
    /// The next value, in publishing order.
    Value(i32),
    /// Nothing new yet.
    Empty,
    /// No publisher is left.
    Closed,
    /// The subscriber fell behind and this many values were overwritten
    /// before it read them.
    Lagged(u64),
}

/// What a subscriber's stream does on a report.
#[derive(Clone, Copy, Debug, PartialEq, Eq, Structural)]
pub enum Poll {
    /// The stream yields this value.
    Item(i32),
    /// The stream has nothing to yield yet.
    Pending,
    /// The stream is over.
    Ended,
}

/// The stream's reaction to one report.
pub open spec fn reaction(event: Received) -> Poll {
    match event {
        Received::Value(v) => Poll::Item(v),
        Received::Empty => Poll::Pending,
        Received::Closed => Poll::Ended,
        Received::Lagged(_) => Poll::Ended,
    }
}

/// The values a stream yields when its handle makes these reports, one
/// after the other: every value up to the first report that ends it.
pub open spec fn observed(events: Seq<Received>) -> Seq<i32>
    decreases events.len(),
{
    if events.len() == 0 {
        Seq::empty()
    } else {
        match reaction(events.first()) {
            Poll::Item(v) => seq![v] + observed(events.drop_first()),
            Poll::Pending => observed(events.drop_first()),
            Poll::Ended => Seq::empty(),
        }
    }
}

/// The reports of a handle that is handed `values` and nothing else.
pub open spec fn delivered(values: Seq<i32>) -> Seq<Received> {
    Seq::new(values.len(), |i: int| Received::Value(values[i]))
}

/// The number of unread values that the channel behind `tx` was asked to
/// retain when it was made. The channel retains at least that many; how
/// many more is its own business and has no name here.
pub uninterp spec fn channel_backlog(tx: Sender<i32>) -> nat;

/// Makes a channel with room for `capacity` unread values and keeps its
/// sending half.
///
/// Calls `tokio::sync::broadcast::channel`, which panics on a capacity of
/// zero or above `usize::MAX / 2`. The claim is only that the channel was
/// asked for `capacity`; nothing is claimed of what it holds.
#[verifier::external_body]
fn channel_open(capacity: usize) -> (tx: Sender<i32>)
    requires
        0 < capacity <= usize::MAX / 2,
    ensures
        channel_backlog(tx) == capacity,
{
    let (tx, _) = tokio::sync::broadcast::channel::<i32>(capacity);
    tx
}

/// Hands `value` to the channel.
///
/// Calls `Sender::send`. It returns the number of receivers attached at
/// that moment, or an error when there is none; the claim is only that a
/// reported number is not zero.
#[verifier::external_body]
fn channel_send(tx: &Sender<i32>, value: i32) -> (reached: Option<usize>)
    ensures
        reached matches Some(n) ==> n >= 1,
{
    match tx.send(value) {
        Ok(n) => Some(n),
        Err(_) => None,
    }
}

/// Attaches a new receiver, which reads from the channel's current end.
///
/// Calls `Sender::subscribe`; nothing is claimed of the receiver. (The
/// call panics once about a quarter of `usize::MAX` receivers are
/// attached, which no process reaches.)
#[verifier::external_body]
fn channel_subscribe(tx: &Sender<i32>) -> (rx: Receiver<i32>) {
    tx.subscribe()
}

/// Asks a receiver for its next value without waiting.
///
/// Calls `Receiver::try_recv` and passes its answer on, variant by
/// variant; nothing is claimed of which it is.
#[verifier::external_body]
fn channel_try_recv(rx: &mut Receiver<i32>) -> (event: Received) {
    match rx.try_recv() {
        Ok(v) => Received::Value(v),
        Err(TryRecvError::Empty) => Received::Empty,
        Err(TryRecvError::Closed) => Received::Closed,
        Err(TryRecvError::Lagged(n)) => Received::Lagged(n),
    }
}

/// The stream's reaction to one report: a value is yielded, an empty
/// channel is waited on, and a closed channel or a backlog overflow ends
/// the stream.
pub fn react(event: Received) -> (p: Poll)
    ensures
        p == reaction(event),
{
    match event {
        Received::Value(v) => Poll::Item(v),
        Received::Empty => Poll::Pending,
        Received::Closed => Poll::Ended,
        Received::Lagged(_) => Poll::Ended,
    }
}

/// The number of subscribers a publication reached, from what the channel
/// answered: none where it reported that nobody is attached.
pub fn reached_count(answer: Option<usize>) -> (n: usize)
    ensures
        n == match answer {
            Some(k) => k,
            None => 0,
        },
{
    match answer {
        Some(k) => k,
        None => 0,
    }
}

/// The publishing side of the fan-out.
pub struct Broadcaster {
    tx: Sender<i32>,
}

impl Broadcaster {
    /// The number of unread values that this broadcaster's channel was
    /// asked to retain for each subscriber.
    pub closed spec fn backlog(&self) -> nat {
        channel_backlog(self.tx)
    }

    /// A broadcaster with the standard backlog and no subscriber.
    pub fn new() -> (b: Broadcaster)
        ensures
            b.backlog() == BACKLOG,
    {
        Broadcaster { tx: channel_open(BACKLOG) }
    }

    /// A broadcaster whose channel retains at least `capacity` unread
    /// values.
    pub fn with_capacity(capacity: usize) -> (b: Broadcaster)
        requires
            0 < capacity <= usize::MAX / 2,
        ensures
            b.backlog() == capacity,
    {
        Broadcaster { tx: channel_open(capacity) }
    }

    /// Hands `value` to every subscriber attached now and returns how many
    /// there were. With none attached this does nothing and returns zero;
    /// it never fails.
    pub fn publish(&self, value: i32) -> (reached: usize) {
        reached_count(channel_send(&self.tx, value))
    }

    /// Attaches a subscriber. It will be handed the values published from
    /// now on, not those published before.
    pub fn subscribe(&self) -> (s: Subscription)
        ensures
            s.is_open(),
    {
        Subscription { rx: channel_subscribe(&self.tx), open: true }
    }
}

/// One subscriber's stream of values.
pub struct Subscription {
    rx: Receiver<i32>,
    open: bool,
}

impl Subscription {
    /// Whether the stream can still yield values.
    pub closed spec fn is_open(&self) -> bool {
        self.open
    }

    /// The receiving half of the channel that the stream reads from.
    pub closed spec fn receiver(self) -> Receiver<i32> {
        self.rx
    }

    /// Whether the stream can still yield values.
    pub fn is_live(&self) -> (live: bool)
        ensures
            live == self.is_open(),
    {
        self.open
    }

    /// Asks for the next value without waiting. A stream that has ended
    /// stays ended, whatever is published later.
    pub fn poll(&mut self) -> (p: Poll)
        ensures
            !old(self).is_open() ==> p == Poll::Ended,
            final(self).is_open() == (old(self).is_open() && !(p is Ended)),
    {
        if !self.open {
            return Poll::Ended;
        }
        let event = channel_try_recv(&mut self.rx);
        self.accept(event)
    }

    /// Takes one report of the stream's handle and says what the stream
    /// does. A stream that has ended stays ended.
    pub fn accept(&mut self, event: Received) -> (p: Poll)
        ensures
            p == if old(self).is_open() { reaction(event) } else { Poll::Ended },
            final(self).is_open() == (old(self).is_open() && !(p is Ended)),
    {
        if !self.open {
            return Poll::Ended;
        }
        let p = react(event);
        match p {
            Poll::Ended => {
                self.open = false;
            },
            _ => {},
        }
        p
    }

    /// Gives up the stream and hands out its receiver, for a caller that
    /// waits on it by its own means.
    pub fn into_receiver(self) -> (rx: Receiver<i32>)
        ensures
            rx == self.receiver(),
    {
        self.rx
    }
}

/// A subscriber that is handed values and nothing else observes exactly
/// those values, in the order in which it was handed them.
pub proof fn lemma_stream_forwards_in_order(values: Seq<i32>)
    ensures
        observed(delivered(values)) == values,
    decreases values.len(),
{
    if values.len() > 0 {
        lemma_stream_forwards_in_order(values.drop_first());
        assert(delivered(values).drop_first() =~= delivered(values.drop_first()));
        assert(seq![values.first()] + values.drop_first() =~= values);
    }
}

/// A backlog overflow disconnects: the subscriber observes the values it
/// was handed before the overflow was reported and none after it.
pub proof fn lemma_stream_ends_at_overflow(values: Seq<i32>, lost: u64, later: Seq<Received>)
    ensures
        observed(delivered(values) + seq![Received::Lagged(lost)] + later) == values,
    decreases values.len(),
{
    let events = delivered(values) + seq![Received::Lagged(lost)] + later;
    if values.len() == 0 {
        assert(events.first() == Received::Lagged(lost));
        assert(values =~= Seq::<i32>::empty());
    } else {
        lemma_stream_ends_at_overflow(values.drop_first(), lost, later);
        assert(events.first() == Received::Value(values.first()));
        assert(events.drop_first() =~= delivered(values.drop_first()) + seq![
            Received::Lagged(lost),
        ] + later);
        assert(seq![values.first()] + values.drop_first() =~= values);
    }
}

} // verus!
