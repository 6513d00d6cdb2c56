//! Fan-out of output lines to any number of subscribers, on top of
//! tokio's broadcast channel: each subscriber has its own bounded queue,
//! and a subscriber that falls behind loses its oldest undelivered lines
//! instead of holding up the publisher.

use tokio::sync::broadcast::{Receiver, Sender};
use vstd::prelude::*;

verus! {

#[verifier::external_type_specification]
#[verifier::external_body]
#[verifier::reject_recursive_types(T)]
pub struct ExSender<T>(Sender<T>);

#[verifier::external_type_specification]
#[verifier::external_body]
#[verifier::reject_recursive_types(T)]
pub struct ExReceiver<T>(Receiver<T>);

/// The largest queue capacity tokio's broadcast channel accepts.
pub const MAX_QUEUE_CAPACITY: usize = usize::MAX / 2;

/// Relies on `tokio::sync::broadcast::channel`, which panics on a capacity
/// of zero or above `usize::MAX / 2`; the receiver it makes is dropped.
#[verifier::external_body]
fn open_channel(capacity: usize) -> (r: Sender<String>)
    requires
        0 < capacity <= MAX_QUEUE_CAPACITY,
{
    tokio::sync::broadcast::channel(capacity).0
}

/// Relies on `Sender::send`: `Ok(n)` names the `n` receivers the value was
/// queued for, of which there is at least one; `Err` means there was none.
#[verifier::external_body]
fn send_line(tx: &Sender<String>, line: String) -> (r: Option<usize>)
    ensures
        r matches Some(n) ==> n > 0,
{
    tx.send(line).ok()
}

/// Whether `r` is a receiver of the channel that `t` sends on, queueing
/// every value sent after the receiver was made.
pub uninterp spec fn receives_from(r: Receiver<String>, t: Sender<String>) -> bool;

/// Relies on `Sender::subscribe`: a new receiver of the sender's channel,
/// of every value sent after this call.
#[verifier::external_body]
fn subscribe_to(tx: &Sender<String>) -> (r: Receiver<String>)
    ensures
        receives_from(r, *tx),
{
    tx.subscribe()
}

/// The publishing side of the broadcast.
pub struct Hub {
    tx: Sender<String>,
    capacity: usize,
    published: Ghost<Seq<Seq<char>>>,
}

impl Hub {
    pub closed spec fn spec_capacity(&self) -> nat {
        self.capacity as nat
    }

    /// The sending side of the channel.
    pub closed spec fn spec_sender(&self) -> Sender<String> {
        self.tx
    }

    /// Every line handed to the channel so far, in order.
    pub closed spec fn spec_published(&self) -> Seq<Seq<char>> {
        self.published@
    }

    /// A hub whose subscribers each buffer up to `capacity` undelivered
    /// lines.
    pub fn new(capacity: usize) -> (r: Hub)
        requires
            0 < capacity <= MAX_QUEUE_CAPACITY,
        ensures
            r.spec_capacity() == capacity,
            r.spec_published() == Seq::<Seq<char>>::empty(),
    {
        Hub { tx: open_channel(capacity), capacity, published: Ghost(Seq::empty()) }
    }

    pub fn capacity(&self) -> (r: usize)
        ensures
            r == self.spec_capacity(),
    {
        self.capacity
    }

    /// Queues a copy of `line` for every live subscriber; never waits.
    /// Returns how many subscribers it was queued for.
    pub fn publish(&mut self, line: String) -> (r: usize)
        ensures
            final(self).spec_published() == old(self).spec_published().push(line@),
            final(self).spec_sender() == old(self).spec_sender(),
            final(self).spec_capacity() == old(self).spec_capacity(),
    {
        let ghost v = line@;
        let sent = send_line(&self.tx, line);
        self.published = Ghost(self.published@.push(v));
        match sent {
            Some(n) => n,
            None => 0,
        }
    }

    /// A new, independent receiver of every line published from now on.
    pub fn subscribe(&self) -> (r: Receiver<String>)
        ensures
            receives_from(r, self.spec_sender()),
    {
        subscribe_to(&self.tx)
    }
}

} // verus!
