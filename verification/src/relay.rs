//! The bounded relay: a fixed-capacity first-in, first-out queue of packets
//! between the sampling side and the network side.
//!
//! The relay never blocks and never drops. A push that finds no room, or a
//! pop that finds no packet, changes nothing and says so; the caller waits
//! and tries again. That is how a slow consumer holds the producer back.

use crate::error::Error;
use crate::packet::Packet;
use std::collections::VecDeque;
use vstd::prelude::*;

verus! {

/// The capacity of the relay between a sampler and its network writer.
pub const RELAY_CAPACITY: usize = 8;

/// What a relay is, mathematically.
pub struct RelayState {
    /// The queued packets, oldest first.
    pub items: Seq<Packet>,
    /// The most packets the relay holds at once.
    pub capacity: nat,
    /// Whether the producer has closed its end.
    pub producer_gone: bool,
    /// Whether the consumer has closed its end.
    pub consumer_gone: bool,
}

impl RelayState {
    /// The empty relay of a given capacity, both ends open.
    pub open spec fn empty(capacity: nat) -> RelayState {
        RelayState {
            items: Seq::<Packet>::empty(),
            capacity,
            producer_gone: false,
            consumer_gone: false,
        }
    }

    /// A relay never holds more than its capacity.
    pub open spec fn wf(self) -> bool {
        self.items.len() <= self.capacity
    }

    /// Whether both ends are open.
    pub open spec fn both_open(self) -> bool {
        !self.producer_gone && !self.consumer_gone
    }

    /// Whether the relay has no room.
    pub open spec fn full(self) -> bool {
        self.items.len() >= self.capacity
    }

    /// The result of a push: `Err(PeerGone)` if an end is closed, else
    /// `Ok(false)` if there is no room, else `Ok(true)`.
    pub open spec fn push_result(self) -> Result<bool, Error> {
        if !self.both_open() {
            Err(Error::PeerGone)
        } else if self.full() {
            Ok(false)
        } else {
            Ok(true)
        }
    }

    /// The relay after a push: the packet goes to the back if the push
    /// returns `Ok(true)`, and nothing changes otherwise.
    pub open spec fn push(self, event: Packet) -> RelayState {
        if self.push_result() == Ok::<bool, Error>(true) {
            RelayState { items: self.items.push(event), ..self }
        } else {
            self
        }
    }

    /// The result of a pop: the oldest packet if there is one, else
    /// `Err(PeerGone)` if an end is closed, else `Ok(None)`.
    pub open spec fn pop_result(self) -> Result<Option<Packet>, Error> {
        if self.items.len() > 0 {
            Ok(Some(self.items[0]))
        } else if !self.both_open() {
            Err(Error::PeerGone)
        } else {
            Ok(None)
        }
    }

    /// The relay after a pop: without its oldest packet, if it had one.
    pub open spec fn pop(self) -> RelayState {
        if self.items.len() > 0 {
            RelayState { items: self.items.skip(1), ..self }
        } else {
            self
        }
    }

    /// The relay after pushing `events` one after another.
    pub open spec fn push_all(self, events: Seq<Packet>) -> RelayState
        decreases events.len(),
    {
        if events.len() == 0 {
            self
        } else {
            self.push(events[0]).push_all(events.skip(1))
        }
    }

    /// Whether every push of `events`, one after another, returns `Ok(true)`.
    pub open spec fn accepts_all(self, events: Seq<Packet>) -> bool
        decreases events.len(),
    {
        if events.len() == 0 {
            true
        } else {
            self.push_result() == Ok::<bool, Error>(true) && self.push(events[0]).accepts_all(
                events.skip(1),
            )
        }
    }

    /// The relay after `n` pops.
    pub open spec fn pop_n(self, n: nat) -> RelayState
        decreases n,
    {
        if n == 0 {
            self
        } else {
            self.pop().pop_n((n - 1) as nat)
        }
    }

    /// The packets that `n` pops hand out, in order; a pop that hands out
    /// none adds none.
    pub open spec fn popped(self, n: nat) -> Seq<Packet>
        decreases n,
    {
        if n == 0 {
            Seq::<Packet>::empty()
        } else {
            match self.pop_result() {
                Ok(Some(p)) => seq![p] + self.pop().popped((n - 1) as nat),
                _ => self.pop().popped((n - 1) as nat),
            }
        }
    }
}

/// A bounded first-in, first-out queue of packets with two ends that can be
/// closed.
pub struct BoundedRelay {
    queue: VecDeque<Packet>,
    capacity: usize,
    producer_gone: bool,
    consumer_gone: bool,
}

impl View for BoundedRelay {
    type V = RelayState;

    closed spec fn view(&self) -> RelayState {
        RelayState {
            items: self.queue@,
            capacity: self.capacity as nat,
            producer_gone: self.producer_gone,
            consumer_gone: self.consumer_gone,
        }
    }
}

impl BoundedRelay {
    #[verifier::type_invariant]
    spec fn within_capacity(self) -> bool {
        self.queue@.len() <= self.capacity
    }

    /// Makes an empty relay that holds at most `capacity` packets.
    pub fn new(capacity: usize) -> (relay: BoundedRelay)
        ensures
            relay@ == RelayState::empty(capacity as nat),
            relay@.wf(),
    {
        BoundedRelay {
            queue: VecDeque::new(),
            capacity,
            producer_gone: false,
            consumer_gone: false,
        }
    }

    /// Offers a packet to the relay. `Ok(true)`: the packet is queued behind
    /// all others. `Ok(false)`: the relay is full and unchanged, the producer
    /// has to wait for a pop. `Err(PeerGone)`: an end is closed, the relay is
    /// unchanged.
    pub fn push(&mut self, event: Packet) -> (r: Result<bool, Error>)
        ensures
            r == old(self)@.push_result(),
            final(self)@ == old(self)@.push(event),
            final(self)@.wf(),
    {
        proof {
            use_type_invariant(&*self);
        }
        if self.producer_gone || self.consumer_gone {
            Err(Error::PeerGone)
        } else if self.queue.len() >= self.capacity {
            Ok(false)
        } else {
            // The queue is taken out while it grows, so that the relay
            // stays within its capacity at every step.
            let mut queue: VecDeque<Packet> = VecDeque::new();
            core::mem::swap(&mut self.queue, &mut queue);
            queue.push_back(event);
            core::mem::swap(&mut self.queue, &mut queue);
            Ok(true)
        }
    }

    /// Asks the relay for its oldest packet. `Ok(Some(p))`: `p` has left the
    /// relay. `Ok(None)`: the relay is empty and both ends are open, the
    /// consumer has to wait for a push. `Err(PeerGone)`: the relay is empty
    /// and an end is closed.
    pub fn pop(&mut self) -> (r: Result<Option<Packet>, Error>)
        ensures
            r == old(self)@.pop_result(),
            final(self)@ == old(self)@.pop(),
            final(self)@.wf(),
    {
        proof {
            use_type_invariant(&*self);
        }
        let mut queue: VecDeque<Packet> = VecDeque::new();
        core::mem::swap(&mut self.queue, &mut queue);
        let oldest = queue.pop_front();
        core::mem::swap(&mut self.queue, &mut queue);
        match oldest {
            Some(p) => {
                Ok(Some(p))
            },
            None => {
                if self.producer_gone || self.consumer_gone {
                    Err(Error::PeerGone)
                } else {
                    Ok(None)
                }
            },
        }
    }

    /// Closes the producer's end. What is queued stays for the consumer.
    pub fn close_producer(&mut self)
        ensures
            final(self)@ == (RelayState { producer_gone: true, ..old(self)@ }),
            final(self)@.wf(),
    {
        proof {
            use_type_invariant(&*self);
        }
        self.producer_gone = true;
    }

    /// Closes the consumer's end. The producer's next push fails.
    pub fn close_consumer(&mut self)
        ensures
            final(self)@ == (RelayState { consumer_gone: true, ..old(self)@ }),
            final(self)@.wf(),
    {
        proof {
            use_type_invariant(&*self);
        }
        self.consumer_gone = true;
    }

    /// The number of queued packets.
    pub fn len(&self) -> (n: usize)
        ensures
            n == self@.items.len(),
    {
        self.queue.len()
    }

    /// The most packets the relay holds at once.
    pub fn capacity(&self) -> (n: usize)
        ensures
            n == self@.capacity,
    {
        self.capacity
    }
}

/// Push and pop keep a relay within its capacity.
pub proof fn lemma_steps_keep_wf(s: RelayState, event: Packet)
    requires
        s.wf(),
    ensures
        s.push(event).wf(),
        s.pop().wf(),
{
}

/// While both ends are open and the relay has room, pushes succeed and queue
/// their packets in order behind what is there.
pub proof fn lemma_push_all(s: RelayState, events: Seq<Packet>)
    requires
        s.both_open(),
        s.items.len() + events.len() <= s.capacity,
    ensures
        s.accepts_all(events),
        s.push_all(events) == (RelayState { items: s.items + events, ..s }),
    decreases events.len(),
{
    if events.len() > 0 {
        lemma_push_all(s.push(events[0]), events.skip(1));
        assert(s.items.push(events[0]) + events.skip(1) =~= s.items + events);
    }
}

/// Pops hand out the queued packets oldest first.
pub proof fn lemma_pop_n(s: RelayState, n: nat)
    requires
        n <= s.items.len(),
    ensures
        s.popped(n) == s.items.take(n as int),
        s.pop_n(n) == (RelayState { items: s.items.skip(n as int), ..s }),
    decreases n,
{
    if n == 0 {
        assert(s.items.skip(0) =~= s.items);
    } else {
        lemma_pop_n(s.pop(), (n - 1) as nat);
        assert(s.items.skip(1).skip(n - 1) =~= s.items.skip(n as int));
    }
}

/// First in, first out: what goes into an empty relay, up to its capacity,
/// comes out in the same order, all of it, and leaves the relay empty.
pub proof fn lemma_fifo(capacity: nat, events: Seq<Packet>)
    requires
        events.len() <= capacity,
    ensures
        RelayState::empty(capacity).accepts_all(events),
        RelayState::empty(capacity).push_all(events).popped(events.len()) == events,
        RelayState::empty(capacity).push_all(events).pop_n(events.len()) == RelayState::empty(
            capacity,
        ),
{
    let s = RelayState::empty(capacity);
    lemma_push_all(s, events);
    let filled = s.push_all(events);
    lemma_pop_n(filled, events.len());
    assert(events.skip(events.len() as int) =~= Seq::<Packet>::empty());
}

/// Backpressure: a relay filled to its capacity refuses the next push
/// without changing; one pop hands out the oldest packet and makes room, and
/// the same push then succeeds and queues its packet last.
pub proof fn lemma_backpressure(capacity: nat, events: Seq<Packet>, extra: Packet)
    requires
        capacity > 0,
        events.len() == capacity,
    ensures
        RelayState::empty(capacity).accepts_all(events),
        ({
            let filled = RelayState::empty(capacity).push_all(events);
            &&& filled.push_result() == Ok::<bool, Error>(false)
            &&& filled.push(extra) == filled
            &&& filled.pop_result() == Ok::<Option<Packet>, Error>(Some(events[0]))
            &&& filled.pop().push_result() == Ok::<bool, Error>(true)
            &&& filled.pop().push(extra).items == events.skip(1).push(extra)
        }),
{
    let s = RelayState::empty(capacity);
    lemma_push_all(s, events);
}

/// Closing an end: the producer's next push fails at once; the consumer
/// still gets what is queued, and then fails too.
pub proof fn lemma_peer_gone(s: RelayState, event: Packet)
    requires
        !s.both_open(),
    ensures
        s.push_result() == Err::<bool, Error>(Error::PeerGone),
        s.push(event) == s,
        s.items.len() > 0 ==> s.pop_result() == Ok::<Option<Packet>, Error>(Some(s.items[0])),
        s.items.len() == 0 ==> s.pop_result() == Err::<Option<Packet>, Error>(Error::PeerGone),
{
}

} // verus!
