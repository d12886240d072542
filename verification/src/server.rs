//! The sending role of a session: accept one peer, then write every packet
//! of the relay to it as one frame, until the relay or the socket ends.
//!
//! The session decides; its caller owns the socket and the relay. The caller
//! asks for the action that is due, performs it, and reports what happened
//! as an event.

use crate::codec::{encode, frame_of, lemma_frame_shape, zeros};
use crate::packet::{Packet, PACKET_FRAME_SIZE};
use crate::stream::{lemma_stream_of_first, stream_of};
use vstd::prelude::*;

verus! {

/// Where a sending session stands.
#[derive(Clone, Copy, Debug, PartialEq, Eq, Structural)]
pub enum ServerState {
    /// Bound and waiting for the first peer.
    Listening,
    /// A peer is connected.
    Connected,
    /// Over, for good: the session does not listen again.
    Ended,
}

/// What the caller reports to a sending session.
#[derive(Clone, Copy, Debug, PartialEq, Eq, Structural)]
pub enum ServerEvent {
    /// The first peer was accepted and its socket set to send at once.
    Accepted,
    /// Accepting the peer failed.
    AcceptFailed,
    /// The relay handed out its oldest packet.
    Popped(Packet),
    /// The relay is empty and its producer is gone.
    RelayGone,
    /// The socket took this many of the bytes offered. None at all ends the
    /// session; more than were offered counts as all of them.
    Wrote(usize),
    /// Writing to the socket failed.
    WriteFailed,
}

/// What a sending session asks its caller to do next.
#[derive(Clone, Copy, Debug, PartialEq, Eq)]
pub enum ServerAction {
    /// Accept the first peer and disable send coalescing on its socket.
    Accept,
    /// Wait for the next packet of the relay.
    Pop,
    /// Offer the bytes of `frame` from index `from` on to the socket.
    Write { frame: [u8; PACKET_FRAME_SIZE], from: usize },
    /// Close the socket, if there is one, and stop.
    Stop,
}

/// What a sending session is, mathematically.
pub struct ServerModel {
    pub state: ServerState,
    /// The frame being written, or written last.
    pub frame: Seq<u8>,
    /// How many bytes of `frame` the socket has taken.
    pub sent: nat,
}

impl ServerModel {
    /// A session that has not accepted its peer yet.
    pub open spec fn initial() -> ServerModel {
        ServerModel { state: ServerState::Listening, frame: zeros(16), sent: 16 }
    }

    /// A session that is over.
    pub open spec fn ended(self) -> ServerModel {
        ServerModel { state: ServerState::Ended, ..self }
    }

    /// The frame has sixteen bytes, and no more than those are sent.
    pub open spec fn wf(self) -> bool {
        self.frame.len() == PACKET_FRAME_SIZE && self.sent <= PACKET_FRAME_SIZE
    }

    /// Connected, with part of a frame still to write.
    pub open spec fn sending(self) -> bool {
        self.state is Connected && self.sent < PACKET_FRAME_SIZE
    }

    /// Connected, with every frame written whole.
    pub open spec fn idle(self) -> bool {
        self.state is Connected && self.sent >= PACKET_FRAME_SIZE
    }

    /// The bytes of the frame that the socket has not taken yet.
    pub open spec fn unsent(self) -> Seq<u8> {
        self.frame.skip(self.sent as int)
    }

    /// The session after an event. An event that the session is not waiting
    /// for changes nothing.
    pub open spec fn next(self, event: ServerEvent) -> ServerModel {
        match self.state {
            ServerState::Listening => match event {
                ServerEvent::Accepted => ServerModel { state: ServerState::Connected, ..self },
                ServerEvent::AcceptFailed => self.ended(),
                _ => self,
            },
            ServerState::Connected => if self.sending() {
                match event {
                    ServerEvent::Wrote(n) => if n == 0 {
                        self.ended()
                    } else if self.sent + n >= PACKET_FRAME_SIZE {
                        ServerModel { sent: PACKET_FRAME_SIZE as nat, ..self }
                    } else {
                        ServerModel { sent: self.sent + n as nat, ..self }
                    },
                    ServerEvent::WriteFailed => self.ended(),
                    _ => self,
                }
            } else {
                match event {
                    ServerEvent::Popped(p) => ServerModel { frame: frame_of(p), sent: 0, ..self },
                    ServerEvent::RelayGone => self.ended(),
                    _ => self,
                }
            },
            ServerState::Ended => self,
        }
    }

    /// The bytes that one event puts on the socket: what the socket took of
    /// the bytes offered, and nothing for any other event.
    pub open spec fn wrote(self, event: ServerEvent) -> Seq<u8> {
        match event {
            ServerEvent::Wrote(n) if self.sending() => if n < self.unsent().len() {
                self.unsent().take(n as int)
            } else {
                self.unsent()
            },
            _ => Seq::<u8>::empty(),
        }
    }

    /// The packet that one event takes from the relay, if it takes one.
    pub open spec fn took(self, event: ServerEvent) -> Seq<Packet> {
        match event {
            ServerEvent::Popped(p) if self.idle() => seq![p],
            _ => Seq::<Packet>::empty(),
        }
    }

    /// The session after a sequence of events.
    pub open spec fn run(self, events: Seq<ServerEvent>) -> ServerModel
        decreases events.len(),
    {
        if events.len() == 0 {
            self
        } else {
            self.next(events[0]).run(events.skip(1))
        }
    }

    /// All bytes that a sequence of events puts on the socket, in order.
    pub open spec fn written(self, events: Seq<ServerEvent>) -> Seq<u8>
        decreases events.len(),
    {
        if events.len() == 0 {
            Seq::<u8>::empty()
        } else {
            self.wrote(events[0]) + self.next(events[0]).written(events.skip(1))
        }
    }

    /// All packets that a sequence of events takes from the relay, in order.
    pub open spec fn taken(self, events: Seq<ServerEvent>) -> Seq<Packet>
        decreases events.len(),
    {
        if events.len() == 0 {
            Seq::<Packet>::empty()
        } else {
            self.took(events[0]) + self.next(events[0]).taken(events.skip(1))
        }
    }

    /// Whether `action` is the one that is due.
    pub open spec fn expects(self, action: ServerAction) -> bool {
        match self.state {
            ServerState::Listening => action == ServerAction::Accept,
            ServerState::Connected => if self.sending() {
                action matches ServerAction::Write { frame, from } && frame@ == self.frame && from
                    == self.sent
            } else {
                action == ServerAction::Pop
            },
            ServerState::Ended => action == ServerAction::Stop,
        }
    }
}

/// The sending role of a session.
pub struct Server {
    state: ServerState,
    frame: [u8; PACKET_FRAME_SIZE],
    sent: usize,
}

impl View for Server {
    type V = ServerModel;

    closed spec fn view(&self) -> ServerModel {
        ServerModel { state: self.state, frame: self.frame@, sent: self.sent as nat }
    }
}

impl Server {
    #[verifier::type_invariant]
    spec fn within_frame(self) -> bool {
        self.sent <= PACKET_FRAME_SIZE
    }

    /// Starts a session that waits for its first peer.
    pub fn new() -> (server: Server)
        ensures
            server@ == ServerModel::initial(),
            server@.wf(),
    {
        let server = Server {
            state: ServerState::Listening,
            frame: [0u8; PACKET_FRAME_SIZE],
            sent: PACKET_FRAME_SIZE,
        };
        assert(server.frame@ =~= zeros(16));
        server
    }

    /// Where the session stands.
    pub fn state(&self) -> (state: ServerState)
        ensures
            state == self@.state,
    {
        self.state
    }

    /// The action that is due.
    pub fn action(&self) -> (action: ServerAction)
        ensures
            self@.expects(action),
    {
        proof {
            use_type_invariant(self);
        }
        match self.state {
            ServerState::Listening => ServerAction::Accept,
            ServerState::Connected => if self.sent < PACKET_FRAME_SIZE {
                ServerAction::Write { frame: self.frame, from: self.sent }
            } else {
                ServerAction::Pop
            },
            ServerState::Ended => ServerAction::Stop,
        }
    }

    /// Takes what the caller reports and moves the session on.
    pub fn handle(&mut self, event: ServerEvent)
        ensures
            final(self)@ == old(self)@.next(event),
            final(self)@.wf(),
    {
        proof {
            use_type_invariant(&*self);
        }
        match self.state {
            ServerState::Listening => match event {
                ServerEvent::Accepted => {
                    self.state = ServerState::Connected;
                },
                ServerEvent::AcceptFailed => {
                    self.state = ServerState::Ended;
                },
                _ => {},
            },
            ServerState::Connected => if self.sent < PACKET_FRAME_SIZE {
                match event {
                    ServerEvent::Wrote(n) => {
                        if n == 0 {
                            self.state = ServerState::Ended;
                        } else if n >= PACKET_FRAME_SIZE - self.sent {
                            self.sent = PACKET_FRAME_SIZE;
                        } else {
                            self.sent = self.sent + n;
                        }
                    },
                    ServerEvent::WriteFailed => {
                        self.state = ServerState::Ended;
                    },
                    _ => {},
                }
            } else {
                match event {
                    ServerEvent::Popped(p) => {
                        self.frame = encode(&p);
                        self.sent = 0;
                        proof {
                            lemma_frame_shape(p);
                        }
                    },
                    ServerEvent::RelayGone => {
                        self.state = ServerState::Ended;
                    },
                    _ => {},
                }
            },
            ServerState::Ended => {},
        }
    }
}

/// Every event leaves a well-formed session well formed.
pub proof fn lemma_server_wf(m: ServerModel, event: ServerEvent)
    requires
        m.wf(),
    ensures
        m.next(event).wf(),
{
    if let ServerEvent::Popped(p) = event {
        lemma_frame_shape(p);
    }
}

/// A session that is over stays over, and one that has left `Listening`
/// never listens again: one peer per session.
pub proof fn lemma_server_one_way(m: ServerModel, event: ServerEvent)
    ensures
        m.state is Ended ==> m.next(event) == m,
        !(m.state is Listening) ==> !(m.next(event).state is Listening),
{
}

/// A failed write, a write that takes nothing, and the end of the relay end
/// the session; nothing else ends a connected session.
pub proof fn lemma_server_ends_on_failure(m: ServerModel, event: ServerEvent)
    requires
        m.state is Connected,
    ensures
        m.next(event).state is Ended <==> (m.sending() && (event == ServerEvent::WriteFailed
            || event == ServerEvent::Wrote(0))) || (m.idle() && event
            == ServerEvent::RelayGone),
        !(m.next(event).state is Ended) ==> m.next(event).state is Connected,
{
}

/// An idle session takes the next packet of the relay and offers its frame
/// from the first byte on.
pub proof fn lemma_server_starts_frame(m: ServerModel, p: Packet)
    requires
        m.idle(),
    ensures
        m.next(ServerEvent::Popped(p)).sending(),
        m.next(ServerEvent::Popped(p)).unsent() == frame_of(p),
{
    lemma_frame_shape(p);
}

/// Short writes: what the socket took is never offered again, the rest is
/// offered next, in order, and the session asks for the next packet only
/// when the whole frame is written.
pub proof fn lemma_server_write_in_order(m: ServerModel, n: usize)
    requires
        m.wf(),
        m.sending(),
        n > 0,
    ensures
        ({
            let after = m.next(ServerEvent::Wrote(n));
            let taken = if n < m.unsent().len() {
                n as int
            } else {
                m.unsent().len() as int
            };
            &&& after.frame == m.frame
            &&& after.state is Connected
            &&& after.unsent() == m.unsent().skip(taken)
            &&& m.frame.take(after.sent as int) == m.frame.take(m.sent as int) + m.unsent().take(
                taken,
            )
            &&& after.idle() <==> n >= m.unsent().len()
        }),
{
}

/// Whatever is reported to a session, in whatever order: the bytes that
/// reach the socket, followed by those of the current frame that have not,
/// are the bytes that were unsent at first followed by the frames of the
/// packets taken from the relay, in the order taken. No byte is written
/// twice, none is left out, and no frame overtakes another.
pub proof fn lemma_server_stream(m: ServerModel, events: Seq<ServerEvent>)
    requires
        m.wf(),
    ensures
        m.run(events).wf(),
        m.written(events) + m.run(events).unsent() == m.unsent() + stream_of(m.taken(events)),
    decreases events.len(),
{
    if events.len() > 0 {
        let e = events[0];
        let m1 = m.next(e);
        let rest = events.skip(1);
        lemma_server_wf(m, e);
        lemma_server_stream(m1, rest);
        let tail = stream_of(m1.taken(rest));
        // the first event alone
        assert(m.wrote(e) + m1.unsent() + tail == m.unsent() + stream_of(m.taken(events))) by {
            if m.idle() && e is Popped {
                lemma_frame_shape(e->Popped_0);
                lemma_stream_of_first(e->Popped_0, m1.taken(rest));
            } else if m.sending() && e is Wrote && e->Wrote_0 > 0 {
                lemma_server_write_in_order(m, e->Wrote_0);
            }
        }
        // and the events behind it
        assert(m.wrote(e) + (m1.unsent() + tail) =~= m.wrote(e) + m1.unsent() + tail);
    }
}

/// A session that starts with nothing unsent and ends with nothing unsent
/// has put on the socket exactly the frames of the packets it took from the
/// relay, in order, however short the writes were.
pub proof fn lemma_server_writes_what_it_takes(m: ServerModel, events: Seq<ServerEvent>)
    requires
        m.wf(),
        m.sent == PACKET_FRAME_SIZE,
        m.run(events).sent == PACKET_FRAME_SIZE,
    ensures
        m.written(events) == stream_of(m.taken(events)),
{
    lemma_server_stream(m, events);
}

} // verus!
