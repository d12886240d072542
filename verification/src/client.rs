//! The receiving role of a session: connect, read frames, decode them, and
//! on any failure wait a fixed delay and connect again, for ever.
//!
//! The session decides; its caller owns the socket and the timer. The caller
//! asks for the action that is due, performs it, and reports what happened:
//! bytes that were read go to `receive`, everything else is an event.

use crate::error::Error;
use crate::packet::Packet;
use crate::stream::{
    decode_all, decode_frames, frames_in, leftover, lemma_split_reads, FrameAssembler,
};
use core::time::Duration;
use vstd::prelude::*;

verus! {

/// Where a receiving session stands.
#[derive(Clone, Copy, Debug, PartialEq, Eq, Structural)]
pub enum ClientState {
    /// No connection; an attempt is due, or the delay before it.
    Connecting,
    /// Connected and reading frames.
    Connected,
    /// The connection has failed; the socket is to be closed.
    Disconnected,
}

/// What the caller reports to a receiving session.
#[derive(Clone, Copy, Debug, PartialEq, Eq, Structural)]
pub enum ClientEvent {
    /// The attempt to connect succeeded.
    ConnectSucceeded,
    /// The attempt to connect failed.
    ConnectFailed,
    /// Reading from the socket failed.
    ReadFailed,
    /// The consumer of the decoded packets is gone.
    ConsumerGone,
    /// The delay that was asked for has passed.
    DelayElapsed,
}

/// What a receiving session asks its caller to do next.
#[derive(Clone, Copy, Debug, PartialEq, Eq)]
pub enum ClientAction {
    /// Try to connect to the server and disable send coalescing.
    Connect,
    /// Read what the socket has and hand it to `receive`.
    Read,
    /// Let this much time pass.
    Wait(Duration),
    /// Close the socket, then let this much time pass.
    CloseAndWait(Duration),
}

/// What a receiving session is, mathematically.
pub struct ClientModel {
    /// The address of the server.
    pub address: Seq<char>,
    /// The fixed delay between attempts.
    pub delay: Duration,
    pub state: ClientState,
    /// While `Connecting`: whether the delay has to pass before the next
    /// attempt.
    pub waiting: bool,
    /// While `Connected`: the bytes received of a frame that is not whole.
    pub pending: Seq<u8>,
}

impl ClientModel {
    /// A session that is about to make its first attempt.
    pub open spec fn initial(address: Seq<char>, delay: Duration) -> ClientModel {
        ClientModel {
            address,
            delay,
            state: ClientState::Connecting,
            waiting: false,
            pending: Seq::<u8>::empty(),
        }
    }

    /// The session with a new attempt due.
    pub open spec fn retrying(self) -> ClientModel {
        ClientModel {
            state: ClientState::Connecting,
            waiting: false,
            pending: Seq::<u8>::empty(),
            ..self
        }
    }

    /// The session after its connection has failed.
    pub open spec fn dropped(self) -> ClientModel {
        ClientModel {
            state: ClientState::Disconnected,
            waiting: false,
            pending: Seq::<u8>::empty(),
            ..self
        }
    }

    /// The session after an event. An event that the session is not waiting
    /// for changes nothing.
    pub open spec fn next(self, event: ClientEvent) -> ClientModel {
        match self.state {
            ClientState::Connecting => if self.waiting {
                match event {
                    ClientEvent::DelayElapsed => self.retrying(),
                    _ => self,
                }
            } else {
                match event {
                    ClientEvent::ConnectSucceeded => ClientModel {
                        state: ClientState::Connected,
                        pending: Seq::<u8>::empty(),
                        ..self
                    },
                    ClientEvent::ConnectFailed => ClientModel { waiting: true, ..self },
                    _ => self,
                }
            },
            ClientState::Connected => match event {
                ClientEvent::ReadFailed => self.dropped(),
                ClientEvent::ConsumerGone => self.dropped(),
                _ => self,
            },
            ClientState::Disconnected => match event {
                ClientEvent::DelayElapsed => self.retrying(),
                _ => self,
            },
        }
    }

    /// The action that is due.
    pub open spec fn action(self) -> ClientAction {
        match self.state {
            ClientState::Connecting => if self.waiting {
                ClientAction::Wait(self.delay)
            } else {
                ClientAction::Connect
            },
            ClientState::Connected => ClientAction::Read,
            ClientState::Disconnected => ClientAction::CloseAndWait(self.delay),
        }
    }

    /// The session after a read that handed over `chunk`. An empty read is
    /// the end of the stream and drops the connection. Bytes that arrive
    /// while the session is not connected are ignored.
    pub open spec fn receive(self, chunk: Seq<u8>) -> ClientModel {
        if !(self.state is Connected) {
            self
        } else if chunk.len() == 0 {
            self.dropped()
        } else {
            ClientModel { pending: leftover(self.pending + chunk), ..self }
        }
    }

    /// What a read that handed over `chunk` gives the consumer: for each
    /// frame that the chunk completes, in order, its packet or its error.
    /// A read that drops the connection, or that is ignored, gives nothing.
    pub open spec fn delivered(self, chunk: Seq<u8>) -> Seq<Result<Packet, Error>> {
        if self.state is Connected && chunk.len() > 0 {
            decode_all(frames_in(self.pending + chunk))
        } else {
            Seq::<Result<Packet, Error>>::empty()
        }
    }

    /// The session after `rounds` attempts that each failed and were each
    /// followed by the delay.
    pub open spec fn after_failed_attempts(self, rounds: nat) -> ClientModel
        decreases rounds,
    {
        if rounds == 0 {
            self
        } else {
            self.next(ClientEvent::ConnectFailed).next(
                ClientEvent::DelayElapsed,
            ).after_failed_attempts((rounds - 1) as nat)
        }
    }
}

/// The receiving role of a session.
pub struct Client {
    server_addr: String,
    retry_duration: Duration,
    state: ClientState,
    waiting: bool,
    assembler: FrameAssembler,
}

impl View for Client {
    type V = ClientModel;

    closed spec fn view(&self) -> ClientModel {
        ClientModel {
            address: self.server_addr@,
            delay: self.retry_duration,
            state: self.state,
            waiting: self.waiting,
            pending: self.assembler@,
        }
    }
}

impl Client {
    /// Makes a session for the server at `server_addr` that waits
    /// `retry_duration` between attempts.
    pub fn new(server_addr: String, retry_duration: Duration) -> (client: Client)
        ensures
            client@ == ClientModel::initial(server_addr@, retry_duration),
    {
        Client {
            server_addr,
            retry_duration,
            state: ClientState::Connecting,
            waiting: false,
            assembler: FrameAssembler::new(),
        }
    }

    /// The address of the server.
    pub fn server_addr(&self) -> (addr: &str)
        ensures
            addr@ == self@.address,
    {
        self.server_addr.as_str()
    }

    /// Where the session stands.
    pub fn state(&self) -> (state: ClientState)
        ensures
            state == self@.state,
    {
        self.state
    }

    /// The action that is due.
    pub fn action(&self) -> (action: ClientAction)
        ensures
            action == self@.action(),
    {
        match self.state {
            ClientState::Connecting => if self.waiting {
                ClientAction::Wait(self.retry_duration)
            } else {
                ClientAction::Connect
            },
            ClientState::Connected => ClientAction::Read,
            ClientState::Disconnected => ClientAction::CloseAndWait(self.retry_duration),
        }
    }

    /// Takes what the caller reports and moves the session on.
    pub fn handle(&mut self, event: ClientEvent)
        ensures
            final(self)@ == old(self)@.next(event),
    {
        match self.state {
            ClientState::Connecting => if self.waiting {
                match event {
                    ClientEvent::DelayElapsed => {
                        self.waiting = false;
                        self.assembler.reset();
                    },
                    _ => {},
                }
            } else {
                match event {
                    ClientEvent::ConnectSucceeded => {
                        self.state = ClientState::Connected;
                        self.assembler.reset();
                    },
                    ClientEvent::ConnectFailed => {
                        self.waiting = true;
                    },
                    _ => {},
                }
            },
            ClientState::Connected => match event {
                ClientEvent::ReadFailed => {
                    self.drop_connection();
                },
                ClientEvent::ConsumerGone => {
                    self.drop_connection();
                },
                _ => {},
            },
            ClientState::Disconnected => match event {
                ClientEvent::DelayElapsed => {
                    self.state = ClientState::Connecting;
                    self.waiting = false;
                    self.assembler.reset();
                },
                _ => {},
            },
        }
    }

    /// Takes the bytes of one read and returns what they give the consumer:
    /// for each frame that they complete, in order, the decoded packet or
    /// the error of a frame with an unknown tag. Such a frame never ends the
    /// connection. An empty read does.
    pub fn receive(&mut self, chunk: &[u8]) -> (results: Vec<Result<Packet, Error>>)
        ensures
            results@ == old(self)@.delivered(chunk@),
            final(self)@ == old(self)@.receive(chunk@),
    {
        match self.state {
            ClientState::Connected => {
                if chunk.len() == 0 {
                    self.drop_connection();
                    Vec::new()
                } else {
                    let frames = self.assembler.feed(chunk);
                    decode_frames(&frames)
                }
            },
            _ => Vec::new(),
        }
    }

    fn drop_connection(&mut self)
        ensures
            final(self)@ == old(self)@.dropped(),
    {
        self.state = ClientState::Disconnected;
        self.waiting = false;
        self.assembler.reset();
    }
}

/// There is no state in which a receiving session stops: an action is due
/// in every state, and from every state some event leads on.
pub proof fn lemma_client_never_stops(m: ClientModel)
    ensures
        exists|event: ClientEvent| m.next(event) != m,
{
    match m.state {
        ClientState::Connecting => {
            if m.waiting {
                assert(m.next(ClientEvent::DelayElapsed) != m);
            } else {
                assert(m.next(ClientEvent::ConnectFailed) != m);
            }
        },
        ClientState::Connected => {
            assert(m.next(ClientEvent::ReadFailed) != m);
        },
        ClientState::Disconnected => {
            assert(m.next(ClientEvent::DelayElapsed) != m);
        },
    }
}

/// A failed attempt asks for the fixed delay, and when it has passed the
/// next attempt is due.
pub proof fn lemma_client_retry(m: ClientModel)
    requires
        m.state is Connecting,
        !m.waiting,
    ensures
        m.action() == ClientAction::Connect,
        m.next(ClientEvent::ConnectFailed).action() == ClientAction::Wait(m.delay),
        m.next(ClientEvent::ConnectFailed).state is Connecting,
        m.next(ClientEvent::ConnectFailed).next(ClientEvent::DelayElapsed) == m.retrying(),
        m.retrying().action() == ClientAction::Connect,
{
}

/// Reconnect: however many attempts fail, each followed by the delay, the
/// session has not stopped: the next attempt is due, to the same address and
/// with the same delay, and if that one succeeds the session is connected
/// and reading.
pub proof fn lemma_client_reconnects(m: ClientModel, rounds: nat)
    requires
        m.state is Connecting,
        !m.waiting,
    ensures
        m.after_failed_attempts(rounds).state is Connecting,
        !m.after_failed_attempts(rounds).waiting,
        m.after_failed_attempts(rounds).address == m.address,
        m.after_failed_attempts(rounds).delay == m.delay,
        m.after_failed_attempts(rounds).action() == ClientAction::Connect,
        m.after_failed_attempts(rounds).next(ClientEvent::ConnectSucceeded).state is Connected,
        m.after_failed_attempts(rounds).next(ClientEvent::ConnectSucceeded).action()
            == ClientAction::Read,
    decreases rounds,
{
    if rounds > 0 {
        lemma_client_retry(m);
        lemma_client_reconnects(m.retrying(), (rounds - 1) as nat);
    }
}

/// A connection that is lost is closed, and after the same fixed delay a new
/// attempt is due.
pub proof fn lemma_client_disconnect_cycle(m: ClientModel, event: ClientEvent)
    requires
        m.state is Connected,
        event == ClientEvent::ReadFailed || event == ClientEvent::ConsumerGone,
    ensures
        m.next(event).state is Disconnected,
        m.next(event).action() == ClientAction::CloseAndWait(m.delay),
        m.next(event).next(ClientEvent::DelayElapsed).state is Connecting,
        m.next(event).next(ClientEvent::DelayElapsed).action() == ClientAction::Connect,
        m.receive(Seq::<u8>::empty()) == m.next(ClientEvent::ReadFailed),
{
}

/// Whatever bytes a read hands over, if there are any, the session stays
/// connected: a frame that cannot be decoded never closes the connection.
pub proof fn lemma_client_tolerates_bad_frames(m: ClientModel, chunk: Seq<u8>)
    requires
        m.state is Connected,
        chunk.len() > 0,
    ensures
        m.receive(chunk).state is Connected,
        m.receive(chunk).action() == ClientAction::Read,
        m.delivered(chunk).len() == (m.pending.len() + chunk.len()) / 16,
{
}

/// How the bytes fall into reads makes no difference: two reads in a row
/// give the consumer, in order, what one read of both chunks would give, and
/// leave the session as that one read would.
pub proof fn lemma_client_split_reads(m: ClientModel, first: Seq<u8>, second: Seq<u8>)
    requires
        m.state is Connected,
        first.len() > 0,
        second.len() > 0,
    ensures
        m.delivered(first) + m.receive(first).delivered(second) == m.delivered(first + second),
        m.receive(first).receive(second) == m.receive(first + second),
{
    let held = m.pending + first;
    lemma_split_reads(held, second);
    assert(held + second =~= m.pending + (first + second));
}

} // verus!
