//! The two roles of a session together.

use crate::client::ClientModel;
use crate::error::Error;
use crate::packet::{Packet, PACKET_FRAME_SIZE};
use crate::server::{lemma_server_writes_what_it_takes, ServerEvent, ServerModel};
use crate::stream::lemma_stream_round_trip;
use vstd::prelude::*;

verus! {

/// End to end: take a sending session with nothing unsent, any sequence of
/// events that leaves it with nothing unsent, and a receiving session that
/// has just connected. What the sender put on its socket gives the receiver
/// exactly the packets that the sender took from its relay: as many, in the
/// same order, each with the values it had, and no byte is left over.
pub proof fn lemma_end_to_end(server: ServerModel, events: Seq<ServerEvent>, client: ClientModel)
    requires
        server.wf(),
        server.sent == PACKET_FRAME_SIZE,
        server.run(events).sent == PACKET_FRAME_SIZE,
        client.state is Connected,
        client.pending.len() == 0,
        server.written(events).len() > 0,
    ensures
        client.delivered(server.written(events)) == Seq::new(
            server.taken(events).len(),
            |i: int| Ok::<Packet, Error>(server.taken(events)[i]),
        ),
        client.receive(server.written(events)).state is Connected,
        client.receive(server.written(events)).pending == Seq::<u8>::empty(),
{
    lemma_server_writes_what_it_takes(server, events);
    lemma_stream_round_trip(server.taken(events));
}

} // verus!
