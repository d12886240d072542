//! The events that travel from the sampling side to the replaying side.

use crate::gamepad::XGamepad;
use crate::mouse::Mouse;
use vstd::prelude::*;

verus! {

/// Every frame on the wire has exactly this many bytes.
pub const PACKET_FRAME_SIZE: usize = 16;

/// The port that a server listens on unless told otherwise.
pub const PORT: u16 = 7777;

/// One event of the protocol.
#[derive(Clone, Copy, Debug, PartialEq, Eq, Structural)]
pub enum Packet {
    Timestamp(u64),
    Gamepad(XGamepad),
    Mouse(Mouse),
}

} // verus!
