//! The frame codec: packets to fixed 16-byte frames and back.
//!
//! Byte 0 of a frame is the tag (0 timestamp, 1 gamepad, 2 mouse). The
//! payload follows, little-endian, and the rest of the frame is zero.

use crate::error::Error;
use crate::gamepad::{XButtons, XGamepad};
use crate::mouse::Mouse;
use crate::packet::{Packet, PACKET_FRAME_SIZE};
use crate::wire::{
    i16_from_le_bytes, i16_to_le_bytes, i8_to_u8, lemma_i16_round_trip, lemma_i8_bytes_round_trip,
    lemma_i8_round_trip, lemma_u16_bytes_round_trip, lemma_u16_round_trip,
    lemma_u64_bytes_round_trip, lemma_u64_round_trip, u16_from_le_bytes, u16_to_le_bytes,
    u64_from_le, u64_from_le_bytes, u64_to_le, u64_to_le_bytes,
};
use vstd::prelude::*;

verus! {

/// Tag byte of a timestamp frame.
pub const TAG_TIMESTAMP: u8 = 0;

/// Tag byte of a gamepad frame.
pub const TAG_GAMEPAD: u8 = 1;

/// Tag byte of a mouse frame.
pub const TAG_MOUSE: u8 = 2;

/// `n` zero bytes.
pub open spec fn zeros(n: nat) -> Seq<u8> {
    Seq::new(n, |i: int| 0u8)
}

/// The frame that carries a packet: tag, payload, zero padding.
pub open spec fn frame_of(p: Packet) -> Seq<u8> {
    match p {
        Packet::Timestamp(t) => seq![TAG_TIMESTAMP] + u64_to_le(t) + zeros(7),
        Packet::Gamepad(g) => seq![TAG_GAMEPAD] + g.payload() + zeros(3),
        Packet::Mouse(m) => seq![TAG_MOUSE] + m.payload() + zeros(11),
    }
}

/// The packet that a frame carries, or the tag byte that names none.
/// Bytes after the payload play no part.
pub open spec fn parse_frame(s: Seq<u8>) -> Result<Packet, Error>
    recommends
        s.len() == PACKET_FRAME_SIZE,
{
    if s[0] == TAG_TIMESTAMP {
        Ok(Packet::Timestamp(u64_from_le(s.subrange(1, 9))))
    } else if s[0] == TAG_GAMEPAD {
        Ok(Packet::Gamepad(XGamepad::from_payload(s.subrange(1, 13))))
    } else if s[0] == TAG_MOUSE {
        Ok(Packet::Mouse(Mouse::from_payload(s.subrange(1, 5))))
    } else {
        Err(Error::UnknownTag(s[0]))
    }
}

/// A gamepad state that can be written as twelve payload bytes.
pub trait SerializableGamepad {
    /// The twelve bytes that `serialize` writes.
    spec fn spec_serialize(&self) -> Seq<u8>;

    /// Serialize the gamepad data into a buffer.
    /// The buffer must be at least 12 bytes long; what follows the first
    /// twelve bytes is left as it was.
    fn serialize(&self, buf: &mut [u8])
        requires
            old(buf)@.len() >= 12,
        ensures
            final(buf)@ == self.spec_serialize() + old(buf)@.skip(12),
            final(buf)@.len() == old(buf)@.len(),
    ;
}

/// A gamepad state that can be read from twelve payload bytes.
pub trait DeserializableGamepad {
    type Target;

    /// The state that `deserialize` reads from the first twelve bytes.
    spec fn spec_deserialize(buf: Seq<u8>) -> Self::Target;

    /// Deserialize the gamepad data from a buffer.
    /// The buffer must be at least 12 bytes long.
    fn deserialize(buf: &[u8]) -> (r: Self::Target)
        requires
            buf@.len() >= 12,
        ensures
            r == Self::spec_deserialize(buf@),
    ;
}

/// A packet that can be written as one frame.
pub trait SerializablePacket {
    /// The sixteen bytes that `serialize` writes.
    spec fn spec_serialize(&self) -> Seq<u8>;

    /// Serialize the packet into a buffer, all sixteen bytes of it.
    fn serialize(&self, buf: &mut [u8; PACKET_FRAME_SIZE])
        ensures
            final(buf)@ == self.spec_serialize(),
    ;
}

/// A packet that can be read from one frame.
pub trait DeserializablePacket {
    type Target;

    /// What `deserialize` returns for a frame.
    spec fn spec_deserialize(buf: Seq<u8>) -> Result<Self::Target, Error>;

    /// Deserialize the packet from a buffer.
    /// Return the deserialized packet, or the tag that names none.
    fn deserialize(buf: &[u8; PACKET_FRAME_SIZE]) -> (r: Result<Self::Target, Error>)
        ensures
            r == Self::spec_deserialize(buf@),
    ;
}

/// The twelve payload bytes of a gamepad state.
pub fn serialize(gamepad: &XGamepad) -> (buf: [u8; 12])
    ensures
        buf@ == gamepad.payload(),
{
    let b: [u8; 2] = u16_to_le_bytes(gamepad.buttons.raw);
    let lx: [u8; 2] = i16_to_le_bytes(gamepad.thumb_lx);
    let ly: [u8; 2] = i16_to_le_bytes(gamepad.thumb_ly);
    let rx: [u8; 2] = i16_to_le_bytes(gamepad.thumb_rx);
    let ry: [u8; 2] = i16_to_le_bytes(gamepad.thumb_ry);
    [
        b[0],
        b[1],
        gamepad.left_trigger,
        gamepad.right_trigger,
        lx[0],
        lx[1],
        ly[0],
        ly[1],
        rx[0],
        rx[1],
        ry[0],
        ry[1],
    ]
}

/// The gamepad state that twelve payload bytes carry.
pub fn deserialize(buf: &[u8; 12]) -> (gamepad: XGamepad)
    ensures
        gamepad == XGamepad::from_payload(buf@),
{
    gamepad_at(buf.as_slice(), 0)
}

/// Reads the gamepad state whose payload starts at index `at` of `buf`.
fn gamepad_at(buf: &[u8], at: usize) -> (gamepad: XGamepad)
    requires
        at + 12 <= buf@.len(),
    ensures
        gamepad == XGamepad::from_payload(buf@.subrange(at as int, at + 12)),
{
    XGamepad {
        buttons: XButtons { raw: u16_from_le_bytes(buf[at], buf[at + 1]) },
        left_trigger: buf[at + 2],
        right_trigger: buf[at + 3],
        thumb_lx: i16_from_le_bytes(buf[at + 4], buf[at + 5]),
        thumb_ly: i16_from_le_bytes(buf[at + 6], buf[at + 7]),
        thumb_rx: i16_from_le_bytes(buf[at + 8], buf[at + 9]),
        thumb_ry: i16_from_le_bytes(buf[at + 10], buf[at + 11]),
    }
}

impl SerializableGamepad for XGamepad {
    open spec fn spec_serialize(&self) -> Seq<u8> {
        self.payload()
    }

    fn serialize(&self, buf: &mut [u8]) {
        let bytes: [u8; 12] = self::serialize(self);
        let mut i: usize = 0;
        while i < 12
            invariant
                i <= 12,
                buf@.len() == old(buf)@.len(),
                buf@.len() >= 12,
                bytes@ == self.payload(),
                forall|j: int| 0 <= j < i ==> buf@[j] == bytes@[j],
                forall|j: int| 12 <= j < buf@.len() ==> buf@[j] == old(buf)@[j],
            decreases 12 - i,
        {
            buf[i] = bytes[i];
            i = i + 1;
        }
    }
}

impl DeserializableGamepad for XGamepad {
    type Target = XGamepad;

    open spec fn spec_deserialize(buf: Seq<u8>) -> XGamepad {
        XGamepad::from_payload(buf)
    }

    fn deserialize(buf: &[u8]) -> (r: XGamepad) {
        gamepad_at(buf, 0)
    }
}

/// Encodes a packet as its frame. There is no error: every packet has one.
pub fn encode(packet: &Packet) -> (frame: [u8; PACKET_FRAME_SIZE])
    ensures
        frame@ == frame_of(*packet),
{
    match packet {
        Packet::Timestamp(t) => {
            let b: [u8; 8] = u64_to_le_bytes(*t);
            [
                TAG_TIMESTAMP,
                b[0],
                b[1],
                b[2],
                b[3],
                b[4],
                b[5],
                b[6],
                b[7],
                0,
                0,
                0,
                0,
                0,
                0,
                0,
            ]
        },
        Packet::Gamepad(g) => {
            let b: [u8; 12] = serialize(g);
            [
                TAG_GAMEPAD,
                b[0],
                b[1],
                b[2],
                b[3],
                b[4],
                b[5],
                b[6],
                b[7],
                b[8],
                b[9],
                b[10],
                b[11],
                0,
                0,
                0,
            ]
        },
        Packet::Mouse(m) => {
            [
                TAG_MOUSE,
                i8_to_u8(m.x),
                i8_to_u8(m.y),
                m.buttons.0,
                i8_to_u8(m.scroll),
                0,
                0,
                0,
                0,
                0,
                0,
                0,
                0,
                0,
                0,
                0,
            ]
        },
    }
}

/// Decodes a frame. Fails exactly when the tag byte is none of 0, 1 and 2,
/// and then hands that byte back.
pub fn decode(frame: &[u8; PACKET_FRAME_SIZE]) -> (r: Result<Packet, Error>)
    ensures
        r == parse_frame(frame@),
{
    let tag: u8 = frame[0];
    let bytes = frame.as_slice();
    if tag == TAG_TIMESTAMP {
        Ok(Packet::Timestamp(u64_from_le_bytes(bytes, 1)))
    } else if tag == TAG_GAMEPAD {
        Ok(Packet::Gamepad(gamepad_at(bytes, 1)))
    } else if tag == TAG_MOUSE {
        Ok(Packet::Mouse(mouse_at(bytes, 1)))
    } else {
        Err(Error::UnknownTag(tag))
    }
}

/// Reads the mouse update whose payload starts at index `at` of `buf`.
fn mouse_at(buf: &[u8], at: usize) -> (mouse: Mouse)
    requires
        at + 4 <= buf.len(),
    ensures
        mouse == Mouse::from_payload(buf@.subrange(at as int, at + 4)),
{
    Mouse::deserialize(vstd::slice::slice_subrange(buf, at, at + 4))
}

impl SerializablePacket for Packet {
    open spec fn spec_serialize(&self) -> Seq<u8> {
        frame_of(*self)
    }

    fn serialize(&self, buf: &mut [u8; PACKET_FRAME_SIZE]) {
        *buf = encode(self);
    }
}

impl DeserializablePacket for Packet {
    type Target = Packet;

    open spec fn spec_deserialize(buf: Seq<u8>) -> Result<Packet, Error> {
        parse_frame(buf)
    }

    fn deserialize(buf: &[u8; PACKET_FRAME_SIZE]) -> (r: Result<Packet, Error>) {
        decode(buf)
    }
}

/// A frame always has sixteen bytes, the tag first and zeros after the
/// payload.
pub proof fn lemma_frame_shape(p: Packet)
    ensures
        frame_of(p).len() == PACKET_FRAME_SIZE,
        p is Timestamp ==> frame_of(p)[0] == TAG_TIMESTAMP,
        p is Gamepad ==> frame_of(p)[0] == TAG_GAMEPAD,
        p is Mouse ==> frame_of(p)[0] == TAG_MOUSE,
        p is Timestamp ==> forall|i: int| 9 <= i < 16 ==> frame_of(p)[i] == 0,
        p is Gamepad ==> forall|i: int| 13 <= i < 16 ==> frame_of(p)[i] == 0,
        p is Mouse ==> forall|i: int| 5 <= i < 16 ==> frame_of(p)[i] == 0,
{
}

/// Reading back the payload of a gamepad state gives the state.
pub proof fn lemma_gamepad_round_trip(g: XGamepad)
    ensures
        g.payload().len() == 12,
        XGamepad::from_payload(g.payload()) == g,
{
    lemma_u16_round_trip(g.buttons.raw);
    lemma_i16_round_trip(g.thumb_lx);
    lemma_i16_round_trip(g.thumb_ly);
    lemma_i16_round_trip(g.thumb_rx);
    lemma_i16_round_trip(g.thumb_ry);
}

/// Reading back the payload of a mouse update gives the update.
pub proof fn lemma_mouse_round_trip(m: Mouse)
    ensures
        m.payload().len() == 4,
        Mouse::from_payload(m.payload()) == m,
{
    lemma_i8_round_trip(m.x);
    lemma_i8_round_trip(m.y);
    lemma_i8_round_trip(m.scroll);
}

/// Decoding the frame of a packet gives the packet back, whatever its kind.
pub proof fn lemma_round_trip(p: Packet)
    ensures
        parse_frame(frame_of(p)) == Ok::<Packet, Error>(p),
{
    match p {
        Packet::Timestamp(t) => {
            lemma_u64_round_trip(t);
        },
        Packet::Gamepad(g) => {
            lemma_gamepad_round_trip(g);
        },
        Packet::Mouse(m) => {
            lemma_mouse_round_trip(m);
        },
    }
}

/// The index behind the payload of a frame with a known tag.
pub open spec fn payload_end(tag: u8) -> int {
    if tag == TAG_TIMESTAMP {
        9
    } else if tag == TAG_GAMEPAD {
        13
    } else {
        5
    }
}

/// Whether a sequence of bytes is the frame of some packet: sixteen bytes, a
/// known tag, and zeros behind the payload of that tag.
pub open spec fn canonical(s: Seq<u8>) -> bool {
    &&& s.len() == PACKET_FRAME_SIZE
    &&& s[0] <= TAG_MOUSE
    &&& forall|i: int| payload_end(s[0]) <= i < 16 ==> s[i] == 0
}

/// The frames of packets are exactly the canonical byte sequences: every
/// frame is canonical, and encoding what a canonical sequence decodes to
/// gives the sequence back.
pub proof fn lemma_canonical_frames(p: Packet, s: Seq<u8>)
    ensures
        canonical(frame_of(p)),
        canonical(s) ==> parse_frame(s) is Ok && frame_of(parse_frame(s)->Ok_0) == s,
{
    lemma_frame_shape(p);
    if canonical(s) {
        if s[0] == TAG_TIMESTAMP {
            lemma_u64_bytes_round_trip(s.subrange(1, 9));
        } else if s[0] == TAG_GAMEPAD {
            lemma_u16_bytes_round_trip(s[1], s[2]);
            lemma_u16_bytes_round_trip(s[5], s[6]);
            lemma_u16_bytes_round_trip(s[7], s[8]);
            lemma_u16_bytes_round_trip(s[9], s[10]);
            lemma_u16_bytes_round_trip(s[11], s[12]);
        } else {
            lemma_i8_bytes_round_trip(s[1]);
            lemma_i8_bytes_round_trip(s[2]);
            lemma_i8_bytes_round_trip(s[4]);
        }
        assert(frame_of(parse_frame(s)->Ok_0) =~= s);
    }
}

/// Two packets that differ have frames that differ.
pub proof fn lemma_frames_differ(p: Packet, q: Packet)
    requires
        p != q,
    ensures
        frame_of(p) != frame_of(q),
{
    lemma_round_trip(p);
    lemma_round_trip(q);
}

/// A frame whose tag is none of 0, 1 and 2 is refused with that tag, and no
/// other frame of sixteen bytes is refused.
pub proof fn lemma_unknown_tag(frame: Seq<u8>)
    requires
        frame.len() == PACKET_FRAME_SIZE,
    ensures
        frame[0] > TAG_MOUSE ==> parse_frame(frame) == Err::<Packet, Error>(
            Error::UnknownTag(frame[0]),
        ),
        frame[0] <= TAG_MOUSE ==> parse_frame(frame) is Ok,
{
}

} // verus!
