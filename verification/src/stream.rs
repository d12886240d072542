//! Frame boundaries in a byte stream.
//!
//! A stream carries frames back to back with no length prefix, and a read
//! may hand over any number of bytes. The assembler cuts the stream into
//! frames of exactly sixteen bytes, whatever the bytes hold, so that a frame
//! that cannot be decoded never shifts the frames behind it.

use crate::codec::{decode, frame_of, lemma_frame_shape, lemma_round_trip, parse_frame};
use crate::error::Error;
use crate::packet::{Packet, PACKET_FRAME_SIZE};
use vstd::prelude::*;

verus! {

/// The complete frames at the start of a byte stream, in order.
pub open spec fn frames_in(bytes: Seq<u8>) -> Seq<Seq<u8>> {
    Seq::new(bytes.len() / 16, |i: int| bytes.subrange(16 * i, 16 * i + 16))
}

/// The bytes behind the last complete frame: the beginning of the next one.
pub open spec fn leftover(bytes: Seq<u8>) -> Seq<u8> {
    bytes.skip(16 * (bytes.len() as int / 16))
}

/// What decoding each frame gives, in order.
pub open spec fn decode_all(frames: Seq<Seq<u8>>) -> Seq<Result<Packet, Error>> {
    Seq::new(frames.len(), |i: int| parse_frame(frames[i]))
}

/// The byte contents of a sequence of frames.
pub open spec fn frame_views(frames: Seq<[u8; PACKET_FRAME_SIZE]>) -> Seq<Seq<u8>> {
    Seq::new(frames.len(), |i: int| frames[i]@)
}

/// The bytes that a sender puts on the stream for a sequence of packets.
pub open spec fn stream_of(packets: Seq<Packet>) -> Seq<u8>
    decreases packets.len(),
{
    if packets.len() == 0 {
        Seq::<u8>::empty()
    } else {
        stream_of(packets.drop_last()) + frame_of(packets.last())
    }
}

/// Collects the bytes of a stream and hands out each frame once it is whole.
pub struct FrameAssembler {
    buf: [u8; PACKET_FRAME_SIZE],
    filled: usize,
}

impl View for FrameAssembler {
    type V = Seq<u8>;

    /// The bytes received of the frame that is not whole yet.
    closed spec fn view(&self) -> Seq<u8> {
        self.buf@.take(self.filled as int)
    }
}

impl FrameAssembler {
    #[verifier::type_invariant]
    spec fn partial(self) -> bool {
        self.filled < PACKET_FRAME_SIZE
    }

    /// Makes an assembler that has received nothing.
    pub fn new() -> (assembler: FrameAssembler)
        ensures
            assembler@ == Seq::<u8>::empty(),
    {
        let assembler = FrameAssembler { buf: [0u8; PACKET_FRAME_SIZE], filled: 0 };
        assembler
    }

    /// The number of bytes held of the frame that is not whole yet, always
    /// less than sixteen.
    pub fn pending(&self) -> (n: usize)
        ensures
            n == self@.len(),
            n < PACKET_FRAME_SIZE,
    {
        proof {
            use_type_invariant(self);
        }
        self.filled
    }

    /// Forgets the bytes of a frame that is not whole, as at the start of a
    /// new connection.
    pub fn reset(&mut self)
        ensures
            final(self)@ == Seq::<u8>::empty(),
    {
        self.filled = 0;
    }

    /// Takes the bytes of one read, in stream order, and returns the frames
    /// that they complete. The frames are those of the bytes held before
    /// followed by `chunk`; what is left over is held for the next call.
    pub fn feed(&mut self, chunk: &[u8]) -> (frames: Vec<[u8; PACKET_FRAME_SIZE]>)
        ensures
            frame_views(frames@) == frames_in(old(self)@ + chunk@),
            final(self)@ == leftover(old(self)@ + chunk@),
    {
        proof {
            use_type_invariant(&*self);
        }
        let mut frames: Vec<[u8; PACKET_FRAME_SIZE]> = Vec::new();
        let mut i: usize = 0;
        while i < chunk.len()
            invariant
                i <= chunk@.len(),
                self.filled < PACKET_FRAME_SIZE,
                frame_views(frames@) == frames_in(old(self)@ + chunk@.take(i as int)),
                self@ == leftover(old(self)@ + chunk@.take(i as int)),
            decreases chunk@.len() - i,
        {
            let ghost seen = old(self)@ + chunk@.take(i as int);
            let ghost held = self@;
            let ghost before = frames@;
            let b: u8 = chunk[i];
            proof {
                lemma_one_more_byte(seen, b);
                assert(seen.push(b) =~= old(self)@ + chunk@.take(i + 1));
            }
            self.buf[self.filled] = b;
            let n: usize = self.filled + 1;
            if n == PACKET_FRAME_SIZE {
                frames.push(self.buf);
                self.filled = 0;
                assert(frame_views(frames@) =~~= frame_views(before).push(held.push(b)));
            } else {
                self.filled = n;
            }
            i = i + 1;
        }
        assert(chunk@.take(chunk@.len() as int) =~= chunk@);
        frames
    }
}

/// Decodes every frame of a batch, in order. A frame with an unknown tag
/// gives an error in its place and does not disturb the others.
pub fn decode_frames(frames: &Vec<[u8; PACKET_FRAME_SIZE]>) -> (results: Vec<
    Result<Packet, Error>,
>)
    ensures
        results@ == decode_all(frame_views(frames@)),
{
    let mut results: Vec<Result<Packet, Error>> = Vec::new();
    let mut i: usize = 0;
    while i < frames.len()
        invariant
            i <= frames@.len(),
            results@.len() == i,
            forall|j: int| 0 <= j < i ==> results@[j] == parse_frame(#[trigger] frames@[j]@),
        decreases frames@.len() - i,
    {
        results.push(decode(&frames[i]));
        i = i + 1;
    }
    results
}

/// One more byte either completes a frame, which then holds the sixteen
/// bytes last received, or joins the bytes left over.
pub proof fn lemma_one_more_byte(bytes: Seq<u8>, b: u8)
    ensures
        leftover(bytes).len() == bytes.len() % 16,
        bytes.len() % 16 == 15 ==> frames_in(bytes.push(b)) == frames_in(bytes).push(
            leftover(bytes).push(b),
        ) && leftover(bytes.push(b)) == Seq::<u8>::empty(),
        bytes.len() % 16 != 15 ==> frames_in(bytes.push(b)) == frames_in(bytes) && leftover(
            bytes.push(b),
        ) == leftover(bytes).push(b),
{
    let t = bytes.push(b);
    let k = bytes.len() as int / 16;
    if bytes.len() % 16 == 15 {
        assert forall|i: int| 0 <= i < k + 1 implies #[trigger] frames_in(t)[i] == frames_in(
            bytes,
        ).push(leftover(bytes).push(b))[i] by {
            if i == k {
                assert(t.subrange(16 * i, 16 * i + 16) =~= leftover(bytes).push(b));
            }
        }
    } else {
        assert forall|i: int| 0 <= i < k implies #[trigger] frames_in(t)[i] == frames_in(
            bytes,
        )[i] by {
        }
    }
}

/// Every frame that the assembler hands out has sixteen bytes, and fewer
/// than sixteen are left over.
pub proof fn lemma_frames_are_whole(bytes: Seq<u8>)
    ensures
        frames_in(bytes).len() == bytes.len() / 16,
        forall|i: int| 0 <= i < frames_in(bytes).len() ==> (#[trigger] frames_in(bytes)[i]).len()
            == PACKET_FRAME_SIZE,
        leftover(bytes).len() == bytes.len() % 16,
{
}

/// Cutting does not depend on how the reads fall: feeding `first` and then
/// `second` gives the frames of feeding both at once, and leaves the same
/// bytes over.
pub proof fn lemma_split_reads(first: Seq<u8>, second: Seq<u8>)
    ensures
        frames_in(first) + frames_in(leftover(first) + second) == frames_in(first + second),
        leftover(leftover(first) + second) == leftover(first + second),
{
    let rest = leftover(first) + second;
    let all = first + second;
    let joined = frames_in(first) + frames_in(rest);
    assert forall|i: int| 0 <= i < joined.len() implies joined[i] == frames_in(all)[i] by {
    }
}

/// The stream of a packet followed by others is the frame of the first
/// followed by the stream of the others.
pub proof fn lemma_stream_of_first(first: Packet, others: Seq<Packet>)
    ensures
        stream_of(seq![first] + others) == frame_of(first) + stream_of(others),
    decreases others.len(),
{
    let all = seq![first] + others;
    if others.len() == 0 {
        assert(all.drop_last() =~= others);
    } else {
        assert(all.drop_last() =~= seq![first] + others.drop_last());
        lemma_stream_of_first(first, others.drop_last());
    }
}

/// The stream of `n` packets has `16 * n` bytes, and its frames are the
/// frames of the packets, in order, with nothing left over.
pub proof fn lemma_stream_frames(packets: Seq<Packet>)
    ensures
        stream_of(packets).len() == 16 * packets.len(),
        frames_in(stream_of(packets)).len() == packets.len(),
        forall|i: int|
            0 <= i < packets.len() ==> (#[trigger] frames_in(stream_of(packets))[i]) == frame_of(
                packets[i],
            ),
        leftover(stream_of(packets)) == Seq::<u8>::empty(),
    decreases packets.len(),
{
    if packets.len() > 0 {
        let head = packets.drop_last();
        let all = stream_of(head) + frame_of(packets.last());
        lemma_stream_frames(head);
        lemma_frame_shape(packets.last());
        assert forall|i: int| 0 <= i < packets.len() implies (#[trigger] frames_in(all)[i])
            == frame_of(packets[i]) by {
            if i < head.len() {
                assert(frames_in(stream_of(head))[i] == frame_of(head[i]));
            }
        }
    }
}

/// End to end: the receiver decodes from the sender's stream exactly the
/// packets that were sent, as many, in the same order, each with the values
/// it had.
pub proof fn lemma_stream_round_trip(packets: Seq<Packet>)
    ensures
        decode_all(frames_in(stream_of(packets))) == Seq::new(
            packets.len(),
            |i: int| Ok::<Packet, Error>(packets[i]),
        ),
        leftover(stream_of(packets)) == Seq::<u8>::empty(),
{
    lemma_stream_frames(packets);
    let decoded = decode_all(frames_in(stream_of(packets)));
    assert forall|i: int| 0 <= i < packets.len() implies decoded[i] == Ok::<Packet, Error>(
        packets[i],
    ) by {
        lemma_round_trip(packets[i]);
    }
}

/// A frame with an unknown tag takes its sixteen bytes and no more: the
/// frames before and behind it are cut and decoded as if it were any other.
pub proof fn lemma_bad_frame_keeps_alignment(before: Seq<Packet>, bad: Seq<u8>, after: Seq<Packet>)
    requires
        bad.len() == PACKET_FRAME_SIZE,
        bad[0] > 2,
    ensures
        decode_all(frames_in(stream_of(before) + bad + stream_of(after))) == Seq::new(
            before.len(),
            |i: int| Ok::<Packet, Error>(before[i]),
        ).push(Err::<Packet, Error>(Error::UnknownTag(bad[0]))) + Seq::new(
            after.len(),
            |i: int| Ok::<Packet, Error>(after[i]),
        ),
{
    let a = stream_of(before);
    let c = stream_of(after);
    lemma_stream_round_trip(before);
    lemma_stream_round_trip(after);
    lemma_stream_frames(before);
    lemma_stream_frames(after);
    lemma_split_reads(a, bad + c);
    lemma_split_reads(bad, c);
    assert(frames_in(bad) =~= seq![bad]) by {
        assert(bad.subrange(0, 16) =~= bad);
    }
    assert(a + bad + c =~= a + (bad + c));
    let all = frames_in(a + bad + c);
    let expected = Seq::new(before.len(), |i: int| Ok::<Packet, Error>(before[i])).push(
        Err::<Packet, Error>(Error::UnknownTag(bad[0])),
    ) + Seq::new(after.len(), |i: int| Ok::<Packet, Error>(after[i]));
    assert forall|i: int| 0 <= i < all.len() implies decode_all(all)[i] == expected[i] by {
        if i < before.len() {
            assert(all[i] == frames_in(a)[i]);
        } else if i == before.len() {
            assert(all[i] == bad);
        } else {
            assert(all[i] == frames_in(c)[i - before.len() - 1]);
        }
    }
}

} // verus!
