//! Framing of messages.
//!
//! A frame is a 4-byte big-endian length and as many bytes of payload.

use crate::buffer::{
    advance, be_bytes_i32, be_i32, byte_at, clear, freeze, i32_from_be_bytes, i32_to_be_bytes,
    law_be_i32, put_i32, put_slice, set_byte, split_to, with_capacity, written_len, Octets,
};
use crate::error::{KrafkaError, ProtocolErrorKind, Reason, Result};
use bytes::{Bytes, BytesMut};
use vstd::prelude::*;

verus! {

/// Maximum message size (default 100MB, configurable).
pub const MAX_MESSAGE_SIZE: usize = 104857600;

/// The frame of a payload.
pub open spec fn frame(payload: Seq<u8>) -> Seq<u8> {
    be_bytes_i32(payload.len() as i32) + payload
}

/// Encoder for Kafka protocol messages.
#[derive(Debug)]
pub struct Encoder {
    buffer: BytesMut,
}

impl View for Encoder {
    type V = Seq<u8>;

    closed spec fn view(&self) -> Seq<u8> {
        self.buffer@
    }
}

impl Default for Encoder {
    fn default() -> (r: Self)
        ensures
            r@ == Seq::<u8>::empty(),
    {
        Encoder { buffer: with_capacity(0) }
    }
}

impl Encoder {
    /// Create a new encoder.
    pub fn new() -> (r: Self)
        ensures
            r@ == Seq::<u8>::empty(),
    {
        Encoder { buffer: with_capacity(1024) }
    }

    /// Create a new encoder with a specific capacity.
    pub fn with_capacity(capacity: usize) -> (r: Self)
        requires
            capacity <= isize::MAX,
        ensures
            r@ == Seq::<u8>::empty(),
    {
        Encoder { buffer: with_capacity(capacity) }
    }

    /// Get mutable access to the underlying buffer.
    pub fn buffer_mut(&mut self) -> (r: &mut BytesMut)
        ensures
            (*r)@ == old(self)@,
            final(self)@ == final(r)@,
    {
        &mut self.buffer
    }

    /// Get read access to the underlying buffer.
    pub fn buffer(&self) -> (r: &BytesMut)
        ensures
            r@ == self@,
    {
        &self.buffer
    }

    /// Get the current length of the buffer.
    pub fn len(&self) -> (n: usize)
        ensures
            n == self@.len(),
    {
        written_len(&self.buffer)
    }

    /// Check if the buffer is empty.
    pub fn is_empty(&self) -> (r: bool)
        ensures
            r == (self@.len() == 0),
    {
        written_len(&self.buffer) == 0
    }

    /// Reset the buffer for reuse.
    pub fn reset(&mut self)
        ensures
            final(self)@ == Seq::<u8>::empty(),
    {
        clear(&mut self.buffer);
    }

    /// Start encoding a size-prefixed message.
    /// Returns the position where the size should be written.
    pub fn start_message(&mut self) -> (pos: usize)
        requires
            old(self)@.len() + 4 <= isize::MAX,
        ensures
            pos == old(self)@.len(),
            final(self)@ == old(self)@ + be_bytes_i32(0),
    {
        let pos = written_len(&self.buffer);
        put_i32(&mut self.buffer, 0);
        pos
    }

    /// Finish encoding a size-prefixed message.
    /// Updates the size at the given position.
    pub fn finish_message(&mut self, size_pos: usize) -> (res: Result<()>)
        requires
            size_pos + 4 <= old(self)@.len(),
        ensures
            ({
                let payload = old(self)@.skip(size_pos + 4);
                if payload.len() > i32::MAX {
                    &&& res == Err::<(), KrafkaError>(
                        KrafkaError::Protocol(
                            ProtocolErrorKind::Malformed,
                            Reason::Text("message size exceeds i32::MAX"),
                        ),
                    )
                    &&& final(self)@ == old(self)@
                } else {
                    &&& res == Ok::<(), KrafkaError>(())
                    &&& final(self)@ == old(self)@.take(size_pos as int) + frame(payload)
                }
            }),
    {
        let ghost before = self@;
        let size: usize = written_len(&self.buffer) - size_pos - 4;
        if size > i32::MAX as usize {
            return Err(KrafkaError::protocol("message size exceeds i32::MAX"));
        }
        let bytes = i32_to_be_bytes(size as i32);
        set_byte(&mut self.buffer, size_pos, bytes[0]);
        set_byte(&mut self.buffer, size_pos + 1, bytes[1]);
        set_byte(&mut self.buffer, size_pos + 2, bytes[2]);
        set_byte(&mut self.buffer, size_pos + 3, bytes[3]);
        assert(self@ =~= before.take(size_pos as int) + frame(before.skip(size_pos + 4)));
        Ok(())
    }

    /// Take the completed message as Bytes.
    pub fn take(&mut self) -> (r: Bytes)
        ensures
            r@ == old(self)@,
            final(self)@ == Seq::<u8>::empty(),
    {
        let n = written_len(&self.buffer);
        let front = split_to(&mut self.buffer, n);
        let bytes = freeze(front);
        assert(bytes@ =~= old(self)@);
        assert(self@ =~= Seq::<u8>::empty());
        bytes
    }
}

/// What stands at the front of a buffer of frames.
pub enum Front {
    /// More bytes are needed.
    Incomplete,
    /// A whole frame with its payload.
    Frame(Seq<u8>),
    /// A length that no frame can have.
    Invalid(KrafkaError),
}

/// What stands at the front of some bytes, where a frame may have `max_size` bytes
/// of payload.
pub open spec fn front(bytes: Seq<u8>, max_size: nat) -> Front {
    if bytes.len() < 4 {
        Front::Incomplete
    } else {
        let size = be_i32(bytes);
        if size < 0 {
            Front::Invalid(
                KrafkaError::Protocol(
                    ProtocolErrorKind::Malformed,
                    Reason::Number("negative message size: ", size as i64),
                ),
            )
        } else if size > max_size {
            Front::Invalid(
                KrafkaError::Protocol(
                    ProtocolErrorKind::Malformed,
                    Reason::Exceeds("message size", size as usize, max_size as usize),
                ),
            )
        } else if bytes.len() < 4 + size {
            Front::Incomplete
        } else {
            Front::Frame(bytes.subrange(4, 4 + size))
        }
    }
}

/// Decoder for Kafka protocol messages.
#[derive(Debug)]
pub struct Decoder {
    buffer: BytesMut,
    max_size: usize,
}

impl View for Decoder {
    type V = Seq<u8>;

    closed spec fn view(&self) -> Seq<u8> {
        self.buffer@
    }
}

impl Default for Decoder {
    fn default() -> (r: Self)
        ensures
            r@ == Seq::<u8>::empty(),
            r.limit() == 0,
    {
        Decoder { buffer: with_capacity(0), max_size: 0 }
    }
}

impl Decoder {
    /// The largest payload that the decoder accepts.
    pub closed spec fn limit(&self) -> nat {
        self.max_size as nat
    }

    /// Create a new decoder.
    pub fn new() -> (r: Self)
        ensures
            r@ == Seq::<u8>::empty(),
            r.limit() == MAX_MESSAGE_SIZE,
    {
        Decoder { buffer: with_capacity(8192), max_size: MAX_MESSAGE_SIZE }
    }

    /// Create a new decoder with a specific max message size.
    pub fn with_max_size(max_size: usize) -> (r: Self)
        ensures
            r@ == Seq::<u8>::empty(),
            r.limit() == max_size,
    {
        Decoder { buffer: with_capacity(8192), max_size }
    }

    /// Add data to the decoder buffer.
    pub fn extend(&mut self, data: &[u8])
        requires
            old(self)@.len() + data@.len() <= isize::MAX,
        ensures
            final(self)@ == old(self)@ + data@,
            final(self).limit() == old(self).limit(),
    {
        put_slice(&mut self.buffer, data);
    }

    /// Try to decode the next message.
    ///
    /// Returns:
    /// - `Ok(Some(bytes))` if a complete message is available
    /// - `Ok(None)` if more data is needed
    /// - `Err(...)` if the message is invalid
    pub fn decode(&mut self) -> (res: Result<Option<Bytes>>)
        ensures
            final(self).limit() == old(self).limit(),
            match front(old(self)@, old(self).limit()) {
                Front::Incomplete => res == Ok::<Option<Bytes>, KrafkaError>(None) && final(self)@
                    == old(self)@,
                Front::Frame(payload) => {
                    &&& res matches Ok(Some(message))
                    &&& message@ == payload
                    &&& final(self)@ == old(self)@.skip(4 + payload.len() as int)
                },
                Front::Invalid(e) => res == Err::<Option<Bytes>, KrafkaError>(e) && final(self)@
                    == old(self)@,
            },
    {
        let available = written_len(&self.buffer);
        if available < 4 {
            return Ok(None);
        }
        let prefix: [u8; 4] = [
            byte_at(&self.buffer, 0),
            byte_at(&self.buffer, 1),
            byte_at(&self.buffer, 2),
            byte_at(&self.buffer, 3),
        ];
        let size = i32_from_be_bytes(prefix);
        assert(size == be_i32(self@));
        if size < 0 {
            return Err(
                KrafkaError::Protocol(
                    ProtocolErrorKind::Malformed,
                    Reason::Number("negative message size: ", size as i64),
                ),
            );
        }
        let size = size as usize;
        if size > self.max_size {
            return Err(
                KrafkaError::Protocol(
                    ProtocolErrorKind::Malformed,
                    Reason::Exceeds("message size", size, self.max_size),
                ),
            );
        }
        if available - 4 < size {
            return Ok(None);
        }
        advance(&mut self.buffer, 4);
        let message = freeze(split_to(&mut self.buffer, size));
        assert(message@ =~= old(self)@.subrange(4, 4 + size as int));
        assert(self@ =~= old(self)@.skip(4 + size as int));
        Ok(Some(message))
    }

    /// Get the current buffer length.
    pub fn buffered(&self) -> (n: usize)
        ensures
            n == self@.len(),
    {
        written_len(&self.buffer)
    }

    /// Clear the decoder buffer.
    pub fn clear(&mut self)
        ensures
            final(self)@ == Seq::<u8>::empty(),
            final(self).limit() == old(self).limit(),
    {
        clear(&mut self.buffer);
    }
}

/// A frame at the front of the bytes is found whatever follows it.
pub proof fn law_frame_is_found(payload: Seq<u8>, rest: Seq<u8>, max_size: nat)
    requires
        payload.len() <= i32::MAX,
        payload.len() <= max_size,
    ensures
        front(frame(payload) + rest, max_size) == Front::Frame(payload),
        (frame(payload) + rest).skip(4 + payload.len() as int) == rest,
{
    let bytes = frame(payload) + rest;
    assert(bytes =~= be_bytes_i32(payload.len() as i32) + (payload + rest));
    law_be_i32(payload.len() as i32, payload + rest);
    assert(bytes.subrange(4, 4 + payload.len() as int) =~= payload);
    assert(bytes.skip(4 + payload.len() as int) =~= rest);
}

/// While the bytes of a frame arrive, more are asked for until all are there.
pub proof fn law_frame_needs_all_bytes(payload: Seq<u8>, arrived: nat, max_size: nat)
    requires
        payload.len() <= i32::MAX,
        payload.len() <= max_size,
        arrived < 4 + payload.len(),
    ensures
        front(frame(payload).take(arrived as int), max_size) == Front::Incomplete,
{
    if arrived >= 4 {
        let size = payload.len() as i32;
        let bytes = frame(payload).take(arrived as int);
        assert(bytes =~= be_bytes_i32(size) + payload.take(arrived - 4));
        law_be_i32(size, payload.take(arrived - 4));
    }
}

/// A length that is negative or more than a decoder accepts is refused as soon as its
/// four bytes are there, whatever follows.
pub proof fn law_bad_lengths_are_refused(size: i32, rest: Seq<u8>, max_size: nat)
    ensures
        size < 0 || size > max_size ==> front(be_bytes_i32(size) + rest, max_size) is Invalid,
        0 <= size <= max_size ==> !(front(be_bytes_i32(size) + rest, max_size) is Invalid),
        0 <= size <= max_size && rest.len() < size ==> front(
            be_bytes_i32(size) + rest,
            max_size,
        ) is Incomplete,
{
    law_be_i32(size, rest);
}

/// Bytes that arrive behind what is decided change nothing of it.
pub proof fn law_more_bytes_keep_the_front(bytes: Seq<u8>, more: Seq<u8>, max_size: nat)
    requires
        !(front(bytes, max_size) is Incomplete),
    ensures
        front(bytes + more, max_size) == front(bytes, max_size),
{
    let size = be_i32(bytes);
    assert(be_i32(bytes + more) == size);
    if 0 <= size <= max_size {
        assert((bytes + more).subrange(4, 4 + size) =~= bytes.subrange(4, 4 + size));
    }
}

/// What an encoder frames, a decoder takes out again: from the position where a
/// message was started, the finished bytes are the frame of what was written.
pub proof fn law_started_message_is_framed(before: Seq<u8>, payload: Seq<u8>, max_size: nat)
    requires
        payload.len() <= i32::MAX,
        payload.len() <= max_size,
    ensures
        ({
            let started = before + be_bytes_i32(0) + payload;
            let finished = started.take(before.len() as int) + frame(
                started.skip(before.len() as int + 4),
            );
            &&& finished == before + frame(payload)
            &&& front(finished.skip(before.len() as int), max_size) == Front::Frame(payload)
        }),
{
    let started = before + be_bytes_i32(0) + payload;
    assert(started.take(before.len() as int) =~= before);
    assert(started.skip(before.len() as int + 4) =~= payload);
    let finished = before + frame(payload);
    assert(finished.skip(before.len() as int) =~= frame(payload) + Seq::<u8>::empty());
    law_frame_is_found(payload, Seq::empty(), max_size);
}

/// The frames of payloads, one behind the other.
pub open spec fn frames(payloads: Seq<Seq<u8>>) -> Seq<u8>
    decreases payloads.len(),
{
    if payloads.len() == 0 {
        Seq::empty()
    } else {
        frames(payloads.drop_last()) + frame(payloads.last())
    }
}

/// What a decoder gives out, and how it is left.
pub struct Output {
    /// The payloads that came out.
    pub messages: Seq<Seq<u8>>,
    /// The bytes that are still buffered.
    pub left: Seq<u8>,
    /// The error that ended the decoding.
    pub failure: Option<KrafkaError>,
}

/// What comes out of a decoder that holds some bytes when [`Decoder::decode`] is
/// called until it gives out no more.
pub open spec fn drained(bytes: Seq<u8>, max_size: nat) -> Output
    decreases bytes.len(),
{
    match front(bytes, max_size) {
        Front::Incomplete => Output { messages: Seq::empty(), left: bytes, failure: None },
        Front::Invalid(e) => Output { messages: Seq::empty(), left: bytes, failure: Some(e) },
        Front::Frame(payload) => {
            let others = drained(bytes.skip(4 + payload.len() as int), max_size);
            Output {
                messages: seq![payload] + others.messages,
                left: others.left,
                failure: others.failure,
            }
        },
    }
}

/// What comes out of a decoder that holds some bytes when chunks are given to
/// [`Decoder::extend`] in turn, and after each of them [`Decoder::decode`] is called
/// until it gives out no more.
pub open spec fn streamed(held: Seq<u8>, chunks: Seq<Seq<u8>>, max_size: nat) -> Output
    decreases chunks.len(),
{
    if chunks.len() == 0 {
        Output { messages: Seq::empty(), left: held, failure: None }
    } else {
        let first = drained(held + chunks[0], max_size);
        if first.failure is Some {
            first
        } else {
            let others = streamed(first.left, chunks.drop_first(), max_size);
            Output {
                messages: first.messages + others.messages,
                left: others.left,
                failure: others.failure,
            }
        }
    }
}

/// Whether payloads fit into frames that a decoder accepts.
pub open spec fn accepted(payloads: Seq<Seq<u8>>, max_size: nat) -> bool {
    forall|i: int|
        0 <= i < payloads.len() ==> (#[trigger] payloads[i]).len() <= i32::MAX && payloads[i].len()
            <= max_size
}

/// The first frame stands in front of the others.
proof fn lemma_first_frame(payloads: Seq<Seq<u8>>)
    requires
        payloads.len() > 0,
    ensures
        frames(payloads) == frame(payloads[0]) + frames(payloads.drop_first()),
    decreases payloads.len(),
{
    if payloads.len() == 1 {
        assert(frames(payloads.drop_last()) =~= Seq::<u8>::empty());
        assert(frames(payloads.drop_first()) =~= Seq::<u8>::empty());
    } else {
        let others = payloads.drop_first();
        lemma_first_frame(payloads.drop_last());
        assert(payloads.drop_last().drop_first() =~= others.drop_last());
        assert(frames(payloads) =~= frame(payloads[0]) + (frames(others.drop_last()) + frame(
            others.last(),
        )));
    }
}

/// Where the front of a run of frames has arrived, the payloads come out whose
/// frames are complete, and the start of the next frame is kept.
proof fn lemma_drained(payloads: Seq<Seq<u8>>, bytes: Seq<u8>, coming: Seq<u8>, max_size: nat) -> (
    n: nat)
    requires
        accepted(payloads, max_size),
        bytes + coming == frames(payloads),
    ensures
        n <= payloads.len(),
        drained(bytes, max_size).messages == payloads.take(n as int),
        drained(bytes, max_size).failure is None,
        drained(bytes, max_size).left + coming == frames(payloads.skip(n as int)),
        front(drained(bytes, max_size).left, max_size) is Incomplete,
    decreases payloads.len(),
{
    if payloads.len() == 0 {
        assert(bytes.len() == 0);
        assert(payloads.take(0) =~= Seq::<Seq<u8>>::empty());
        assert(payloads.skip(0) =~= payloads);
        0
    } else {
        let payload = payloads[0];
        let others = payloads.drop_first();
        lemma_first_frame(payloads);
        if bytes.len() < frame(payload).len() {
            assert(bytes =~= (bytes + coming).take(bytes.len() as int));
            assert(bytes =~= frame(payload).take(bytes.len() as int));
            law_frame_needs_all_bytes(payload, bytes.len(), max_size);
            assert(payloads.take(0) =~= Seq::<Seq<u8>>::empty());
            assert(payloads.skip(0) =~= payloads);
            0
        } else {
            let rest = bytes.skip(frame(payload).len() as int);
            assert(rest + coming =~= (bytes + coming).skip(frame(payload).len() as int));
            assert(rest + coming =~= frames(others));
            assert(bytes =~= (bytes + coming).take(bytes.len() as int));
            assert(bytes =~= frame(payload) + rest);
            law_frame_is_found(payload, rest, max_size);
            let n = lemma_drained(others, rest, coming, max_size);
            assert(payloads.take(n as int + 1) =~= seq![payload] + others.take(n as int));
            assert(payloads.skip(n as int + 1) =~= others.skip(n as int));
            (n + 1) as nat
        }
    }
}

/// Where the start of a frame is held, the chunks that are still to come bring out
/// what is missing.
proof fn lemma_streamed(
    payloads: Seq<Seq<u8>>,
    held: Seq<u8>,
    chunks: Seq<Seq<u8>>,
    max_size: nat,
)
    requires
        accepted(payloads, max_size),
        held + chunks.flatten() == frames(payloads),
        front(held, max_size) is Incomplete,
    ensures
        streamed(held, chunks, max_size) == (Output {
            messages: payloads,
            left: Seq::empty(),
            failure: None,
        }),
    decreases chunks.len(),
{
    if chunks.len() == 0 {
        assert(held + chunks.flatten() =~= held);
        if payloads.len() > 0 {
            lemma_first_frame(payloads);
            law_frame_is_found(payloads[0], frames(payloads.drop_first()), max_size);
        }
        assert(payloads =~= Seq::<Seq<u8>>::empty());
    } else {
        let coming = chunks.drop_first().flatten();
        let bytes = held + chunks[0];
        assert(bytes + coming =~= held + chunks.flatten());
        let n = lemma_drained(payloads, bytes, coming, max_size);
        lemma_streamed(
            payloads.skip(n as int),
            drained(bytes, max_size).left,
            chunks.drop_first(),
            max_size,
        );
        assert(payloads =~= payloads.take(n as int) + payloads.skip(n as int));
    }
}

/// Messages that are written one after the other stand in the encoder as their
/// frames.
pub proof fn law_messages_are_framed_in_turn(payloads: Seq<Seq<u8>>, payload: Seq<u8>)
    ensures
        ({
            let before = frames(payloads);
            let started = before + be_bytes_i32(0) + payload;
            started.take(before.len() as int) + frame(started.skip(before.len() as int + 4))
                == frames(payloads.push(payload))
        }),
{
    let before = frames(payloads);
    let started = before + be_bytes_i32(0) + payload;
    assert(started.take(before.len() as int) =~= before);
    assert(started.skip(before.len() as int + 4) =~= payload);
    assert(payloads.push(payload).drop_last() =~= payloads);
}

/// Frames come out of a decoder as their payloads, in order, in whatever chunks
/// their bytes arrive; no error is met, and nothing is left.
pub proof fn law_chunks_do_not_matter(
    payloads: Seq<Seq<u8>>,
    chunks: Seq<Seq<u8>>,
    max_size: nat,
)
    requires
        accepted(payloads, max_size),
        chunks.flatten() == frames(payloads),
    ensures
        streamed(Seq::empty(), chunks, max_size) == (Output {
            messages: payloads,
            left: Seq::empty(),
            failure: None,
        }),
{
    assert(Seq::<u8>::empty() + chunks.flatten() =~= chunks.flatten());
    lemma_streamed(payloads, Seq::empty(), chunks, max_size);
}

} // verus!
