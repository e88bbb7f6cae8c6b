//! Streaming codec for the discovery protocol's length-delimited frames.
//!
//! A frame is a nine-byte header followed by the body bytes: component
//! (16 bits), command (16 bits), a message-type byte, and the body length
//! (32 bits), all big-endian. Decoding returns a packet only once a whole
//! frame is buffered and consumes nothing otherwise, so reads may arrive
//! split at arbitrary byte boundaries.

use vstd::prelude::*;

verus! {

/// Number of bytes in an encoded frame header.
pub const FRAME_HEADER_LEN: usize = 9;

/// Hard cap on the byte length of a frame body; a header announcing more
/// is treated as malformed rather than waited for.
pub const MAX_BODY_LEN: u32 = 0xFF_FFFF;

/// Frame header: which service and operation the frame addresses, plus a
/// message-type byte distinguishing requests from responses.
#[derive(Clone, Copy, PartialEq, Eq, Structural, Debug)]
pub struct PacketHeader {
    pub component: u16,
    pub command: u16,
    pub ty: u8,
}

/// One decoded frame: header plus opaque body bytes.
#[derive(Debug)]
pub struct Packet {
    pub header: PacketHeader,
    pub body: Vec<u8>,
}

/// Mathematical model of a packet: the header fields and the body as a
/// byte sequence.
pub struct FrameModel {
    pub header: PacketHeader,
    pub body: Seq<u8>,
}

impl View for Packet {
    type V = FrameModel;

    open spec fn view(&self) -> FrameModel {
        FrameModel { header: self.header, body: self.body@ }
    }
}

/// A frame that the codec can represent on the wire.
pub open spec fn valid_frame(m: FrameModel) -> bool {
    m.body.len() <= MAX_BODY_LEN
}

/// Big-endian byte pair of a 16-bit value.
pub open spec fn u16_be(x: u16) -> Seq<u8> {
    seq![(x >> 8) as u8, x as u8]
}

/// Big-endian bytes of a 32-bit value.
pub open spec fn u32_be(x: u32) -> Seq<u8> {
    seq![(x >> 24) as u8, (x >> 16) as u8, (x >> 8) as u8, x as u8]
}

/// 16-bit value read from two big-endian bytes.
pub open spec fn be16(b0: u8, b1: u8) -> u16 {
    ((b0 as u16) << 8) | (b1 as u16)
}

/// 32-bit value read from four big-endian bytes.
pub open spec fn be32(b0: u8, b1: u8, b2: u8, b3: u8) -> u32 {
    ((b0 as u32) << 24) | ((b1 as u32) << 16) | ((b2 as u32) << 8) | (b3 as u32)
}

/// The nine header bytes of a frame.
pub open spec fn spec_header_bytes(m: FrameModel) -> Seq<u8> {
    u16_be(m.header.component) + u16_be(m.header.command) + seq![m.header.ty]
        + u32_be(m.body.len() as u32)
}

/// The full wire encoding of a frame: header bytes then body bytes.
pub open spec fn spec_encode(m: FrameModel) -> Seq<u8> {
    spec_header_bytes(m) + m.body
}

/// Body length announced by a buffered header.
pub open spec fn spec_body_len(b: Seq<u8>) -> u32 {
    be32(b[5], b[6], b[7], b[8])
}

/// What a decode attempt on a buffer yields: nothing yet, a framing
/// fault, or one frame together with the number of bytes it occupies.
pub enum SpecDecodeResult {
    Incomplete,
    Malformed,
    Decoded(FrameModel, int),
}

/// Decoding a buffer: a frame is produced exactly when a well-sized
/// header and its whole body are present; a header announcing a body
/// over the cap is malformed; anything shorter is incomplete.
pub open spec fn spec_decode(b: Seq<u8>) -> SpecDecodeResult {
    if b.len() < FRAME_HEADER_LEN {
        SpecDecodeResult::Incomplete
    } else if spec_body_len(b) > MAX_BODY_LEN {
        SpecDecodeResult::Malformed
    } else if b.len() < FRAME_HEADER_LEN + spec_body_len(b) {
        SpecDecodeResult::Incomplete
    } else {
        SpecDecodeResult::Decoded(
            FrameModel {
                header: PacketHeader {
                    component: be16(b[0], b[1]),
                    command: be16(b[2], b[3]),
                    ty: b[4],
                },
                body: b.subrange(
                    FRAME_HEADER_LEN as int,
                    FRAME_HEADER_LEN + spec_body_len(b),
                ),
            },
            FRAME_HEADER_LEN + spec_body_len(b),
        )
    }
}

/// Connection-scoped framing fault: a header announced a body longer
/// than the hard cap, or a body's field run could not be read through.
#[derive(Clone, Copy, PartialEq, Eq, Structural, Debug)]
pub enum FramingError {
    OversizedFrame,
    MalformedBody,
}

/// Encodes one packet to its wire bytes.
pub fn encode(p: &Packet) -> (r: Vec<u8>)
    requires
        valid_frame(p@),
    ensures
        r@ == spec_encode(p@),
{
    let mut out: Vec<u8> = Vec::new();
    out.push((p.header.component >> 8) as u8);
    out.push(p.header.component as u8);
    out.push((p.header.command >> 8) as u8);
    out.push(p.header.command as u8);
    out.push(p.header.ty);
    let len: u32 = p.body.len() as u32;
    out.push((len >> 24) as u8);
    out.push((len >> 16) as u8);
    out.push((len >> 8) as u8);
    out.push(len as u8);
    assert(out@ =~= spec_header_bytes(p@));
    let mut i: usize = 0;
    while i < p.body.len()
        invariant
            i <= p.body.len(),
            out@ == spec_header_bytes(p@) + p.body@.take(i as int),
        decreases p.body.len() - i,
    {
        out.push(p.body[i]);
        i = i + 1;
        assert(out@ =~= spec_header_bytes(p@) + p.body@.take(i as int));
    }
    assert(out@ =~= spec_encode(p@));
    out
}

/// Attempts to decode one frame from the front of `buf`. Returns the
/// decoded packet and the number of bytes it occupied, or `None` with
/// zero bytes consumed while the frame is still incomplete.
pub fn decode(buf: &Vec<u8>) -> (r: Result<(Option<Packet>, usize), FramingError>)
    ensures
        match r {
            Ok(pair) => match pair.1 {
                0 => pair.0 is None && spec_decode(buf@) is Incomplete,
                _ => {
                    &&& pair.0 is Some
                    &&& spec_decode(buf@) == SpecDecodeResult::Decoded(
                        pair.0->Some_0@,
                        pair.1 as int,
                    )
                    &&& valid_frame(pair.0->Some_0@)
                },
            },
            Err(e) => spec_decode(buf@) is Malformed && e == FramingError::OversizedFrame,
        },
{
    if buf.len() < FRAME_HEADER_LEN {
        return Ok((None, 0));
    }
    let body_len: u32 = ((buf[5] as u32) << 24) | ((buf[6] as u32) << 16)
        | ((buf[7] as u32) << 8) | (buf[8] as u32);
    if body_len > MAX_BODY_LEN {
        return Err(FramingError::OversizedFrame);
    }
    let total: usize = FRAME_HEADER_LEN + body_len as usize;
    if buf.len() < total {
        return Ok((None, 0));
    }
    let component: u16 = ((buf[0] as u16) << 8) | (buf[1] as u16);
    let command: u16 = ((buf[2] as u16) << 8) | (buf[3] as u16);
    let ty: u8 = buf[4];
    let mut body: Vec<u8> = Vec::new();
    let mut i: usize = FRAME_HEADER_LEN;
    while i < total
        invariant
            FRAME_HEADER_LEN <= i <= total,
            total <= buf.len(),
            body@ == buf@.subrange(FRAME_HEADER_LEN as int, i as int),
        decreases total - i,
    {
        body.push(buf[i]);
        i = i + 1;
        assert(body@ =~= buf@.subrange(FRAME_HEADER_LEN as int, i as int));
    }
    let packet = Packet { header: PacketHeader { component, command, ty }, body };
    Ok((Some(packet), total))
}

/// Streaming decoder state: the bytes received and not yet consumed.
/// Reads of any size are fed in as they arrive; a packet comes out
/// exactly when its whole frame is buffered.
#[derive(Debug)]
pub struct PacketCodec {
    buffer: Vec<u8>,
}

impl View for PacketCodec {
    type V = Seq<u8>;

    closed spec fn view(&self) -> Seq<u8> {
        self.buffer@
    }
}

impl PacketCodec {
    /// A decoder with nothing buffered.
    pub fn new() -> (r: PacketCodec)
        ensures
            r@ == Seq::<u8>::empty(),
    {
        PacketCodec { buffer: Vec::new() }
    }

    /// Buffers one received chunk, of any size, after what is already
    /// held.
    pub fn feed(&mut self, chunk: &[u8])
        ensures
            final(self)@ == old(self)@ + chunk@,
    {
        let mut i: usize = 0;
        while i < chunk.len()
            invariant
                i <= chunk.len(),
                self.buffer@ == old(self)@ + chunk@.take(i as int),
            decreases chunk.len() - i,
        {
            self.buffer.push(chunk[i]);
            i = i + 1;
            assert(self.buffer@ =~= old(self)@ + chunk@.take(i as int));
        }
        assert(self.buffer@ =~= old(self)@ + chunk@);
    }

    /// Takes the next whole frame off the front of the buffer, if one
    /// is there: exactly its bytes are consumed, and nothing at all
    /// while the frame is still incomplete.
    pub fn next_frame(&mut self) -> (r: Result<Option<Packet>, FramingError>)
        ensures
            match r {
                Ok(opt) => match opt {
                    None => {
                        &&& spec_decode(old(self)@) is Incomplete
                        &&& final(self)@ == old(self)@
                    },
                    Some(p) => {
                        &&& (spec_decode(old(self)@) matches SpecDecodeResult::Decoded(m, n)
                            && p@ == m && final(self)@ == old(self)@.skip(n))
                        &&& valid_frame(p@)
                    },
                },
                Err(e) => {
                    &&& spec_decode(old(self)@) is Malformed
                    &&& e == FramingError::OversizedFrame
                    &&& final(self)@ == old(self)@
                },
            },
    {
        let (packet, used) = match decode(&self.buffer) {
            Ok(pair) => pair,
            Err(e) => {
                return Err(e);
            }
        };
        if used == 0 {
            return Ok(None);
        }
        let mut rest: Vec<u8> = Vec::new();
        let mut i: usize = used;
        while i < self.buffer.len()
            invariant
                used <= i <= self.buffer@.len(),
                self.buffer@ == old(self)@,
                rest@ == self.buffer@.subrange(used as int, i as int),
            decreases self.buffer.len() - i,
        {
            rest.push(self.buffer[i]);
            i = i + 1;
            assert(rest@ =~= self.buffer@.subrange(used as int, i as int));
        }
        assert(rest@ =~= old(self)@.skip(used as int));
        self.buffer = rest;
        Ok(packet)
    }
}

/// Splitting a 16-bit value into big-endian bytes and reading it back
/// recovers the value.
pub proof fn lemma_be16_round_trip(x: u16)
    ensures
        be16((x >> 8) as u8, x as u8) == x,
{
    assert(((((x >> 8) as u8) as u16) << 8) | ((x as u8) as u16) == x) by (bit_vector);
}

/// Splitting a 32-bit value into big-endian bytes and reading it back
/// recovers the value.
pub proof fn lemma_be32_round_trip(x: u32)
    ensures
        be32((x >> 24) as u8, (x >> 16) as u8, (x >> 8) as u8, x as u8) == x,
{
    assert(((((x >> 24) as u8) as u32) << 24) | ((((x >> 16) as u8) as u32) << 16)
        | ((((x >> 8) as u8) as u32) << 8) | ((x as u8) as u32) == x) by (bit_vector);
}

/// Round-trip law: decoding the encoding of any valid frame yields that
/// frame back, exactly — header fields and body bytes — and consumes
/// precisely the encoded length.
pub proof fn lemma_decode_encode(m: FrameModel)
    requires
        valid_frame(m),
    ensures
        spec_decode(spec_encode(m)) == SpecDecodeResult::Decoded(m, spec_encode(m).len() as int),
{
    let b = spec_encode(m);
    let len32 = m.body.len() as u32;
    assert(b.len() == FRAME_HEADER_LEN + m.body.len());
    assert(b[0] == (m.header.component >> 8) as u8);
    assert(b[1] == m.header.component as u8);
    assert(b[2] == (m.header.command >> 8) as u8);
    assert(b[3] == m.header.command as u8);
    assert(b[4] == m.header.ty);
    assert(b[5] == (len32 >> 24) as u8);
    assert(b[6] == (len32 >> 16) as u8);
    assert(b[7] == (len32 >> 8) as u8);
    assert(b[8] == len32 as u8);
    lemma_be16_round_trip(m.header.component);
    lemma_be16_round_trip(m.header.command);
    lemma_be32_round_trip(len32);
    assert(spec_body_len(b) == m.body.len());
    assert(b.subrange(FRAME_HEADER_LEN as int, b.len() as int) =~= m.body);
    let decoded = spec_decode(b);
    assert(decoded is Decoded);
    assert(decoded->Decoded_0.body =~= m.body);
    assert(decoded->Decoded_0 == m);
}

/// Streaming law: every strict prefix of an encoded frame decodes to
/// "incomplete" — no bytes consumed, no error — so a frame split at any
/// byte boundary across successive reads is decoded exactly once, when
/// its final byte arrives.
pub proof fn lemma_prefix_incomplete(m: FrameModel, i: int)
    requires
        valid_frame(m),
        0 <= i < spec_encode(m).len(),
    ensures
        spec_decode(spec_encode(m).take(i)) is Incomplete,
{
    let b = spec_encode(m);
    let p = b.take(i);
    if i >= FRAME_HEADER_LEN {
        let len32 = m.body.len() as u32;
        assert(p[5] == (len32 >> 24) as u8);
        assert(p[6] == (len32 >> 16) as u8);
        assert(p[7] == (len32 >> 8) as u8);
        assert(p[8] == len32 as u8);
        lemma_be32_round_trip(len32);
        assert(spec_body_len(p) == m.body.len());
    }
}

/// Combined split-feed law: cut the encoding of a valid frame at any
/// point; the first piece alone decodes to "incomplete" with nothing
/// consumed, and the two pieces rejoined decode to exactly the original
/// frame. This is why a reader that buffers unconsumed bytes sees each
/// frame exactly once however the transport fragments it.
pub proof fn lemma_split_feed(m: FrameModel, i: int)
    requires
        valid_frame(m),
        0 <= i < spec_encode(m).len(),
    ensures
        spec_decode(spec_encode(m).take(i)) is Incomplete,
        spec_encode(m).take(i) + spec_encode(m).skip(i) == spec_encode(m),
        spec_decode(spec_encode(m)) == SpecDecodeResult::Decoded(m, spec_encode(m).len() as int),
{
    lemma_prefix_incomplete(m, i);
    lemma_decode_encode(m);
    assert(spec_encode(m).take(i) + spec_encode(m).skip(i) =~= spec_encode(m));
}

} // verus!
