//! The Generic Wire Codec: a schema-agnostic encoder and decoder that move an
//! opaque, pre-serialized message body in and out of the wire framing used for
//! unary calls — a one-byte uncompressed marker, a four-byte big-endian body
//! length, then the body itself. The codec never inspects what the bytes mean;
//! interpreting them is the business of whoever produced or asserts on them.

use vstd::prelude::*;

use crate::status::StatusCode;

verus! {

/// Why a buffer handed to the decoder was rejected: it can never become a
/// single well-formed frame, whatever bytes might still arrive.
#[derive(Clone, Copy, Debug, PartialEq, Eq, Structural)]
pub enum DecodeError {
    Malformed,
}

/// The four big-endian bytes of a 32-bit body length.
pub open spec fn spec_len_bytes(n: u32) -> Seq<u8> {
    seq![(n >> 24) as u8, (n >> 16) as u8, (n >> 8) as u8, n as u8]
}

/// The 32-bit value read back from four big-endian bytes.
pub open spec fn spec_len_value(b0: u8, b1: u8, b2: u8, b3: u8) -> u32 {
    (((b0 as u32) << 24) | ((b1 as u32) << 16) | ((b2 as u32) << 8) | (b3 as u32)) as u32
}

/// The framed representation of an opaque message body.
pub open spec fn spec_frame(body: Seq<u8>) -> Seq<u8>
    recommends
        body.len() <= u32::MAX,
{
    seq![0u8] + spec_len_bytes(body.len() as u32) + body
}

/// The body length a buffer with a complete five-byte prefix declares.
pub open spec fn spec_declared_len(buf: Seq<u8>) -> u32
    recommends
        buf.len() >= 5,
{
    spec_len_value(buf[1], buf[2], buf[3], buf[4])
}

/// The buffer is exactly one well-formed frame.
pub open spec fn spec_is_frame(buf: Seq<u8>) -> bool {
    &&& buf.len() >= 5
    &&& buf[0] == 0u8
    &&& buf.len() == 5 + spec_declared_len(buf)
}

/// The buffer is not yet a frame, but more bytes could still complete one:
/// the prefix is short, or fewer bytes follow it than it declares.
pub open spec fn spec_is_incomplete(buf: Seq<u8>) -> bool {
    ||| buf.len() < 5
    ||| (buf[0] == 0u8 && buf.len() < 5 + spec_declared_len(buf))
}

/// No further bytes can turn the buffer into exactly one frame: its
/// compression marker is not the uncompressed one, or it already holds more
/// bytes than the single frame its prefix declares.
pub open spec fn spec_is_malformed(buf: Seq<u8>) -> bool {
    ||| (buf.len() >= 5 && buf[0] != 0u8)
    ||| (buf.len() >= 5 && buf[0] == 0u8 && buf.len() > 5 + spec_declared_len(buf))
}

/// The body carried by a well-formed frame.
pub open spec fn spec_frame_body(buf: Seq<u8>) -> Seq<u8>
    recommends
        buf.len() >= 5,
{
    buf.subrange(5, buf.len() as int)
}

/// An encoder for opaque, pre-serialized message bodies. It holds only a
/// scratch buffer; framing a body cannot fail, so the encode-failure case of
/// the protocol taxonomy is unreachable from verified callers.
#[derive(Debug, Clone)]
pub struct GenericProstEncoder(Vec<u8>);

impl GenericProstEncoder {
    /// A fresh encoder with an empty scratch buffer.
    pub fn new() -> (e: GenericProstEncoder) {
        GenericProstEncoder(Vec::new())
    }

    /// Append the framed representation of `item` to `buf`, exactly: the
    /// uncompressed marker, four big-endian length bytes, then `item`
    /// unchanged. The body length must fit the four-byte length field.
    pub fn encode(&mut self, item: Vec<u8>, buf: &mut Vec<u8>)
        requires
            item@.len() <= u32::MAX,
        ensures
            final(buf)@ == old(buf)@ + spec_frame(item@),
            *final(self) == *old(self),
    {
        let n: u32 = item.len() as u32;
        buf.push(0u8);
        buf.push((n >> 24) as u8);
        buf.push((n >> 16) as u8);
        buf.push((n >> 8) as u8);
        buf.push(n as u8);
        let mut i: usize = 0;
        while i < item.len()
            invariant
                i <= item@.len(),
                n == item@.len(),
                buf@ == old(buf)@ + seq![0u8] + spec_len_bytes(n) + item@.subrange(0, i as int),
            decreases item@.len() - i,
        {
            buf.push(item[i]);
            assert(buf@ == old(buf)@ + seq![0u8] + spec_len_bytes(n) + item@.subrange(
                0,
                (i + 1) as int,
            )) by {
                assert(item@.subrange(0, (i + 1) as int) =~= item@.subrange(0, i as int) + seq![
                    item@[i as int],
                ]);
            }
            i += 1;
        }
        proof {
            assert(item@.subrange(0, item@.len() as int) =~= item@);
        }
    }
}

impl Default for GenericProstEncoder {
    /// Same as a fresh encoder.
    fn default() -> (e: GenericProstEncoder) {
        GenericProstEncoder(Vec::new())
    }
}

/// A decoder that strips the wire framing from an inbound buffer and yields
/// the raw message body, never interpreting it.
#[derive(Debug, Clone)]
pub struct GenericProstDecoder;

impl GenericProstDecoder {
    /// A fresh decoder; it carries no state.
    pub fn new() -> (d: GenericProstDecoder) {
        GenericProstDecoder
    }

    /// Strip the framing from `buf`: yield the body of the one frame `buf`
    /// holds exactly, report an incomplete buffer as wanting more bytes, and
    /// reject a buffer that no suffix of further bytes could make a frame.
    pub fn decode(&mut self, buf: &Vec<u8>) -> (r: Result<Option<Vec<u8>>, DecodeError>)
        ensures
            match r {
                Ok(body_opt) => match body_opt {
                    Some(body) => spec_is_frame(buf@) && body@ == spec_frame_body(buf@),
                    None => spec_is_incomplete(buf@),
                },
                Err(e) => e == DecodeError::Malformed && spec_is_malformed(buf@),
            },
            *final(self) == *old(self),
    {
        if buf.len() < 5 {
            return Ok(None);
        }
        if buf[0] != 0u8 {
            return Err(DecodeError::Malformed);
        }
        let declared: u32 = len_value(buf[1], buf[2], buf[3], buf[4]);
        let rest: usize = buf.len() - 5;
        if rest < declared as usize {
            return Ok(None);
        }
        if rest > declared as usize {
            return Err(DecodeError::Malformed);
        }
        let mut body: Vec<u8> = Vec::new();
        let mut i: usize = 5;
        while i < buf.len()
            invariant
                5 <= i <= buf@.len(),
                body@ == buf@.subrange(5, i as int),
            decreases buf@.len() - i,
        {
            body.push(buf[i]);
            assert(body@ =~= buf@.subrange(5, (i + 1) as int));
            i += 1;
        }
        assert(body@ =~= spec_frame_body(buf@));
        Ok(Some(body))
    }
}

impl Default for GenericProstDecoder {
    /// Same as a fresh decoder.
    fn default() -> (d: GenericProstDecoder) {
        GenericProstDecoder
    }
}

/// The 32-bit body length read from the four big-endian bytes of a frame
/// prefix.
fn len_value(b0: u8, b1: u8, b2: u8, b3: u8) -> (n: u32)
    ensures
        n == spec_len_value(b0, b1, b2, b3),
{
    ((b0 as u32) << 24u32) | ((b1 as u32) << 16u32) | ((b2 as u32) << 8u32) | (b3 as u32)
}

/// Map a wire-framing parse failure on an inbound message to the internal
/// protocol status, following the usual RPC convention that a payload that
/// cannot be parsed is the callee's internal error.
pub fn from_decode_error(e: DecodeError) -> (s: StatusCode)
    ensures
        s == StatusCode::Internal,
{
    match e {
        DecodeError::Malformed => StatusCode::Internal,
    }
}

/// Framing round trip: the frame of a body is itself a single well-formed
/// frame, and stripping its framing yields the original body unchanged.
pub proof fn lemma_frame_round_trip(body: Seq<u8>)
    requires
        body.len() <= u32::MAX,
    ensures
        spec_is_frame(spec_frame(body)),
        spec_frame_body(spec_frame(body)) == body,
{
    let n = body.len() as u32;
    let f = spec_frame(body);
    assert(f[0] == 0u8);
    assert(f[1] == (n >> 24) as u8);
    assert(f[2] == (n >> 16) as u8);
    assert(f[3] == (n >> 8) as u8);
    assert(f[4] == n as u8);
    assert(spec_len_value((n >> 24) as u8, (n >> 16) as u8, (n >> 8) as u8, n as u8) == n)
        by (bit_vector);
    assert(spec_frame_body(f) =~= body);
}

/// Every buffer falls under exactly one decoder outcome: a well-formed frame,
/// an incomplete prefix of one, or a malformed buffer. With the decoder's
/// contract this pins each outcome down to exactly the buffers it names.
pub proof fn lemma_decode_outcomes_partition(buf: Seq<u8>)
    ensures
        spec_is_frame(buf) || spec_is_incomplete(buf) || spec_is_malformed(buf),
        !(spec_is_frame(buf) && spec_is_incomplete(buf)),
        !(spec_is_frame(buf) && spec_is_malformed(buf)),
        !(spec_is_incomplete(buf) && spec_is_malformed(buf)),
{
}

} // verus!
