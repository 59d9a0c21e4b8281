//! Length-prefixed framing: a 4-byte big-endian length, then that many bytes
//! of encoded envelope.
use vstd::prelude::*;
use crate::cbor::{be_value, head_bytes, DecodeError};
use crate::codec::{decode_envelope, encode_envelope, spec_decode_envelope, spec_encode_envelope, Payload};
use crate::protocol::Envelope;

verus! {

/// Largest body a frame may announce: 16 MiB.
pub const MAX_MESSAGE_SIZE: usize = 16 * 1024 * 1024;

/// Number of bytes in the length prefix.
pub const PREFIX_LEN: usize = 4;

/// Why a frame cannot be read or written.
#[derive(Debug, Clone, Copy, PartialEq, Eq, Structural)]
pub enum FrameError {
    /// The prefix announces more than `MAX_MESSAGE_SIZE` bytes.
    FrameTooLarge { length: u32 },
    /// A body too long for a 32-bit length prefix.
    BodyTooLong,
    /// The body is not the encoding of an envelope.
    Decode(DecodeError),
}

/// Big-endian bytes of a 32-bit length.
pub open spec fn be32(n: u32) -> Seq<u8> {
    seq![
        (n / 0x100_0000) as u8,
        ((n / 0x1_0000) % 256) as u8,
        ((n / 256) % 256) as u8,
        (n % 256) as u8,
    ]
}

/// A frame that carries `body`.
pub open spec fn spec_frame(body: Seq<u8>) -> Seq<u8> {
    be32(body.len() as u32) + body
}

/// Result of reading a length prefix.
pub open spec fn spec_frame_length(prefix: Seq<u8>) -> Result<usize, FrameError> {
    if be_value(prefix) > MAX_MESSAGE_SIZE {
        Err(FrameError::FrameTooLarge { length: be_value(prefix) as u32 })
    } else {
        Ok(be_value(prefix) as usize)
    }
}

proof fn lemma_be_value_4(s: Seq<u8>)
    requires
        s.len() == 4,
    ensures
        be_value(s) == s[0] as int * 0x100_0000 + s[1] as int * 0x1_0000 + s[2] as int * 256 + s[3] as int,
{
    let d3 = s.drop_last();
    let d2 = d3.drop_last();
    let d1 = d2.drop_last();
    assert(d1.drop_last() =~= Seq::<u8>::empty());
    assert(be_value(Seq::<u8>::empty()) == 0);
    assert(be_value(d1) == s[0]);
    assert(be_value(d2) == s[0] as int * 256 + s[1]);
    assert(be_value(d3) == s[0] as int * 0x1_0000 + s[1] as int * 256 + s[2]);
}

proof fn lemma_be32_value(n: u32)
    ensures
        be_value(be32(n)) == n,
{
    lemma_be_value_4(be32(n));
}

/// Reads a length prefix. A length over `MAX_MESSAGE_SIZE` is refused before
/// any byte of the body is needed.
pub fn frame_length(prefix: [u8; 4]) -> (r: Result<usize, FrameError>)
    ensures
        r == spec_frame_length(prefix@),
        r matches Ok(n) ==> n <= MAX_MESSAGE_SIZE,
{
    proof {
        lemma_be_value_4(prefix@);
    }
    let n: u64 = prefix[0] as u64 * 0x100_0000 + prefix[1] as u64 * 0x1_0000 + prefix[2] as u64 * 256
        + prefix[3] as u64;
    if n > MAX_MESSAGE_SIZE as u64 {
        Err(FrameError::FrameTooLarge { length: n as u32 })
    } else {
        Ok(n as usize)
    }
}

/// Prefixes `body` with its length.
pub fn frame_bytes(body: &[u8]) -> (r: Result<Vec<u8>, FrameError>)
    ensures
        body@.len() > u32::MAX ==> r == Err::<Vec<u8>, FrameError>(FrameError::BodyTooLong),
        body@.len() <= u32::MAX ==> (r matches Ok(v) && v@ == spec_frame(body@)),
{
    if body.len() > u32::MAX as usize {
        return Err(FrameError::BodyTooLong);
    }
    let n = body.len() as u32;
    let mut out: Vec<u8> = Vec::new();
    out.push((n / 0x100_0000) as u8);
    out.push(((n / 0x1_0000) % 256) as u8);
    out.push(((n / 256) % 256) as u8);
    out.push((n % 256) as u8);
    let mut i: usize = 0;
    while i < body.len()
        invariant
            i <= body@.len(),
            out@ == be32(n) + body@.subrange(0, i as int),
        decreases body@.len() - i,
    {
        out.push(body[i]);
        i = i + 1;
        assert(out@ =~= be32(n) + body@.subrange(0, i as int));
    }
    assert(body@.subrange(0, i as int) =~= body@);
    Ok(out)
}

/// Encodes an envelope and frames it.
pub fn encode_frame<T: Payload>(e: &Envelope<T>) -> (r: Vec<u8>)
    ensures
        r@ == spec_frame(spec_encode_envelope(*e)),
{
    let body = encode_envelope(e);
    assert(body@.len() <= 25);
    match frame_bytes(body.as_slice()) {
        Ok(v) => v,
        Err(_) => Vec::new(),
    }
}

/// Decodes the body of a frame.
pub fn decode_frame_body<T: Payload>(body: &[u8]) -> (r: Result<Envelope<T>, FrameError>)
    ensures
        r == match spec_decode_envelope::<T>(body@) {
            Ok(e) => Ok::<Envelope<T>, FrameError>(e),
            Err(d) => Err(FrameError::Decode(d)),
        },
{
    match decode_envelope::<T>(body) {
        Ok(e) => Ok(e),
        Err(d) => Err(FrameError::Decode(d)),
    }
}

/// The prefix of a frame announces the length of its body.
pub proof fn lemma_frame_length_round_trip(body: Seq<u8>)
    requires
        body.len() <= MAX_MESSAGE_SIZE,
    ensures
        spec_frame_length(spec_frame(body).subrange(0, 4)) == Ok::<usize, FrameError>(body.len() as usize),
        spec_frame(body).subrange(4, spec_frame(body).len() as int) == body,
{
    let f = spec_frame(body);
    assert(f.subrange(0, 4) =~= be32(body.len() as u32));
    lemma_be32_value(body.len() as u32);
    assert(f.subrange(4, f.len() as int) =~= body);
}

} // verus!
