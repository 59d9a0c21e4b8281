//! Deterministic binary encoding of envelopes and payloads:
//! `[version, message_id, [tag, ...fields]]`, every array of definite length.
use vstd::prelude::*;
use crate::cbor::{
    head_bytes, lemma_definite_at, lemma_split_at, read_definite, spec_definite, write_head, DecodeError,
    MAJOR_ARRAY, MAJOR_UNSIGNED,
};
use crate::protocol::{ClientMessage, Envelope, MessageId, ServerMessage, Version};

verus! {

/// Number of elements in the array of every payload variant: the tag alone.
pub const PAYLOAD_ARITY: u32 = 1;

/// Number of elements in the array of an envelope.
pub const ENVELOPE_ARITY: u32 = 3;

/// Tag of `ClientMessage::Heartbeat`.
pub const CLIENT_HEARTBEAT: u32 = 0;

/// Tag of `ServerMessage::HeartbeatAck`.
pub const SERVER_HEARTBEAT_ACK: u32 = 1;

/// A payload union whose variants are told apart by a small integer tag.
pub trait Payload: Sized {
    /// The tag of this variant.
    spec fn spec_tag(self) -> u32;

    /// The variant that carries the given tag, if any.
    spec fn spec_from_tag(tag: u64) -> Option<Self>;

    proof fn lemma_tag_round_trip(self)
        ensures
            Self::spec_from_tag(self.spec_tag() as u64) == Some(self),
    ;

    fn tag(&self) -> (r: u32)
        ensures
            r == self.spec_tag(),
    ;

    fn from_tag(tag: u64) -> (r: Option<Self>)
        ensures
            r == Self::spec_from_tag(tag),
    ;
}

impl Payload for ClientMessage {
    open spec fn spec_tag(self) -> u32 {
        match self {
            ClientMessage::Heartbeat => CLIENT_HEARTBEAT,
        }
    }

    open spec fn spec_from_tag(tag: u64) -> Option<Self> {
        if tag == CLIENT_HEARTBEAT as u64 {
            Some(ClientMessage::Heartbeat)
        } else {
            None
        }
    }

    proof fn lemma_tag_round_trip(self) {
    }

    fn tag(&self) -> (r: u32) {
        match self {
            ClientMessage::Heartbeat => CLIENT_HEARTBEAT,
        }
    }

    fn from_tag(tag: u64) -> (r: Option<Self>) {
        if tag == CLIENT_HEARTBEAT as u64 {
            Some(ClientMessage::Heartbeat)
        } else {
            None
        }
    }
}

impl Payload for ServerMessage {
    open spec fn spec_tag(self) -> u32 {
        match self {
            ServerMessage::HeartbeatAck => SERVER_HEARTBEAT_ACK,
        }
    }

    open spec fn spec_from_tag(tag: u64) -> Option<Self> {
        if tag == SERVER_HEARTBEAT_ACK as u64 {
            Some(ServerMessage::HeartbeatAck)
        } else {
            None
        }
    }

    proof fn lemma_tag_round_trip(self) {
    }

    fn tag(&self) -> (r: u32) {
        match self {
            ServerMessage::HeartbeatAck => SERVER_HEARTBEAT_ACK,
        }
    }

    fn from_tag(tag: u64) -> (r: Option<Self>) {
        if tag == SERVER_HEARTBEAT_ACK as u64 {
            Some(ServerMessage::HeartbeatAck)
        } else {
            None
        }
    }
}

/// Encoding of a payload: the array `[tag]`.
pub open spec fn spec_encode_payload<T: Payload>(m: T) -> Seq<u8> {
    head_bytes(MAJOR_ARRAY, PAYLOAD_ARITY) + head_bytes(MAJOR_UNSIGNED, m.spec_tag())
}

/// Encoding of an envelope: the array `[version, message_id, payload]`.
pub open spec fn spec_encode_envelope<T: Payload>(e: Envelope<T>) -> Seq<u8> {
    head_bytes(MAJOR_ARRAY, ENVELOPE_ARITY) + head_bytes(
        MAJOR_UNSIGNED,
        e.version.spec_as_u8() as u32,
    ) + head_bytes(MAJOR_UNSIGNED, e.message_id.0) + spec_encode_payload(e.message)
}

/// The payload that starts at `pos` in `b` and the position after it. The
/// tag is checked before the array length.
pub open spec fn spec_decode_payload<T: Payload>(b: Seq<u8>, pos: int) -> Result<(T, int), DecodeError> {
    match spec_definite(b, pos, MAJOR_ARRAY) {
        Err(e) => Err(e),
        Ok((len, q1)) => match spec_definite(b, q1, MAJOR_UNSIGNED) {
            Err(e) => Err(e),
            Ok((tag, q2)) => match T::spec_from_tag(tag) {
                None => Err(DecodeError::UnknownTag),
                Some(v) => if len == PAYLOAD_ARITY as u64 {
                    Ok((v, q2))
                } else {
                    Err(DecodeError::UnexpectedLength)
                },
            },
        },
    }
}

/// The envelope at the start of `b`; bytes after it are not read. Errors are
/// reported in the order the fields appear.
pub open spec fn spec_decode_envelope<T: Payload>(b: Seq<u8>) -> Result<Envelope<T>, DecodeError> {
    match spec_definite(b, 0, MAJOR_ARRAY) {
        Err(e) => Err(e),
        Ok((len, q0)) => if len != ENVELOPE_ARITY as u64 {
            Err(DecodeError::UnexpectedLength)
        } else {
            match spec_definite(b, q0, MAJOR_UNSIGNED) {
                Err(e) => Err(e),
                Ok((ver, q1)) => match Version::spec_from_u64(ver) {
                    None => Err(DecodeError::UnknownVersion),
                    Some(version) => match spec_definite(b, q1, MAJOR_UNSIGNED) {
                        Err(e) => Err(e),
                        Ok((id, q2)) => if id > u32::MAX as u64 {
                            Err(DecodeError::MalformedEncoding)
                        } else {
                            match spec_decode_payload::<T>(b, q2) {
                                Err(e) => Err(e),
                                Ok((m, _)) => Ok(
                                    Envelope { version, message_id: MessageId(id as u32), message: m },
                                ),
                            }
                        },
                    },
                },
            }
        },
    }
}

/// The payload at the start of `b`; bytes after it are not read, as with
/// envelopes.
pub open spec fn spec_decode_payload_start<T: Payload>(b: Seq<u8>) -> Result<T, DecodeError> {
    match spec_decode_payload::<T>(b, 0) {
        Err(e) => Err(e),
        Ok((v, _)) => Ok(v),
    }
}

/// Decoding the encoding of a payload found at `pos` gives the payload back
/// and stops where its encoding ends.
pub proof fn lemma_payload_round_trip<T: Payload>(m: T, b: Seq<u8>, pos: int)
    requires
        0 <= pos,
        pos + spec_encode_payload(m).len() <= b.len(),
        b.subrange(pos, pos + spec_encode_payload(m).len()) == spec_encode_payload(m),
    ensures
        spec_decode_payload::<T>(b, pos) == Ok::<(T, int), DecodeError>(
            (m, pos + spec_encode_payload(m).len()),
        ),
{
    let a = head_bytes(MAJOR_ARRAY, PAYLOAD_ARITY);
    let t = head_bytes(MAJOR_UNSIGNED, m.spec_tag());
    lemma_split_at(b, pos, a, t);
    lemma_definite_at(MAJOR_ARRAY, PAYLOAD_ARITY, b, pos);
    lemma_definite_at(MAJOR_UNSIGNED, m.spec_tag(), b, pos + a.len());
    m.lemma_tag_round_trip();
}

/// Decoding the encoding of an envelope, followed by any bytes, gives the
/// envelope back.
pub proof fn lemma_envelope_round_trip<T: Payload>(e: Envelope<T>, rest: Seq<u8>)
    ensures
        spec_decode_envelope::<T>(spec_encode_envelope(e) + rest) == Ok::<Envelope<T>, DecodeError>(e),
{
    let a = head_bytes(MAJOR_ARRAY, ENVELOPE_ARITY);
    let v = head_bytes(MAJOR_UNSIGNED, e.version.spec_as_u8() as u32);
    let i = head_bytes(MAJOR_UNSIGNED, e.message_id.0);
    let p = spec_encode_payload(e.message);
    let b = spec_encode_envelope(e) + rest;
    let q0 = a.len() as int;
    let q1 = q0 + v.len();
    let q2 = q1 + i.len();
    assert(b.subrange(0, q0) =~= a);
    assert(b.subrange(q0, q1) =~= v);
    assert(b.subrange(q1, q2) =~= i);
    assert(b.subrange(q2, q2 + p.len()) =~= p);
    lemma_definite_at(MAJOR_ARRAY, ENVELOPE_ARITY, b, 0);
    lemma_definite_at(MAJOR_UNSIGNED, e.version.spec_as_u8() as u32, b, q0);
    lemma_definite_at(MAJOR_UNSIGNED, e.message_id.0, b, q1);
    lemma_payload_round_trip(e.message, b, q2);
}

/// Decoding the encoding of a payload, followed by any bytes, gives the
/// payload back.
pub proof fn lemma_payload_bytes_round_trip<T: Payload>(m: T, rest: Seq<u8>)
    ensures
        spec_decode_payload_start::<T>(spec_encode_payload(m) + rest) == Ok::<T, DecodeError>(m),
{
    let e = spec_encode_payload(m);
    let b = e + rest;
    assert(b.subrange(0, e.len() as int) =~= e);
    lemma_payload_round_trip(m, b, 0);
}

/// The encoding determines the envelope: two envelopes with the same bytes
/// are equal, so equal envelopes, and only they, share their bytes.
pub proof fn lemma_encoding_injective<T: Payload>(a: Envelope<T>, b: Envelope<T>)
    requires
        spec_encode_envelope(a) == spec_encode_envelope(b),
    ensures
        a == b,
{
    lemma_envelope_round_trip(a, Seq::empty());
    lemma_envelope_round_trip(b, Seq::empty());
    assert(spec_encode_envelope(a) + Seq::<u8>::empty() =~= spec_encode_envelope(a));
    assert(spec_encode_envelope(b) + Seq::<u8>::empty() =~= spec_encode_envelope(b));
}

/// Encodes a payload.
pub fn encode_payload<T: Payload>(m: &T) -> (r: Vec<u8>)
    ensures
        r@ == spec_encode_payload(*m),
{
    let mut out: Vec<u8> = Vec::new();
    write_head(&mut out, MAJOR_ARRAY, PAYLOAD_ARITY);
    write_head(&mut out, MAJOR_UNSIGNED, m.tag());
    assert(out@ =~= spec_encode_payload(*m));
    out
}

/// Encodes an envelope.
pub fn encode_envelope<T: Payload>(e: &Envelope<T>) -> (r: Vec<u8>)
    ensures
        r@ == spec_encode_envelope(*e),
{
    let mut out: Vec<u8> = Vec::new();
    write_head(&mut out, MAJOR_ARRAY, ENVELOPE_ARITY);
    write_head(&mut out, MAJOR_UNSIGNED, e.version.as_u8() as u32);
    write_head(&mut out, MAJOR_UNSIGNED, e.message_id.0);
    write_head(&mut out, MAJOR_ARRAY, PAYLOAD_ARITY);
    write_head(&mut out, MAJOR_UNSIGNED, e.message.tag());
    assert(out@ =~= spec_encode_envelope(*e));
    out
}

fn decode_payload_at<T: Payload>(b: &[u8], pos: usize) -> (r: Result<(T, usize), DecodeError>)
    ensures
        r matches Err(e) ==> spec_decode_payload::<T>(b@, pos as int) == Err::<(T, int), DecodeError>(e),
        r matches Ok((v, p)) ==> spec_decode_payload::<T>(b@, pos as int) == Ok::<(T, int), DecodeError>((v, p as int)),
{
    let (len, q1) = match read_definite(b, pos, MAJOR_ARRAY) {
        Ok(x) => x,
        Err(e) => return Err(e),
    };
    let (tag, q2) = match read_definite(b, q1, MAJOR_UNSIGNED) {
        Ok(x) => x,
        Err(e) => return Err(e),
    };
    match T::from_tag(tag) {
        None => Err(DecodeError::UnknownTag),
        Some(v) => if len == PAYLOAD_ARITY as u64 {
            Ok((v, q2))
        } else {
            Err(DecodeError::UnexpectedLength)
        },
    }
}

/// Decodes the payload at the start of `b`.
pub fn decode_payload<T: Payload>(b: &[u8]) -> (r: Result<T, DecodeError>)
    ensures
        r == spec_decode_payload_start::<T>(b@),
{
    match decode_payload_at::<T>(b, 0) {
        Err(e) => Err(e),
        Ok((v, _)) => Ok(v),
    }
}

/// Decodes the envelope at the start of `b`.
pub fn decode_envelope<T: Payload>(b: &[u8]) -> (r: Result<Envelope<T>, DecodeError>)
    ensures
        r == spec_decode_envelope::<T>(b@),
{
    let (len, q0) = match read_definite(b, 0, MAJOR_ARRAY) {
        Ok(x) => x,
        Err(e) => return Err(e),
    };
    if len != ENVELOPE_ARITY as u64 {
        return Err(DecodeError::UnexpectedLength);
    }
    let (ver, q1) = match read_definite(b, q0, MAJOR_UNSIGNED) {
        Ok(x) => x,
        Err(e) => return Err(e),
    };
    let version = if ver == 0 {
        Version::V0
    } else {
        return Err(DecodeError::UnknownVersion);
    };
    let (id, q2) = match read_definite(b, q1, MAJOR_UNSIGNED) {
        Ok(x) => x,
        Err(e) => return Err(e),
    };
    if id > u32::MAX as u64 {
        return Err(DecodeError::MalformedEncoding);
    }
    match decode_payload_at::<T>(b, q2) {
        Err(e) => Err(e),
        Ok((m, _)) => Ok(Envelope { version, message_id: MessageId(id as u32), message: m }),
    }
}

} // verus!
