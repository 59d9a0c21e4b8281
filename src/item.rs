//! Values with a CBOR encoding of their own, decoded field by field.
use vstd::prelude::*;
use vstd::slice::slice_subrange;
use crate::cbor::{
    head_bytes, lemma_definite_at, lemma_split_at, read_definite, spec_definite, write_head,
    DecodeError, MAJOR_UNSIGNED,
};

verus! {

/// Major type of a byte string item.
pub const MAJOR_BYTES: u8 = 2;

/// A value with a CBOR encoding.
pub trait CborItem: Sized {
    /// The value can be encoded: its byte strings have 32-bit lengths.
    spec fn spec_valid(&self) -> bool;

    /// Encoding of the value.
    spec fn spec_encode(&self) -> Seq<u8>;

    /// The value whose encoding starts at `pos` in `b`, and the position
    /// after it.
    spec fn spec_decode_at(b: Seq<u8>, pos: int) -> Result<(Self, int), DecodeError>;

    /// Decoding an encoding found at `pos` gives the value back and stops
    /// where the encoding ends.
    proof fn lemma_round_trip(&self, b: Seq<u8>, pos: int)
        requires
            self.spec_valid(),
            0 <= pos,
            pos + self.spec_encode().len() <= b.len(),
            b.subrange(pos, pos + self.spec_encode().len()) == self.spec_encode(),
        ensures
            Self::spec_decode_at(b, pos) == Ok::<(Self, int), DecodeError>(
                (*self, pos + self.spec_encode().len()),
            ),
    ;

    fn encode_to(&self, out: &mut Vec<u8>)
        requires
            self.spec_valid(),
        ensures
            final(out)@ == old(out)@ + self.spec_encode(),
    ;

    fn decode_at(b: &[u8], pos: usize) -> (r: Result<(Self, usize), DecodeError>)
        ensures
            r matches Err(e) ==> Self::spec_decode_at(b@, pos as int) == Err::<(Self, int), DecodeError>(e),
            r matches Ok((v, p)) ==> Self::spec_decode_at(b@, pos as int) == Ok::<(Self, int), DecodeError>(
                (v, p as int),
            ),
    ;
}

/// The value whose encoding starts `b`; bytes after it are not read.
pub open spec fn spec_decode<T: CborItem>(b: Seq<u8>) -> Result<T, DecodeError> {
    match T::spec_decode_at(b, 0) {
        Ok((v, _)) => Ok(v),
        Err(e) => Err(e),
    }
}

/// Encodes a value.
pub fn encode<T: CborItem>(v: &T) -> (r: Vec<u8>)
    requires
        v.spec_valid(),
    ensures
        r@ == v.spec_encode(),
{
    let mut out: Vec<u8> = Vec::new();
    v.encode_to(&mut out);
    assert(out@ =~= v.spec_encode());
    out
}

/// Decodes the value whose encoding starts `b`.
pub fn decode<T: CborItem>(b: &[u8]) -> (r: Result<T, DecodeError>)
    ensures
        r == spec_decode::<T>(b@),
{
    match T::decode_at(b, 0) {
        Ok((v, _)) => Ok(v),
        Err(e) => Err(e),
    }
}

/// Decoding the encoding of a value gives the value back.
pub proof fn lemma_cbor_round_trip<T: CborItem>(v: T)
    requires
        v.spec_valid(),
    ensures
        spec_decode::<T>(v.spec_encode()) == Ok::<T, DecodeError>(v),
{
    let e = v.spec_encode();
    assert(e.subrange(0, e.len() as int) =~= e);
    v.lemma_round_trip(e, 0);
}

/// Encoding of a byte string item.
pub open spec fn byte_string_bytes(s: Seq<u8>) -> Seq<u8> {
    head_bytes(MAJOR_BYTES, s.len() as u32) + s
}

/// The contents of the byte string item at `pos` in `b`, and the position
/// after it.
pub open spec fn spec_byte_string(b: Seq<u8>, pos: int) -> Result<(Seq<u8>, int), DecodeError> {
    match spec_definite(b, pos, MAJOR_BYTES) {
        Err(e) => Err(e),
        Ok((len, p)) => if p + len > b.len() {
            Err(DecodeError::MalformedEncoding)
        } else {
            Ok((b.subrange(p, p + len), p + len))
        },
    }
}

/// The byte string `s`, found at `pos`, reads back as `s`.
pub proof fn lemma_byte_string_round_trip(s: Seq<u8>, b: Seq<u8>, pos: int)
    requires
        s.len() <= u32::MAX,
        0 <= pos,
        pos + byte_string_bytes(s).len() <= b.len(),
        b.subrange(pos, pos + byte_string_bytes(s).len()) == byte_string_bytes(s),
    ensures
        spec_byte_string(b, pos) == Ok::<(Seq<u8>, int), DecodeError>(
            (s, pos + byte_string_bytes(s).len()),
        ),
{
    let h = head_bytes(MAJOR_BYTES, s.len() as u32);
    lemma_split_at(b, pos, h, s);
    lemma_definite_at(MAJOR_BYTES, s.len() as u32, b, pos);
}

/// Appends a byte string item.
pub fn write_byte_string(out: &mut Vec<u8>, s: &[u8])
    requires
        s@.len() <= u32::MAX,
    ensures
        final(out)@ == old(out)@ + byte_string_bytes(s@),
{
    write_head(out, MAJOR_BYTES, s.len() as u32);
    let ghost mid = out@;
    let mut i: usize = 0;
    while i < s.len()
        invariant
            i <= s@.len(),
            out@ == mid + s@.subrange(0, i as int),
        decreases s@.len() - i,
    {
        out.push(s[i]);
        i = i + 1;
        assert(out@ =~= mid + s@.subrange(0, i as int));
    }
    assert(s@.subrange(0, i as int) =~= s@);
    assert(out@ =~= old(out)@ + byte_string_bytes(s@));
}

/// Reads the byte string item at `pos`: its contents and the position after
/// it.
pub fn read_byte_string(b: &[u8], pos: usize) -> (r: Result<(&[u8], usize), DecodeError>)
    ensures
        r matches Err(e) ==> spec_byte_string(b@, pos as int) == Err::<(Seq<u8>, int), DecodeError>(e),
        r matches Ok((s, p)) ==> spec_byte_string(b@, pos as int) == Ok::<(Seq<u8>, int), DecodeError>(
            (s@, p as int),
        ),
{
    let (len, p) = match read_definite(b, pos, MAJOR_BYTES) {
        Ok(x) => x,
        Err(e) => return Err(e),
    };
    if len > (b.len() - p) as u64 {
        return Err(DecodeError::MalformedEncoding);
    }
    let end = p + len as usize;
    Ok((slice_subrange(b, p, end), end))
}

/// The unsigned integer item at `pos` in `b` as a byte, and the position
/// after it.
pub open spec fn spec_small_uint(b: Seq<u8>, pos: int) -> Result<(u8, int), DecodeError> {
    match spec_definite(b, pos, MAJOR_UNSIGNED) {
        Err(e) => Err(e),
        Ok((v, p)) => if v > 255 {
            Err(DecodeError::MalformedEncoding)
        } else {
            Ok((v as u8, p))
        },
    }
}

/// Reads an unsigned integer item that must fit a byte.
pub fn read_small_uint(b: &[u8], pos: usize) -> (r: Result<(u8, usize), DecodeError>)
    ensures
        r matches Err(e) ==> spec_small_uint(b@, pos as int) == Err::<(u8, int), DecodeError>(e),
        r matches Ok((v, p)) ==> spec_small_uint(b@, pos as int) == Ok::<(u8, int), DecodeError>(
            (v, p as int),
        ),
{
    let (v, p) = match read_definite(b, pos, MAJOR_UNSIGNED) {
        Ok(x) => x,
        Err(e) => return Err(e),
    };
    if v > 255 {
        return Err(DecodeError::MalformedEncoding);
    }
    Ok((v as u8, p))
}

/// A copy of `s` as an array.
pub fn array_from_slice<const N: usize>(s: &[u8]) -> (r: [u8; N])
    requires
        s@.len() == N,
    ensures
        r@ == s@,
{
    let mut a: [u8; N] = [0u8; N];
    let mut i: usize = 0;
    while i < N
        invariant
            s@.len() == N,
            a@.len() == N,
            i <= N,
            forall|j: int| 0 <= j < i ==> a@[j] == s@[j],
        decreases N - i,
    {
        a[i] = s[i];
        i = i + 1;
    }
    assert(a@ =~= s@);
    a
}

} // verus!
