//! Device identifier: the 16 bytes of a UUID, encoded as a CBOR byte string.
use vstd::prelude::*;
use crate::cbor::DecodeError;
use crate::item::{
    array_from_slice, byte_string_bytes, lemma_byte_string_round_trip, read_byte_string,
    spec_byte_string, write_byte_string, CborItem,
};

verus! {

/// Number of bytes in a device identifier.
pub const DEVICE_ID_LEN: usize = 16;

/// A unique device identifier.
#[derive(Debug, Clone, Copy, PartialEq, Eq)]
pub struct DeviceId([u8; 16]);

impl DeviceId {
    pub closed spec fn bytes(&self) -> Seq<u8> {
        self.0@
    }

    pub fn from_bytes(bytes: [u8; 16]) -> (r: Self)
        ensures
            r.bytes() == bytes@,
    {
        DeviceId(bytes)
    }

    pub fn as_bytes(&self) -> (r: &[u8; 16])
        ensures
            r@ == self.bytes(),
    {
        &self.0
    }

    /// The identifier made of `bytes`, which must be 16 bytes long.
    pub fn from_slice(bytes: &[u8]) -> (r: Option<Self>)
        ensures
            r is Some == (bytes@.len() == DEVICE_ID_LEN),
            r matches Some(d) ==> d.bytes() == bytes@,
    {
        if bytes.len() != DEVICE_ID_LEN {
            return None;
        }
        Some(DeviceId(array_from_slice::<16>(bytes)))
    }
}

impl CborItem for DeviceId {
    open spec fn spec_valid(&self) -> bool {
        self.bytes().len() == DEVICE_ID_LEN
    }

    open spec fn spec_encode(&self) -> Seq<u8> {
        byte_string_bytes(self.bytes())
    }

    open spec fn spec_decode_at(b: Seq<u8>, pos: int) -> Result<(Self, int), DecodeError> {
        match spec_byte_string(b, pos) {
            Err(e) => Err(e),
            Ok((s, p)) => if s.len() == DEVICE_ID_LEN {
                Ok((choose|x: DeviceId| x.bytes() == s, p))
            } else {
                Err(DecodeError::UnexpectedLength)
            },
        }
    }

    proof fn lemma_round_trip(&self, b: Seq<u8>, pos: int) {
        lemma_byte_string_round_trip(self.bytes(), b, pos);
        let x = choose|x: DeviceId| x.bytes() == self.bytes();
        assert(x.0@ =~= self.0@);
        assert(x.0 == self.0);
    }

    fn encode_to(&self, out: &mut Vec<u8>) {
        write_byte_string(out, self.0.as_slice());
    }

    fn decode_at(b: &[u8], pos: usize) -> (r: Result<(Self, usize), DecodeError>) {
        let (s, p) = match read_byte_string(b, pos) {
            Ok(x) => x,
            Err(e) => return Err(e),
        };
        match DeviceId::from_slice(s) {
            Some(x) => {
                proof {
                    let y = choose|y: DeviceId| y.bytes() == s@;
                    assert(y.0 == x.0);
                }
                Ok((x, p))
            },
            None => Err(DecodeError::UnexpectedLength),
        }
    }
}

} // verus!
