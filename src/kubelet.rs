//! Pod management messages between the orchestrator side and a device: pod
//! creation requests carrying a WebAssembly module of fixed size, and their
//! results.
use vstd::prelude::*;
use crate::cbor::{
    head_bytes, lemma_definite_at, lemma_split_at, read_definite, spec_definite, write_head,
    DecodeError, MAJOR_ARRAY, MAJOR_UNSIGNED,
};
use crate::item::{
    array_from_slice, byte_string_bytes, lemma_byte_string_round_trip, read_byte_string,
    read_small_uint, spec_byte_string, spec_small_uint, write_byte_string, CborItem,
};

verus! {

/// Size of the WebAssembly module a pod request carries by default.
pub const WASM_MODULE_SIZE: usize = 64_000;

/// Number of bytes in a pod identifier.
pub const POD_ID_LEN: usize = 16;

/// Every composite item here is an array of two elements.
pub const PAIR: u32 = 2;

/// Protocol version of pod messages.
#[derive(Debug, Clone, Copy, PartialEq, Eq, Structural)]
pub enum Version {
    V0,
}

impl Version {
    pub open spec fn spec_from_u8(value: u8) -> Option<Version> {
        if value == 0 {
            Some(Version::V0)
        } else {
            None
        }
    }

    pub open spec fn spec_as_u8(self) -> u8 {
        match self {
            Version::V0 => 0,
        }
    }

    pub fn from_u8(value: u8) -> (r: Option<Self>)
        ensures
            r == Self::spec_from_u8(value),
    {
        match value {
            0 => Some(Version::V0),
            _ => None,
        }
    }

    pub fn as_u8(&self) -> (r: u8)
        ensures
            r == self.spec_as_u8(),
    {
        match self {
            Version::V0 => 0,
        }
    }
}

/// Which message an envelope body holds.
#[derive(Debug, Clone, Copy, PartialEq, Eq, Structural)]
pub enum MessageKind {
    CreatePodRequest,
    CreatePodResponse,
}

impl MessageKind {
    pub open spec fn spec_from_u8(value: u8) -> Option<MessageKind> {
        if value == 0 {
            Some(MessageKind::CreatePodRequest)
        } else if value == 1 {
            Some(MessageKind::CreatePodResponse)
        } else {
            None
        }
    }

    pub open spec fn spec_as_u8(self) -> u8 {
        match self {
            MessageKind::CreatePodRequest => 0,
            MessageKind::CreatePodResponse => 1,
        }
    }

    pub fn from_u8(value: u8) -> (r: Option<Self>)
        ensures
            r == Self::spec_from_u8(value),
    {
        match value {
            0 => Some(MessageKind::CreatePodRequest),
            1 => Some(MessageKind::CreatePodResponse),
            _ => None,
        }
    }

    pub fn as_u8(&self) -> (r: u8)
        ensures
            r == self.spec_as_u8(),
    {
        match self {
            MessageKind::CreatePodRequest => 0,
            MessageKind::CreatePodResponse => 1,
        }
    }
}

/// Outcome of a pod creation.
#[derive(Debug, Clone, Copy, PartialEq, Eq, Structural)]
pub enum CreatePodResult {
    Success,
    Failure,
}

impl CreatePodResult {
    pub open spec fn spec_from_u8(value: u8) -> Option<CreatePodResult> {
        if value == 0 {
            Some(CreatePodResult::Success)
        } else if value == 1 {
            Some(CreatePodResult::Failure)
        } else {
            None
        }
    }

    pub open spec fn spec_as_u8(self) -> u8 {
        match self {
            CreatePodResult::Success => 0,
            CreatePodResult::Failure => 1,
        }
    }

    pub fn from_u8(value: u8) -> (r: Option<Self>)
        ensures
            r == Self::spec_from_u8(value),
    {
        match value {
            0 => Some(CreatePodResult::Success),
            1 => Some(CreatePodResult::Failure),
            _ => None,
        }
    }

    pub fn as_u8(&self) -> (r: u8)
        ensures
            r == self.spec_as_u8(),
    {
        match self {
            CreatePodResult::Success => 0,
            CreatePodResult::Failure => 1,
        }
    }
}

/// A pod identifier: the 16 bytes of a UUID.
#[derive(Debug, Clone, Copy, PartialEq, Eq)]
pub struct PodId([u8; 16]);

impl PodId {
    pub closed spec fn bytes(&self) -> Seq<u8> {
        self.0@
    }

    pub fn from_bytes(bytes: [u8; 16]) -> (r: Self)
        ensures
            r.bytes() == bytes@,
    {
        PodId(bytes)
    }

    pub fn as_bytes(&self) -> (r: &[u8; 16])
        ensures
            r@ == self.bytes(),
    {
        &self.0
    }

    /// The identifier made of `bytes`, which must be 16 bytes long.
    pub fn from_slice(bytes: &[u8]) -> (r: Option<Self>)
        ensures
            r is Some == (bytes@.len() == POD_ID_LEN),
            r matches Some(p) ==> p.bytes() == bytes@,
    {
        if bytes.len() != POD_ID_LEN {
            return None;
        }
        Some(PodId(array_from_slice::<16>(bytes)))
    }
}

/// A WebAssembly module of exactly `N` bytes.
#[derive(Debug, Clone, Copy, PartialEq, Eq)]
pub struct WasmModule<const N: usize>([u8; N]);

impl<const N: usize> WasmModule<N> {
    pub closed spec fn bytes(&self) -> Seq<u8> {
        self.0@
    }

    pub fn from_bytes(bytes: [u8; N]) -> (r: Self)
        ensures
            r.bytes() == bytes@,
    {
        WasmModule(bytes)
    }

    pub fn as_bytes(&self) -> (r: &[u8; N])
        ensures
            r@ == self.bytes(),
    {
        &self.0
    }

    /// The module made of `bytes`, which must be `N` bytes long.
    pub fn from_slice(bytes: &[u8]) -> (r: Option<Self>)
        ensures
            r is Some == (bytes@.len() == N),
            r matches Some(m) ==> m.bytes() == bytes@,
    {
        if bytes.len() != N {
            return None;
        }
        Some(WasmModule(array_from_slice::<N>(bytes)))
    }
}

/// Request to create a pod running a module.
#[derive(Debug, Clone, Copy, PartialEq, Eq)]
pub struct CreatePodRequest<const WASM_MODULE_SIZE: usize> {
    pub pod_id: PodId,
    pub wasm_module: WasmModule<WASM_MODULE_SIZE>,
}

/// Answer to a pod creation request.
#[derive(Debug, Clone, Copy, PartialEq, Eq)]
pub struct CreatePodResponse {
    pub pod_id: PodId,
    pub result: CreatePodResult,
}

/// Body of a pod management envelope.
#[derive(Debug, Clone, Copy, PartialEq, Eq)]
pub enum Message<const WASM_MODULE_SIZE: usize> {
    CreatePodRequest(CreatePodRequest<WASM_MODULE_SIZE>),
    CreatePodResponse(CreatePodResponse),
}

impl<const WASM_MODULE_SIZE: usize> Message<WASM_MODULE_SIZE> {
    pub open spec fn spec_kind(self) -> MessageKind {
        match self {
            Message::CreatePodRequest(_) => MessageKind::CreatePodRequest,
            Message::CreatePodResponse(_) => MessageKind::CreatePodResponse,
        }
    }

    pub fn kind(&self) -> (r: MessageKind)
        ensures
            r == self.spec_kind(),
    {
        match self {
            Message::CreatePodRequest(_) => MessageKind::CreatePodRequest,
            Message::CreatePodResponse(_) => MessageKind::CreatePodResponse,
        }
    }
}

/// A versioned pod management message.
#[derive(Debug, Clone, Copy, PartialEq, Eq)]
pub struct Envelope<T> {
    pub version: Version,
    pub body: T,
}

impl CborItem for Version {
    open spec fn spec_valid(&self) -> bool {
        true
    }

    open spec fn spec_encode(&self) -> Seq<u8> {
        head_bytes(MAJOR_UNSIGNED, self.spec_as_u8() as u32)
    }

    open spec fn spec_decode_at(b: Seq<u8>, pos: int) -> Result<(Self, int), DecodeError> {
        match spec_small_uint(b, pos) {
            Err(e) => Err(e),
            Ok((v, p)) => match Version::spec_from_u8(v) {
                Some(x) => Ok((x, p)),
                None => Err(DecodeError::UnknownVersion),
            },
        }
    }

    proof fn lemma_round_trip(&self, b: Seq<u8>, pos: int) {
        lemma_definite_at(MAJOR_UNSIGNED, self.spec_as_u8() as u32, b, pos);
    }

    fn encode_to(&self, out: &mut Vec<u8>) {
        write_head(out, MAJOR_UNSIGNED, self.as_u8() as u32);
    }

    fn decode_at(b: &[u8], pos: usize) -> (r: Result<(Self, usize), DecodeError>) {
        let (v, p) = match read_small_uint(b, pos) {
            Ok(x) => x,
            Err(e) => return Err(e),
        };
        match Version::from_u8(v) {
            Some(x) => Ok((x, p)),
            None => Err(DecodeError::UnknownVersion),
        }
    }
}

impl CborItem for MessageKind {
    open spec fn spec_valid(&self) -> bool {
        true
    }

    open spec fn spec_encode(&self) -> Seq<u8> {
        head_bytes(MAJOR_UNSIGNED, self.spec_as_u8() as u32)
    }

    open spec fn spec_decode_at(b: Seq<u8>, pos: int) -> Result<(Self, int), DecodeError> {
        match spec_small_uint(b, pos) {
            Err(e) => Err(e),
            Ok((v, p)) => match MessageKind::spec_from_u8(v) {
                Some(x) => Ok((x, p)),
                None => Err(DecodeError::UnknownTag),
            },
        }
    }

    proof fn lemma_round_trip(&self, b: Seq<u8>, pos: int) {
        lemma_definite_at(MAJOR_UNSIGNED, self.spec_as_u8() as u32, b, pos);
    }

    fn encode_to(&self, out: &mut Vec<u8>) {
        write_head(out, MAJOR_UNSIGNED, self.as_u8() as u32);
    }

    fn decode_at(b: &[u8], pos: usize) -> (r: Result<(Self, usize), DecodeError>) {
        let (v, p) = match read_small_uint(b, pos) {
            Ok(x) => x,
            Err(e) => return Err(e),
        };
        match MessageKind::from_u8(v) {
            Some(x) => Ok((x, p)),
            None => Err(DecodeError::UnknownTag),
        }
    }
}

impl CborItem for CreatePodResult {
    open spec fn spec_valid(&self) -> bool {
        true
    }

    open spec fn spec_encode(&self) -> Seq<u8> {
        head_bytes(MAJOR_UNSIGNED, self.spec_as_u8() as u32)
    }

    open spec fn spec_decode_at(b: Seq<u8>, pos: int) -> Result<(Self, int), DecodeError> {
        match spec_small_uint(b, pos) {
            Err(e) => Err(e),
            Ok((v, p)) => match CreatePodResult::spec_from_u8(v) {
                Some(x) => Ok((x, p)),
                None => Err(DecodeError::UnknownTag),
            },
        }
    }

    proof fn lemma_round_trip(&self, b: Seq<u8>, pos: int) {
        lemma_definite_at(MAJOR_UNSIGNED, self.spec_as_u8() as u32, b, pos);
    }

    fn encode_to(&self, out: &mut Vec<u8>) {
        write_head(out, MAJOR_UNSIGNED, self.as_u8() as u32);
    }

    fn decode_at(b: &[u8], pos: usize) -> (r: Result<(Self, usize), DecodeError>) {
        let (v, p) = match read_small_uint(b, pos) {
            Ok(x) => x,
            Err(e) => return Err(e),
        };
        match CreatePodResult::from_u8(v) {
            Some(x) => Ok((x, p)),
            None => Err(DecodeError::UnknownTag),
        }
    }
}

impl CborItem for PodId {
    open spec fn spec_valid(&self) -> bool {
        self.bytes().len() == POD_ID_LEN
    }

    open spec fn spec_encode(&self) -> Seq<u8> {
        byte_string_bytes(self.bytes())
    }

    open spec fn spec_decode_at(b: Seq<u8>, pos: int) -> Result<(Self, int), DecodeError> {
        match spec_byte_string(b, pos) {
            Err(e) => Err(e),
            Ok((s, p)) => if s.len() == POD_ID_LEN {
                Ok((choose|x: PodId| x.bytes() == s, p))
            } else {
                Err(DecodeError::UnexpectedLength)
            },
        }
    }

    proof fn lemma_round_trip(&self, b: Seq<u8>, pos: int) {
        lemma_byte_string_round_trip(self.bytes(), b, pos);
        let x = choose|x: PodId| x.bytes() == self.bytes();
        assert(x.0@ =~= self.0@);
        assert(x.0 == self.0);
    }

    fn encode_to(&self, out: &mut Vec<u8>) {
        write_byte_string(out, self.0.as_slice());
    }

    fn decode_at(b: &[u8], pos: usize) -> (r: Result<(Self, usize), DecodeError>) {
        let (s, p) = match read_byte_string(b, pos) {
            Ok(x) => x,
            Err(e) => return Err(e),
        };
        match PodId::from_slice(s) {
            Some(x) => {
                proof {
                    let y = choose|y: PodId| y.bytes() == s@;
                    assert(y.0 == x.0);
                }
                Ok((x, p))
            },
            None => Err(DecodeError::UnexpectedLength),
        }
    }
}

impl<const N: usize> CborItem for WasmModule<N> {
    open spec fn spec_valid(&self) -> bool {
        self.bytes().len() == N && N <= u32::MAX
    }

    open spec fn spec_encode(&self) -> Seq<u8> {
        byte_string_bytes(self.bytes())
    }

    open spec fn spec_decode_at(b: Seq<u8>, pos: int) -> Result<(Self, int), DecodeError> {
        match spec_byte_string(b, pos) {
            Err(e) => Err(e),
            Ok((s, p)) => if s.len() == N {
                Ok((choose|x: WasmModule<N>| x.bytes() == s, p))
            } else {
                Err(DecodeError::UnexpectedLength)
            },
        }
    }

    proof fn lemma_round_trip(&self, b: Seq<u8>, pos: int) {
        lemma_byte_string_round_trip(self.bytes(), b, pos);
        let x = choose|x: WasmModule<N>| x.bytes() == self.bytes();
        assert(x.0@ =~= self.0@);
        assert(x.0 == self.0);
    }

    fn encode_to(&self, out: &mut Vec<u8>) {
        write_byte_string(out, self.0.as_slice());
    }

    fn decode_at(b: &[u8], pos: usize) -> (r: Result<(Self, usize), DecodeError>) {
        let (s, p) = match read_byte_string(b, pos) {
            Ok(x) => x,
            Err(e) => return Err(e),
        };
        match WasmModule::<N>::from_slice(s) {
            Some(x) => {
                proof {
                    let y = choose|y: WasmModule<N>| y.bytes() == s@;
                    assert(y.0 == x.0);
                }
                Ok((x, p))
            },
            None => Err(DecodeError::UnexpectedLength),
        }
    }
}

/// Encoding of an array of two items.
pub open spec fn pair_bytes(first: Seq<u8>, second: Seq<u8>) -> Seq<u8> {
    head_bytes(MAJOR_ARRAY, PAIR) + (first + second)
}

/// The two items of the pair at `pos` are at `pos` plus the array head, then
/// right after the first.
proof fn lemma_pair_at(b: Seq<u8>, pos: int, first: Seq<u8>, second: Seq<u8>)
    requires
        0 <= pos,
        pos + pair_bytes(first, second).len() <= b.len(),
        b.subrange(pos, pos + pair_bytes(first, second).len()) == pair_bytes(first, second),
    ensures
        spec_definite(b, pos, MAJOR_ARRAY) == Ok::<(u64, int), DecodeError>(
            (PAIR as u64, pos + head_bytes(MAJOR_ARRAY, PAIR).len()),
        ),
        b.subrange(
            pos + head_bytes(MAJOR_ARRAY, PAIR).len(),
            pos + head_bytes(MAJOR_ARRAY, PAIR).len() + first.len(),
        ) == first,
        b.subrange(
            pos + head_bytes(MAJOR_ARRAY, PAIR).len() + first.len(),
            pos + pair_bytes(first, second).len(),
        ) == second,
{
    let h = head_bytes(MAJOR_ARRAY, PAIR);
    lemma_split_at(b, pos, h, first + second);
    lemma_split_at(b, pos + h.len(), first, second);
    lemma_definite_at(MAJOR_ARRAY, PAIR, b, pos);
}

/// Reads the head of an array of two items.
fn read_pair_head(b: &[u8], pos: usize) -> (r: Result<usize, DecodeError>)
    ensures
        r matches Err(e) ==> spec_pair_head(b@, pos as int) == Err::<int, DecodeError>(e),
        r matches Ok(p) ==> spec_pair_head(b@, pos as int) == Ok::<int, DecodeError>(p as int),
{
    let (len, p) = match read_definite(b, pos, MAJOR_ARRAY) {
        Ok(x) => x,
        Err(e) => return Err(e),
    };
    if len != PAIR as u64 {
        return Err(DecodeError::UnexpectedLength);
    }
    Ok(p)
}

/// The array head at `pos` announces two items, and the position after it.
pub open spec fn spec_pair_head(b: Seq<u8>, pos: int) -> Result<int, DecodeError> {
    match spec_definite(b, pos, MAJOR_ARRAY) {
        Err(e) => Err(e),
        Ok((len, p)) => if len != PAIR as u64 {
            Err(DecodeError::UnexpectedLength)
        } else {
            Ok(p)
        },
    }
}

impl<const N: usize> CborItem for CreatePodRequest<N> {
    open spec fn spec_valid(&self) -> bool {
        self.pod_id.spec_valid() && self.wasm_module.spec_valid()
    }

    open spec fn spec_encode(&self) -> Seq<u8> {
        pair_bytes(self.pod_id.spec_encode(), self.wasm_module.spec_encode())
    }

    open spec fn spec_decode_at(b: Seq<u8>, pos: int) -> Result<(Self, int), DecodeError> {
        match spec_pair_head(b, pos) {
            Err(e) => Err(e),
            Ok(q0) => match PodId::spec_decode_at(b, q0) {
                Err(e) => Err(e),
                Ok((pod_id, q1)) => match WasmModule::<N>::spec_decode_at(b, q1) {
                    Err(e) => Err(e),
                    Ok((wasm_module, q2)) => Ok((CreatePodRequest { pod_id, wasm_module }, q2)),
                },
            },
        }
    }

    proof fn lemma_round_trip(&self, b: Seq<u8>, pos: int) {
        let x = self.pod_id.spec_encode();
        let y = self.wasm_module.spec_encode();
        let h = head_bytes(MAJOR_ARRAY, PAIR).len();
        lemma_pair_at(b, pos, x, y);
        self.pod_id.lemma_round_trip(b, pos + h);
        self.wasm_module.lemma_round_trip(b, pos + h + x.len());
    }

    fn encode_to(&self, out: &mut Vec<u8>) {
        write_head(out, MAJOR_ARRAY, PAIR);
        self.pod_id.encode_to(out);
        self.wasm_module.encode_to(out);
        assert(out@ =~= old(out)@ + self.spec_encode());
    }

    fn decode_at(b: &[u8], pos: usize) -> (r: Result<(Self, usize), DecodeError>) {
        let q0 = match read_pair_head(b, pos) {
            Ok(p) => p,
            Err(e) => return Err(e),
        };
        let (pod_id, q1) = match PodId::decode_at(b, q0) {
            Ok(x) => x,
            Err(e) => return Err(e),
        };
        let (wasm_module, q2) = match WasmModule::<N>::decode_at(b, q1) {
            Ok(x) => x,
            Err(e) => return Err(e),
        };
        Ok((CreatePodRequest { pod_id, wasm_module }, q2))
    }
}

impl CborItem for CreatePodResponse {
    open spec fn spec_valid(&self) -> bool {
        self.pod_id.spec_valid()
    }

    open spec fn spec_encode(&self) -> Seq<u8> {
        pair_bytes(self.pod_id.spec_encode(), self.result.spec_encode())
    }

    open spec fn spec_decode_at(b: Seq<u8>, pos: int) -> Result<(Self, int), DecodeError> {
        match spec_pair_head(b, pos) {
            Err(e) => Err(e),
            Ok(q0) => match PodId::spec_decode_at(b, q0) {
                Err(e) => Err(e),
                Ok((pod_id, q1)) => match CreatePodResult::spec_decode_at(b, q1) {
                    Err(e) => Err(e),
                    Ok((result, q2)) => Ok((CreatePodResponse { pod_id, result }, q2)),
                },
            },
        }
    }

    proof fn lemma_round_trip(&self, b: Seq<u8>, pos: int) {
        let x = self.pod_id.spec_encode();
        let y = self.result.spec_encode();
        let h = head_bytes(MAJOR_ARRAY, PAIR).len();
        lemma_pair_at(b, pos, x, y);
        self.pod_id.lemma_round_trip(b, pos + h);
        self.result.lemma_round_trip(b, pos + h + x.len());
    }

    fn encode_to(&self, out: &mut Vec<u8>) {
        write_head(out, MAJOR_ARRAY, PAIR);
        self.pod_id.encode_to(out);
        self.result.encode_to(out);
        assert(out@ =~= old(out)@ + self.spec_encode());
    }

    fn decode_at(b: &[u8], pos: usize) -> (r: Result<(Self, usize), DecodeError>) {
        let q0 = match read_pair_head(b, pos) {
            Ok(p) => p,
            Err(e) => return Err(e),
        };
        let (pod_id, q1) = match PodId::decode_at(b, q0) {
            Ok(x) => x,
            Err(e) => return Err(e),
        };
        let (result, q2) = match CreatePodResult::decode_at(b, q1) {
            Ok(x) => x,
            Err(e) => return Err(e),
        };
        Ok((CreatePodResponse { pod_id, result }, q2))
    }
}

impl<const N: usize> CborItem for Message<N> {
    open spec fn spec_valid(&self) -> bool {
        match self {
            Message::CreatePodRequest(v) => v.spec_valid(),
            Message::CreatePodResponse(v) => v.spec_valid(),
        }
    }

    open spec fn spec_encode(&self) -> Seq<u8> {
        pair_bytes(
            self.spec_kind().spec_encode(),
            match self {
                Message::CreatePodRequest(v) => v.spec_encode(),
                Message::CreatePodResponse(v) => v.spec_encode(),
            },
        )
    }

    open spec fn spec_decode_at(b: Seq<u8>, pos: int) -> Result<(Self, int), DecodeError> {
        match spec_pair_head(b, pos) {
            Err(e) => Err(e),
            Ok(q0) => match MessageKind::spec_decode_at(b, q0) {
                Err(e) => Err(e),
                Ok((MessageKind::CreatePodRequest, q1)) => match CreatePodRequest::<N>::spec_decode_at(b, q1) {
                    Err(e) => Err(e),
                    Ok((v, q2)) => Ok((Message::CreatePodRequest(v), q2)),
                },
                Ok((MessageKind::CreatePodResponse, q1)) => match CreatePodResponse::spec_decode_at(b, q1) {
                    Err(e) => Err(e),
                    Ok((v, q2)) => Ok((Message::CreatePodResponse(v), q2)),
                },
            },
        }
    }

    proof fn lemma_round_trip(&self, b: Seq<u8>, pos: int) {
        let x = self.spec_kind().spec_encode();
        let h = head_bytes(MAJOR_ARRAY, PAIR).len();
        match self {
            Message::CreatePodRequest(v) => {
                lemma_pair_at(b, pos, x, v.spec_encode());
                self.spec_kind().lemma_round_trip(b, pos + h);
                v.lemma_round_trip(b, pos + h + x.len());
            },
            Message::CreatePodResponse(v) => {
                lemma_pair_at(b, pos, x, v.spec_encode());
                self.spec_kind().lemma_round_trip(b, pos + h);
                v.lemma_round_trip(b, pos + h + x.len());
            },
        }
    }

    fn encode_to(&self, out: &mut Vec<u8>) {
        write_head(out, MAJOR_ARRAY, PAIR);
        self.kind().encode_to(out);
        match self {
            Message::CreatePodRequest(v) => v.encode_to(out),
            Message::CreatePodResponse(v) => v.encode_to(out),
        }
        assert(out@ =~= old(out)@ + self.spec_encode());
    }

    fn decode_at(b: &[u8], pos: usize) -> (r: Result<(Self, usize), DecodeError>) {
        let q0 = match read_pair_head(b, pos) {
            Ok(p) => p,
            Err(e) => return Err(e),
        };
        let (kind, q1) = match MessageKind::decode_at(b, q0) {
            Ok(x) => x,
            Err(e) => return Err(e),
        };
        match kind {
            MessageKind::CreatePodRequest => match CreatePodRequest::<N>::decode_at(b, q1) {
                Ok((v, q2)) => Ok((Message::CreatePodRequest(v), q2)),
                Err(e) => Err(e),
            },
            MessageKind::CreatePodResponse => match CreatePodResponse::decode_at(b, q1) {
                Ok((v, q2)) => Ok((Message::CreatePodResponse(v), q2)),
                Err(e) => Err(e),
            },
        }
    }
}

impl<T: CborItem> CborItem for Envelope<T> {
    open spec fn spec_valid(&self) -> bool {
        self.body.spec_valid()
    }

    open spec fn spec_encode(&self) -> Seq<u8> {
        pair_bytes(self.version.spec_encode(), self.body.spec_encode())
    }

    open spec fn spec_decode_at(b: Seq<u8>, pos: int) -> Result<(Self, int), DecodeError> {
        match spec_pair_head(b, pos) {
            Err(e) => Err(e),
            Ok(q0) => match Version::spec_decode_at(b, q0) {
                Err(e) => Err(e),
                Ok((version, q1)) => match T::spec_decode_at(b, q1) {
                    Err(e) => Err(e),
                    Ok((body, q2)) => Ok((Envelope { version, body }, q2)),
                },
            },
        }
    }

    proof fn lemma_round_trip(&self, b: Seq<u8>, pos: int) {
        let x = self.version.spec_encode();
        let y = self.body.spec_encode();
        let h = head_bytes(MAJOR_ARRAY, PAIR).len();
        lemma_pair_at(b, pos, x, y);
        self.version.lemma_round_trip(b, pos + h);
        self.body.lemma_round_trip(b, pos + h + x.len());
    }

    fn encode_to(&self, out: &mut Vec<u8>) {
        write_head(out, MAJOR_ARRAY, PAIR);
        self.version.encode_to(out);
        self.body.encode_to(out);
        assert(out@ =~= old(out)@ + self.spec_encode());
    }

    fn decode_at(b: &[u8], pos: usize) -> (r: Result<(Self, usize), DecodeError>) {
        let q0 = match read_pair_head(b, pos) {
            Ok(p) => p,
            Err(e) => return Err(e),
        };
        let (version, q1) = match Version::decode_at(b, q0) {
            Ok(x) => x,
            Err(e) => return Err(e),
        };
        let (body, q2) = match T::decode_at(b, q1) {
            Ok(x) => x,
            Err(e) => return Err(e),
        };
        Ok((Envelope { version, body }, q2))
    }
}

} // verus!
