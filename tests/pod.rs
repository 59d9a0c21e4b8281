use wasmbed::cbor::DecodeError;
use wasmbed::device_id::DeviceId;
use wasmbed::item::{decode, encode, CborItem};
use wasmbed::kubelet::{
    CreatePodRequest, CreatePodResponse, CreatePodResult, Envelope, Message, MessageKind, PodId,
    Version, WasmModule,
};

const WASM_MODULE_SIZE: usize = 24;

fn assert_encode_decode<T: CborItem + PartialEq + std::fmt::Debug>(v: &T) {
    let encoded = encode(v);
    let decoded: T = decode(&encoded).unwrap();
    assert_eq!(*v, decoded);
}

fn pod_id() -> PodId {
    PodId::from_bytes([
        0xa1, 0xa2, 0xa3, 0xa4, 0xb1, 0xb2, 0xc1, 0xc2,
        0xd1, 0xd2, 0xd3, 0xd4, 0xd5, 0xd6, 0xd7, 0xd8,
    ])
}

fn wasm_module() -> WasmModule<WASM_MODULE_SIZE> {
    WasmModule::from_bytes([
        0x00, 0x61, 0x73, 0x6D,
        0x01, 0x00, 0x00, 0x00,
        0x01, 0x04, 0x01, 0x60, 0x00, 0x00,
        0x03, 0x02, 0x01, 0x00,
        0x0A, 0x04, 0x01, 0x02, 0x00, 0x0B,
    ])
}

#[test]
fn encode_decode_test() {
    let create_pod_request = CreatePodRequest { pod_id: pod_id(), wasm_module: wasm_module() };
    let successful_create_pod_response =
        CreatePodResponse { pod_id: pod_id(), result: CreatePodResult::Success };
    let unsuccessful_create_pod_response =
        CreatePodResponse { pod_id: pod_id(), result: CreatePodResult::Failure };
    let create_pod_request_message: Message<WASM_MODULE_SIZE> =
        Message::CreatePodRequest(create_pod_request);
    let successful_create_pod_response_message: Message<WASM_MODULE_SIZE> =
        Message::CreatePodResponse(successful_create_pod_response);
    let unsuccessful_create_pod_response_message: Message<WASM_MODULE_SIZE> =
        Message::CreatePodResponse(unsuccessful_create_pod_response);
    let create_pod_request_message_envelope =
        Envelope { version: Version::V0, body: Message::CreatePodRequest(create_pod_request) };
    let successful_create_pod_response_message_envelope: Envelope<Message<WASM_MODULE_SIZE>> =
        Envelope { version: Version::V0, body: Message::CreatePodResponse(successful_create_pod_response) };
    let unsuccessful_create_pod_response_message_envelope: Envelope<Message<WASM_MODULE_SIZE>> =
        Envelope { version: Version::V0, body: Message::CreatePodResponse(unsuccessful_create_pod_response) };

    assert_encode_decode(&pod_id());
    assert_encode_decode(&wasm_module());
    assert_encode_decode(&create_pod_request);
    assert_encode_decode(&successful_create_pod_response);
    assert_encode_decode(&unsuccessful_create_pod_response);
    assert_encode_decode(&create_pod_request_message);
    assert_encode_decode(&successful_create_pod_response_message);
    assert_encode_decode(&unsuccessful_create_pod_response_message);
    assert_encode_decode(&create_pod_request_message_envelope);
    assert_encode_decode(&successful_create_pod_response_message_envelope);
    assert_encode_decode(&unsuccessful_create_pod_response_message_envelope);
}

#[test]
fn test_device_id() {
    let device_id = DeviceId::from_bytes([
        0xa1, 0xa2, 0xa3, 0xa4, 0xb1, 0xb2, 0xc1, 0xc2,
        0xd1, 0xd2, 0xd3, 0xd4, 0xd5, 0xd6, 0xd7, 0xd8,
    ]);
    assert_encode_decode(&device_id);
}

#[test]
fn pod_bytes_layout() {
    let response = CreatePodResponse { pod_id: pod_id(), result: CreatePodResult::Failure };
    let bytes = encode(&response);
    assert_eq!(&bytes[..2], &[0x82, 0x50]);
    assert_eq!(&bytes[2..18], pod_id().as_bytes());
    assert_eq!(bytes[18], 0x01);
    assert_eq!(bytes.len(), 19);
}

#[test]
fn pod_decode_errors() {
    let r: Result<PodId, DecodeError> = decode(&[0x43, 1, 2, 3]);
    assert_eq!(r, Err(DecodeError::UnexpectedLength));
    let r: Result<Version, DecodeError> = decode(&[0x05]);
    assert_eq!(r, Err(DecodeError::UnknownVersion));
    let r: Result<MessageKind, DecodeError> = decode(&[0x02]);
    assert_eq!(r, Err(DecodeError::UnknownTag));
    let r: Result<CreatePodResult, DecodeError> = decode(&[0x18, 0xff]);
    assert_eq!(r, Err(DecodeError::UnknownTag));
    let r: Result<CreatePodResult, DecodeError> = decode(&[0x19, 0x01, 0x00]);
    assert_eq!(r, Err(DecodeError::MalformedEncoding));
    let r: Result<CreatePodResponse, DecodeError> = decode(&[0x83, 0x00]);
    assert_eq!(r, Err(DecodeError::UnexpectedLength));
    let r: Result<PodId, DecodeError> = decode(&[0x50, 1, 2]);
    assert_eq!(r, Err(DecodeError::MalformedEncoding));
}

#[test]
fn pod_kinds_and_slices() {
    assert_eq!(MessageKind::from_u8(1), Some(MessageKind::CreatePodResponse));
    assert_eq!(MessageKind::CreatePodRequest.as_u8(), 0);
    assert_eq!(CreatePodResult::from_u8(2), None);
    assert_eq!(Version::from_u8(0), Some(Version::V0));
    assert!(PodId::from_slice(&[0u8; 15]).is_none());
    assert_eq!(PodId::from_slice(pod_id().as_bytes()), Some(pod_id()));
    assert!(WasmModule::<4>::from_slice(&[1, 2, 3]).is_none());
    assert_eq!(WasmModule::<3>::from_slice(&[1, 2, 3]).unwrap().as_bytes(), &[1, 2, 3]);
    let request: Message<WASM_MODULE_SIZE> =
        Message::CreatePodRequest(CreatePodRequest { pod_id: pod_id(), wasm_module: wasm_module() });
    assert_eq!(request.kind(), MessageKind::CreatePodRequest);
    assert!(DeviceId::from_slice(&[7u8; 16]).is_some());
}
