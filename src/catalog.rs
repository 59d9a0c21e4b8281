//! The full message catalogue, pod management included, with the numeric
//! kind of each message.
use vstd::prelude::*;
use vstd::slice::slice_to_vec;
use crate::kubelet::PodId;

verus! {

/// Protocol version of catalogue messages.
#[derive(Debug, Clone, Copy, PartialEq, Eq, Structural)]
pub enum Version {
    V0,
}

impl Version {
    pub fn from_u8(value: u8) -> (r: Option<Self>)
        ensures
            r == (if value == 0 { Some(Version::V0) } else { None::<Version> }),
    {
        match value {
            0 => Some(Version::V0),
            _ => None,
        }
    }

    pub fn as_u8(&self) -> (r: u8)
        ensures
            r == 0,
    {
        match self {
            Version::V0 => 0,
        }
    }
}

/// Liveness signal from a device.
#[derive(Debug, Clone, Copy, PartialEq, Eq, Structural)]
pub enum Heartbeat {
    Heartbeat,
}

impl Heartbeat {
    pub fn from_u8(value: u8) -> (r: Option<Self>)
        ensures
            r == (if value == 0 { Some(Heartbeat::Heartbeat) } else { None::<Heartbeat> }),
    {
        match value {
            0 => Some(Heartbeat::Heartbeat),
            _ => None,
        }
    }

    pub fn as_u8(&self) -> (r: u8)
        ensures
            r == 0,
    {
        match self {
            Heartbeat::Heartbeat => 0,
        }
    }
}

/// Acknowledgement of a heartbeat.
#[derive(Debug, Clone, Copy, PartialEq, Eq, Structural)]
pub enum HeartbeatAcknowledge {
    HeartbeatAcknowledge,
}

impl HeartbeatAcknowledge {
    pub fn from_u8(value: u8) -> (r: Option<Self>)
        ensures
            r == (if value == 0 {
                Some(HeartbeatAcknowledge::HeartbeatAcknowledge)
            } else {
                None::<HeartbeatAcknowledge>
            }),
    {
        match value {
            0 => Some(HeartbeatAcknowledge::HeartbeatAcknowledge),
            _ => None,
        }
    }

    pub fn as_u8(&self) -> (r: u8)
        ensures
            r == 0,
    {
        match self {
            HeartbeatAcknowledge::HeartbeatAcknowledge => 0,
        }
    }
}

/// Direction of a message.
#[derive(Debug, Clone, Copy, PartialEq, Eq, Structural)]
pub enum MessageKind {
    ClientMessage,
    ServerMessage,
}

impl MessageKind {
    pub open spec fn spec_as_u8(self) -> u8 {
        match self {
            MessageKind::ClientMessage => 0,
            MessageKind::ServerMessage => 1,
        }
    }

    pub fn from_u8(value: u8) -> (r: Option<Self>)
        ensures
            r matches Some(k) ==> k.spec_as_u8() == value,
            r is Some == (value < 2),
    {
        match value {
            0 => Some(MessageKind::ClientMessage),
            1 => Some(MessageKind::ServerMessage),
            _ => None,
        }
    }

    pub fn as_u8(&self) -> (r: u8)
        ensures
            r == self.spec_as_u8(),
    {
        match self {
            MessageKind::ClientMessage => 0,
            MessageKind::ServerMessage => 1,
        }
    }
}

/// Kind of a device-to-gateway message.
#[derive(Debug, Clone, Copy, PartialEq, Eq, Structural)]
pub enum ClientMessageKind {
    CreatePodResponse,
    DeletePodResponse,
    Heartbeat,
}

impl ClientMessageKind {
    pub open spec fn spec_as_u8(self) -> u8 {
        match self {
            ClientMessageKind::CreatePodResponse => 0,
            ClientMessageKind::DeletePodResponse => 1,
            ClientMessageKind::Heartbeat => 2,
        }
    }

    pub fn from_u8(value: u8) -> (r: Option<Self>)
        ensures
            r matches Some(k) ==> k.spec_as_u8() == value,
            r is Some == (value < 3),
    {
        match value {
            0 => Some(ClientMessageKind::CreatePodResponse),
            1 => Some(ClientMessageKind::DeletePodResponse),
            2 => Some(ClientMessageKind::Heartbeat),
            _ => None,
        }
    }

    pub fn as_u8(&self) -> (r: u8)
        ensures
            r == self.spec_as_u8(),
    {
        match self {
            ClientMessageKind::CreatePodResponse => 0,
            ClientMessageKind::DeletePodResponse => 1,
            ClientMessageKind::Heartbeat => 2,
        }
    }
}

/// Kind of a gateway-to-device message.
#[derive(Debug, Clone, Copy, PartialEq, Eq, Structural)]
pub enum ServerMessageKind {
    CreatePodRequest,
    DeletePodRequest,
    HeartbeatAcknowledge,
}

impl ServerMessageKind {
    pub open spec fn spec_as_u8(self) -> u8 {
        match self {
            ServerMessageKind::CreatePodRequest => 0,
            ServerMessageKind::DeletePodRequest => 1,
            ServerMessageKind::HeartbeatAcknowledge => 2,
        }
    }

    pub fn from_u8(value: u8) -> (r: Option<Self>)
        ensures
            r matches Some(k) ==> k.spec_as_u8() == value,
            r is Some == (value < 3),
    {
        match value {
            0 => Some(ServerMessageKind::CreatePodRequest),
            1 => Some(ServerMessageKind::DeletePodRequest),
            2 => Some(ServerMessageKind::HeartbeatAcknowledge),
            _ => None,
        }
    }

    pub fn as_u8(&self) -> (r: u8)
        ensures
            r == self.spec_as_u8(),
    {
        match self {
            ServerMessageKind::CreatePodRequest => 0,
            ServerMessageKind::DeletePodRequest => 1,
            ServerMessageKind::HeartbeatAcknowledge => 2,
        }
    }
}

/// Outcome of a pod operation on a device.
#[derive(Debug, Clone, Copy, PartialEq, Eq, Structural)]
pub enum ClientPodResult {
    Success,
    Failure,
}

impl ClientPodResult {
    pub open spec fn spec_as_u8(self) -> u8 {
        match self {
            ClientPodResult::Success => 0,
            ClientPodResult::Failure => 1,
        }
    }

    pub fn from_u8(value: u8) -> (r: Option<Self>)
        ensures
            r matches Some(k) ==> k.spec_as_u8() == value,
            r is Some == (value < 2),
    {
        match value {
            0 => Some(ClientPodResult::Success),
            1 => Some(ClientPodResult::Failure),
            _ => None,
        }
    }

    pub fn as_u8(&self) -> (r: u8)
        ensures
            r == self.spec_as_u8(),
    {
        match self {
            ClientPodResult::Success => 0,
            ClientPodResult::Failure => 1,
        }
    }
}

/// A WebAssembly module of any size.
#[derive(Debug, Clone, PartialEq, Eq)]
pub struct WasmModule(Vec<u8>);

impl View for WasmModule {
    type V = Seq<u8>;

    closed spec fn view(&self) -> Seq<u8> {
        self.0@
    }
}

impl WasmModule {
    pub fn from_slice(bytes: &[u8]) -> (r: Self)
        ensures
            r@ == bytes@,
    {
        WasmModule(slice_to_vec(bytes))
    }

    pub fn as_slice(&self) -> (r: &[u8])
        ensures
            r@ == self@,
    {
        self.0.as_slice()
    }
}

/// Request to create a pod running a module.
#[derive(Debug, Clone, PartialEq, Eq)]
pub struct CreatePodRequest {
    pub pod_id: PodId,
    pub wasm_module: WasmModule,
}

/// Request to delete a pod.
#[derive(Debug, Clone, PartialEq, Eq)]
pub struct DeletePodRequest {
    pub pod_id: PodId,
}

/// Answer to a pod creation request.
#[derive(Debug, Clone, PartialEq, Eq)]
pub struct CreatePodResponse {
    pub pod_id: PodId,
    pub result: ClientPodResult,
}

/// Answer to a pod deletion request.
#[derive(Debug, Clone, PartialEq, Eq)]
pub struct DeletePodResponse {
    pub pod_id: PodId,
    pub result: ClientPodResult,
}

/// Device-to-gateway messages.
#[derive(Debug, Clone, PartialEq, Eq)]
pub enum ClientMessage {
    CreatePodResponse(CreatePodResponse),
    DeletePodResponse(DeletePodResponse),
    Heartbeat(Heartbeat),
}

impl ClientMessage {
    pub open spec fn spec_kind(&self) -> ClientMessageKind {
        match self {
            ClientMessage::CreatePodResponse(_) => ClientMessageKind::CreatePodResponse,
            ClientMessage::DeletePodResponse(_) => ClientMessageKind::DeletePodResponse,
            ClientMessage::Heartbeat(_) => ClientMessageKind::Heartbeat,
        }
    }

    pub fn kind(&self) -> (r: ClientMessageKind)
        ensures
            r == self.spec_kind(),
    {
        match self {
            ClientMessage::CreatePodResponse(_) => ClientMessageKind::CreatePodResponse,
            ClientMessage::DeletePodResponse(_) => ClientMessageKind::DeletePodResponse,
            ClientMessage::Heartbeat(_) => ClientMessageKind::Heartbeat,
        }
    }
}

/// Gateway-to-device messages.
#[derive(Debug, Clone, PartialEq, Eq)]
pub enum ServerMessage {
    CreatePodRequest(CreatePodRequest),
    DeletePodRequest(DeletePodRequest),
    HeartbeatAcknowledge(HeartbeatAcknowledge),
}

impl ServerMessage {
    pub open spec fn spec_kind(&self) -> ServerMessageKind {
        match self {
            ServerMessage::CreatePodRequest(_) => ServerMessageKind::CreatePodRequest,
            ServerMessage::DeletePodRequest(_) => ServerMessageKind::DeletePodRequest,
            ServerMessage::HeartbeatAcknowledge(_) => ServerMessageKind::HeartbeatAcknowledge,
        }
    }

    pub fn kind(&self) -> (r: ServerMessageKind)
        ensures
            r == self.spec_kind(),
    {
        match self {
            ServerMessage::CreatePodRequest(_) => ServerMessageKind::CreatePodRequest,
            ServerMessage::DeletePodRequest(_) => ServerMessageKind::DeletePodRequest,
            ServerMessage::HeartbeatAcknowledge(_) => ServerMessageKind::HeartbeatAcknowledge,
        }
    }
}

/// A message in either direction.
#[derive(Debug, Clone, PartialEq, Eq)]
pub enum Message {
    ClientMessage(ClientMessage),
    ServerMessage(ServerMessage),
}

impl Message {
    pub open spec fn spec_kind(&self) -> MessageKind {
        match self {
            Message::ClientMessage(_) => MessageKind::ClientMessage,
            Message::ServerMessage(_) => MessageKind::ServerMessage,
        }
    }

    pub fn kind(&self) -> (r: MessageKind)
        ensures
            r == self.spec_kind(),
    {
        match self {
            Message::ClientMessage(_) => MessageKind::ClientMessage,
            Message::ServerMessage(_) => MessageKind::ServerMessage,
        }
    }
}

/// A versioned catalogue message.
#[derive(Debug, Clone, PartialEq, Eq)]
pub struct Envelope {
    pub version: Version,
    pub body: Message,
}

} // verus!
