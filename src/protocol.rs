//! Protocol data: the versioned, correlation-tracked envelope and the
//! directional payloads carried inside it.
use vstd::prelude::*;

verus! {

/// Protocol version carried in every envelope.
#[derive(Debug, Clone, Copy, PartialEq, Eq, Structural)]
pub enum Version {
    V0,
}

impl Version {
    /// Numeric form of the version on the wire.
    pub open spec fn spec_as_u8(self) -> u8 {
        match self {
            Version::V0 => 0,
        }
    }

    /// The version with the given number, if it is known.
    pub open spec fn spec_from_u64(value: u64) -> Option<Version> {
        if value == 0 {
            Some(Version::V0)
        } else {
            None
        }
    }

    pub fn from_u8(value: u8) -> (r: Option<Self>)
        ensures
            r == Self::spec_from_u64(value as u64),
    {
        match value {
            0 => Some(Version::V0),
            _ => None,
        }
    }

    pub fn as_u8(&self) -> (r: u8)
        ensures
            r == self.spec_as_u8(),
    {
        match self {
            Version::V0 => 0,
        }
    }
}

/// Identifier used to correlate a request with its response; it wraps on
/// overflow.
#[derive(Debug, Clone, Copy, PartialEq, Eq, Structural)]
pub struct MessageId(pub u32);

/// The identifier that follows `id`, modulo 2^32.
pub open spec fn spec_next_id(id: MessageId) -> MessageId {
    MessageId(((id.0 as int + 1) % 0x1_0000_0000) as u32)
}

impl MessageId {
    pub fn next(&self) -> (r: Self)
        ensures
            r == spec_next_id(*self),
    {
        MessageId(self.0.wrapping_add(1))
    }
}

impl Default for MessageId {
    fn default() -> (r: Self)
        ensures
            r == MessageId(0),
    {
        MessageId(0)
    }
}

/// Messages sent from a device to a gateway.
#[derive(Debug, Clone, Copy, PartialEq, Eq, Structural)]
pub enum ClientMessage {
    /// Periodic liveness signal.
    Heartbeat,
}

/// Messages sent from a gateway to a device.
#[derive(Debug, Clone, Copy, PartialEq, Eq, Structural)]
pub enum ServerMessage {
    /// Acknowledgement of a device heartbeat.
    HeartbeatAck,
}

/// A message together with its protocol version and correlation identifier.
#[derive(Debug, Clone, Copy, PartialEq, Eq)]
pub struct Envelope<T> {
    pub version: Version,
    pub message_id: MessageId,
    pub message: T,
}

/// Envelope of a device-to-gateway message.
pub type ClientEnvelope = Envelope<ClientMessage>;

/// Envelope of a gateway-to-device message.
pub type ServerEnvelope = Envelope<ServerMessage>;

} // verus!
