//! Device side of the protocol: heartbeat requests with fresh identifiers and
//! the check of the gateway's answer.
use vstd::prelude::*;
use vstd::slice::slice_subrange;
use crate::cbor::be_value;
use crate::codec::{spec_decode_envelope, spec_encode_envelope};
use crate::frame::{decode_frame_body, encode_frame, frame_length, spec_frame, MAX_MESSAGE_SIZE, PREFIX_LEN};
use crate::protocol::{spec_next_id, ClientEnvelope, ClientMessage, Envelope, MessageId, ServerMessage, Version};

verus! {

/// Why a device-side exchange failed.
#[derive(Debug, Clone, Copy, PartialEq, Eq, Structural)]
pub enum ClientError {
    HeartbeatFailed,
    AuthenticationFailed,
    Timeout,
    BufferOverflow,
    NotConnected,
    InvalidConfiguration,
    /// A well-formed answer that does not acknowledge the request.
    UnexpectedResponse,
    /// An answer that is not a frame holding an envelope.
    InvalidResponse,
}

/// The heartbeat envelope with identifier `id`.
pub open spec fn spec_heartbeat(id: MessageId) -> ClientEnvelope {
    Envelope { version: Version::V0, message_id: id, message: ClientMessage::Heartbeat }
}

/// The verdict on a decoded answer to the heartbeat with identifier `sent`.
pub open spec fn spec_check_answer(sent: MessageId, body: Seq<u8>) -> Result<(), ClientError> {
    match spec_decode_envelope::<ServerMessage>(body) {
        Err(_) => Err(ClientError::InvalidResponse),
        Ok(e) => if e.version == Version::V0 && e.message_id == sent && e.message
            == ServerMessage::HeartbeatAck {
            Ok(())
        } else {
            Err(ClientError::UnexpectedResponse)
        },
    }
}

/// The verdict on a received frame that answers the heartbeat `sent`.
pub open spec fn spec_heartbeat_response(sent: MessageId, frame: Seq<u8>) -> Result<(), ClientError> {
    if frame.len() < 4 {
        Err(ClientError::InvalidResponse)
    } else {
        let len = be_value(frame.subrange(0, 4));
        if len > MAX_MESSAGE_SIZE || 4 + len > frame.len() {
            Err(ClientError::InvalidResponse)
        } else {
            spec_check_answer(sent, frame.subrange(4, 4 + len as int))
        }
    }
}

/// Protocol state of a device connection.
pub struct Client {
    next_id: MessageId,
}

impl Client {
    /// The identifier the next request will carry.
    pub closed spec fn spec_next(&self) -> MessageId {
        self.next_id
    }

    pub fn new() -> (r: Client)
        ensures
            r.spec_next() == MessageId(0),
    {
        Client { next_id: MessageId(0) }
    }

    /// The frame of the next heartbeat, with the identifier it carries.
    pub fn heartbeat_request(&mut self) -> (r: (MessageId, Vec<u8>))
        ensures
            r.0 == old(self).spec_next(),
            r.1@ == spec_frame(spec_encode_envelope(spec_heartbeat(r.0))),
            final(self).spec_next() == spec_next_id(old(self).spec_next()),
    {
        let sent = self.next_id;
        let envelope = Envelope { version: Version::V0, message_id: sent, message: ClientMessage::Heartbeat };
        self.next_id = self.next_id.next();
        (sent, encode_frame(&envelope))
    }
}

/// Checks the body of the answer to the heartbeat `sent`: it must be an
/// acknowledgement in version V0 that carries the same identifier.
pub fn check_heartbeat_answer(sent: MessageId, body: &[u8]) -> (r: Result<(), ClientError>)
    ensures
        r == spec_check_answer(sent, body@),
{
    match decode_frame_body::<ServerMessage>(body) {
        Err(_) => Err(ClientError::InvalidResponse),
        Ok(e) => {
            if e.version == Version::V0 && e.message_id.0 == sent.0 && e.message == ServerMessage::HeartbeatAck {
                Ok(())
            } else {
                Err(ClientError::UnexpectedResponse)
            }
        },
    }
}

/// Checks a received frame, prefix included, that answers the heartbeat
/// `sent`.
pub fn heartbeat_response(sent: MessageId, frame: &[u8]) -> (r: Result<(), ClientError>)
    ensures
        r == spec_heartbeat_response(sent, frame@),
{
    if frame.len() < PREFIX_LEN {
        return Err(ClientError::InvalidResponse);
    }
    let prefix: [u8; 4] = [frame[0], frame[1], frame[2], frame[3]];
    assert(prefix@ =~= frame@.subrange(0, 4));
    let len = match frame_length(prefix) {
        Ok(n) => n,
        Err(_) => return Err(ClientError::InvalidResponse),
    };
    if len > frame.len() - PREFIX_LEN {
        return Err(ClientError::InvalidResponse);
    }
    let body = slice_subrange(frame, PREFIX_LEN, PREFIX_LEN + len);
    check_heartbeat_answer(sent, body)
}

} // verus!
