use std::cell::RefCell;
use std::rc::Rc;

use wasmbed::device::{heartbeat_response, Client};
use wasmbed::frame::{decode_frame_body, encode_frame, frame_length};
use wasmbed::identity::{peer_identity, PublicKey};
use wasmbed::protocol::{ClientEnvelope, Envelope, MessageId, ServerEnvelope, ServerMessage, Version};
use wasmbed::registry::{
    authorization_for, DevicePhase, DeviceRecord, DeviceStatusUpdate, GatewayReference,
    MemoryRegistry, RegistryError, Timestamp,
};
use wasmbed::server::{answer_for, AuthorizationResult, MessageContext, OutboundSender, Server};
use wasmbed::session::{Session, SessionAction, SessionEvent, SessionPhase};

#[derive(Clone)]
struct Queue(Rc<RefCell<Vec<ServerEnvelope>>>);

impl OutboundSender for Queue {
    fn send_envelope(&self, envelope: ServerEnvelope) -> Result<(), ServerEnvelope> {
        self.0.borrow_mut().push(envelope);
        Ok(())
    }
}

const CERT: [u8; 209] = [
    0x30, 0x81, 0xce, 0x30, 0x81, 0x81, 0xa0, 0x03, 0x02, 0x01, 0x02, 0x02, 0x01, 0x01, 0x30, 0x05,
    0x06, 0x03, 0x2b, 0x65, 0x70, 0x30, 0x11, 0x31, 0x0f, 0x30, 0x0d, 0x06, 0x03, 0x55, 0x04, 0x03,
    0x0c, 0x06, 0x64, 0x65, 0x76, 0x69, 0x63, 0x65, 0x30, 0x1e, 0x17, 0x0d, 0x32, 0x35, 0x30, 0x31,
    0x30, 0x31, 0x30, 0x30, 0x30, 0x30, 0x30, 0x30, 0x5a, 0x17, 0x0d, 0x33, 0x35, 0x30, 0x31, 0x30,
    0x31, 0x30, 0x30, 0x30, 0x30, 0x30, 0x30, 0x5a, 0x30, 0x11, 0x31, 0x0f, 0x30, 0x0d, 0x06, 0x03,
    0x55, 0x04, 0x03, 0x0c, 0x06, 0x64, 0x65, 0x76, 0x69, 0x63, 0x65, 0x30, 0x2a, 0x30, 0x05, 0x06,
    0x03, 0x2b, 0x65, 0x70, 0x03, 0x21, 0x00, 0x03, 0xa1, 0x07, 0xbf, 0xf3, 0xce, 0x10, 0xbe, 0x1d,
    0x70, 0xdd, 0x18, 0xe7, 0x4b, 0xc0, 0x99, 0x67, 0xe4, 0xd6, 0x30, 0x9b, 0xa5, 0x0d, 0x5f, 0x1d,
    0xdc, 0x86, 0x64, 0x12, 0x55, 0x31, 0xb8, 0x30, 0x05, 0x06, 0x03, 0x2b, 0x65, 0x70, 0x03, 0x41,
    0x00, 0x3a, 0x1c, 0x09, 0x29, 0x57, 0xd6, 0x94, 0x82, 0x11, 0x79, 0x6c, 0xee, 0x6d, 0xf4, 0x34,
    0x0e, 0x17, 0x44, 0x2b, 0xe7, 0x50, 0x79, 0xc1, 0x9a, 0xda, 0x1e, 0x58, 0x89, 0x42, 0x2e, 0x05,
    0x28, 0xc0, 0xbb, 0xe6, 0x0f, 0xcc, 0x58, 0xa9, 0x18, 0x6b, 0xbc, 0xa5, 0xf4, 0x2a, 0x77, 0xe2,
    0x46, 0xa5, 0x99, 0x5c, 0x66, 0xf9, 0x6b, 0xe5, 0xd3, 0xc1, 0xd1, 0xbe, 0x00, 0xef, 0xc4, 0x92,
    0x06,
];

const SPKI: [u8; 44] = [
    0x30, 0x2a, 0x30, 0x05, 0x06, 0x03, 0x2b, 0x65, 0x70, 0x03, 0x21, 0x00, 0x03, 0xa1, 0x07, 0xbf,
    0xf3, 0xce, 0x10, 0xbe, 0x1d, 0x70, 0xdd, 0x18, 0xe7, 0x4b, 0xc0, 0x99, 0x67, 0xe4, 0xd6, 0x30,
    0x9b, 0xa5, 0x0d, 0x5f, 0x1d, 0xdc, 0x86, 0x64, 0x12, 0x55, 0x31, 0xb8,
];

fn registry_with(key: &[u8]) -> MemoryRegistry {
    let mut r = MemoryRegistry::new();
    r.add(DeviceRecord { name: Some("device-0".to_string()), public_key: PublicKey::from_slice(key), status: None });
    r
}

fn lookup(r: &MemoryRegistry, key: &PublicKey) -> Result<Option<DeviceRecord>, RegistryError> {
    Ok(r.find_by_identity(key).map(|i| r.record(i).clone()))
}

#[test]
fn authorized_heartbeat_scenario() {
    let mut registry = registry_with(&SPKI);
    let key = peer_identity(&vec![CERT.to_vec()]).unwrap();
    let mut server: Server<Queue> = Server::new();
    let mut session = Session::new();
    assert_eq!(session.step(SessionEvent::Handshaken), SessionAction::Authorize);
    let found = lookup(&registry, &key);
    let answer = authorization_for(&found);
    assert_eq!(answer, AuthorizationResult::Authorized);
    let i = registry.find_by_identity(&key).unwrap();
    let connected = DeviceStatusUpdate::new()
        .mark_connected(GatewayReference::new("ns", "gw"), Timestamp { millis: 5 });
    assert_eq!(registry.update_status(i, connected), Ok(()));
    assert_eq!(session.step(SessionEvent::Authorization(answer)), SessionAction::Register);
    let queue = Queue(Rc::new(RefCell::new(Vec::new())));
    server.register_client(key.clone(), queue.clone());

    let inbound_frame = [0, 0, 0, 5, 0x83, 0x00, 0x01, 0x81, 0x00];
    let len = frame_length([inbound_frame[0], inbound_frame[1], inbound_frame[2], inbound_frame[3]]).unwrap();
    let inbound: ClientEnvelope = decode_frame_body(&inbound_frame[4..4 + len]).unwrap();
    assert_eq!(inbound.message_id, MessageId(1));
    assert_eq!(session.step(SessionEvent::Inbound), SessionAction::Dispatch);
    let ctx = MessageContext::new(inbound, server.client(&key).unwrap().clone());
    assert_eq!(ctx.reply(answer_for(ctx.message())), Ok(()));

    let sent = queue.0.borrow().clone();
    assert_eq!(
        sent,
        vec![Envelope { version: Version::V0, message_id: MessageId(1), message: ServerMessage::HeartbeatAck }]
    );
    let outbound_frame = encode_frame(&sent[0]);
    assert_eq!(heartbeat_response(MessageId(1), &outbound_frame), Ok(()));

    assert_eq!(session.step(SessionEvent::Stopped), SessionAction::Unregister);
    server.unregister_client(&key);
    assert!(server.client(&key).is_none());
    let mut disconnects = 0;
    for event in [SessionEvent::Unregistered, SessionEvent::Unregistered, SessionEvent::Stopped] {
        if session.step(event) == SessionAction::NotifyDisconnect {
            disconnects += 1;
        }
    }
    assert_eq!(disconnects, 1);
    assert_eq!(registry.update_status(i, DeviceStatusUpdate::new().mark_disconnected()), Ok(()));
    assert_eq!(registry.record(i).status.as_ref().unwrap().phase, DevicePhase::Disconnected);
}

#[test]
fn unauthorized_peer_scenario() {
    let registry = registry_with(&[9, 9, 9]);
    let key = peer_identity(&vec![CERT.to_vec()]).unwrap();
    let mut session = Session::new();
    assert_eq!(session.step(SessionEvent::Handshaken), SessionAction::Authorize);
    let answer = authorization_for(&lookup(&registry, &key));
    assert_eq!(answer, AuthorizationResult::Unauthorized);
    assert_eq!(session.step(SessionEvent::Authorization(answer)), SessionAction::Abort);
    assert_eq!(session.phase(), SessionPhase::Closed);
    assert_eq!(session.step(SessionEvent::Unregistered), SessionAction::Idle);
    assert!(registry.record(0).status.is_none());
}

#[test]
fn graceful_shutdown_scenario() {
    let mut server: Server<Queue> = Server::new();
    let keys = [PublicKey::from_slice(&[1]), PublicKey::from_slice(&[2])];
    let queues = [Queue(Rc::new(RefCell::new(Vec::new()))), Queue(Rc::new(RefCell::new(Vec::new())))];
    let mut sessions = [Session::new(), Session::new()];
    for (n, s) in sessions.iter_mut().enumerate() {
        s.step(SessionEvent::Handshaken);
        s.step(SessionEvent::Authorization(AuthorizationResult::Authorized));
        server.register_client(keys[n].clone(), queues[n].clone());
    }
    for _ in 0..2 {
        assert!(server.send(&keys[0], ServerMessage::HeartbeatAck).is_ok());
    }
    assert!(server.send(&keys[1], ServerMessage::HeartbeatAck).is_ok());
    let mut disconnects = 0;
    for (n, s) in sessions.iter_mut().enumerate() {
        assert_eq!(s.step(SessionEvent::Stopped), SessionAction::Unregister);
        server.unregister_client(&keys[n]);
        if s.step(SessionEvent::Unregistered) == SessionAction::NotifyDisconnect {
            disconnects += 1;
        }
    }
    assert_eq!(disconnects, 2);
    assert_eq!(queues[0].0.borrow().len() + queues[1].0.borrow().len(), 3);
    let ids: Vec<u32> = queues[0].0.borrow().iter().map(|e| e.message_id.0).collect();
    assert_eq!(ids, vec![1, 2]);
    assert!(server.send(&keys[0], ServerMessage::HeartbeatAck).is_err());
}

#[test]
fn unnamed_record_is_not_updated() {
    let mut r = MemoryRegistry::new();
    r.add(DeviceRecord { name: None, public_key: PublicKey::from_slice(&SPKI), status: None });
    let i = r.find_by_identity(&PublicKey::from_slice(&SPKI)).unwrap();
    assert_eq!(r.update_status(i, DeviceStatusUpdate::new().mark_disconnected()), Err(RegistryError::Unnamed));
    assert!(r.record(i).status.is_none());
    assert!(r.find_by_identity(&PublicKey::from_slice(&[0])).is_none());
}
