use std::cell::RefCell;
use std::rc::Rc;

use wasmbed::identity::PublicKey;
use wasmbed::protocol::{ClientMessage, Envelope, MessageId, ServerEnvelope, ServerMessage, Version};
use wasmbed::server::{
    delivery_outcome, reply_outcome, unsolicited_envelope, AuthorizationResult, MessageContext,
    MessageDeliveryError, OutboundSender, ReplyError, Server,
};
use wasmbed::session::{Session, SessionAction, SessionEvent, SessionPhase};
use wasmbed::table::ClientTable;

#[derive(Clone)]
struct Queue {
    sent: Rc<RefCell<Vec<ServerEnvelope>>>,
    open: bool,
}

impl Queue {
    fn new(open: bool) -> Self {
        Queue { sent: Rc::new(RefCell::new(Vec::new())), open }
    }
}

impl OutboundSender for Queue {
    fn send_envelope(&self, envelope: ServerEnvelope) -> Result<(), ServerEnvelope> {
        if self.open {
            self.sent.borrow_mut().push(envelope);
            Ok(())
        } else {
            Err(envelope)
        }
    }
}

fn key(b: u8) -> PublicKey {
    PublicKey::from_bytes(vec![b, b, b])
}

#[test]
fn table_keeps_one_entry_per_identity() {
    let mut t: ClientTable<u32> = ClientTable::new();
    t.register(key(1), 10);
    t.register(key(2), 20);
    t.register(key(1), 11);
    assert_eq!(t.get(&key(1)), Some(&11));
    assert_eq!(t.get(&key(2)), Some(&20));
    t.unregister(&key(1));
    assert_eq!(t.get(&key(1)), None);
    assert!(t.contains(&key(2)));
    t.unregister(&key(3));
    assert!(!t.contains(&key(3)));
}

#[test]
fn send_allocates_increasing_identifiers() {
    let mut server: Server<Queue> = Server::new();
    let q = Queue::new(true);
    server.register_client(key(1), q.clone());
    assert_eq!(server.send(&key(1), ServerMessage::HeartbeatAck).ok(), Some(MessageId(1)));
    assert_eq!(server.send(&key(1), ServerMessage::HeartbeatAck).ok(), Some(MessageId(2)));
    let sent = q.sent.borrow();
    assert_eq!(sent.len(), 2);
    assert_eq!(sent[0].message_id, MessageId(1));
    assert_eq!(sent[1].message_id, MessageId(2));
    assert_eq!(sent[1].version, Version::V0);
}

#[test]
fn send_to_unknown_or_closed_peer_fails() {
    let mut server: Server<Queue> = Server::new();
    match server.send(&key(9), ServerMessage::HeartbeatAck) {
        Err(MessageDeliveryError::ClientNotFound(k)) => assert_eq!(k, key(9)),
        _ => panic!("expected ClientNotFound"),
    }
    server.register_client(key(1), Queue::new(false));
    match server.send(&key(1), ServerMessage::HeartbeatAck) {
        Err(MessageDeliveryError::SendError(e)) => assert_eq!(
            e,
            Envelope { version: Version::V0, message_id: MessageId(2), message: ServerMessage::HeartbeatAck }
        ),
        _ => panic!("expected SendError"),
    }
    server.unregister_client(&key(1));
    assert!(matches!(
        server.send(&key(1), ServerMessage::HeartbeatAck),
        Err(MessageDeliveryError::ClientNotFound(_))
    ));
    assert_eq!(server.next_message_id(), MessageId(4));
}

#[test]
fn reply_carries_inbound_identifier() {
    let q = Queue::new(true);
    let inbound = Envelope { version: Version::V0, message_id: MessageId(1), message: ClientMessage::Heartbeat };
    let ctx = MessageContext::new(inbound, q.clone());
    assert_eq!(ctx.message(), ClientMessage::Heartbeat);
    assert_eq!(ctx.message_id(), MessageId(1));
    assert_eq!(ctx.reply(ServerMessage::HeartbeatAck), Ok(()));
    assert_eq!(ctx.reply(ServerMessage::HeartbeatAck), Ok(()));
    let sent = q.sent.borrow();
    assert_eq!(
        sent[0],
        Envelope { version: Version::V0, message_id: MessageId(1), message: ServerMessage::HeartbeatAck }
    );
    assert_eq!(sent.len(), 2);
    let gone = MessageContext::new(inbound, Queue::new(false));
    assert_eq!(
        gone.reply(ServerMessage::HeartbeatAck),
        Err(ReplyError::PeerGone(Envelope {
            version: Version::V0,
            message_id: MessageId(1),
            message: ServerMessage::HeartbeatAck,
        }))
    );
    assert_eq!(reply_outcome(Ok(())), Ok(()));
    assert_eq!(delivery_outcome(MessageId(5), Ok(())).ok(), Some(MessageId(5)));
    assert_eq!(
        unsolicited_envelope(MessageId(9), ServerMessage::HeartbeatAck),
        Envelope { version: Version::V0, message_id: MessageId(9), message: ServerMessage::HeartbeatAck }
    );
}

#[test]
fn authorized_session_disconnects_once() {
    let mut s = Session::new();
    assert_eq!(s.step(SessionEvent::Handshaken), SessionAction::Authorize);
    assert_eq!(s.step(SessionEvent::Authorization(AuthorizationResult::Authorized)), SessionAction::Register);
    assert_eq!(s.step(SessionEvent::Inbound), SessionAction::Dispatch);
    assert_eq!(s.step(SessionEvent::Stopped), SessionAction::Unregister);
    assert_eq!(s.phase(), SessionPhase::Closing);
    assert_eq!(s.step(SessionEvent::Unregistered), SessionAction::NotifyDisconnect);
    assert_eq!(s.phase(), SessionPhase::Closed);
    assert_eq!(s.step(SessionEvent::Unregistered), SessionAction::Idle);
    assert_eq!(s.step(SessionEvent::Stopped), SessionAction::Idle);
}

#[test]
fn unauthorized_session_closes_silently() {
    let mut s = Session::new();
    assert_eq!(s.step(SessionEvent::Handshaken), SessionAction::Authorize);
    assert_eq!(s.step(SessionEvent::Authorization(AuthorizationResult::Unauthorized)), SessionAction::Abort);
    assert_eq!(s.phase(), SessionPhase::Closed);
    assert_eq!(s.step(SessionEvent::Unregistered), SessionAction::Idle);
    let mut h = Session::new();
    assert_eq!(h.step(SessionEvent::IdentityMissing), SessionAction::Abort);
    let mut f = Session::new();
    assert_eq!(f.step(SessionEvent::HandshakeFailed), SessionAction::Abort);
    assert_eq!(f.phase(), SessionPhase::Closed);
}

