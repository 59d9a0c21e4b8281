//! The gateway's shared state: the client table and the identifier counter
//! for unsolicited messages, with the reply capability handed to inbound
//! message handlers.
use vstd::prelude::*;
use crate::identity::PublicKey;
use crate::protocol::{
    spec_next_id, ClientEnvelope, ClientMessage, Envelope, MessageId, ServerEnvelope,
    ServerMessage, Version,
};
use crate::table::ClientTable;

verus! {

/// Answer of the connect callback.
#[derive(Debug, Clone, Copy, PartialEq, Eq, Structural)]
pub enum AuthorizationResult {
    Authorized,
    Unauthorized,
}

/// Producer side of a session's outbound channel.
pub trait OutboundSender {
    /// Hands an envelope to the session's writer, or gives it back when the
    /// writer has gone.
    fn send_envelope(&self, envelope: ServerEnvelope) -> Result<(), ServerEnvelope>;
}

/// Why an unsolicited message was not delivered.
#[derive(Debug)]
pub enum MessageDeliveryError {
    /// The identity has no live session.
    ClientNotFound(PublicKey),
    /// The session's outbound channel was closed; carries the envelope that
    /// was handed to it.
    SendError(ServerEnvelope),
}

/// Why a reply was not delivered.
#[derive(Debug, Clone, Copy, PartialEq, Eq)]
pub enum ReplyError {
    /// The session has ended; carries the envelope that was handed to it.
    PeerGone(ServerEnvelope),
}

/// An inbound envelope together with the capability to answer it on the
/// session it arrived on.
pub struct MessageContext<S> {
    envelope: ClientEnvelope,
    sender: S,
}

/// The envelope that answers `inbound` with `message`: same version, same
/// identifier.
pub open spec fn spec_reply(inbound: ClientEnvelope, message: ServerMessage) -> ServerEnvelope {
    Envelope { version: inbound.version, message_id: inbound.message_id, message }
}

impl<S> MessageContext<S> {
    /// The inbound envelope.
    pub closed spec fn spec_envelope(&self) -> ClientEnvelope {
        self.envelope
    }

    pub fn new(envelope: ClientEnvelope, sender: S) -> (r: Self)
        ensures
            r.spec_envelope() == envelope,
    {
        MessageContext { envelope, sender }
    }

    /// The inbound message.
    pub fn message(&self) -> (r: ClientMessage)
        ensures
            r == self.spec_envelope().message,
    {
        self.envelope.message
    }

    /// Identifier of the inbound envelope.
    pub fn message_id(&self) -> (r: MessageId)
        ensures
            r == self.spec_envelope().message_id,
    {
        self.envelope.message_id
    }

    /// The envelope that a reply with `message` enqueues: it carries the
    /// inbound version and identifier.
    pub fn reply_envelope(&self, message: ServerMessage) -> (r: ServerEnvelope)
        ensures
            r == spec_reply(self.spec_envelope(), message),
            r.message_id == self.spec_envelope().message_id,
            r.version == self.spec_envelope().version,
    {
        Envelope { version: self.envelope.version, message_id: self.envelope.message_id, message }
    }
}

/// Result of a reply from what the session's sender answered: `Ok` when it
/// took the envelope, `PeerGone` with the envelope when it gave it back.
pub fn reply_outcome(handed: Result<(), ServerEnvelope>) -> (r: Result<(), ReplyError>)
    ensures
        handed is Ok ==> r == Ok::<(), ReplyError>(()),
        handed matches Err(e) ==> r == Err::<(), ReplyError>(ReplyError::PeerGone(e)),
{
    match handed {
        Ok(()) => Ok(()),
        Err(e) => Err(ReplyError::PeerGone(e)),
    }
}

impl<S: OutboundSender> MessageContext<S> {
    /// Hands `reply_envelope(message)`, unchanged, to the sender of the
    /// session the inbound message arrived on; the result is
    /// `reply_outcome` of its answer.
    pub fn reply(&self, message: ServerMessage) -> (r: Result<(), ReplyError>)
        ensures
            r is Ok || r == Err::<(), ReplyError>(
                ReplyError::PeerGone(spec_reply(self.spec_envelope(), message)),
            ),
    {
        let envelope = self.reply_envelope(message);
        let handed = self.sender.send_envelope(envelope);
        match handed {
            Ok(()) => reply_outcome(handed),
            Err(back) => {
                let _ = back;
                reply_outcome(Err(envelope))
            },
        }
    }
}

/// The envelope of an unsolicited message: version V0, the allocated
/// identifier, the message.
pub open spec fn spec_unsolicited(message_id: MessageId, message: ServerMessage) -> ServerEnvelope {
    Envelope { version: Version::V0, message_id, message }
}

pub fn unsolicited_envelope(message_id: MessageId, message: ServerMessage) -> (r: ServerEnvelope)
    ensures
        r == spec_unsolicited(message_id, message),
{
    Envelope { version: Version::V0, message_id, message }
}

/// Result of an unsolicited send from what the session's sender answered:
/// the identifier when it took the envelope, `SendError` with the envelope
/// when it gave it back.
pub fn delivery_outcome(message_id: MessageId, handed: Result<(), ServerEnvelope>) -> (r: Result<MessageId, MessageDeliveryError>)
    ensures
        handed is Ok ==> r == Ok::<MessageId, MessageDeliveryError>(message_id),
        handed matches Err(e) ==> (r matches Err(MessageDeliveryError::SendError(f)) && f == e),
{
    match handed {
        Ok(()) => Ok(message_id),
        Err(e) => Err(MessageDeliveryError::SendError(e)),
    }
}

/// The gateway's answer to an inbound message.
pub fn answer_for(message: ClientMessage) -> (r: ServerMessage)
    ensures
        message == ClientMessage::Heartbeat ==> r == ServerMessage::HeartbeatAck,
{
    match message {
        ClientMessage::Heartbeat => ServerMessage::HeartbeatAck,
    }
}

/// The identifier `n` allocations after `start`.
pub open spec fn nth_id(start: MessageId, n: nat) -> MessageId
    decreases n,
{
    if n == 0 {
        start
    } else {
        spec_next_id(nth_id(start, (n - 1) as nat))
    }
}

/// Successive allocations count up by one modulo 2^32: the `n`-th identifier
/// after `start` is `start + n` wrapped to 32 bits, so any 2^32 successive
/// identifiers are distinct.
pub proof fn lemma_allocation_order(start: MessageId, n: nat)
    ensures
        nth_id(start, n).0 as int == (start.0 as int + n) % 0x1_0000_0000,
    decreases n,
{
    if n > 0 {
        lemma_allocation_order(start, (n - 1) as nat);
        let p = nth_id(start, (n - 1) as nat).0 as int;
        let m = 0x1_0000_0000int;
        assert(p == (start.0 as int + n - 1) % m);
        assert((p + 1) % m == (start.0 as int + n) % m) by (nonlinear_arith)
            requires p == (start.0 as int + n - 1) % m, m == 0x1_0000_0000int, n >= 1;
    }
}

/// Gateway state shared by all sessions.
pub struct Server<S> {
    clients: ClientTable<S>,
    last_message_id: MessageId,
}

impl<S> Server<S> {
    pub closed spec fn clients(&self) -> ClientTable<S> {
        self.clients
    }

    /// The identifier most recently allocated, zero before the first.
    pub closed spec fn last_id(&self) -> MessageId {
        self.last_message_id
    }

    pub open spec fn wf(&self) -> bool {
        self.clients().wf()
    }

    pub fn new() -> (r: Self)
        ensures
            r.wf(),
            r.clients()@ == Map::<Seq<u8>, S>::empty(),
            r.last_id() == MessageId(0),
    {
        Server { clients: ClientTable::new(), last_message_id: MessageId(0) }
    }

    /// Records the sender of a newly authorized session.
    pub fn register_client(&mut self, key: PublicKey, sender: S)
        requires
            old(self).wf(),
        ensures
            final(self).wf(),
            final(self).clients()@ == old(self).clients()@.insert(key@, sender),
            final(self).last_id() == old(self).last_id(),
    {
        self.clients.register(key, sender);
    }

    /// Forgets the sender of a session that has ended.
    pub fn unregister_client(&mut self, key: &PublicKey)
        requires
            old(self).wf(),
        ensures
            final(self).wf(),
            final(self).clients()@ == old(self).clients()@.remove(key@),
            final(self).last_id() == old(self).last_id(),
    {
        self.clients.unregister(key);
    }

    /// The sender of `key`'s session, if it is live.
    pub fn client(&self, key: &PublicKey) -> (r: Option<&S>)
        requires
            self.wf(),
        ensures
            r is Some == self.clients()@.contains_key(key@),
            r matches Some(v) ==> *v == self.clients()@[key@],
    {
        self.clients.get(key)
    }

    /// Allocates the next identifier for an unsolicited message.
    pub fn next_message_id(&mut self) -> (r: MessageId)
        ensures
            r == spec_next_id(old(self).last_id()),
            final(self).last_id() == r,
            final(self).clients() == old(self).clients(),
    {
        self.last_message_id = self.last_message_id.next();
        self.last_message_id
    }
}

impl<S: OutboundSender> Server<S> {
    /// Sends an unsolicited message to the session of `key`. One identifier
    /// is allocated whether or not the message is delivered; the envelope
    /// `unsolicited_envelope(id, message)` is handed, unchanged, to the
    /// session's sender, and the result is `delivery_outcome` of its answer.
    pub fn send(&mut self, key: &PublicKey, message: ServerMessage) -> (r: Result<MessageId, MessageDeliveryError>)
        requires
            old(self).wf(),
        ensures
            final(self).wf(),
            final(self).last_id() == spec_next_id(old(self).last_id()),
            final(self).clients() == old(self).clients(),
            !old(self).clients()@.contains_key(key@) ==> (r matches Err(
                MessageDeliveryError::ClientNotFound(k),
            ) && k@ == key@),
            old(self).clients()@.contains_key(key@) ==> (r == Ok::<MessageId, MessageDeliveryError>(
                final(self).last_id(),
            ) || (r matches Err(MessageDeliveryError::SendError(e)) && e == spec_unsolicited(
                final(self).last_id(),
                message,
            ))),
    {
        let message_id = self.next_message_id();
        let envelope = unsolicited_envelope(message_id, message);
        match self.clients.get(key) {
            Some(client) => {
                let handed = client.send_envelope(envelope);
                match handed {
                    Ok(()) => delivery_outcome(message_id, handed),
                    Err(back) => {
                        let _ = back;
                        delivery_outcome(message_id, Err(envelope))
                    },
                }
            },
            None => Err(MessageDeliveryError::ClientNotFound(key.duplicate())),
        }
    }
}

} // verus!
