//! Lifecycle of one device connection, as a state machine from events to the
//! action the connection handler performs next.
use vstd::prelude::*;
use crate::server::AuthorizationResult;

verus! {

/// Where a session stands.
#[derive(Debug, Clone, Copy, PartialEq, Eq, Structural)]
pub enum SessionPhase {
    Handshaking,
    Authorizing,
    Live,
    Closing,
    Closed,
}

/// What the connection handler observed.
#[derive(Debug, Clone, Copy, PartialEq, Eq, Structural)]
pub enum SessionEvent {
    /// The TLS handshake failed.
    HandshakeFailed,
    /// The handshake completed, but no identity could be read from the peer
    /// certificate.
    IdentityMissing,
    /// The handshake completed and the peer identity was read.
    Handshaken,
    /// The connect callback answered.
    Authorization(AuthorizationResult),
    /// An envelope was read and decoded.
    Inbound,
    /// The reader or the writer stopped: end of stream, a read, decode or
    /// write error, or cancellation.
    Stopped,
    /// The identity was removed from the client table.
    Unregistered,
}

/// What the connection handler does next.
#[derive(Debug, Clone, Copy, PartialEq, Eq, Structural)]
pub enum SessionAction {
    /// Nothing.
    Idle,
    /// Drop the connection; no callback fires.
    Abort,
    /// Ask the connect callback about the peer identity.
    Authorize,
    /// Register the identity in the client table and start the writer.
    Register,
    /// Hand the envelope just read to the message callback.
    Dispatch,
    /// Stop the writer and remove the identity from the client table.
    Unregister,
    /// Invoke the disconnect callback.
    NotifyDisconnect,
}

/// The phase and action that follow `event` in `phase`.
pub open spec fn spec_step(phase: SessionPhase, event: SessionEvent) -> (SessionPhase, SessionAction) {
    match phase {
        SessionPhase::Handshaking => match event {
            SessionEvent::HandshakeFailed => (SessionPhase::Closed, SessionAction::Abort),
            SessionEvent::IdentityMissing => (SessionPhase::Closed, SessionAction::Abort),
            SessionEvent::Stopped => (SessionPhase::Closed, SessionAction::Abort),
            SessionEvent::Handshaken => (SessionPhase::Authorizing, SessionAction::Authorize),
            _ => (phase, SessionAction::Idle),
        },
        SessionPhase::Authorizing => match event {
            SessionEvent::Authorization(AuthorizationResult::Authorized) => (
                SessionPhase::Live,
                SessionAction::Register,
            ),
            SessionEvent::Authorization(AuthorizationResult::Unauthorized) => (
                SessionPhase::Closed,
                SessionAction::Abort,
            ),
            SessionEvent::Stopped => (SessionPhase::Closed, SessionAction::Abort),
            _ => (phase, SessionAction::Idle),
        },
        SessionPhase::Live => match event {
            SessionEvent::Inbound => (SessionPhase::Live, SessionAction::Dispatch),
            SessionEvent::Stopped => (SessionPhase::Closing, SessionAction::Unregister),
            _ => (phase, SessionAction::Idle),
        },
        SessionPhase::Closing => match event {
            SessionEvent::Unregistered => (SessionPhase::Closed, SessionAction::NotifyDisconnect),
            _ => (phase, SessionAction::Idle),
        },
        SessionPhase::Closed => (phase, SessionAction::Idle),
    }
}

/// One session, with the count of authorizations it received and of
/// disconnect callbacks it asked for.
pub struct Session {
    phase: SessionPhase,
    authorized: Ghost<nat>,
    disconnected: Ghost<nat>,
}

impl Session {
    pub closed spec fn spec_phase(&self) -> SessionPhase {
        self.phase
    }

    /// How many times the connect callback answered `Authorized`.
    pub closed spec fn authorized_count(&self) -> nat {
        self.authorized@
    }

    /// How many times the disconnect callback was asked for.
    pub closed spec fn disconnect_count(&self) -> nat {
        self.disconnected@
    }

    /// Each authorization is matched by one disconnect once the session has
    /// left `Live` and `Closing`, and at most one happens.
    pub open spec fn wf(&self) -> bool {
        &&& self.authorized_count() <= 1
        &&& match self.spec_phase() {
            SessionPhase::Handshaking | SessionPhase::Authorizing => self.authorized_count() == 0
                && self.disconnect_count() == 0,
            SessionPhase::Live | SessionPhase::Closing => self.authorized_count() == 1
                && self.disconnect_count() == 0,
            SessionPhase::Closed => self.authorized_count() == self.disconnect_count(),
        }
    }

    /// A session whose TLS handshake is under way.
    pub fn new() -> (r: Session)
        ensures
            r.wf(),
            r.spec_phase() == SessionPhase::Handshaking,
            r.authorized_count() == 0,
            r.disconnect_count() == 0,
    {
        Session { phase: SessionPhase::Handshaking, authorized: Ghost(0), disconnected: Ghost(0) }
    }

    pub fn phase(&self) -> (r: SessionPhase)
        ensures
            r == self.spec_phase(),
    {
        self.phase
    }

    /// Takes in an event and gives the action to perform.
    pub fn step(&mut self, event: SessionEvent) -> (action: SessionAction)
        requires
            old(self).wf(),
        ensures
            final(self).wf(),
            (final(self).spec_phase(), action) == spec_step(old(self).spec_phase(), event),
            final(self).authorized_count() == old(self).authorized_count() + if old(self).spec_phase()
                == SessionPhase::Authorizing && event == SessionEvent::Authorization(
                AuthorizationResult::Authorized,
            ) {
                1nat
            } else {
                0nat
            },
            final(self).disconnect_count() == old(self).disconnect_count() + if action
                == SessionAction::NotifyDisconnect {
                1nat
            } else {
                0nat
            },
    {
        let (phase, action) = match self.phase {
            SessionPhase::Handshaking => match event {
                SessionEvent::HandshakeFailed => (SessionPhase::Closed, SessionAction::Abort),
                SessionEvent::IdentityMissing => (SessionPhase::Closed, SessionAction::Abort),
                SessionEvent::Stopped => (SessionPhase::Closed, SessionAction::Abort),
                SessionEvent::Handshaken => (SessionPhase::Authorizing, SessionAction::Authorize),
                _ => (self.phase, SessionAction::Idle),
            },
            SessionPhase::Authorizing => match event {
                SessionEvent::Authorization(AuthorizationResult::Authorized) => {
                    self.authorized = Ghost(self.authorized@ + 1);
                    (SessionPhase::Live, SessionAction::Register)
                },
                SessionEvent::Authorization(AuthorizationResult::Unauthorized) => (
                    SessionPhase::Closed,
                    SessionAction::Abort,
                ),
                SessionEvent::Stopped => (SessionPhase::Closed, SessionAction::Abort),
                _ => (self.phase, SessionAction::Idle),
            },
            SessionPhase::Live => match event {
                SessionEvent::Inbound => (SessionPhase::Live, SessionAction::Dispatch),
                SessionEvent::Stopped => (SessionPhase::Closing, SessionAction::Unregister),
                _ => (self.phase, SessionAction::Idle),
            },
            SessionPhase::Closing => match event {
                SessionEvent::Unregistered => {
                    self.disconnected = Ghost(self.disconnected@ + 1);
                    (SessionPhase::Closed, SessionAction::NotifyDisconnect)
                },
                _ => (self.phase, SessionAction::Idle),
            },
            SessionPhase::Closed => (self.phase, SessionAction::Idle),
        };
        self.phase = phase;
        action
    }
}

/// Lifecycle balance: once a session is closed, the connect callback's
/// `Authorized` answers and the disconnect callbacks it asked for are equal in
/// number, and there is at most one of each.
pub proof fn lemma_lifecycle_balance(s: Session)
    requires
        s.wf(),
        s.spec_phase() == SessionPhase::Closed,
    ensures
        s.authorized_count() == s.disconnect_count(),
        s.disconnect_count() <= 1,
{
}

/// A session that was refused, or never identified its peer, closes without
/// asking for the disconnect callback.
pub proof fn lemma_refused_session_is_silent(s: Session)
    requires
        s.wf(),
        s.authorized_count() == 0,
    ensures
        s.disconnect_count() == 0,
{
}

} // verus!
