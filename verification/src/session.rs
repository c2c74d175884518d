//! Supervisor state machine: drives the whole pipeline.
//!
//! The supervisor owns the one live session per process and translates
//! transport events into state transitions: it connects on startup, processes
//! messages while subscribed, and treats every transport fault as recoverable
//! — the session waits out a bounded backoff and reconnects, and the loop has
//! no terminal state. The surrounding application performs the actual network
//! work and feeds the outcome of each step back in as a [`SessionEvent`].

use vstd::prelude::*;
use crate::json::json_parse;
use crate::mapper::diagnostic_prefix;
use crate::mapper::record_spec;
use crate::mapper::MappingError;
use crate::pipeline::process_message;
use crate::pipeline::Message;
use crate::sink::EmissionSink;

verus! {

/// Where the one live session stands; there is no terminal state.
#[derive(Clone, Copy, Debug, PartialEq, Eq, Structural)]
pub enum SessionState {
    /// No connection attempt has been made yet.
    Disconnected,
    /// A connect-and-subscribe attempt is in flight.
    Connecting,
    /// Steady state: the session receives and processes messages.
    Subscribed,
    /// A transport fault occurred; the session waits out a bounded backoff
    /// before reconnecting.
    Faulted,
}

/// One observed event, fed to the supervisor by the surrounding application.
pub enum SessionEvent {
    /// The process asked the session to start.
    StartRequested,
    /// The connect-and-subscribe attempt was acknowledged.
    SubscribeSucceeded,
    /// The connect-and-subscribe attempt failed.
    SubscribeFailed,
    /// A message arrived on the subscription.
    PublishReceived(Message),
    /// The broker acknowledged the connection; informational only.
    ConnectionAcknowledged,
    /// Any other protocol-level event (keep-alive traffic and the like);
    /// ignored silently.
    OtherPacket,
    /// The transport reported a fault while receiving.
    TransportError,
    /// The backoff wait after a fault has elapsed.
    BackoffElapsed,
}

/// The transition relation of the session: every event either moves the
/// session along one of the drawn edges or leaves it where it stands; no
/// event leads to a terminal state.
pub open spec fn next_state(s: SessionState, e: SessionEvent) -> SessionState {
    match (s, e) {
        (SessionState::Disconnected, SessionEvent::StartRequested) => SessionState::Connecting,
        (SessionState::Connecting, SessionEvent::SubscribeSucceeded) => SessionState::Subscribed,
        (SessionState::Connecting, SessionEvent::SubscribeFailed) => SessionState::Faulted,
        (SessionState::Subscribed, SessionEvent::TransportError) => SessionState::Faulted,
        (SessionState::Faulted, SessionEvent::BackoffElapsed) => SessionState::Connecting,
        (s0, _) => s0,
    }
}

/// Fault non-fatality: a transport fault while subscribed moves the session
/// to `Faulted` — never out of the state machine — and once the backoff has
/// elapsed the session re-enters `Connecting`; a successful resubscription
/// then returns it to `Subscribed`, where later messages are processed as
/// before. A connect-time fault recovers along the same path.
pub proof fn lemma_fault_recovery()
    ensures
        next_state(SessionState::Subscribed, SessionEvent::TransportError)
            == SessionState::Faulted,
        next_state(SessionState::Faulted, SessionEvent::BackoffElapsed)
            == SessionState::Connecting,
        next_state(SessionState::Connecting, SessionEvent::SubscribeSucceeded)
            == SessionState::Subscribed,
        next_state(SessionState::Connecting, SessionEvent::SubscribeFailed)
            == SessionState::Faulted,
        next_state(
            next_state(
                next_state(SessionState::Subscribed, SessionEvent::TransportError),
                SessionEvent::BackoffElapsed,
            ),
            SessionEvent::SubscribeSucceeded,
        ) == SessionState::Subscribed,
{
}

/// The top-level driver: holds the session state and reacts to one event at a
/// time.
pub struct Supervisor {
    /// Where the session stands now.
    pub state: SessionState,
}

impl Supervisor {
    /// A supervisor for a freshly started process: not yet connected.
    pub fn new() -> (s: Self)
        ensures
            s.state == SessionState::Disconnected,
    {
        Supervisor { state: SessionState::Disconnected }
    }

    /// React to one event: move the session along the transition relation
    /// and, for a message received while subscribed, map it and emit the
    /// record to `sink`. Only a decode failure of such a message yields a
    /// diagnostic; no event is fatal, and no other event touches the sink.
    pub fn handle_event(&mut self, event: SessionEvent, sink: &mut EmissionSink) -> (r: Option<
        MappingError,
    >)
        ensures
            final(self).state == next_state(old(self).state, event),
            event matches SessionEvent::PublishReceived(m) ==> if old(self).state
                == SessionState::Subscribed {
                (json_parse(m.payload@) is Some ==> final(sink)@ == old(sink)@.push(
                    record_spec(m.topic@, m.payload@),
                ) && r is None) && (json_parse(m.payload@) is None ==> final(sink)@ == old(sink)@
                    && (r matches Some(err) && err matches MappingError::DecodeFailed {
                    topic: t,
                    payload_prefix: p,
                    cause: _,
                } && t@ == m.topic@ && p@ == diagnostic_prefix(m.payload@)))
            } else {
                final(sink)@ == old(sink)@ && r is None
            },
            !(event is PublishReceived) ==> final(sink)@ == old(sink)@ && r is None,
    {
        match event {
            SessionEvent::StartRequested => {
                if self.state == SessionState::Disconnected {
                    self.state = SessionState::Connecting;
                }
                None
            },
            SessionEvent::SubscribeSucceeded => {
                if self.state == SessionState::Connecting {
                    self.state = SessionState::Subscribed;
                }
                None
            },
            SessionEvent::SubscribeFailed => {
                if self.state == SessionState::Connecting {
                    self.state = SessionState::Faulted;
                }
                None
            },
            SessionEvent::PublishReceived(msg) => {
                if self.state == SessionState::Subscribed {
                    match process_message(sink, &msg) {
                        Ok(_) => None,
                        Err(e) => Some(e),
                    }
                } else {
                    None
                }
            },
            SessionEvent::ConnectionAcknowledged => None,
            SessionEvent::OtherPacket => None,
            SessionEvent::TransportError => {
                if self.state == SessionState::Subscribed {
                    self.state = SessionState::Faulted;
                }
                None
            },
            SessionEvent::BackoffElapsed => {
                if self.state == SessionState::Faulted {
                    self.state = SessionState::Connecting;
                }
                None
            },
        }
    }
}

} // verus!
