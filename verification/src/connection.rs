//! The per-connection state machine.
//!
//! Each accepted connection walks a linear machine:
//! `Accepted -> Handshaking -> Established -> Serving (loop) -> Closed`,
//! with the terminal failure exits `HandshakeFailed` (from `Handshaking`)
//! and `ServeError` (from `Serving`). The runtime performs the outside work
//! (the handshake, each read and write) and reports what happened as an
//! event; the step function here decides the next phase and what to do in
//! it. The machine is total: an event that does not apply to the current
//! phase leaves it unchanged.

use vstd::prelude::*;

verus! {

/// The phase a connection is in.
#[derive(Clone, Copy, Debug, PartialEq, Eq, Structural)]
pub enum ConnectionPhase {
    /// The raw transport was accepted; nothing has been done with it yet.
    Accepted,
    /// The TLS handshake is in progress.
    Handshaking,
    /// The handshake completed; the encrypted channel exists.
    Established,
    /// Request/response exchanges are being served over the channel.
    Serving,
    /// The peer closed the transport; terminal.
    Closed,
    /// The TLS handshake failed; terminal.
    HandshakeFailed,
    /// An I/O or protocol error ended serving; terminal.
    ServeError,
}

/// What the runtime observed while working on a connection.
#[derive(Clone, Copy, Debug, PartialEq, Eq, Structural)]
pub enum ConnectionEvent {
    /// Work on the accepted transport began.
    HandshakeBegun,
    /// The TLS handshake completed.
    HandshakeSucceeded,
    /// The TLS handshake failed (for instance on malformed client bytes).
    HandshakeRejected,
    /// The established channel entered the request/response loop.
    ServingBegun,
    /// One request was read and one response written.
    ExchangeCompleted,
    /// The peer closed the transport.
    PeerClosed,
    /// An I/O or protocol error occurred mid-exchange.
    TransportFailed,
}

/// What the runtime should do next with a connection.
#[derive(Clone, Copy, Debug, PartialEq, Eq, Structural)]
pub enum ConnectionAction {
    /// Perform the TLS handshake against the shared context.
    PerformHandshake,
    /// Enter the request/response loop.
    BeginServing,
    /// Await one request and answer it.
    ServeExchange,
    /// Release the connection's resources; nothing further happens to it.
    Release,
}

/// Whether a phase is terminal: once reached, no event changes it.
pub open spec fn spec_is_terminal(phase: ConnectionPhase) -> bool {
    phase is Closed || phase is HandshakeFailed || phase is ServeError
}

/// The next phase after an event, as a function of the current phase; an
/// event that does not apply leaves the phase unchanged.
pub open spec fn spec_step(phase: ConnectionPhase, event: ConnectionEvent) -> ConnectionPhase {
    match (phase, event) {
        (ConnectionPhase::Accepted, ConnectionEvent::HandshakeBegun) => ConnectionPhase::Handshaking,
        (ConnectionPhase::Handshaking, ConnectionEvent::HandshakeSucceeded) => ConnectionPhase::Established,
        (ConnectionPhase::Handshaking, ConnectionEvent::HandshakeRejected) => ConnectionPhase::HandshakeFailed,
        (ConnectionPhase::Established, ConnectionEvent::ServingBegun) => ConnectionPhase::Serving,
        (ConnectionPhase::Serving, ConnectionEvent::ExchangeCompleted) => ConnectionPhase::Serving,
        (ConnectionPhase::Serving, ConnectionEvent::PeerClosed) => ConnectionPhase::Closed,
        (ConnectionPhase::Serving, ConnectionEvent::TransportFailed) => ConnectionPhase::ServeError,
        _ => phase,
    }
}

/// Whether a phase is terminal.
pub fn is_terminal(phase: ConnectionPhase) -> (r: bool)
    ensures
        r == spec_is_terminal(phase),
{
    match phase {
        ConnectionPhase::Closed => true,
        ConnectionPhase::HandshakeFailed => true,
        ConnectionPhase::ServeError => true,
        _ => false,
    }
}

/// Advance a connection by one observed event.
pub fn step(phase: ConnectionPhase, event: ConnectionEvent) -> (next: ConnectionPhase)
    ensures
        next == spec_step(phase, event),
{
    match (phase, event) {
        (ConnectionPhase::Accepted, ConnectionEvent::HandshakeBegun) => ConnectionPhase::Handshaking,
        (ConnectionPhase::Handshaking, ConnectionEvent::HandshakeSucceeded) => ConnectionPhase::Established,
        (ConnectionPhase::Handshaking, ConnectionEvent::HandshakeRejected) => ConnectionPhase::HandshakeFailed,
        (ConnectionPhase::Established, ConnectionEvent::ServingBegun) => ConnectionPhase::Serving,
        (ConnectionPhase::Serving, ConnectionEvent::ExchangeCompleted) => ConnectionPhase::Serving,
        (ConnectionPhase::Serving, ConnectionEvent::PeerClosed) => ConnectionPhase::Closed,
        (ConnectionPhase::Serving, ConnectionEvent::TransportFailed) => ConnectionPhase::ServeError,
        (p, _) => p,
    }
}

/// What the runtime should do in a phase: `None` for `Accepted`, where the
/// next step is only to report `HandshakeBegun`.
pub fn next_action(phase: ConnectionPhase) -> (r: Option<ConnectionAction>)
    ensures
        match r {
            Some(a) => {
                &&& a is PerformHandshake <==> phase is Handshaking
                &&& a is BeginServing <==> phase is Established
                &&& a is ServeExchange <==> phase is Serving
                &&& a is Release <==> spec_is_terminal(phase)
            },
            None => phase is Accepted,
        },
{
    match phase {
        ConnectionPhase::Accepted => None,
        ConnectionPhase::Handshaking => Some(ConnectionAction::PerformHandshake),
        ConnectionPhase::Established => Some(ConnectionAction::BeginServing),
        ConnectionPhase::Serving => Some(ConnectionAction::ServeExchange),
        ConnectionPhase::Closed => Some(ConnectionAction::Release),
        ConnectionPhase::HandshakeFailed => Some(ConnectionAction::Release),
        ConnectionPhase::ServeError => Some(ConnectionAction::Release),
    }
}

/// A terminal phase absorbs every event: a failed or closed connection is
/// discarded, never retried.
pub proof fn lemma_terminal_is_absorbing(phase: ConnectionPhase, event: ConnectionEvent)
    requires
        spec_is_terminal(phase),
    ensures
        spec_step(phase, event) == phase,
{
}

/// The machine is linear: a failure exit is reachable only from the phase
/// it belongs to, and nothing leaves a terminal phase.
pub proof fn lemma_failure_exits(phase: ConnectionPhase, event: ConnectionEvent)
    ensures
        spec_step(phase, event) is HandshakeFailed ==> phase is Handshaking || phase is HandshakeFailed,
        spec_step(phase, event) is ServeError ==> phase is Serving || phase is ServeError,
{
}

} // verus!
