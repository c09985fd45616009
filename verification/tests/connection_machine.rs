use tls_serve::connection::is_terminal;
use tls_serve::connection::next_action;
use tls_serve::connection::step;
use tls_serve::connection::ConnectionAction;
use tls_serve::connection::ConnectionEvent;
use tls_serve::connection::ConnectionPhase;
use tls_serve::system::on_accept_outcome;
use tls_serve::system::AcceptDirective;

#[test]
fn served_connection_walks_the_linear_machine() {
    let mut phase = ConnectionPhase::Accepted;
    phase = step(phase, ConnectionEvent::HandshakeBegun);
    assert_eq!(phase, ConnectionPhase::Handshaking);
    phase = step(phase, ConnectionEvent::HandshakeSucceeded);
    assert_eq!(phase, ConnectionPhase::Established);
    phase = step(phase, ConnectionEvent::ServingBegun);
    assert_eq!(phase, ConnectionPhase::Serving);
    phase = step(phase, ConnectionEvent::ExchangeCompleted);
    assert_eq!(phase, ConnectionPhase::Serving);
    phase = step(phase, ConnectionEvent::PeerClosed);
    assert_eq!(phase, ConnectionPhase::Closed);
    assert!(is_terminal(phase));
}

#[test]
fn malformed_handshake_ends_in_handshake_failed() {
    let phase = step(ConnectionPhase::Handshaking, ConnectionEvent::HandshakeRejected);
    assert_eq!(phase, ConnectionPhase::HandshakeFailed);
    assert!(is_terminal(phase));
}

#[test]
fn mid_exchange_error_ends_in_serve_error() {
    let phase = step(ConnectionPhase::Serving, ConnectionEvent::TransportFailed);
    assert_eq!(phase, ConnectionPhase::ServeError);
    assert!(is_terminal(phase));
}

#[test]
fn terminal_phases_absorb_every_event() {
    let terminals = [
        ConnectionPhase::Closed,
        ConnectionPhase::HandshakeFailed,
        ConnectionPhase::ServeError,
    ];
    let events = [
        ConnectionEvent::HandshakeBegun,
        ConnectionEvent::HandshakeSucceeded,
        ConnectionEvent::HandshakeRejected,
        ConnectionEvent::ServingBegun,
        ConnectionEvent::ExchangeCompleted,
        ConnectionEvent::PeerClosed,
        ConnectionEvent::TransportFailed,
    ];
    for t in terminals {
        for e in events {
            assert_eq!(step(t, e), t);
        }
    }
}

#[test]
fn inapplicable_events_change_nothing() {
    assert_eq!(
        step(ConnectionPhase::Accepted, ConnectionEvent::PeerClosed),
        ConnectionPhase::Accepted
    );
    assert_eq!(
        step(ConnectionPhase::Established, ConnectionEvent::HandshakeSucceeded),
        ConnectionPhase::Established
    );
}

#[test]
fn actions_follow_the_phase() {
    assert_eq!(next_action(ConnectionPhase::Accepted), None);
    assert_eq!(
        next_action(ConnectionPhase::Handshaking),
        Some(ConnectionAction::PerformHandshake)
    );
    assert_eq!(
        next_action(ConnectionPhase::Established),
        Some(ConnectionAction::BeginServing)
    );
    assert_eq!(
        next_action(ConnectionPhase::Serving),
        Some(ConnectionAction::ServeExchange)
    );
    assert_eq!(
        next_action(ConnectionPhase::HandshakeFailed),
        Some(ConnectionAction::Release)
    );
    assert_eq!(
        next_action(ConnectionPhase::Closed),
        Some(ConnectionAction::Release)
    );
    assert_eq!(
        next_action(ConnectionPhase::ServeError),
        Some(ConnectionAction::Release)
    );
}

#[test]
fn accept_loop_never_stops_on_a_failed_accept() {
    assert_eq!(on_accept_outcome(false), AcceptDirective::LogAndContinue);
    assert_eq!(on_accept_outcome(true), AcceptDirective::SpawnHandler);
}

#[test]
fn ten_interleaved_handshakes_all_complete() {
    // Ten connections mid-handshake, completed in a scrambled order: every
    // one ends Established, none affects another.
    let mut phases = [ConnectionPhase::Handshaking; 10];
    let order = [7usize, 2, 9, 0, 5, 1, 8, 3, 6, 4];
    for i in order {
        phases[i] = step(phases[i], ConnectionEvent::HandshakeSucceeded);
    }
    for p in phases {
        assert_eq!(p, ConnectionPhase::Established);
    }
}

#[test]
fn one_failed_handshake_leaves_the_next_client_unaffected() {
    let bad = step(ConnectionPhase::Handshaking, ConnectionEvent::HandshakeRejected);
    assert_eq!(bad, ConnectionPhase::HandshakeFailed);

    // A well-formed client connecting right afterwards still completes.
    let mut good = ConnectionPhase::Accepted;
    good = step(good, ConnectionEvent::HandshakeBegun);
    good = step(good, ConnectionEvent::HandshakeSucceeded);
    assert_eq!(good, ConnectionPhase::Established);
    assert_eq!(bad, ConnectionPhase::HandshakeFailed);
    assert_eq!(on_accept_outcome(true), AcceptDirective::SpawnHandler);
}

#[test]
fn serve_error_leaves_the_next_client_unaffected() {
    let failed = step(ConnectionPhase::Serving, ConnectionEvent::TransportFailed);
    assert_eq!(failed, ConnectionPhase::ServeError);

    let mut fresh = ConnectionPhase::Accepted;
    fresh = step(fresh, ConnectionEvent::HandshakeBegun);
    fresh = step(fresh, ConnectionEvent::HandshakeSucceeded);
    assert_eq!(fresh, ConnectionPhase::Established);
    assert_eq!(failed, ConnectionPhase::ServeError);
}
