//! A model of the whole server at run time: the listener plus every live
//! connection, each identified by an id and sitting in some phase of the
//! per-connection machine.
//!
//! The model makes the isolation claims of the design provable: stepping
//! one connection touches nothing else; a failed accept attempt changes
//! nothing; any number of connections can complete their handshakes in any
//! order; and one connection's failure never stops the listener from
//! accepting and completing a handshake with the next client.

use vstd::prelude::*;
use crate::connection::ConnectionEvent;
use crate::connection::ConnectionPhase;
use crate::connection::spec_step;

verus! {

/// What the accept loop does with the outcome of one accept attempt.
#[derive(Clone, Copy, Debug, PartialEq, Eq, Structural)]
pub enum AcceptDirective {
    /// Hand the new transport to an independently scheduled handler and
    /// resume waiting at once.
    SpawnHandler,
    /// Log the accept-level error and resume waiting; never stop the loop.
    LogAndContinue,
}

/// What the accept loop does after one accept attempt: spawn on success,
/// log and go on otherwise. It never terminates the loop.
pub fn on_accept_outcome(succeeded: bool) -> (d: AcceptDirective)
    ensures
        d is SpawnHandler <==> succeeded,
{
    if succeeded {
        AcceptDirective::SpawnHandler
    } else {
        AcceptDirective::LogAndContinue
    }
}

/// The server as a whole: whether the listener is still accepting, and the
/// phase of every live connection, keyed by id.
pub struct ServerModel {
    /// Whether the listener is accepting connections.
    pub listener_up: bool,
    /// The phase of each live connection.
    pub connections: Map<int, ConnectionPhase>,
}

/// One connection advances by one event; the listener and every other
/// connection keep their state.
pub open spec fn step_connection(s: ServerModel, id: int, event: ConnectionEvent) -> ServerModel
    recommends
        s.connections.dom().contains(id),
{
    ServerModel {
        listener_up: s.listener_up,
        connections: s.connections.insert(id, spec_step(s.connections[id], event)),
    }
}

/// A successful accept: a fresh connection enters in `Accepted`.
pub open spec fn accept_connection(s: ServerModel, id: int) -> ServerModel
    recommends
        !s.connections.dom().contains(id),
{
    ServerModel {
        listener_up: s.listener_up,
        connections: s.connections.insert(id, ConnectionPhase::Accepted),
    }
}

/// A failed accept attempt: the model is unchanged; the loop resumes.
pub open spec fn accept_failure(s: ServerModel) -> ServerModel {
    s
}

/// Stepping one connection is isolated: the listener and every other
/// connection are exactly as before, and no connection appears or vanishes.
pub proof fn lemma_step_is_isolated(s: ServerModel, id: int, event: ConnectionEvent)
    requires
        s.connections.dom().contains(id),
    ensures
        step_connection(s, id, event).listener_up == s.listener_up,
        step_connection(s, id, event).connections.dom() == s.connections.dom(),
        forall|other: int|
            s.connections.dom().contains(other) && other != id
                ==> step_connection(s, id, event).connections[other] == s.connections[other],
{
    assert(step_connection(s, id, event).connections.dom() =~= s.connections.dom());
}

/// A failed accept attempt affects nothing: not the listener, not any
/// connection.
pub proof fn lemma_accept_failure_changes_nothing(s: ServerModel)
    ensures
        accept_failure(s) == s,
        accept_failure(s).listener_up == s.listener_up,
{
}

/// The interleaved completion of many handshakes: each connection named by
/// `order`, in that order, observes `HandshakeSucceeded`.
pub open spec fn complete_handshakes(s: ServerModel, order: Seq<int>) -> ServerModel
    decreases order.len(),
{
    if order.len() == 0 {
        s
    } else {
        complete_handshakes(
            step_connection(s, order[0], ConnectionEvent::HandshakeSucceeded),
            order.drop_first(),
        )
    }
}

/// Any number of connections mid-handshake complete concurrently, in
/// whatever order they are scheduled: afterwards every one of them is
/// `Established`, the listener is as before, and every connection not
/// named is exactly as before.
pub proof fn lemma_concurrent_handshakes_all_complete(s: ServerModel, order: Seq<int>)
    requires
        forall|j: int|
            0 <= j < order.len()
                ==> s.connections.dom().contains(#[trigger] order[j])
                    && s.connections[order[j]] is Handshaking,
        forall|i: int, j: int| 0 <= i < j < order.len() ==> order[i] != order[j],
    ensures
        complete_handshakes(s, order).listener_up == s.listener_up,
        complete_handshakes(s, order).connections.dom() == s.connections.dom(),
        forall|j: int|
            0 <= j < order.len()
                ==> complete_handshakes(s, order).connections[#[trigger] order[j]] is Established,
        forall|id: int|
            s.connections.dom().contains(id) && !order.contains(id)
                ==> complete_handshakes(s, order).connections[id] == s.connections[id],
    decreases order.len(),
{
    if order.len() == 0 {
    } else {
        let first = order[0];
        let rest = order.drop_first();
        let s1 = step_connection(s, first, ConnectionEvent::HandshakeSucceeded);
        assert(s1.connections[first] is Established);
        assert(s1.connections.dom() =~= s.connections.dom());
        assert(forall|j: int| 0 <= j < rest.len() ==> rest[j] == order[j + 1]);
        assert(forall|j: int|
            0 <= j < rest.len()
                ==> s1.connections.dom().contains(#[trigger] rest[j])
                    && s1.connections[rest[j]] is Handshaking);
        lemma_concurrent_handshakes_all_complete(s1, rest);
        assert(!rest.contains(first)) by {
            if rest.contains(first) {
                let j = choose|j: int| 0 <= j < rest.len() && rest[j] == first;
                assert(order[j + 1] == first);
            }
        }
        assert(complete_handshakes(s, order).connections[first] is Established);
        assert forall|j: int| 0 <= j < order.len()
            implies complete_handshakes(s, order).connections[#[trigger] order[j]] is Established by {
            if j > 0 {
                assert(rest[j - 1] == order[j]);
            }
        }
        assert forall|id: int|
            s.connections.dom().contains(id) && !order.contains(id)
                implies complete_handshakes(s, order).connections[id] == s.connections[id] by {
            assert(id != first) by {
                if id == first {
                    assert(order[0] == id);
                }
            }
            assert(!rest.contains(id)) by {
                if rest.contains(id) {
                    let j = choose|j: int| 0 <= j < rest.len() && rest[j] == id;
                    assert(order[j + 1] == id);
                }
            }
            assert(s1.connections[id] == s.connections[id]);
        }
    }
}

/// One client sending malformed bytes fails only its own connection: the
/// listener keeps accepting, and a well-formed client arriving right after
/// completes its handshake.
pub proof fn lemma_failed_handshake_is_contained(s: ServerModel, bad: int, good: int)
    requires
        s.connections.dom().contains(bad),
        s.connections[bad] is Handshaking,
        !s.connections.dom().contains(good),
        good != bad,
    ensures
        ({
            let s1 = step_connection(s, bad, ConnectionEvent::HandshakeRejected);
            let s2 = accept_connection(s1, good);
            let s3 = step_connection(s2, good, ConnectionEvent::HandshakeBegun);
            let s4 = step_connection(s3, good, ConnectionEvent::HandshakeSucceeded);
            &&& s1.connections[bad] is HandshakeFailed
            &&& s1.listener_up == s.listener_up
            &&& s4.listener_up == s.listener_up
            &&& s4.connections[good] is Established
            &&& s4.connections[bad] is HandshakeFailed
            &&& forall|other: int|
                s.connections.dom().contains(other) && other != bad && other != good
                    ==> s4.connections[other] == s.connections[other]
        }),
{
}

/// A mid-exchange I/O error on a served connection ends only that
/// connection: the listener immediately accepts a new client and completes
/// its handshake.
pub proof fn lemma_serve_error_is_contained(s: ServerModel, failed: int, fresh: int)
    requires
        s.connections.dom().contains(failed),
        s.connections[failed] is Serving,
        !s.connections.dom().contains(fresh),
        fresh != failed,
    ensures
        ({
            let s1 = step_connection(s, failed, ConnectionEvent::TransportFailed);
            let s2 = accept_connection(s1, fresh);
            let s3 = step_connection(s2, fresh, ConnectionEvent::HandshakeBegun);
            let s4 = step_connection(s3, fresh, ConnectionEvent::HandshakeSucceeded);
            &&& s1.connections[failed] is ServeError
            &&& s1.listener_up == s.listener_up
            &&& s4.listener_up == s.listener_up
            &&& s4.connections[fresh] is Established
            &&& s4.connections[failed] is ServeError
            &&& forall|other: int|
                s.connections.dom().contains(other) && other != failed && other != fresh
                    ==> s4.connections[other] == s.connections[other]
        }),
{
}

} // verus!
