//! The life of one connection to a peer, and what the relay starts when the
//! transport reports a change.

use vstd::prelude::*;

verus! {

/// What the overlay transport reports.
#[derive(Debug, Clone, Copy, PartialEq, Eq, Structural)]
pub enum TransportEvent {
    /// The transport listens on a new address.
    ListenAddressAcquired,
    /// The connection to the peer stands.
    ConnectionEstablished,
    /// The connection to the peer is gone.
    ConnectionClosed,
    /// Anything else.
    Other,
}

/// The state of one connection.
#[derive(Debug, Clone, Copy, PartialEq, Eq, Structural)]
pub enum Connection {
    /// Known, not yet established.
    Pending,
    /// Established: the peer's outbound pump has been started.
    Established,
    /// Closed. The pump is not cancelled: its next stream operation fails and
    /// ends it.
    Closed,
}

/// What the caller is to do after an event.
#[derive(Debug, Clone, Copy, PartialEq, Eq, Structural)]
pub enum LifecycleAction {
    /// Start an outbound pump for the peer, as a task of its own.
    SpawnOutboundPump,
    /// Start nothing and stop nothing.
    Nothing,
}

/// One step of a connection: a pending connection that is established starts
/// its pump, an established one that is closed starts nothing, and every
/// other event leaves the connection as it is.
pub open spec fn connection_step(state: Connection, event: TransportEvent) -> (
    Connection,
    LifecycleAction,
) {
    match (state, event) {
        (Connection::Pending, TransportEvent::ConnectionEstablished) => (
            Connection::Established,
            LifecycleAction::SpawnOutboundPump,
        ),
        (Connection::Established, TransportEvent::ConnectionClosed) => (
            Connection::Closed,
            LifecycleAction::Nothing,
        ),
        _ => (state, LifecycleAction::Nothing),
    }
}

impl Connection {
    /// A connection of which nothing has been reported yet.
    pub fn new() -> (connection: Connection)
        ensures
            connection == Connection::Pending,
    {
        Connection::Pending
    }

    /// Takes one event of the transport and gives the next state and what to
    /// start.
    pub fn step(self, event: TransportEvent) -> (next: (Connection, LifecycleAction))
        ensures
            next == connection_step(self, event),
    {
        match (self, event) {
            (Connection::Pending, TransportEvent::ConnectionEstablished) => (
                Connection::Established,
                LifecycleAction::SpawnOutboundPump,
            ),
            (Connection::Established, TransportEvent::ConnectionClosed) => (
                Connection::Closed,
                LifecycleAction::Nothing,
            ),
            _ => (self, LifecycleAction::Nothing),
        }
    }
}

/// A connection starts its pump at most once, whatever the transport reports
/// and in whatever order: after the first start no event starts another.
pub proof fn lemma_pump_started_once(state: Connection, first: TransportEvent, later: TransportEvent)
    requires
        connection_step(state, first).1 == LifecycleAction::SpawnOutboundPump,
    ensures
        connection_step(connection_step(state, first).0, later).1 == LifecycleAction::Nothing,
{
}

} // verus!
