//! What the transport reports to the node: one value per event.
//!
//! The four protocol behaviours speak through one tagged union,
//! [`BehaviourEvent`], with one variant per behaviour.

use vstd::prelude::*;
use vstd::std_specs::cmp::PartialEqSpecImpl;
use crate::address::{Address, PeerId};

verus! {

/// Which side opened a connection.
#[derive(Clone, Copy, Debug, PartialEq, Eq, Structural)]
pub enum Direction {
    /// The remote peer dialed this node.
    Inbound,
    /// This node dialed the remote peer.
    Outbound,
}

/// Why a connection ended.
#[derive(Clone, Copy, Debug, PartialEq, Eq, Structural)]
pub enum CloseCause {
    /// The remote side broke the protocol or the stream failed.
    ProtocolError,
    /// The connection stayed idle past its keep-alive.
    Timeout,
    /// The remote side reset the connection.
    Reset,
    /// This node closed the connection itself.
    LocalShutdown,
}

/// A connection to a peer: who, at which remote address, opened by whom.
#[derive(Debug)]
pub struct PeerConnection {
    pub peer: PeerId,
    pub remote: Address,
    pub direction: Direction,
}

/// The mathematical value of a [`PeerConnection`].
pub ghost struct ConnectionView {
    pub peer: Seq<char>,
    pub remote: Seq<char>,
    pub direction: Direction,
}

impl View for PeerConnection {
    type V = ConnectionView;

    open spec fn view(&self) -> ConnectionView {
        ConnectionView { peer: self.peer@, remote: self.remote@, direction: self.direction }
    }
}

impl Clone for PeerConnection {
    fn clone(&self) -> (copy: Self)
        ensures
            copy == *self,
    {
        PeerConnection {
            peer: self.peer.clone(),
            remote: self.remote.clone(),
            direction: self.direction,
        }
    }
}

impl PartialEq for PeerConnection {
    fn eq(&self, other: &Self) -> (same: bool) {
        self.peer == other.peer && self.remote == other.remote && self.direction == other.direction
    }
}

impl PartialEqSpecImpl for PeerConnection {
    open spec fn obeys_eq_spec() -> bool {
        true
    }

    open spec fn eq_spec(&self, other: &Self) -> bool {
        self@ == other@
    }
}

impl Eq for PeerConnection {}

/// Events of the identify behaviour.
#[derive(Debug)]
pub enum IdentifyEvent {
    /// A peer described itself; `listen_addrs` are the addresses it says it
    /// listens on, in the order it gave them.
    Received { peer: PeerId, listen_addrs: Vec<Address> },
    /// Any other identify activity.
    Other,
}

/// Events of the routing-table behaviour.
#[derive(Clone, Copy, Debug, PartialEq, Eq, Structural)]
pub enum RoutingEvent {
    /// The table's buckets changed: a peer was admitted, moved or evicted.
    RoutingUpdated,
    /// Any other routing activity: queries and their progress.
    Other,
}

/// One event of one of the four protocol behaviours.
#[derive(Debug)]
pub enum BehaviourEvent {
    /// Reservation or circuit activity of the relay.
    Relay,
    Identify(IdentifyEvent),
    /// The outcome of a liveness probe.
    Ping,
    Routing(RoutingEvent),
}

/// One event of the node, as the event loop receives it.
#[derive(Debug)]
pub enum NodeEvent {
    /// A listener was bound to `address`.
    NewListenAddr { address: Address },
    /// A connection was established.
    ConnectionEstablished { connection: PeerConnection },
    /// A connection ended.
    ConnectionClosed { connection: PeerConnection, cause: CloseCause },
    /// An outgoing dial did not lead to a connection.
    DialFailed,
    /// The transport failed in a way it cannot recover from.
    TransportFailed,
    Behaviour(BehaviourEvent),
    /// Anything else the transport reports.
    Other,
}

} // verus!
