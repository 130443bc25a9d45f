//! The node's reaction to one event: the step of the event loop.
//!
//! [`step`] is the transition function over mathematical values;
//! [`NodeState::handle`] computes it.  The loop around it, which awaits the
//! next event and carries out the command, is the caller's.

use vstd::prelude::*;
use vstd::multiset::Multiset;
use crate::address::{
    address_set, contains_address, distinct_addresses, insert_address, is_loopback_text, Address,
    PeerId,
};
use crate::connections::{peer_connected, ConnectionTable};
use crate::event::{
    BehaviourEvent, ConnectionView, IdentifyEvent, NodeEvent, PeerConnection, RoutingEvent,
};
use crate::routing::{with_address, RoutingEntry, RoutingTable};

verus! {

/// What becomes of a peer's routing entry when the peer disconnects, that is
/// when its last live connection has closed.
#[derive(Clone, Copy, Debug, PartialEq, Eq, Structural)]
pub enum ClosePolicy {
    /// The entry stays: addresses may go stale, discovery keeps working.
    Retain,
    /// The entry is dropped and the routing table is told to evict the peer.
    Evict,
}

/// How loudly an event is reported.
#[derive(Clone, Copy, Debug, PartialEq, Eq, Structural)]
pub enum LogLevel {
    Info,
    Warn,
}

/// Whether the event loop goes on.
#[derive(Clone, Copy, Debug, PartialEq, Eq, Structural)]
pub enum Flow {
    Continue,
    /// The transport is beyond recovery: the loop ends with an error.
    Halt,
}

/// What the event loop must tell the transport or a behaviour.
#[derive(Debug)]
pub enum Command {
    /// Advertise `address` as an address this node can be reached at.
    AddExternalAddress { address: Address },
    /// Tell the routing table that `peer` can be reached at `address`.
    AddRoutingAddress { peer: PeerId, address: Address },
    /// Tell the routing table to evict `peer`.
    RemoveRoutingPeer { peer: PeerId },
}

/// The mathematical value of a [`Command`].
pub ghost enum CommandView {
    AddExternalAddress { address: Seq<char> },
    AddRoutingAddress { peer: Seq<char>, address: Seq<char> },
    RemoveRoutingPeer { peer: Seq<char> },
}

impl View for Command {
    type V = CommandView;

    open spec fn view(&self) -> CommandView {
        match self {
            Command::AddExternalAddress { address } => CommandView::AddExternalAddress {
                address: address@,
            },
            Command::AddRoutingAddress { peer, address } => CommandView::AddRoutingAddress {
                peer: peer@,
                address: address@,
            },
            Command::RemoveRoutingPeer { peer } => CommandView::RemoveRoutingPeer { peer: peer@ },
        }
    }
}

/// What the event loop does after one event.
#[derive(Debug)]
pub struct Reaction {
    /// The command to carry out, if the event calls for one.
    pub command: Option<Command>,
    /// The level at which to report the event, if it is reported.
    pub notice: Option<LogLevel>,
    pub flow: Flow,
}

/// The mathematical value of a [`Reaction`].
pub ghost struct ReactionView {
    pub command: Option<CommandView>,
    pub notice: Option<LogLevel>,
    pub flow: Flow,
}

impl View for Reaction {
    type V = ReactionView;

    open spec fn view(&self) -> ReactionView {
        ReactionView {
            command: match self.command {
                Some(command) => Some(command@),
                None => None,
            },
            notice: self.notice,
            flow: self.flow,
        }
    }
}

/// The mathematical value of a [`NodeState`]: the advertised addresses, the
/// live connections, and for each routed peer its addresses.
#[verifier::ext_equal]
pub ghost struct NodeView {
    pub close_policy: ClosePolicy,
    pub external: Set<Seq<char>>,
    pub connections: Multiset<ConnectionView>,
    pub routing: Map<Seq<char>, Set<Seq<char>>>,
}

/// A state and the reaction that led to it.
pub ghost struct Outcome {
    pub state: NodeView,
    pub reaction: ReactionView,
}

/// The state of a node that has seen no event.
pub open spec fn initial(close_policy: ClosePolicy) -> NodeView {
    NodeView {
        close_policy,
        external: Set::empty(),
        connections: Multiset::empty(),
        routing: Map::empty(),
    }
}

/// The state stays as it is; the event is reported at `notice`, if at all.
pub open spec fn observed(pre: NodeView, notice: Option<LogLevel>) -> Outcome {
    Outcome { state: pre, reaction: ReactionView { command: None, notice, flow: Flow::Continue } }
}

/// `address` joins the routing entry of `peer`, and the routing table is told.
pub open spec fn routed(
    pre: NodeView,
    live: Multiset<ConnectionView>,
    peer: Seq<char>,
    address: Seq<char>,
    notice: Option<LogLevel>,
) -> Outcome {
    Outcome {
        state: NodeView {
            connections: live,
            routing: with_address(pre.routing, peer, address),
            ..pre
        },
        reaction: ReactionView {
            command: Some(CommandView::AddRoutingAddress { peer, address }),
            notice,
            flow: Flow::Continue,
        },
    }
}

/// The transition function of the node.
///
/// * A listener bound to a loopback address changes nothing.  Any other
///   listen address joins the advertised set.
/// * An established connection joins the live connections, and its remote
///   address seeds the routing entry of its peer.
/// * A closed connection leaves the live connections.  Under
///   [`ClosePolicy::Evict`] a peer left without live connection loses its
///   routing entry.
/// * A peer's self-description adds the first address it lists to its routing
///   entry; one that lists none changes nothing.
/// * Relay, ping and routing-table events, failed dials and everything else
///   change nothing.  Only a transport failure ends the loop.
pub open spec fn step(pre: NodeView, event: NodeEvent) -> Outcome {
    match event {
        NodeEvent::NewListenAddr { address } => {
            if is_loopback_text(address@) {
                observed(pre, None)
            } else {
                Outcome {
                    state: NodeView { external: pre.external.insert(address@), ..pre },
                    reaction: ReactionView {
                        command: Some(CommandView::AddExternalAddress { address: address@ }),
                        notice: Some(LogLevel::Info),
                        flow: Flow::Continue,
                    },
                }
            }
        },
        NodeEvent::ConnectionEstablished { connection } => routed(
            pre,
            pre.connections.insert(connection@),
            connection.peer@,
            connection.remote@,
            Some(LogLevel::Info),
        ),
        NodeEvent::ConnectionClosed { connection, .. } => {
            let live = pre.connections.remove(connection@);
            if pre.close_policy == ClosePolicy::Evict && !peer_connected(live, connection.peer@) {
                Outcome {
                    state: NodeView {
                        connections: live,
                        routing: pre.routing.remove(connection.peer@),
                        ..pre
                    },
                    reaction: ReactionView {
                        command: Some(CommandView::RemoveRoutingPeer { peer: connection.peer@ }),
                        notice: Some(LogLevel::Warn),
                        flow: Flow::Continue,
                    },
                }
            } else {
                Outcome {
                    state: NodeView { connections: live, ..pre },
                    reaction: ReactionView {
                        command: None,
                        notice: Some(LogLevel::Warn),
                        flow: Flow::Continue,
                    },
                }
            }
        },
        NodeEvent::DialFailed => observed(pre, Some(LogLevel::Warn)),
        NodeEvent::TransportFailed => Outcome {
            state: pre,
            reaction: ReactionView { command: None, notice: None, flow: Flow::Halt },
        },
        NodeEvent::Behaviour(BehaviourEvent::Relay) => observed(pre, Some(LogLevel::Info)),
        NodeEvent::Behaviour(BehaviourEvent::Ping) => observed(pre, None),
        NodeEvent::Behaviour(BehaviourEvent::Routing(RoutingEvent::RoutingUpdated)) => observed(
            pre,
            Some(LogLevel::Info),
        ),
        NodeEvent::Behaviour(BehaviourEvent::Routing(RoutingEvent::Other)) => observed(pre, None),
        NodeEvent::Behaviour(BehaviourEvent::Identify(IdentifyEvent::Received { peer, listen_addrs })) => {
            if listen_addrs@.len() > 0 {
                routed(pre, pre.connections, peer@, listen_addrs@[0]@, None)
            } else {
                observed(pre, None)
            }
        },
        NodeEvent::Behaviour(BehaviourEvent::Identify(IdentifyEvent::Other)) => observed(pre, None),
        NodeEvent::Other => observed(pre, None),
    }
}

/// The state after the events of `trace` have been taken in, in order.
pub open spec fn run(start: NodeView, trace: Seq<NodeEvent>) -> NodeView
    decreases trace.len(),
{
    if trace.len() == 0 {
        start
    } else {
        step(run(start, trace.drop_last()), trace.last()).state
    }
}

/// The tables a node keeps while it runs.
pub struct NodeState {
    close_policy: ClosePolicy,
    external: Vec<Address>,
    connections: ConnectionTable,
    routing: RoutingTable,
}

impl View for NodeState {
    type V = NodeView;

    closed spec fn view(&self) -> NodeView {
        NodeView {
            close_policy: self.close_policy,
            external: address_set(self.external@),
            connections: self.connections@,
            routing: self.routing@,
        }
    }
}

fn quiet(notice: Option<LogLevel>) -> (reaction: Reaction)
    ensures
        reaction@ == (ReactionView { command: None, notice, flow: Flow::Continue }),
{
    Reaction { command: None, notice, flow: Flow::Continue }
}

impl NodeState {
    /// No advertised address and no routing link is held twice.
    pub closed spec fn wf(&self) -> bool {
        distinct_addresses(self.external@) && self.routing.wf()
    }

    /// The state of a node that has seen no event.
    pub fn new(close_policy: ClosePolicy) -> (state: NodeState)
        ensures
            state.wf(),
            state@ == initial(close_policy),
    {
        let state = NodeState {
            close_policy,
            external: Vec::new(),
            connections: ConnectionTable::new(),
            routing: RoutingTable::new(),
        };
        assert(address_set(state.external@) =~= Set::<Seq<char>>::empty());
        state
    }

    /// What becomes of a routing entry when its peer disconnects.
    pub fn close_policy(&self) -> (policy: ClosePolicy)
        ensures
            policy == self@.close_policy,
    {
        self.close_policy
    }

    /// Whether `address` is advertised as an address of this node.
    pub fn advertises(&self, address: &Address) -> (advertised: bool)
        ensures
            advertised == self@.external.contains(address@),
    {
        contains_address(&self.external, address)
    }

    /// The advertised addresses, each once, in the order they were bound.
    pub fn external_addresses(&self) -> (list: Vec<Address>)
        requires
            self.wf(),
        ensures
            distinct_addresses(list@),
            address_set(list@) == self@.external,
    {
        let n: usize = self.external.len();
        let mut list: Vec<Address> = Vec::new();
        let mut i: usize = 0;
        while i < n
            invariant
                n == self.external@.len(),
                i <= n,
                list@ == self.external@.subrange(0, i as int),
            decreases n - i,
        {
            let copy = self.external[i].clone();
            list.push(copy);
            i += 1;
        }
        assert(list@ =~= self.external@);
        list
    }

    /// Whether `peer` holds at least one live connection.
    pub fn is_connected(&self, peer: &PeerId) -> (connected: bool)
        ensures
            connected == peer_connected(self@.connections, peer@),
    {
        self.connections.is_connected(peer)
    }

    /// How many connections are live.
    pub fn connection_count(&self) -> (n: usize)
        ensures
            n == self@.connections.len(),
    {
        self.connections.len()
    }

    /// How many live connections equal `connection`.
    pub fn live_count(&self, connection: &PeerConnection) -> (n: usize)
        ensures
            n == self@.connections.count(connection@),
    {
        self.connections.count(connection)
    }

    /// The routing entry of `peer`, if there is one.
    pub fn routing_entry(&self, peer: &PeerId) -> (found: Option<RoutingEntry>)
        requires
            self.wf(),
        ensures
            found is Some <==> self@.routing.dom().contains(peer@),
            found matches Some(entry) ==> {
                &&& entry.peer@ == peer@
                &&& address_set(entry.addresses@) == self@.routing[peer@]
                &&& distinct_addresses(entry.addresses@)
            },
    {
        self.routing.entry(peer)
    }

    /// Takes one event in: updates the tables and says what the loop must do.
    pub fn handle(&mut self, event: NodeEvent) -> (reaction: Reaction)
        requires
            old(self).wf(),
        ensures
            final(self).wf(),
            final(self)@ == step(old(self)@, event).state,
            reaction@ == step(old(self)@, event).reaction,
    {
        match event {
            NodeEvent::NewListenAddr { address } => {
                if address.is_loopback() {
                    quiet(None)
                } else {
                    let advertised = address.clone();
                    insert_address(&mut self.external, address);
                    Reaction {
                        command: Some(Command::AddExternalAddress { address: advertised }),
                        notice: Some(LogLevel::Info),
                        flow: Flow::Continue,
                    }
                }
            },
            NodeEvent::ConnectionEstablished { connection } => {
                let peer = connection.peer.clone();
                let address = connection.remote.clone();
                self.routing.add_address(&peer, &address);
                self.connections.open(connection);
                Reaction {
                    command: Some(Command::AddRoutingAddress { peer, address }),
                    notice: Some(LogLevel::Info),
                    flow: Flow::Continue,
                }
            },
            NodeEvent::ConnectionClosed { connection, .. } => {
                self.connections.close(&connection);
                let evict = match self.close_policy {
                    ClosePolicy::Evict => !self.connections.is_connected(&connection.peer),
                    ClosePolicy::Retain => false,
                };
                if evict {
                    self.routing.remove_peer(&connection.peer);
                    Reaction {
                        command: Some(Command::RemoveRoutingPeer { peer: connection.peer }),
                        notice: Some(LogLevel::Warn),
                        flow: Flow::Continue,
                    }
                } else {
                    quiet(Some(LogLevel::Warn))
                }
            },
            NodeEvent::DialFailed => quiet(Some(LogLevel::Warn)),
            NodeEvent::TransportFailed => Reaction { command: None, notice: None, flow: Flow::Halt },
            NodeEvent::Behaviour(BehaviourEvent::Relay) => quiet(Some(LogLevel::Info)),
            NodeEvent::Behaviour(BehaviourEvent::Ping) => quiet(None),
            NodeEvent::Behaviour(BehaviourEvent::Routing(RoutingEvent::RoutingUpdated)) => quiet(
                Some(LogLevel::Info),
            ),
            NodeEvent::Behaviour(BehaviourEvent::Routing(RoutingEvent::Other)) => quiet(None),
            NodeEvent::Behaviour(
                BehaviourEvent::Identify(IdentifyEvent::Received { peer, listen_addrs }),
            ) => {
                if listen_addrs.len() > 0 {
                    let address = listen_addrs[0].clone();
                    self.routing.add_address(&peer, &address);
                    Reaction {
                        command: Some(Command::AddRoutingAddress { peer, address }),
                        notice: None,
                        flow: Flow::Continue,
                    }
                } else {
                    quiet(None)
                }
            },
            NodeEvent::Behaviour(BehaviourEvent::Identify(IdentifyEvent::Other)) => quiet(None),
            NodeEvent::Other => quiet(None),
        }
    }
}

} // verus!
