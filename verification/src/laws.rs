//! What holds of every run of the node, proved from the transition function.

use vstd::prelude::*;
use crate::address::{is_loopback_text, Address, PeerId};
use crate::event::{BehaviourEvent, CloseCause, ConnectionView, IdentifyEvent, NodeEvent, PeerConnection};
use crate::runtime::{initial, observed, run, step, ClosePolicy, Flow, NodeView};

verus! {

/// `event` reports a listener bound to the address with text `address`.
pub open spec fn listens_on(event: NodeEvent, address: Seq<char>) -> bool {
    event matches NodeEvent::NewListenAddr { address: bound } && bound@ == address
}

/// `event` is first-hand knowledge that `peer` can be reached at `address`:
/// a connection established with the peer at that remote address, or the
/// peer's own description naming the address first.
pub open spec fn vouches_for(event: NodeEvent, peer: Seq<char>, address: Seq<char>) -> bool {
    match event {
        NodeEvent::ConnectionEstablished { connection } => connection.peer@ == peer
            && connection.remote@ == address,
        NodeEvent::Behaviour(
            BehaviourEvent::Identify(IdentifyEvent::Received { peer: subject, listen_addrs }),
        ) => subject@ == peer && listen_addrs@.len() > 0 && listen_addrs@[0]@ == address,
        _ => false,
    }
}

/// How many connections equal to `connection` the events of `trace` have
/// established and not yet closed.  Closing a connection that is not open
/// counts for nothing.
pub open spec fn outstanding(trace: Seq<NodeEvent>, connection: ConnectionView) -> nat
    decreases trace.len(),
{
    if trace.len() == 0 {
        0
    } else {
        let before = outstanding(trace.drop_last(), connection);
        match trace.last() {
            NodeEvent::ConnectionEstablished { connection: opened } => if opened@ == connection {
                before + 1
            } else {
                before
            },
            NodeEvent::ConnectionClosed { connection: closed, .. } => if closed@ == connection
                && before > 0 {
                (before - 1) as nat
            } else {
                before
            },
            _ => before,
        }
    }
}

/// A listener bound to a loopback address leaves every table as it was and
/// asks for no command: the advertised set is not augmented.
pub proof fn law_loopback_listener_is_ignored(pre: NodeView, address: Address)
    requires
        is_loopback_text(address@),
    ensures
        step(pre, NodeEvent::NewListenAddr { address }) == observed(pre, None),
        step(pre, NodeEvent::NewListenAddr { address }).state.external == pre.external,
{
}

/// After any run from the initial state, the advertised addresses are
/// exactly the addresses of the listeners reported so far that are not
/// loopback.
pub proof fn law_advertised_addresses(
    close_policy: ClosePolicy,
    trace: Seq<NodeEvent>,
    address: Seq<char>,
)
    ensures
        run(initial(close_policy), trace).external.contains(address) <==> !is_loopback_text(address)
            && exists|i: int| 0 <= i < trace.len() && listens_on(#[trigger] trace[i], address),
    decreases trace.len(),
{
    if trace.len() > 0 {
        let earlier = trace.drop_last();
        law_advertised_addresses(close_policy, earlier, address);
        if exists|i: int| 0 <= i < earlier.len() && listens_on(#[trigger] earlier[i], address) {
            let i = choose|i: int| 0 <= i < earlier.len() && listens_on(#[trigger] earlier[i], address);
            assert(listens_on(trace[i], address));
        }
        if listens_on(trace.last(), address) {
            assert(listens_on(trace[trace.len() - 1], address));
        }
        if exists|i: int| 0 <= i < trace.len() && listens_on(#[trigger] trace[i], address) {
            let i = choose|i: int| 0 <= i < trace.len() && listens_on(#[trigger] trace[i], address);
            if i < earlier.len() {
                assert(listens_on(earlier[i], address));
            }
        }
    }
}

/// After a connection is established, the routing table holds an entry for
/// its peer, and the entry holds the connection's remote address beside
/// whatever it held before.
pub proof fn law_connection_seeds_routing(pre: NodeView, connection: PeerConnection)
    ensures
        ({
            let post = step(pre, NodeEvent::ConnectionEstablished { connection }).state;
            &&& post.routing.dom().contains(connection.peer@)
            &&& post.routing[connection.peer@].contains(connection.remote@)
            &&& pre.routing.dom().contains(connection.peer@) ==> pre.routing[connection.peer@].subset_of(
                post.routing[connection.peer@],
            )
            &&& post.connections.count(connection@) == pre.connections.count(connection@) + 1
        }),
{
}

/// A peer's description that lists at least one address puts the first of
/// them into the peer's routing entry, beside whatever the entry held; the
/// entries of other peers, the connections and the advertised set stay.
pub proof fn law_identify_adds_first_address(
    pre: NodeView,
    peer: PeerId,
    listen_addrs: Vec<Address>,
)
    requires
        listen_addrs@.len() > 0,
    ensures
        ({
            let post = step(
                pre,
                NodeEvent::Behaviour(
                    BehaviourEvent::Identify(IdentifyEvent::Received { peer, listen_addrs }),
                ),
            ).state;
            &&& post.routing.dom().contains(peer@)
            &&& post.routing[peer@].contains(listen_addrs@[0]@)
            &&& pre.routing.dom().contains(peer@) ==> pre.routing[peer@].subset_of(
                post.routing[peer@],
            )
            &&& forall|other: Seq<char>|
                other != peer@ ==> (post.routing.dom().contains(other) <==> pre.routing.dom().contains(
                    other,
                )) && post.routing[other] == pre.routing[other]
            &&& post.connections == pre.connections
            &&& post.external == pre.external
        }),
{
}

/// A peer's description that lists no address changes nothing.
pub proof fn law_identify_without_address_changes_nothing(
    pre: NodeView,
    peer: PeerId,
    listen_addrs: Vec<Address>,
)
    requires
        listen_addrs@.len() == 0,
    ensures
        step(
            pre,
            NodeEvent::Behaviour(
                BehaviourEvent::Identify(IdentifyEvent::Received { peer, listen_addrs }),
            ),
        ) == observed(pre, None),
{
}

/// After any run from the initial state, the live connections are exactly
/// those established and not yet closed: each connection is held as many
/// times as it is outstanding.
pub proof fn law_live_connections_are_outstanding(
    close_policy: ClosePolicy,
    trace: Seq<NodeEvent>,
    connection: ConnectionView,
)
    ensures
        run(initial(close_policy), trace).connections.count(connection) == outstanding(
            trace,
            connection,
        ),
    decreases trace.len(),
{
    if trace.len() > 0 {
        law_live_connections_are_outstanding(close_policy, trace.drop_last(), connection);
    }
}

/// Closing a connection takes exactly one copy of it out of the live
/// connections and leaves all others.
pub proof fn law_close_removes_one(
    pre: NodeView,
    connection: PeerConnection,
    cause: CloseCause,
    other: ConnectionView,
)
    ensures
        ({
            let post = step(pre, NodeEvent::ConnectionClosed { connection, cause }).state;
            &&& pre.connections.count(connection@) > 0 ==> post.connections.count(connection@)
                == pre.connections.count(connection@) - 1
            &&& other != connection@ ==> post.connections.count(other) == pre.connections.count(
                other,
            )
        }),
{
}

/// A close event for a connection that is not live leaves the live
/// connections as they were: nothing dangles, nothing else is lost.
pub proof fn law_close_of_unknown_connection(
    pre: NodeView,
    connection: PeerConnection,
    cause: CloseCause,
)
    requires
        pre.connections.count(connection@) == 0,
    ensures
        step(pre, NodeEvent::ConnectionClosed { connection, cause }).state.connections
            == pre.connections,
{
    let post = step(pre, NodeEvent::ConnectionClosed { connection, cause }).state;
    assert(post.connections =~= pre.connections);
}

/// After any run from the initial state, every address in a routing entry
/// was vouched for by an event of the run: no address enters the routing
/// table but through a connection with the peer or the peer's own
/// description.
pub proof fn law_routing_addresses_have_a_source(
    close_policy: ClosePolicy,
    trace: Seq<NodeEvent>,
    peer: Seq<char>,
    address: Seq<char>,
)
    requires
        run(initial(close_policy), trace).routing.dom().contains(peer),
        run(initial(close_policy), trace).routing[peer].contains(address),
    ensures
        exists|i: int| 0 <= i < trace.len() && vouches_for(#[trigger] trace[i], peer, address),
    decreases trace.len(),
{
    if trace.len() > 0 {
        let earlier = trace.drop_last();
        let before = run(initial(close_policy), earlier);
        if vouches_for(trace.last(), peer, address) {
            assert(vouches_for(trace[trace.len() - 1], peer, address));
        } else {
            assert(before.routing.dom().contains(peer) && before.routing[peer].contains(address));
            law_routing_addresses_have_a_source(close_policy, earlier, peer, address);
            let i = choose|i: int|
                0 <= i < earlier.len() && vouches_for(#[trigger] earlier[i], peer, address);
            assert(vouches_for(trace[i], peer, address));
        }
    }
}

/// A failed dial changes no table, asks for no command and lets the loop go
/// on: the event after it is handled as if the dial had never been tried.
pub proof fn law_failed_dial_is_not_fatal(pre: NodeView, next: NodeEvent)
    ensures
        step(pre, NodeEvent::DialFailed).state == pre,
        step(pre, NodeEvent::DialFailed).reaction.command is None,
        step(pre, NodeEvent::DialFailed).reaction.flow == Flow::Continue,
        step(step(pre, NodeEvent::DialFailed).state, next) == step(pre, next),
{
}

/// The loop ends on a transport failure and on nothing else.
pub proof fn law_only_transport_failure_halts(pre: NodeView, event: NodeEvent)
    ensures
        step(pre, event).reaction.flow == Flow::Halt <==> event is TransportFailed,
{
}

} // verus!
