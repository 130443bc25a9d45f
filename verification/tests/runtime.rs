use relay_node::address::{Address, PeerId};
use relay_node::event::{
    BehaviourEvent, CloseCause, Direction, IdentifyEvent, NodeEvent, PeerConnection, RoutingEvent,
};
use relay_node::runtime::{ClosePolicy, Command, Flow, LogLevel, NodeState, Reaction};

const ALICE: &str = "12D3KooWAlice";
const BOB: &str = "12D3KooWBob";

fn connection(peer: &str, remote: &str, direction: Direction) -> PeerConnection {
    PeerConnection { peer: PeerId::new(peer), remote: Address::new(remote), direction }
}

fn established(peer: &str, remote: &str) -> NodeEvent {
    NodeEvent::ConnectionEstablished { connection: connection(peer, remote, Direction::Inbound) }
}

fn closed(peer: &str, remote: &str) -> NodeEvent {
    NodeEvent::ConnectionClosed {
        connection: connection(peer, remote, Direction::Inbound),
        cause: CloseCause::Reset,
    }
}

fn identified(peer: &str, listen_addrs: &[&str]) -> NodeEvent {
    NodeEvent::Behaviour(BehaviourEvent::Identify(IdentifyEvent::Received {
        peer: PeerId::new(peer),
        listen_addrs: listen_addrs.iter().map(|a| Address::new(a)).collect(),
    }))
}

fn routed(state: &NodeState, peer: &str) -> Option<Vec<String>> {
    state
        .routing_entry(&PeerId::new(peer))
        .map(|entry| entry.addresses.iter().map(|a| a.as_str().to_string()).collect())
}

fn advertised(state: &NodeState) -> Vec<String> {
    state.external_addresses().iter().map(|a| a.as_str().to_string()).collect()
}

fn assert_quiet(reaction: &Reaction, notice: Option<LogLevel>) {
    assert!(reaction.command.is_none());
    assert_eq!(reaction.notice, notice);
    assert_eq!(reaction.flow, Flow::Continue);
}

#[test]
fn new_state_is_empty() {
    let state = NodeState::new(ClosePolicy::Retain);
    assert_eq!(state.close_policy(), ClosePolicy::Retain);
    assert!(advertised(&state).is_empty());
    assert_eq!(state.connection_count(), 0);
    assert!(!state.is_connected(&PeerId::new(ALICE)));
    assert!(state.routing_entry(&PeerId::new(ALICE)).is_none());
}

#[test]
fn loopback_listener_is_not_advertised() {
    let mut state = NodeState::new(ClosePolicy::Evict);
    let reaction =
        state.handle(NodeEvent::NewListenAddr { address: Address::new("/ip4/127.0.0.1/tcp/4001") });
    assert_quiet(&reaction, None);
    assert!(advertised(&state).is_empty());
    assert!(!state.advertises(&Address::new("/ip4/127.0.0.1/tcp/4001")));
}

#[test]
fn loopback_marker_counts_wherever_it_stands() {
    assert!(Address::new("127.0.0.1").is_loopback());
    assert!(Address::new("/ip4/127.0.0.1").is_loopback());
    assert!(Address::new("/ip4/127.0.0.1/tcp/1/p2p/12D3KooWAlice").is_loopback());
    assert!(Address::new("/ip4/127.0.0.10/tcp/1").is_loopback());
    assert!(!Address::new("/ip4/127.0.0.").is_loopback());
    assert!(!Address::new("/ip4/127.0.1.1/tcp/1").is_loopback());
    assert!(!Address::new("/ip4/192.0.2.7/tcp/4001").is_loopback());
    assert!(!Address::new("/ip6/::1/tcp/4001").is_loopback());
    assert!(!Address::new("").is_loopback());
}

#[test]
fn public_listener_is_advertised_once() {
    let mut state = NodeState::new(ClosePolicy::Evict);
    let reaction =
        state.handle(NodeEvent::NewListenAddr { address: Address::new("/ip4/192.0.2.7/tcp/4001") });
    match &reaction.command {
        Some(Command::AddExternalAddress { address }) => {
            assert_eq!(address.as_str(), "/ip4/192.0.2.7/tcp/4001")
        }
        other => panic!("unexpected command {:?}", other),
    }
    assert_eq!(reaction.notice, Some(LogLevel::Info));
    assert_eq!(reaction.flow, Flow::Continue);
    state.handle(NodeEvent::NewListenAddr { address: Address::new("/ip4/127.0.0.1/tcp/4001") });
    state.handle(NodeEvent::NewListenAddr { address: Address::new("/ip4/192.0.2.7/tcp/4001") });
    state.handle(NodeEvent::NewListenAddr { address: Address::new("/ip4/198.51.100.3/tcp/9") });
    assert_eq!(advertised(&state), vec!["/ip4/192.0.2.7/tcp/4001", "/ip4/198.51.100.3/tcp/9"]);
    assert!(state.advertises(&Address::new("/ip4/198.51.100.3/tcp/9")));
}

#[test]
fn connection_seeds_routing_entry() {
    let mut state = NodeState::new(ClosePolicy::Evict);
    let reaction = state.handle(established(ALICE, "/ip4/192.0.2.7/tcp/5000"));
    match &reaction.command {
        Some(Command::AddRoutingAddress { peer, address }) => {
            assert_eq!(peer.as_str(), ALICE);
            assert_eq!(address.as_str(), "/ip4/192.0.2.7/tcp/5000");
        }
        other => panic!("unexpected command {:?}", other),
    }
    assert_eq!(reaction.notice, Some(LogLevel::Info));
    assert!(state.is_connected(&PeerId::new(ALICE)));
    assert!(!state.is_connected(&PeerId::new(BOB)));
    assert_eq!(routed(&state, ALICE), Some(vec!["/ip4/192.0.2.7/tcp/5000".to_string()]));
    assert_eq!(routed(&state, BOB), None);
}

#[test]
fn identify_adds_first_listed_address() {
    let mut state = NodeState::new(ClosePolicy::Evict);
    state.handle(established(ALICE, "/ip4/192.0.2.7/tcp/5000"));
    let reaction =
        state.handle(identified(ALICE, &["/ip4/192.0.2.7/tcp/4001", "/ip4/10.0.0.2/tcp/4001"]));
    match &reaction.command {
        Some(Command::AddRoutingAddress { peer, address }) => {
            assert_eq!(peer.as_str(), ALICE);
            assert_eq!(address.as_str(), "/ip4/192.0.2.7/tcp/4001");
        }
        other => panic!("unexpected command {:?}", other),
    }
    assert_eq!(reaction.notice, None);
    assert_eq!(
        routed(&state, ALICE),
        Some(vec!["/ip4/192.0.2.7/tcp/5000".to_string(), "/ip4/192.0.2.7/tcp/4001".to_string()])
    );
    assert_eq!(state.connection_count(), 1);
}

#[test]
fn identify_of_unconnected_peer_creates_entry() {
    let mut state = NodeState::new(ClosePolicy::Evict);
    state.handle(identified(BOB, &["/ip4/203.0.113.9/tcp/4001"]));
    assert_eq!(routed(&state, BOB), Some(vec!["/ip4/203.0.113.9/tcp/4001".to_string()]));
    assert!(!state.is_connected(&PeerId::new(BOB)));
}

#[test]
fn identify_without_addresses_changes_nothing() {
    let mut state = NodeState::new(ClosePolicy::Evict);
    state.handle(established(ALICE, "/ip4/192.0.2.7/tcp/5000"));
    let reaction = state.handle(identified(ALICE, &[]));
    assert_quiet(&reaction, None);
    assert_eq!(routed(&state, ALICE), Some(vec!["/ip4/192.0.2.7/tcp/5000".to_string()]));
    let reaction = state.handle(identified(BOB, &[]));
    assert_quiet(&reaction, None);
    assert_eq!(routed(&state, BOB), None);
}

#[test]
fn identify_repeating_known_address_adds_nothing() {
    let mut state = NodeState::new(ClosePolicy::Evict);
    state.handle(established(ALICE, "/ip4/192.0.2.7/tcp/5000"));
    state.handle(identified(ALICE, &["/ip4/192.0.2.7/tcp/5000"]));
    assert_eq!(routed(&state, ALICE), Some(vec!["/ip4/192.0.2.7/tcp/5000".to_string()]));
}

#[test]
fn connection_table_tracks_open_and_close() {
    let mut state = NodeState::new(ClosePolicy::Retain);
    let first = connection(ALICE, "/ip4/192.0.2.7/tcp/5000", Direction::Inbound);
    let other = connection(ALICE, "/ip4/192.0.2.7/tcp/5000", Direction::Outbound);
    state.handle(established(ALICE, "/ip4/192.0.2.7/tcp/5000"));
    state.handle(established(ALICE, "/ip4/192.0.2.7/tcp/5000"));
    state.handle(NodeEvent::ConnectionEstablished { connection: other.clone() });
    state.handle(established(BOB, "/ip4/198.51.100.3/tcp/9"));
    assert_eq!(state.connection_count(), 4);
    assert_eq!(state.live_count(&first), 2);
    assert_eq!(state.live_count(&other), 1);

    state.handle(closed(ALICE, "/ip4/192.0.2.7/tcp/5000"));
    assert_eq!(state.connection_count(), 3);
    assert_eq!(state.live_count(&first), 1);
    assert_eq!(state.live_count(&other), 1);

    state.handle(closed(ALICE, "/ip4/192.0.2.7/tcp/5000"));
    assert_eq!(state.live_count(&first), 0);
    assert!(state.is_connected(&PeerId::new(ALICE)));

    state.handle(NodeEvent::ConnectionClosed { connection: other.clone(), cause: CloseCause::Timeout });
    assert_eq!(state.live_count(&other), 0);
    assert!(!state.is_connected(&PeerId::new(ALICE)));
    assert!(state.is_connected(&PeerId::new(BOB)));
    assert_eq!(state.connection_count(), 1);
}

#[test]
fn close_of_unknown_connection_leaves_table() {
    let mut state = NodeState::new(ClosePolicy::Retain);
    state.handle(established(ALICE, "/ip4/192.0.2.7/tcp/5000"));
    let reaction = state.handle(closed(BOB, "/ip4/198.51.100.3/tcp/9"));
    assert_quiet(&reaction, Some(LogLevel::Warn));
    assert_eq!(state.connection_count(), 1);
    assert!(state.is_connected(&PeerId::new(ALICE)));
    assert!(!state.is_connected(&PeerId::new(BOB)));
    let reaction = state.handle(closed(ALICE, "/ip4/192.0.2.7/tcp/5001"));
    assert_quiet(&reaction, Some(LogLevel::Warn));
    assert_eq!(state.connection_count(), 1);
    state.handle(closed(ALICE, "/ip4/192.0.2.7/tcp/5000"));
    state.handle(closed(ALICE, "/ip4/192.0.2.7/tcp/5000"));
    assert_eq!(state.connection_count(), 0);
}

#[test]
fn evict_policy_drops_entry_when_peer_disconnects() {
    let mut state = NodeState::new(ClosePolicy::Evict);
    state.handle(established(ALICE, "/ip4/192.0.2.7/tcp/5000"));
    state.handle(established(BOB, "/ip4/198.51.100.3/tcp/9"));
    let reaction = state.handle(closed(ALICE, "/ip4/192.0.2.7/tcp/5000"));
    match &reaction.command {
        Some(Command::RemoveRoutingPeer { peer }) => assert_eq!(peer.as_str(), ALICE),
        other => panic!("unexpected command {:?}", other),
    }
    assert_eq!(reaction.notice, Some(LogLevel::Warn));
    assert_eq!(reaction.flow, Flow::Continue);
    assert_eq!(routed(&state, ALICE), None);
    assert_eq!(routed(&state, BOB), Some(vec!["/ip4/198.51.100.3/tcp/9".to_string()]));
}

#[test]
fn evict_policy_waits_for_last_connection() {
    let mut state = NodeState::new(ClosePolicy::Evict);
    state.handle(established(ALICE, "/ip4/192.0.2.7/tcp/5000"));
    state.handle(established(ALICE, "/ip4/192.0.2.7/tcp/5001"));
    let reaction = state.handle(closed(ALICE, "/ip4/192.0.2.7/tcp/5000"));
    assert_quiet(&reaction, Some(LogLevel::Warn));
    assert_eq!(
        routed(&state, ALICE),
        Some(vec!["/ip4/192.0.2.7/tcp/5000".to_string(), "/ip4/192.0.2.7/tcp/5001".to_string()])
    );
    let reaction = state.handle(closed(ALICE, "/ip4/192.0.2.7/tcp/5001"));
    assert!(matches!(reaction.command, Some(Command::RemoveRoutingPeer { .. })));
    assert_eq!(routed(&state, ALICE), None);
}

#[test]
fn retain_policy_keeps_entry_after_disconnect() {
    let mut state = NodeState::new(ClosePolicy::Retain);
    state.handle(established(ALICE, "/ip4/192.0.2.7/tcp/5000"));
    let reaction = state.handle(closed(ALICE, "/ip4/192.0.2.7/tcp/5000"));
    assert_quiet(&reaction, Some(LogLevel::Warn));
    assert!(!state.is_connected(&PeerId::new(ALICE)));
    assert_eq!(routed(&state, ALICE), Some(vec!["/ip4/192.0.2.7/tcp/5000".to_string()]));
}

#[test]
fn failed_dial_is_not_fatal() {
    let mut state = NodeState::new(ClosePolicy::Evict);
    let reaction = state.handle(NodeEvent::DialFailed);
    assert_quiet(&reaction, Some(LogLevel::Warn));
    assert_eq!(state.connection_count(), 0);
    let reaction = state.handle(established(ALICE, "/ip4/192.0.2.7/tcp/5000"));
    assert!(matches!(reaction.command, Some(Command::AddRoutingAddress { .. })));
    assert!(state.is_connected(&PeerId::new(ALICE)));
}

#[test]
fn transport_failure_halts_the_loop() {
    let mut state = NodeState::new(ClosePolicy::Evict);
    state.handle(established(ALICE, "/ip4/192.0.2.7/tcp/5000"));
    let reaction = state.handle(NodeEvent::TransportFailed);
    assert!(reaction.command.is_none());
    assert_eq!(reaction.notice, None);
    assert_eq!(reaction.flow, Flow::Halt);
    assert_eq!(state.connection_count(), 1);
    assert_eq!(routed(&state, ALICE), Some(vec!["/ip4/192.0.2.7/tcp/5000".to_string()]));
}

#[test]
fn protocol_events_are_only_observed() {
    let mut state = NodeState::new(ClosePolicy::Evict);
    state.handle(NodeEvent::NewListenAddr { address: Address::new("/ip4/192.0.2.7/tcp/4001") });
    state.handle(established(ALICE, "/ip4/192.0.2.7/tcp/5000"));
    let cases = vec![
        (NodeEvent::Behaviour(BehaviourEvent::Relay), Some(LogLevel::Info)),
        (NodeEvent::Behaviour(BehaviourEvent::Ping), None),
        (
            NodeEvent::Behaviour(BehaviourEvent::Routing(RoutingEvent::RoutingUpdated)),
            Some(LogLevel::Info),
        ),
        (NodeEvent::Behaviour(BehaviourEvent::Routing(RoutingEvent::Other)), None),
        (NodeEvent::Behaviour(BehaviourEvent::Identify(IdentifyEvent::Other)), None),
        (NodeEvent::Other, None),
    ];
    for (event, notice) in cases {
        let reaction = state.handle(event);
        assert_quiet(&reaction, notice);
        assert_eq!(advertised(&state), vec!["/ip4/192.0.2.7/tcp/4001"]);
        assert_eq!(state.connection_count(), 1);
        assert_eq!(routed(&state, ALICE), Some(vec!["/ip4/192.0.2.7/tcp/5000".to_string()]));
    }
}

#[test]
fn addresses_and_peers_compare_by_text() {
    assert_eq!(Address::new("/ip4/192.0.2.7/tcp/1"), Address::new("/ip4/192.0.2.7/tcp/1"));
    assert_ne!(Address::new("/ip4/192.0.2.7/tcp/1"), Address::new("/ip4/192.0.2.7/tcp/2"));
    assert_eq!(PeerId::new(ALICE), PeerId::new(ALICE).clone());
    assert_ne!(PeerId::new(ALICE), PeerId::new(BOB));
    assert_ne!(
        connection(ALICE, "/ip4/192.0.2.7/tcp/1", Direction::Inbound),
        connection(ALICE, "/ip4/192.0.2.7/tcp/1", Direction::Outbound)
    );
}
