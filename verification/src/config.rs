//! The static configuration of a node: relay limits, transport tuning,
//! addresses.

use vstd::prelude::*;
use crate::runtime::ClosePolicy;

verus! {

/// The longest lease or circuit the relay may be configured with, in
/// seconds: the relay protocol carries a circuit's duration as 32-bit
/// seconds, and the same bound keeps the expiry time of a lease within
/// reach of the clock.
pub const MAX_DURATION_SECS: u64 = 4294967295;

/// One hour, the default lease and circuit duration, in seconds.
pub const ONE_HOUR_SECS: u64 = 3600;

/// What the relay grants: how many reservations and circuits, for how long,
/// and how many bytes a circuit may carry.
#[derive(Clone, Copy, Debug, PartialEq, Eq, Structural)]
pub struct RelayPolicy {
    pub max_reservations: usize,
    pub max_reservations_per_peer: usize,
    pub reservation_duration_secs: u64,
    pub max_circuits: usize,
    pub max_circuits_per_peer: usize,
    pub max_circuit_duration_secs: u64,
    pub max_circuit_bytes: u64,
}

impl RelayPolicy {
    /// The policy without caps: every count and the byte budget at the
    /// maximum of its type, leases and circuits of one hour.
    pub open spec fn permissive_policy() -> RelayPolicy {
        RelayPolicy {
            max_reservations: usize::MAX,
            max_reservations_per_peer: usize::MAX,
            reservation_duration_secs: ONE_HOUR_SECS,
            max_circuits: usize::MAX,
            max_circuits_per_peer: usize::MAX,
            max_circuit_duration_secs: ONE_HOUR_SECS,
            max_circuit_bytes: u64::MAX,
        }
    }

    /// Both durations fit the relay protocol.
    pub open spec fn acceptable(&self) -> bool {
        self.reservation_duration_secs <= MAX_DURATION_SECS && self.max_circuit_duration_secs
            <= MAX_DURATION_SECS
    }

    /// No count and no byte budget is capped below the maximum of its type.
    pub open spec fn unbounded(&self) -> bool {
        &&& self.max_reservations == usize::MAX
        &&& self.max_reservations_per_peer == usize::MAX
        &&& self.max_circuits == usize::MAX
        &&& self.max_circuits_per_peer == usize::MAX
        &&& self.max_circuit_bytes == u64::MAX
    }

    /// The policy without caps.
    pub fn permissive() -> (policy: RelayPolicy)
        ensures
            policy == Self::permissive_policy(),
            policy.acceptable(),
            policy.unbounded(),
    {
        RelayPolicy {
            max_reservations: usize::MAX,
            max_reservations_per_peer: usize::MAX,
            reservation_duration_secs: ONE_HOUR_SECS,
            max_circuits: usize::MAX,
            max_circuits_per_peer: usize::MAX,
            max_circuit_duration_secs: ONE_HOUR_SECS,
            max_circuit_bytes: u64::MAX,
        }
    }

    /// Whether both durations fit the relay protocol.
    pub fn is_acceptable(&self) -> (ok: bool)
        ensures
            ok == self.acceptable(),
    {
        self.reservation_duration_secs <= MAX_DURATION_SECS && self.max_circuit_duration_secs
            <= MAX_DURATION_SECS
    }

    /// Whether nothing is capped.
    pub fn is_unbounded(&self) -> (free: bool)
        ensures
            free == self.unbounded(),
    {
        self.max_reservations == usize::MAX && self.max_reservations_per_peer == usize::MAX
            && self.max_circuits == usize::MAX && self.max_circuits_per_peer == usize::MAX
            && self.max_circuit_bytes == u64::MAX
    }
}

impl Default for RelayPolicy {
    fn default() -> (policy: RelayPolicy)
        ensures
            policy == RelayPolicy::permissive_policy(),
    {
        RelayPolicy::permissive()
    }
}

/// Buffer sizes and timeouts of the transport.
#[derive(Clone, Copy, Debug, PartialEq, Eq, Structural)]
pub struct SwarmTuning {
    /// How long a connection may stay idle before the transport closes it.
    pub idle_connection_timeout_secs: u64,
    /// How many commands may wait for one connection's handler.
    pub notify_handler_buffer_size: usize,
    /// How many events of one connection may wait for the node.
    pub per_connection_event_buffer_size: usize,
    /// How many inbound streams of one connection may negotiate at a time.
    pub max_negotiating_inbound_streams: usize,
}

impl SwarmTuning {
    /// The tuning for long-lived connections: about a year of idle time,
    /// 2048 and 4096 buffer slots, inbound negotiations without limit.
    pub open spec fn long_lived_tuning() -> SwarmTuning {
        SwarmTuning {
            idle_connection_timeout_secs: 30000000,
            notify_handler_buffer_size: 2048,
            per_connection_event_buffer_size: 4096,
            max_negotiating_inbound_streams: usize::MAX,
        }
    }

    /// The buffers can be allocated: the handler buffer has at least one
    /// slot, and neither buffer has more than a quarter of the address
    /// space.
    pub open spec fn acceptable(&self) -> bool {
        &&& 0 < self.notify_handler_buffer_size <= usize::MAX / 4
        &&& self.per_connection_event_buffer_size < usize::MAX / 4
    }

    /// The tuning for long-lived connections.
    pub fn long_lived() -> (tuning: SwarmTuning)
        ensures
            tuning == Self::long_lived_tuning(),
            tuning.acceptable(),
    {
        SwarmTuning {
            idle_connection_timeout_secs: 30000000,
            notify_handler_buffer_size: 2048,
            per_connection_event_buffer_size: 4096,
            max_negotiating_inbound_streams: usize::MAX,
        }
    }

    /// Whether the buffers can be allocated.
    pub fn is_acceptable(&self) -> (ok: bool)
        ensures
            ok == self.acceptable(),
    {
        0 < self.notify_handler_buffer_size && self.notify_handler_buffer_size <= usize::MAX / 4
            && self.per_connection_event_buffer_size < usize::MAX / 4
    }
}

impl Default for SwarmTuning {
    fn default() -> (tuning: SwarmTuning)
        ensures
            tuning == SwarmTuning::long_lived_tuning(),
    {
        SwarmTuning::long_lived()
    }
}

/// Everything a node is started with.
#[derive(Debug)]
pub struct NodeConfig {
    /// The address to listen on, without the node's own identifier.
    pub listen_pattern: String,
    /// The address of a peer to dial once at start-up, if any.
    pub bootstrap: Option<String>,
    /// The protocol name the node gives in its self-description.
    pub identify_protocol: String,
    pub relay: RelayPolicy,
    pub tuning: SwarmTuning,
    pub close_policy: ClosePolicy,
}

/// The default listen pattern: any interface, a port chosen by the system.
pub open spec fn default_listen_pattern() -> Seq<char> {
    seq![
        '/', 'i', 'p', '4', '/', '0', '.', '0', '.', '0', '.', '0', '/', 't', 'c', 'p', '/', '0',
    ]
}

/// The default protocol name of the self-description.
pub open spec fn default_identify_protocol() -> Seq<char> {
    seq!['/', 'r', 'e', 'l', 'a', 'y', '/', '0', '.', '0', '.', '1']
}

impl NodeConfig {
    /// Whether `self` is the default configuration.
    pub open spec fn is_default(&self) -> bool {
        &&& self.listen_pattern@ == default_listen_pattern()
        &&& self.bootstrap is None
        &&& self.identify_protocol@ == default_identify_protocol()
        &&& self.relay == RelayPolicy::permissive_policy()
        &&& self.tuning == SwarmTuning::long_lived_tuning()
        &&& self.close_policy == ClosePolicy::Evict
    }

    /// The relay limits and the transport tuning can both be used.
    pub open spec fn acceptable(&self) -> bool {
        self.relay.acceptable() && self.tuning.acceptable()
    }

    /// Whether the relay limits and the transport tuning can both be used.
    pub fn is_acceptable(&self) -> (ok: bool)
        ensures
            ok == self.acceptable(),
    {
        self.relay.is_acceptable() && self.tuning.is_acceptable()
    }
}

impl Default for NodeConfig {
    fn default() -> (config: NodeConfig)
        ensures
            config.is_default(),
            config.acceptable(),
    {
        proof {
            reveal_strlit("/ip4/0.0.0.0/tcp/0");
            reveal_strlit("/relay/0.0.1");
        }
        let config = NodeConfig {
            listen_pattern: "/ip4/0.0.0.0/tcp/0".to_owned(),
            bootstrap: None,
            identify_protocol: "/relay/0.0.1".to_owned(),
            relay: RelayPolicy::permissive(),
            tuning: SwarmTuning::long_lived(),
            close_policy: ClosePolicy::Evict,
        };
        assert(config.listen_pattern@ =~= default_listen_pattern());
        assert(config.identify_protocol@ =~= default_identify_protocol());
        config
    }
}

} // verus!
