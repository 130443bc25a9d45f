//! Start-up: from a configuration to the addresses to listen on and to dial,
//! and from the outcome of binding to the decision to run.

use vstd::prelude::*;
use vstd::string::StringExecFns;
use crate::address::{Address, PeerId};
use crate::config::NodeConfig;
use crate::multiaddr::{multiaddr_accepts, parses_as_multiaddr};

verus! {

/// Why a node does not start.
#[derive(Clone, Copy, Debug, PartialEq, Eq, Structural)]
pub enum StartupError {
    /// A relay duration or a transport buffer size cannot be used.
    InvalidLimits,
    /// The listen address is not a well-formed multiaddress.
    InvalidListenAddress,
    /// The bootstrap address is not a well-formed multiaddress.
    InvalidBootstrapAddress,
    /// No listener could be bound.
    ListenerUnavailable,
}

/// The addresses a starting node works with.
#[derive(Debug)]
pub struct StartupPlan {
    /// The address to bind a listener to.
    pub listen: Address,
    /// The peer to dial once, if any.  A failing dial is not an error.
    pub bootstrap: Option<Address>,
}

/// The mathematical value of a [`StartupPlan`].
pub ghost struct StartupPlanView {
    pub listen: Seq<char>,
    pub bootstrap: Option<Seq<char>>,
}

impl View for StartupPlan {
    type V = StartupPlanView;

    open spec fn view(&self) -> StartupPlanView {
        StartupPlanView {
            listen: self.listen@,
            bootstrap: match self.bootstrap {
                Some(address) => Some(address@),
                None => None,
            },
        }
    }
}

/// The component that names a peer inside an address: `/p2p/`.
pub open spec fn peer_component() -> Seq<char> {
    seq!['/', 'p', '2', 'p', '/']
}

/// The text of the listen address: the pattern, then the node's own
/// identifier as its last component.
pub open spec fn listen_text(pattern: Seq<char>, peer: Seq<char>) -> Seq<char> {
    pattern + peer_component() + peer
}

/// The bootstrap address of `config`, by its text.
pub open spec fn bootstrap_text(config: NodeConfig) -> Option<Seq<char>> {
    match config.bootstrap {
        Some(text) => Some(text@),
        None => None,
    }
}

/// The plan for `config`, given what the address parser said of the listen
/// address and of the bootstrap address.  Unusable limits are reported
/// first, then the listen address, then the bootstrap address.
pub open spec fn planned(
    config: NodeConfig,
    local_peer: Seq<char>,
    listen_accepted: bool,
    bootstrap_accepted: bool,
) -> Result<StartupPlanView, StartupError> {
    if !config.acceptable() {
        Err(StartupError::InvalidLimits)
    } else if !listen_accepted {
        Err(StartupError::InvalidListenAddress)
    } else if config.bootstrap is Some && !bootstrap_accepted {
        Err(StartupError::InvalidBootstrapAddress)
    } else {
        Ok(
            StartupPlanView {
                listen: listen_text(config.listen_pattern@, local_peer),
                bootstrap: bootstrap_text(config),
            },
        )
    }
}

/// The value of a planning result.
pub open spec fn plan_view(result: Result<StartupPlan, StartupError>) -> Result<
    StartupPlanView,
    StartupError,
> {
    match result {
        Ok(plan) => Ok(plan@),
        Err(error) => Err(error),
    }
}

/// The listen address of the node `peer` for `pattern`.
pub fn listen_address(pattern: &str, peer: &PeerId) -> (address: Address)
    ensures
        address@ == listen_text(pattern@, peer@),
{
    proof {
        reveal_strlit("/p2p/");
    }
    let mut text = pattern.to_owned();
    text.append("/p2p/");
    assert("/p2p/"@ =~= peer_component());
    text.append(peer.as_str());
    Address { text }
}

/// The plan for `config`, once the address parser has been asked:
/// `listen_accepted` is its answer for the listen address of `local_peer`,
/// `bootstrap_accepted` its answer for the bootstrap address, and is not
/// looked at when there is none.
pub fn plan_with(
    config: &NodeConfig,
    local_peer: &PeerId,
    listen_accepted: bool,
    bootstrap_accepted: bool,
) -> (result: Result<StartupPlan, StartupError>)
    ensures
        plan_view(result) == planned(*config, local_peer@, listen_accepted, bootstrap_accepted),
{
    if !config.is_acceptable() {
        return Err(StartupError::InvalidLimits);
    }
    if !listen_accepted {
        return Err(StartupError::InvalidListenAddress);
    }
    let bootstrap = match &config.bootstrap {
        Some(text) => {
            if !bootstrap_accepted {
                return Err(StartupError::InvalidBootstrapAddress);
            }
            Some(Address { text: text.clone() })
        },
        None => None,
    };
    Ok(StartupPlan { listen: listen_address(config.listen_pattern.as_str(), local_peer), bootstrap })
}

/// The plan for `config` and the node `local_peer`: the addresses are
/// composed, handed to the multiaddress parser, and the plan is made from
/// its answers.  An address the parser rejects keeps the node from starting.
pub fn plan_startup(config: &NodeConfig, local_peer: &PeerId) -> (result: Result<
    StartupPlan,
    StartupError,
>)
    ensures
        plan_view(result) == planned(
            *config,
            local_peer@,
            multiaddr_accepts(listen_text(config.listen_pattern@, local_peer@)),
            bootstrap_text(*config) matches Some(text) && multiaddr_accepts(text),
        ),
{
    let listen = listen_address(config.listen_pattern.as_str(), local_peer);
    let listen_accepted = parses_as_multiaddr(listen.as_str());
    let bootstrap_accepted = match &config.bootstrap {
        Some(text) => parses_as_multiaddr(text.as_str()),
        None => false,
    };
    plan_with(config, local_peer, listen_accepted, bootstrap_accepted)
}

/// Whether the node runs, once binding and dialing have been tried.  It runs
/// exactly when a listener was bound.  What became of the bootstrap dial,
/// `bootstrap_dialed`, decides nothing: a dial that failed, or was never
/// made, does not keep the node from running.
pub fn startup_verdict(listener_bound: bool, bootstrap_dialed: Option<bool>) -> (verdict: Result<
    (),
    StartupError,
>)
    ensures
        verdict == if listener_bound {
            Ok::<(), StartupError>(())
        } else {
            Err::<(), StartupError>(StartupError::ListenerUnavailable)
        },
{
    if listener_bound {
        Ok(())
    } else {
        Err(StartupError::ListenerUnavailable)
    }
}

} // verus!
