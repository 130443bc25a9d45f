//! Policy core of a circuit-relay, routing-table and identify node.
//!
//! The node itself is driven by an asynchronous transport; this crate holds
//! the part that decides: how a start-up configuration is validated, which
//! listen addresses are advertised, how connection events seed the routing
//! table, and what the event loop must do after each event.  Every function
//! here is a plain function from values to values with a verified contract.

pub mod address;
pub mod config;
pub mod connections;
pub mod event;
pub mod laws;
pub mod multiaddr;
pub mod routing;
pub mod runtime;
pub mod startup;
pub mod text;
