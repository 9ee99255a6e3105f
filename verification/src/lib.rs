//! A gateway that enforces a policy in front of the JSON-RPC endpoint of a
//! CometBFT or Tendermint node.
//!
//! The library holds what the gateway decides: how a GET request with query
//! parameters becomes a JSON-RPC call, which calls are refused, what is
//! forwarded to the node for a call that is accepted, and what of the node's
//! status is shown. It talks to nobody: its caller receives the requests,
//! makes the calls that the library decides on and sends the answers.

pub mod assoc;
pub mod comet34;
pub mod config;
pub mod error;
pub mod json;
pub mod laws;
pub mod page;
pub mod proxy;
pub mod registry;
pub mod routes;
pub mod search;
pub mod tendermint34;
pub mod text;
pub mod upstream;
