//! The control daemon of an on-demand VPN: it opens a session through the
//! mixnet at an entry node's HTTP API, keeps watch over it, closes it, and
//! programs the local WireGuard interface that routes traffic over it.
//!
//! The heart of the crate is `engine`: the one owner of the daemon's state,
//! which takes commands, reports and changes of the configuration and hands
//! out what is to be done. The other modules hold what the engine works
//! with: the slots of the remote calls and their retries, the requests and
//! the answers, the commands, the configuration, and the ways to drive
//! WireGuard.

pub mod backoff;
pub mod cli;
pub mod clock;
pub mod command;
pub mod config;
pub mod daemon;
pub mod engine;
pub mod endpoint;
pub mod entry_node;
pub mod event;
pub mod exit_node;
pub mod json;
pub mod log_output;
pub mod peer_id;
pub mod remote_data;
pub mod report;
pub mod session;
pub mod socket;
pub mod state;
pub mod text;
pub mod wireguard;
