//! Decision core of a netcat-style client for a secure multiplexed transport.
//!
//! The client resolves a hostname, connects to the chosen address, opens one
//! bidirectional stream and relays bytes between that stream and the local
//! standard input and output. Everything in this crate is pure: the caller
//! performs the network and terminal work and reports what happened as
//! events; the types here decide what follows.

pub mod address;
pub mod connector;
pub mod error;
pub mod options;
pub mod pipeline;
pub mod relay;
