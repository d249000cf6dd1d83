//! Decision logic of a SOCKS5-over-TLS tunnelling relay.
//!
//! The crate holds the parts of the tunnel that decide: the address codec,
//! the server-side handshake state machine, the agent's connection flow and
//! the byte-forwarding engine. Sockets, TLS and task scheduling stay with the
//! caller, which performs each action a state machine asks for and reports
//! back what happened.

pub mod address;
pub mod agent;
pub mod error;
pub mod handshake;
pub mod relay;
