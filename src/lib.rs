//! A bridge from one broker topic to any number of streaming clients.
//!
//! The verified core: a bounded broadcast hub, the upstream connector's
//! reconnect decisions, the per-client stream session, and the static
//! configuration with its defaults.
pub mod config;
pub mod connector;
pub mod hub;
pub mod session;
