//! Connection-acceptance and lifecycle-supervision layer of a multi-listener
//! MQTT-style broker.
//!
//! The verified core models the decisions this layer makes: how listener
//! settings resolve to a TLS acceptor (or to plaintext), how a finished
//! connection's outcome is classified into a single disconnect event, and how
//! the accept loop throttles admissions.  The surrounding I/O (sockets, file
//! reads, the async runtime) lives outside the library and consumes these
//! decisions.

pub mod broker;
pub mod config;
pub mod connection;
pub mod error;
pub mod server;
pub mod tls;
