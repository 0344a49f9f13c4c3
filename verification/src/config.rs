//! The immutable configuration snapshot built once at startup and shared by
//! reference afterwards: broker identity, listener settings and nested
//! connection settings.

use std::collections::HashMap;
use vstd::prelude::*;

verus! {

/// Per-connection policy, shared read-only across all connections accepted
/// on one listener.
#[derive(Debug, Clone)]
pub struct ConnectionSettings {
    /// Handshake deadline in milliseconds.
    pub connection_timeout_ms: u16,
    /// Maximum accepted client-identifier length.
    pub max_client_id_len: usize,
    /// Per-connection throttle delay in milliseconds, consumed by the link.
    pub throttle_delay_ms: u64,
    /// Maximum accepted payload size in bytes.
    pub max_payload_size: usize,
    /// Maximum number of in-flight messages.
    pub max_inflight_count: u16,
    /// Maximum total size of in-flight messages.
    pub max_inflight_size: usize,
    /// Optional static credentials.
    pub username: Option<String>,
    pub password: Option<String>,
}

/// One listener's settings: the port to bind, optional TLS material for
/// either backend, an optional trusted-CA path that turns on mutual
/// authentication, the fixed inter-accept delay, and the nested connection
/// settings.
#[derive(Debug, Clone)]
pub struct ServerSettings {
    pub port: u16,
    /// PKCS#12 bundle path, used only by the bundle backend.
    pub pkcs12_path: Option<String>,
    /// PKCS#12 passphrase, used only by the bundle backend.
    pub pkcs12_pass: Option<String>,
    /// Trusted-CA path; when present alongside certificate material, clients
    /// must present a verifiable certificate.
    pub ca_path: Option<String>,
    /// PEM certificate path, used only by the certificate/key backend.
    pub cert_path: Option<String>,
    /// PEM private-key path, used only by the certificate/key backend.
    pub key_path: Option<String>,
    /// Fixed pause between two accepts, in milliseconds.
    pub next_connection_delay_ms: u64,
    pub connections: ConnectionSettings,
}

/// Address of one peer broker in an optional cluster.
#[derive(Debug, Clone)]
pub struct MeshSettings {
    pub host: String,
    pub port: u16,
}

/// Settings of the optional diagnostics endpoint.
#[derive(Debug, Clone)]
pub struct ConsoleSettings {
    pub port: u16,
}

/// The broker's whole configuration: identity, listener map and optional
/// collaborator settings.  Built once; never mutated afterwards.
#[derive(Debug, Clone)]
pub struct Config {
    pub id: usize,
    pub servers: HashMap<String, ServerSettings>,
    pub cluster: Option<HashMap<String, MeshSettings>>,
    pub replicator: Option<ConnectionSettings>,
    pub console: Option<ConsoleSettings>,
}

impl ServerSettings {
    /// Whether any TLS material is configured at all; without it the
    /// listener serves plaintext.
    pub open spec fn has_tls_material(self) -> bool {
        self.cert_path is Some || (self.pkcs12_path is Some && self.pkcs12_pass is Some)
    }
}

} // verus!
