//! Error taxonomy of the acceptance layer: I/O, timeout, channel, TLS (with
//! sub-kinds) and protocol conditions, composed into one tagged union.

use vstd::prelude::*;

verus! {

/// Transport-level I/O failure classes that this layer tells apart.  The
/// `ConnectionAborted` kind is the one the link designates as a deliberate
/// clean close of the transport.
#[derive(Debug, Clone, Copy, PartialEq, Eq, Structural)]
pub enum IoErrorKind {
    NotFound,
    ConnectionAborted,
    ConnectionReset,
    UnexpectedEof,
    TimedOut,
    Other,
}

/// Errors the external per-connection link reports from its handshake and
/// session lifetime.
#[derive(Debug, Clone, Copy, PartialEq, Eq, Structural)]
pub enum ConnectionError {
    /// The transport failed with the given I/O class.
    Io(IoErrorKind),
    /// The client requested disconnection at the protocol level.
    Disconnect,
    /// The handshake deadline elapsed.
    Timeout,
    /// The peer sent a packet of the wrong type.
    WrongPacket,
    /// The client identifier exceeded the configured maximum length.
    ClientIdTooLong,
    /// The network closed before the exchange finished.
    NetworkClosed,
}

/// The single error union of the acceptance layer.
#[derive(Debug, Clone)]
pub enum Error {
    /// Bind, accept or file-read failure.
    Io(IoErrorKind),
    /// Failure surfaced by the external link.
    Connection(ConnectionError),
    /// Handshake deadline exceeded.
    Timeout,
    /// Router channel receive failure.
    Recv,
    /// Router channel send failure.
    Send,
    /// The TLS library itself failed while building or using an acceptor.
    Tls,
    /// TLS was requested but no server certificate was provided.
    ServerCertRequired,
    /// A server certificate was provided without a private key.
    ServerKeyRequired,
    /// The configured trusted-CA file does not exist.
    CaFileNotFound(String),
    /// The configured server certificate file does not exist.
    ServerCertNotFound(String),
    /// The configured server private-key file does not exist.
    ServerKeyNotFound(String),
    /// The trusted-CA file exists but its content does not parse.
    InvalidCACert(String),
    /// The server certificate file exists but its content does not parse.
    InvalidServerCert(String),
    /// The server key file exists but holds no usable private key.
    InvalidServerKey(String),
    /// The counterpart vanished mid-exchange.
    Disconnected,
    /// The network closed.
    NetworkClosed,
    /// An unexpected protocol packet arrived.
    WrongPacket,
}

impl Error {
    /// A short stable label for the error, for logs and diagnostics.
    pub fn label(&self) -> (r: &'static str)
        ensures r@.len() > 0,
    {
        let r: &'static str = match self {
            Error::Io(_) => "io",
            Error::Connection(_) => "connection",
            Error::Timeout => "timeout",
            Error::Recv => "recv",
            Error::Send => "send",
            Error::Tls => "tls",
            Error::ServerCertRequired => "server cert required",
            Error::ServerKeyRequired => "server key required",
            Error::CaFileNotFound(_) => "ca file not found",
            Error::ServerCertNotFound(_) => "server cert file not found",
            Error::ServerKeyNotFound(_) => "server key file not found",
            Error::InvalidCACert(_) => "invalid ca cert",
            Error::InvalidServerCert(_) => "invalid server cert",
            Error::InvalidServerKey(_) => "invalid server key",
            Error::Disconnected => "disconnected",
            Error::NetworkClosed => "network closed",
            Error::WrongPacket => "wrong packet",
        };
        proof {
            reveal_strlit("io");
            reveal_strlit("connection");
            reveal_strlit("timeout");
            reveal_strlit("recv");
            reveal_strlit("send");
            reveal_strlit("tls");
            reveal_strlit("server cert required");
            reveal_strlit("server key required");
            reveal_strlit("ca file not found");
            reveal_strlit("server cert file not found");
            reveal_strlit("server key file not found");
            reveal_strlit("invalid ca cert");
            reveal_strlit("invalid server cert");
            reveal_strlit("invalid server key");
            reveal_strlit("disconnected");
            reveal_strlit("network closed");
            reveal_strlit("wrong packet");
        }
        r
    }
}

} // verus!
