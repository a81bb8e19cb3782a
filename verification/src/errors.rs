//! The failure taxonomy of the pool manager.
//!
//! Every failure that the manager or the bootstrap reports is one of the
//! variants below, so that a pool or a caller can decide whether to retry,
//! back off, or abort startup.

use vstd::prelude::*;

verus! {

/// A failure while establishing a new connection.
#[derive(Debug, Clone, PartialEq, Eq)]
pub enum ConnectError {
    /// The connection descriptor did not parse; not retryable without
    /// fixing the configuration.  Carries a description of the defect
    /// (never the password).
    InvalidDescriptor(String),
    /// A socket-level failure (DNS, refused connection, TLS negotiation);
    /// potentially transient.  Carries the transport's own message.
    TransportFailure(String),
    /// The login or handshake was rejected at the protocol level (bad
    /// credentials, version mismatch); generally not retryable without a
    /// configuration change.  Carries the server's message.
    ProtocolFailure(String),
}

/// A previously working connection failed its liveness round-trip: the
/// connection is stale and must be discarded, not the whole pool.
#[derive(Debug, Clone, PartialEq, Eq)]
pub struct ValidationError {
    /// The underlying cause, as reported by the transport or protocol layer.
    pub detail: String,
}

/// A fault reported by the transport or protocol layer during one network
/// exchange.  The unverified driver translates the client library's error
/// into one of these plain variants; the verified classifiers map them into
/// the taxonomy above.
#[derive(Debug, Clone, PartialEq, Eq)]
pub enum SessionFault {
    /// A socket-level I/O error.
    Io(String),
    /// A TLS negotiation error.
    Tls(String),
    /// The server rejected the exchange with a numbered error token
    /// (for instance a login failure).
    Server(u32, String),
    /// The protocol stream desynchronised or an unexpected token arrived.
    Protocol(String),
}

/// A failure while bootstrapping the pool: fatal to startup, and naming
/// the stage that failed.
#[derive(Debug, Clone, PartialEq, Eq)]
pub enum BootstrapFailure {
    /// Pool construction (which may itself open connections) failed.
    BuildFailed(ConnectError),
    /// The smoke check could not acquire a connection from the new pool.
    SmokeAcquireFailed(ConnectError),
    /// The acquired connection failed the no-op validation round-trip.
    SmokeQueryFailed(ValidationError),
}

/// The message a fault carries, whatever its variant.
pub open spec fn fault_message(f: SessionFault) -> String {
    match f {
        SessionFault::Io(m) => m,
        SessionFault::Tls(m) => m,
        SessionFault::Server(_, m) => m,
        SessionFault::Protocol(m) => m,
    }
}

} // verus!
