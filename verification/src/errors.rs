//! The failure taxonomy of the polling engine.

use vstd::prelude::*;
use vstd::string::StringExecFns;

verus! {

/// Raised when a proxy-attributable failure is detected; carried by the
/// driver to signal that the current proxy must be dropped.
#[derive(Clone, Copy, Debug)]
pub struct ProxyError;

impl ProxyError {
    /// Human-readable description of the error.
    pub fn message(&self) -> (r: String)
        ensures
            r@ == "invalid proxy"@,
    {
        String::from_str("invalid proxy")
    }
}

/// Classification of one failed catalog request; produced once by the
/// error classifier, consumed by the remediation table.
#[derive(Clone, Copy, Debug, PartialEq, Eq, Structural)]
pub enum FailureKind {
    /// Connection failure or timeout: the egress path itself is suspect.
    ProxyUnreachable,
    /// The session token was rejected (HTTP 401).
    Unauthorized,
    /// The server is throttling us (HTTP 429).
    RateLimited,
    /// Any other non-success status; the status code is retained.
    Transport(u16),
    /// The response body does not parse as the expected item-list schema.
    Malformed,
}

/// Returned by the proxy pool when every candidate has been evicted:
/// an unrecoverable condition that ends the process.
#[derive(Clone, Copy, Debug, PartialEq, Eq, Structural)]
pub struct PoolExhausted;

/// Failure of a session refresh.
#[derive(Clone, Copy, Debug, PartialEq, Eq, Structural)]
pub enum SessionError {
    /// The bootstrap document lacks the expected token markers.
    TokenNotFound,
    /// The bootstrap request itself failed; reported by the transport.
    TransportError,
}

} // verus!
