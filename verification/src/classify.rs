//! The error classifier: a pure map from the raw outcome of one HTTP
//! attempt to exactly one [`FailureKind`].
//!
//! Classification only; no retries, no side effects. All downstream
//! branching switches on the produced kind, never on inspecting a
//! transport error object.

use vstd::prelude::*;

use crate::errors::FailureKind;

verus! {

/// The raw outcome of one failed HTTP attempt, as the transport
/// reports it: a connection failure, a timeout, a status code, or a
/// body that did not parse as the expected item-list schema.
#[derive(Clone, Copy, Debug, PartialEq, Eq, Structural)]
pub enum AttemptError {
    ConnectionFailed,
    TimedOut,
    HttpStatus(u16),
    MalformedBody,
}

/// The classification table: connection failures and timeouts are
/// proxy-attributable; 401 means the session expired; 429 means the
/// server is throttling; any other status is a generic transport
/// failure with the code retained; an unparsable body is malformed.
pub open spec fn classify_spec(e: AttemptError) -> FailureKind {
    match e {
        AttemptError::ConnectionFailed => FailureKind::ProxyUnreachable,
        AttemptError::TimedOut => FailureKind::ProxyUnreachable,
        AttemptError::HttpStatus(s) => if s == 401 {
            FailureKind::Unauthorized
        } else if s == 429 {
            FailureKind::RateLimited
        } else {
            FailureKind::Transport(s)
        },
        AttemptError::MalformedBody => FailureKind::Malformed,
    }
}

/// Maps a raw attempt outcome to its failure kind. Pure and
/// deterministic: the result is exactly [`classify_spec`].
pub fn classify(e: &AttemptError) -> (k: FailureKind)
    ensures
        k == classify_spec(*e),
{
    match e {
        AttemptError::ConnectionFailed => FailureKind::ProxyUnreachable,
        AttemptError::TimedOut => FailureKind::ProxyUnreachable,
        AttemptError::HttpStatus(s) => {
            if *s == 401 {
                FailureKind::Unauthorized
            } else if *s == 429 {
                FailureKind::RateLimited
            } else {
                FailureKind::Transport(*s)
            }
        },
        AttemptError::MalformedBody => FailureKind::Malformed,
    }
}

} // verus!
