//! The ways in which a lookup or a session can fail.

use vstd::prelude::*;

verus! {

/// Why a lookup at the upstream service gave no result.
#[derive(Clone, Copy, Debug, PartialEq, Eq, Structural)]
pub enum UpstreamError {
    /// The service has no such pull request, or the pull request has no merge commit yet.
    NotFound,
    /// The service could not be reached, or its answer could not be read.
    Unavailable,
}

/// What can end a session early.
#[derive(Clone, Copy, Debug, PartialEq, Eq, Structural)]
pub enum SessionError {
    /// The client's text is no pull-request number.
    InvalidInput,
    /// The upstream service has no merge commit for the pull request.
    NotFound,
    /// The upstream service could not be reached or understood.
    UpstreamUnavailable,
    /// The client sent a frame that is not text.
    UnsupportedFormat,
    /// The session itself could not be read from or written to.
    TransportError,
}

/// The session error that an upstream error amounts to.
pub open spec fn upstream_failure(error: UpstreamError) -> SessionError {
    match error {
        UpstreamError::NotFound => SessionError::NotFound,
        UpstreamError::Unavailable => SessionError::UpstreamUnavailable,
    }
}

impl SessionError {
    /// Returns the session error that an upstream error amounts to.
    pub fn from_upstream(error: UpstreamError) -> (e: SessionError)
        ensures
            e == upstream_failure(error),
    {
        match error {
            UpstreamError::NotFound => SessionError::NotFound,
            UpstreamError::Unavailable => SessionError::UpstreamUnavailable,
        }
    }
}

} // verus!
