//! How a request, a drain or a whole retrieval can fail.
use vstd::prelude::*;

verus! {

/// A well-formed reply that the protocol forbids.
#[derive(Debug, Clone, PartialEq, Eq)]
pub enum ProtocolError {
    /// The reply carried a non-empty `errors` list; these are its messages.
    Messages(Vec<String>),
    /// The page claimed a next page but gave no cursor to reach it.
    MissingCursor,
}

/// The failure of one request, and so of the drain or fetch that made it.
/// None of them is retried.
#[derive(Debug, Clone, PartialEq, Eq)]
pub enum FetchError {
    /// The request could not be sent or its reply not received.
    Transport(String),
    /// The reply body was not the expected JSON envelope.
    Decode(String),
    /// The reply was well formed but reported errors or was inconsistent.
    Protocol(ProtocolError),
    /// The reply held neither data nor errors.
    Integrity,
    /// The caller cancelled the work before this request completed.
    Cancelled,
}

/// Which part of a retrieval a failure came from.
#[derive(Debug, Clone, Copy, PartialEq, Eq)]
pub enum Phase {
    Summary,
    Issues,
    PullRequests,
    PullRequestReviews,
}

/// The failure of a whole retrieval: the phase that failed and why.
#[derive(Debug, Clone, PartialEq, Eq)]
pub struct ActivityError {
    pub phase: Phase,
    pub error: FetchError,
}

} // verus!
