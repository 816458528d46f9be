use vstd::prelude::*;

verus! {

/// Errors of the fetch / search pipeline. Every error is terminal for a run:
/// there is no retry logic anywhere in the library.
#[derive(Debug, PartialEq, Eq)]
pub enum FetchError {
    /// A transport or deserialization failure against the remote API,
    /// with the failing operation's context.
    IoError(String),
    /// Neither recognized environment variable held an access token.
    MissingToken,
    /// The identity lookup failed.
    NotFound(String),
}

/// A rejected filter input: the offending text and the reason it was refused.
/// Surfaced before any network call is attempted.
#[derive(Debug, PartialEq, Eq)]
pub struct ValidationError {
    pub input: String,
    pub reason: String,
}

} // verus!
