//! Failure taxonomy of the relay, and the small decisions handlers make
//! from it.

use vstd::prelude::*;

verus! {

/// Every way a fetch through the relay can fail.
///
/// `UpstreamUnavailable` is a transport failure, `UpstreamMalformed` a
/// response that does not parse into the expected shape, `NotFound` a
/// resource legitimately absent upstream, and `ConfigMissing` a missing
/// credential, detected before any call is made.
#[derive(Clone, Copy, Debug, PartialEq, Eq, Structural)]
pub enum FetchError {
    UpstreamUnavailable,
    UpstreamMalformed,
    NotFound,
    ConfigMissing,
}

/// Fail fast when the upstream credential is absent: a token must be
/// configured before any fetch is attempted.
pub fn require_token(token: Option<String>) -> (r: Result<String, FetchError>)
    ensures
        token matches Some(t) ==> r == Ok::<String, FetchError>(t),
        token is None ==> r == Err::<String, FetchError>(FetchError::ConfigMissing),
{
    match token {
        Some(t) => Ok(t),
        None => Err(FetchError::ConfigMissing),
    }
}

/// The HTTP status a handler answers with for a failed fetch: an absent
/// resource is the client's mistake, everything else is a server-side
/// failure.
pub fn error_status(e: &FetchError) -> (s: u16)
    ensures
        *e == FetchError::NotFound ==> s == 404,
        *e != FetchError::NotFound ==> s == 500,
{
    match e {
        FetchError::NotFound => 404,
        _ => 500,
    }
}

} // verus!
