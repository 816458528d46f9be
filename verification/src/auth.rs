//! Access-token resolution from plain environment values: the primary
//! variable wins, the fallback is used only when the primary is unset, and
//! a missing token is a fatal configuration error.

use vstd::prelude::*;
use crate::error::FetchError;

verus! {

pub struct AuthProvider {}

impl AuthProvider {
    /// Pick the access token from the two recognized environment values,
    /// handed in as plain optional strings. Fails exactly when both are
    /// unset, before any network client is constructed.
    pub fn resolve_token(primary: Option<String>, fallback: Option<String>) -> (r: Result<
        String,
        FetchError,
    >)
        ensures
            r is Ok <==> (primary is Some || fallback is Some),
            primary matches Some(t) ==> (r matches Ok(u) && u@ == t@),
            (primary is None && fallback is Some) ==> (r matches Ok(u) && u@
                == fallback.unwrap()@),
            primary is None && fallback is None ==> r == Err::<String, FetchError>(
                FetchError::MissingToken,
            ),
    {
        match primary {
            Some(t) => Ok(t),
            None => match fallback {
                Some(t) => Ok(t),
                None => Err(FetchError::MissingToken),
            },
        }
    }
}

} // verus!
