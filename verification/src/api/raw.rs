//! Endpoints whose responses are kept as raw bytes.

use vstd::prelude::*;

verus! {

/// A query modifier that returns the raw data from the endpoint.
#[derive(Debug, Clone, Copy, PartialEq, Eq)]
pub struct Raw<E> {
    /// The endpoint to query.
    pub endpoint: E,
}

/// Return the raw data from the endpoint.
pub fn raw<E>(endpoint: E) -> (r: Raw<E>)
    ensures
        r.endpoint == endpoint,
{
    Raw { endpoint }
}

} // verus!
