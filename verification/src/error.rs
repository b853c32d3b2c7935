//! The error taxonomy of the decomposition core.

use vstd::prelude::*;

verus! {

/// Every failure the core can report.
///
/// `InvalidInput` rejects an empty sample buffer or a non-positive window
/// or hop size before any work is done.  `DecodeFailure` carries, unchanged,
/// the message of the codec collaborator that could not decode the input.
/// `DecompositionFailure` reports a singular-value decomposition that did
/// not converge or a degenerate input.  `SessionNotFound` answers a mix
/// request that names an unknown session id.
#[derive(Debug, PartialEq, Eq)]
pub enum PcaError {
    InvalidInput,
    DecodeFailure(String),
    DecompositionFailure(String),
    SessionNotFound,
}

impl PcaError {
    /// The boundary layer maps `InvalidInput` and `SessionNotFound` to
    /// client-error responses and the two remaining failures to
    /// server-error responses.
    pub fn is_client_error(&self) -> (r: bool)
        ensures
            r <==> (self is InvalidInput || self is SessionNotFound),
    {
        match self {
            PcaError::InvalidInput => true,
            PcaError::SessionNotFound => true,
            PcaError::DecodeFailure(_) => false,
            PcaError::DecompositionFailure(_) => false,
        }
    }
}

} // verus!
