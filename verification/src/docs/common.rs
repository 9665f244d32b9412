//! Common API response shapes.
use vstd::prelude::*;

verus! {

/// Error body of a failed request.
#[derive(Debug)]
pub struct ErrorResponse {
    /// Human-readable error message
    pub error: String,
    /// Machine-readable error code
    pub status: u16,
}

} // verus!
