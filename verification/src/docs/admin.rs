//! Request and response shapes of the Admin endpoints.
use vstd::prelude::*;

verus! {

#[derive(Debug)]
pub struct SeedDataResponse {
    /// Status message
    pub message: String,
    /// Number of roles created
    pub roles_created: usize,
    /// Number of permissions created
    pub permissions_created: usize,
}

} // verus!
