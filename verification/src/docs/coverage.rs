//! Request and response shapes of the Coverage endpoints.
use vstd::prelude::*;

verus! {

#[derive(Debug)]
pub struct CoverageAreaResponse {
    /// Area ID
    pub id: i64,
    /// Area name
    pub name: String,
    /// Area type (e.g. "city", "region")
    pub area_type: String,
    /// Whether the area is active
    pub is_active: bool,
}

#[derive(Debug)]
pub struct CreateCoverageAreaRequest {
    /// Area name
    pub name: String,
    /// Area type (e.g. "city", "region")
    pub area_type: String,
}

#[derive(Debug)]
pub struct CheckPincodeRequest {
    /// Pincode to check
    pub pincode: String,
}

#[derive(Debug)]
pub struct AvailabilityResponse {
    /// Whether the pincode is covered
    pub available: bool,
    /// Area name if covered
    pub area_name: Option<String>,
    /// Estimated installation days if covered
    pub estimated_days: Option<i32>,
}

#[derive(Debug)]
pub struct CoverageStatsResponse {
    /// Total number of coverage areas
    pub total_areas: i64,
    /// Number of active areas
    pub active_areas: i64,
}

} // verus!
