//! Request and response shapes of the Bandwidth endpoints.
use vstd::prelude::*;

verus! {

#[derive(Debug)]
pub struct CreateProfileRequest {
    /// Profile name
    pub name: String,
    /// Download speed in kbps
    pub download_kbps: i32,
    /// Upload speed in kbps
    pub upload_kbps: i32,
}

#[derive(Debug)]
pub struct UpdateProfileRequest {
    pub name: Option<String>,
    pub download_kbps: Option<i32>,
    pub upload_kbps: Option<i32>,
}

#[derive(Debug)]
pub struct ApplyProfileRequest {
    /// Bandwidth profile ID to apply
    pub profile_id: i64,
}

#[derive(Debug)]
pub struct BandwidthProfileResponse {
    pub id: i64,
    pub name: String,
    pub download_kbps: i32,
    pub upload_kbps: i32,
    pub is_active: bool,
}

#[derive(Debug)]
pub struct BandwidthApplicationResponse {
    pub id: i64,
    pub profile_id: i64,
    pub subscription_id: i64,
    pub status: String,
    pub applied_at: Option<String>,
    pub retry_count: i32,
    pub created_at: String,
}

} // verus!
