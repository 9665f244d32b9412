//! Request and response shapes of the Plans endpoints.
use vstd::prelude::*;

verus! {

#[derive(Debug)]
pub struct PlanResponse {
    /// Plan ID
    pub id: i64,
    /// URL-friendly plan slug
    pub slug: String,
    /// Plan display name
    pub name: String,
    /// Plan description
    pub description: Option<String>,
    /// Speed label (e.g. "50 Mbps")
    pub speed_label: String,
    /// Download speed in Mbps
    pub download_mbps: i32,
    /// Upload speed in Mbps
    pub upload_mbps: i32,
    /// Burst speed in Mbps
    pub burst_mbps: Option<i32>,
    /// Whether plan is marked as popular
    pub is_popular: bool,
    /// Whether plan is for business
    pub is_business: bool,
    /// Whether plan is active
    pub is_active: bool,
    /// Pricing tiers
    pub pricing: Vec<PlanPricingResponse>,
}

#[derive(Debug)]
pub struct PlanPricingResponse {
    /// Billing period in months
    pub billing_period_months: i32,
    /// Price for this period
    pub price: String,
    /// Savings compared to monthly billing
    pub savings: Option<String>,
}

#[derive(Debug)]
pub struct CreatePlanRequest {
    /// URL-friendly slug
    pub slug: String,
    /// Plan display name
    pub name: String,
    /// Plan description
    pub description: Option<String>,
    /// Speed label
    pub speed_label: String,
    /// Download speed in Mbps
    pub download_mbps: i32,
    /// Upload speed in Mbps
    pub upload_mbps: i32,
    /// Burst speed in Mbps
    pub burst_mbps: Option<i32>,
    /// Whether plan is for business
    pub is_business: Option<bool>,
}

#[derive(Debug)]
pub struct UpdatePlanRequest {
    /// Updated plan name
    pub name: String,
    /// Updated description
    pub description: Option<String>,
    /// Whether plan is active
    pub is_active: bool,
}

#[derive(Debug)]
pub struct UpdatePricingRequest {
    /// Billing period in months
    pub billing_period_months: i32,
    /// New price
    pub price: String,
}

#[derive(Debug)]
pub struct ClonePlanRequest {
    /// Name for the cloned plan
    pub new_name: String,
}

#[derive(Debug)]
pub struct SetSpeedProfileRequest {
    /// Bandwidth profile ID to assign
    pub bandwidth_profile_id: i64,
}

#[derive(Debug)]
pub struct SpeedProfileResponse {
    /// Profile ID
    pub id: i64,
    /// Profile name
    pub name: String,
    /// Download speed in Kbps
    pub download_kbps: i32,
    /// Upload speed in Kbps
    pub upload_kbps: i32,
    /// Burst download speed in Kbps
    pub burst_download_kbps: Option<i32>,
    /// Burst upload speed in Kbps
    pub burst_upload_kbps: Option<i32>,
    /// Burst duration in seconds
    pub burst_duration_seconds: Option<i32>,
    /// Priority level
    pub priority: Option<i32>,
    /// Whether profile is active
    pub is_active: bool,
}

} // verus!
