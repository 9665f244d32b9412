//! Request and response shapes of the Branches endpoints.
use vstd::prelude::*;

verus! {

#[derive(Debug)]
pub struct CreateBranchRequest {
    /// Branch name
    pub name: String,
    /// URL-friendly slug
    pub slug: String,
    /// Short branch code
    pub code: String,
    /// City
    pub city: String,
    pub state: Option<String>,
    pub address: Option<String>,
    pub phone: Option<String>,
    pub email: Option<String>,
}

#[derive(Debug)]
pub struct UpdateBranchRequest {
    pub name: Option<String>,
    pub city: Option<String>,
    pub state: Option<String>,
    pub address: Option<String>,
    pub phone: Option<String>,
    pub email: Option<String>,
}

#[derive(Debug)]
pub struct WorkingHoursEntry {
    /// Day of week (0=Sunday, 6=Saturday)
    pub day_of_week: i32,
    /// Opening time (HH:MM)
    pub open_time: String,
    /// Closing time (HH:MM)
    pub close_time: String,
    /// Whether the branch is closed on this day
    pub is_closed: bool,
}

#[derive(Debug)]
pub struct AssignBranchUserRequest {
    /// User ID to assign
    pub user_id: i64,
    /// Role for the user in this branch
    pub role: String,
}

#[derive(Debug)]
pub struct BranchResponse {
    pub id: i64,
    pub name: String,
    pub slug: String,
    pub code: String,
    pub city: String,
    pub state: String,
    pub address: Option<String>,
    pub phone: Option<String>,
    pub email: Option<String>,
    pub timezone: String,
    pub is_active: bool,
}

#[derive(Debug)]
pub struct WorkingHoursResponse {
    pub id: i64,
    pub branch_id: i64,
    pub day_of_week: i32,
    pub open_time: String,
    pub close_time: String,
    pub is_closed: bool,
}

#[derive(Debug)]
pub struct BranchUserResponse {
    pub id: i64,
    pub branch_id: i64,
    pub user_id: i64,
    pub role: String,
}

#[derive(Debug)]
pub struct BranchStatsResponse {
    pub branch_id: i64,
    pub total_customers: i64,
    pub total_subscriptions: i64,
    pub total_users: i64,
}

} // verus!
