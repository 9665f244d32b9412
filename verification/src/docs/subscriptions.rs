//! Request and response shapes of the Subscription endpoints.
use vstd::prelude::*;

verus! {

#[derive(Debug)]
pub struct SubscriptionResponse {
    pub id: i64,
    pub customer_id: i64,
    pub plan_id: i64,
    pub status: String,
    pub billing_period_months: i32,
    pub start_date: String,
    pub end_date: Option<String>,
    pub next_billing_date: Option<String>,
    pub auto_renew: bool,
    pub review_status: Option<String>,
}

#[derive(Debug)]
pub struct CreateSubscriptionRequest {
    pub customer_id: i64,
    pub branch_id: i64,
    pub plan_id: i64,
    pub billing_period_months: i32,
}

#[derive(Debug)]
pub struct UpgradeSubscriptionRequest {
    pub new_plan_id: i64,
    pub new_billing_period_months: Option<i32>,
}

#[derive(Debug)]
pub struct DowngradeSubscriptionRequest {
    pub new_plan_id: i64,
    pub new_billing_period_months: Option<i32>,
}

#[derive(Debug)]
pub struct SubscriptionListParams {
    pub page: Option<i64>,
    pub limit: Option<i64>,
    pub status: Option<String>,
    pub customer_id: Option<i64>,
}

} // verus!
