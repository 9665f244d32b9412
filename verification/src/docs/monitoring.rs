//! Request and response shapes of the Monitoring endpoints.
use vstd::prelude::*;

verus! {

#[derive(Debug)]
pub struct MetricsQuery {
    /// Filter by device ID
    pub device_id: Option<i64>,
    /// Filter by metric name (e.g. cpu_usage, bandwidth)
    pub metric_name: Option<String>,
    /// Max records to return (default 100, max 500)
    pub limit: Option<i64>,
}

#[derive(Debug)]
pub struct AlertsQuery {
    /// Filter by severity (critical, high, medium, low)
    pub severity: Option<String>,
    /// Filter by status (firing, acknowledged, resolved)
    pub status: Option<String>,
    /// Filter by branch ID
    pub branch_id: Option<i64>,
}

#[derive(Debug)]
pub struct CreateAlertRequest {
    /// Device ID the alert is for
    pub device_id: i64,
    /// Branch ID
    pub branch_id: i64,
    /// Severity level (critical, high, medium, low)
    pub severity: String,
    /// Alert title
    pub title: String,
    /// Alert message
    pub message: String,
}

#[derive(Debug)]
pub struct AcknowledgeAlertRequest {
    /// User ID acknowledging the alert
    pub user_id: i64,
}

#[derive(Debug)]
pub struct ResolveAlertRequest {
    /// User ID resolving the alert
    pub user_id: i64,
    /// Resolution notes
    pub notes: Option<String>,
}

#[derive(Debug)]
pub struct AlertResponse {
    /// Alert ID
    pub id: i64,
    /// Device ID
    pub device_id: i64,
    /// Branch ID
    pub branch_id: i64,
    /// Severity level
    pub severity: String,
    /// Alert status
    pub status: String,
    /// Alert title
    pub title: String,
    /// Alert message
    pub message: String,
    /// User who acknowledged
    pub acknowledged_by: Option<i64>,
    /// User who resolved
    pub resolved_by: Option<i64>,
    /// Resolution timestamp
    pub resolved_at: Option<String>,
    /// Creation timestamp
    pub created_at: String,
}

#[derive(Debug)]
pub struct AlertsResponse {
    /// List of alerts
    pub alerts: Vec<AlertResponse>,
    /// Total number of alerts
    pub total: usize,
}

#[derive(Debug)]
pub struct AlertStatsResponse {
    /// Total active alerts
    pub total_active: i64,
    /// Critical severity count
    pub critical: i64,
    /// High severity count
    pub high: i64,
    /// Medium severity count
    pub medium: i64,
    /// Low severity count
    pub low: i64,
    /// Alerts grouped by branch ID
    pub by_branch: std::collections::HashMap<i64, i64>,
}

#[derive(Debug)]
pub struct IncidentResponse {
    /// Incident ID
    pub id: i64,
    /// Incident title
    pub title: String,
    /// Incident severity
    pub severity: String,
    /// Incident status
    pub status: String,
    /// Affected branch IDs
    pub affected_branches: Vec<i64>,
    /// Creation timestamp
    pub created_at: String,
}

} // verus!
