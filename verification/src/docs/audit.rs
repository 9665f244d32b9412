//! Request and response shapes of the Audit endpoints.
use vstd::prelude::*;

verus! {

#[derive(Debug)]
pub struct HistoryQuery {
    /// Filter by entity ID
    pub entity_id: Option<String>,
    /// Filter by action type (create, update, delete)
    pub action: Option<String>,
    /// Filter by user ID
    pub user_id: Option<i64>,
    /// Filter from date
    pub from: Option<String>,
    /// Filter to date
    pub to: Option<String>,
    pub page: Option<i64>,
    pub limit: Option<i64>,
}

#[derive(Debug)]
pub struct RollbackRequest {
    /// History entry ID to rollback to
    pub history_id: String,
    /// Reason for the rollback
    pub reason: String,
}

#[derive(Debug)]
pub struct CompareQuery {
    /// Entity type (e.g. "customer", "subscription")
    pub entity_type: String,
    /// Entity ID
    pub entity_id: String,
    /// First version hash to compare
    pub version_a: String,
    /// Second version hash to compare
    pub version_b: String,
}

#[derive(Debug)]
pub struct ExportHistoryQuery {
    /// Entity type to export history for
    pub entity_type: String,
    /// Entity ID
    pub entity_id: String,
    /// Export format (json, csv)
    pub format: Option<String>,
}

#[derive(Debug)]
pub struct AuditLogQuery {
    /// Filter by user ID
    pub user_id: Option<i64>,
    /// Filter by action
    pub action: Option<String>,
    /// Filter by resource type
    pub resource_type: Option<String>,
    /// Filter by result (success, failure)
    pub result: Option<String>,
    pub page: Option<i64>,
    pub limit: Option<i64>,
}

#[derive(Debug)]
pub struct EventQuery {
    /// Filter by event type
    pub event_type: Option<String>,
    /// Filter by aggregate type
    pub aggregate_type: Option<String>,
    /// Filter by status (published, pending, dead_letter)
    pub status: Option<String>,
}

#[derive(Debug)]
pub struct EventExportQuery {
    /// Filter by event type
    pub event_type: Option<String>,
    /// Filter from datetime
    pub from: Option<String>,
    /// Filter to datetime
    pub to: Option<String>,
    /// Export format
    pub format: Option<String>,
}

#[derive(Debug)]
pub struct EventReplayResult {
    /// Status of the replay
    pub status: String,
    /// Event ID that was replayed
    pub event_id: i64,
}

#[derive(Debug)]
pub struct RollbackResult {
    /// Rollback status
    pub status: String,
    /// New history ID created by the rollback
    pub history_id: String,
    /// Entity type rolled back
    pub entity_type: String,
    /// Entity ID rolled back
    pub entity_id: String,
    /// Version restored from
    pub restored_from: String,
}

#[derive(Debug)]
pub struct PaginationMeta {
    pub page: i64,
    pub limit: i64,
    pub total: i64,
    pub total_pages: i64,
}

} // verus!
