//! Request and response shapes of the Workflow (Approval) endpoints.
use vstd::prelude::*;

verus! {

#[derive(Debug)]
pub struct ReviewApprovalRequest {
    /// Comment left by the approver
    pub comment: Option<String>,
}

#[derive(Debug)]
pub struct ApprovalRequestResponse {
    /// Request ID
    pub id: i64,
    /// Workflow type
    pub workflow_type: String,
    /// Resource type
    pub resource_type: String,
    /// Resource ID
    pub resource_id: i64,
    /// User who requested
    pub requested_by: i64,
    /// Request status (e.g. "pending", "approved", "rejected")
    pub status: String,
    /// Reason for request
    pub reason: Option<String>,
    /// User ID of the approver
    pub reviewer_id: Option<i64>,
    /// Comment left by the approver
    pub reviewer_comment: Option<String>,
    /// When the request was created (RFC 3339)
    pub requested_at: String,
    /// When the request was reviewed (RFC 3339, null if pending)
    pub reviewed_at: Option<String>,
}

#[derive(Debug)]
pub struct WorkflowResponse {
    /// Workflow ID
    pub id: i64,
    /// Workflow type
    pub workflow_type: String,
    /// Current status
    pub status: String,
    /// Resource type
    pub resource_type: String,
    /// Resource ID
    pub resource_id: i64,
}

} // verus!
