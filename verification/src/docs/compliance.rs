//! Request and response shapes of the Compliance endpoints.
use vstd::prelude::*;

verus! {

#[derive(Debug)]
pub struct CreateComplianceItemRequest {
    /// Item name
    pub name: String,
    /// Item type (kyc, consent, data_retention)
    pub item_type: String,
    /// Description
    pub description: String,
    /// Regulatory reference
    pub regulatory_reference: Option<String>,
}

#[derive(Debug)]
pub struct UpdateComplianceItemRequest {
    pub name: Option<String>,
    pub description: Option<String>,
    pub status: Option<String>,
}

#[derive(Debug)]
pub struct CreateAuditRequest {
    /// Compliance item ID to audit
    pub compliance_item_id: i64,
    /// Audit description
    pub description: String,
    /// Scheduled date (YYYY-MM-DD)
    pub scheduled_date: String,
}

#[derive(Debug)]
pub struct UpdateAuditRequest {
    pub status: Option<String>,
    pub findings: Option<String>,
    pub completed_date: Option<String>,
}

#[derive(Debug)]
pub struct ReportViolationRequest {
    /// Audit ID
    pub audit_id: i64,
    /// Violation description
    pub description: String,
    /// Severity (low, medium, high, critical)
    pub severity: String,
    pub corrective_action: Option<String>,
}

#[derive(Debug)]
pub struct ComplianceItemResponse {
    pub id: i64,
    pub name: String,
    pub item_type: String,
    pub description: String,
    pub status: String,
    pub regulatory_reference: Option<String>,
    pub created_at: String,
}

#[derive(Debug)]
pub struct AuditResponse {
    pub id: i64,
    pub compliance_item_id: i64,
    pub description: String,
    pub status: String,
    pub scheduled_date: String,
    pub completed_date: Option<String>,
    pub findings: Option<String>,
    pub created_by: Option<i64>,
    pub created_at: String,
}

#[derive(Debug)]
pub struct ViolationResponse {
    pub id: i64,
    pub audit_id: i64,
    pub description: String,
    pub severity: String,
    pub status: String,
    pub corrective_action: Option<String>,
    pub resolved_at: Option<String>,
    pub created_at: String,
}

#[derive(Debug)]
pub struct KycResponse {
    pub id: i64,
    pub customer_id: i64,
    pub document_type: String,
    pub status: String,
    pub provider: Option<String>,
    pub verified_at: Option<String>,
}

#[derive(Debug)]
pub struct ConsentResponse {
    pub id: i64,
    pub customer_id: i64,
    pub consent_type: String,
    pub granted: bool,
    pub collection_channel: String,
    pub revoked_at: Option<String>,
}

#[derive(Debug)]
pub struct RetentionPolicyResponse {
    pub id: i64,
    pub entity_type: String,
    pub retention_days: i32,
    pub action: String,
    pub is_active: bool,
    pub description: Option<String>,
    pub legal_basis: Option<String>,
}

} // verus!
