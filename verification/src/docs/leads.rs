//! Request and response shapes of the Leads endpoints.
use vstd::prelude::*;

verus! {

#[derive(Debug)]
pub struct LeadResponse {
    /// Lead ID
    pub id: i64,
    /// Customer name
    pub name: String,
    /// Phone number
    pub phone: String,
    /// Lead status (e.g. new, contacted, quoted, converted)
    pub status: String,
    /// Lead source (e.g. website, referral, walk-in)
    pub source: String,
}

#[derive(Debug)]
pub struct CreateLeadRequest {
    /// Customer name
    pub name: String,
    /// Phone number
    pub phone: String,
    /// Email address (optional)
    pub email: Option<String>,
    /// Lead source
    pub source: String,
}

#[derive(Debug)]
pub struct UpdateLeadRequest {
    /// Updated name
    pub name: Option<String>,
    /// Updated phone
    pub phone: Option<String>,
    /// Updated email
    pub email: Option<String>,
    /// Updated source
    pub source: Option<String>,
    /// Additional notes
    pub notes: Option<String>,
}

#[derive(Debug)]
pub struct UpdateLeadStatusRequest {
    /// New status value
    pub status: String,
}

#[derive(Debug)]
pub struct AssignLeadRequest {
    /// User ID to assign the lead to
    pub assigned_to: i64,
}

#[derive(Debug)]
pub struct LogActivityRequest {
    /// Activity type (e.g. call, email, visit)
    pub activity_type: String,
    /// Activity description
    pub description: String,
}

#[derive(Debug)]
pub struct LeadActivityResponse {
    /// Activity ID
    pub id: i64,
    /// Associated lead ID
    pub lead_id: i64,
    /// Activity type
    pub activity_type: String,
    /// Activity description
    pub description: String,
    /// User who performed the activity
    pub performed_by: i64,
    /// Creation timestamp (RFC 3339)
    pub created_at: String,
}

#[derive(Debug)]
pub struct ConvertLeadResponse {
    /// Original lead ID
    pub lead_id: i64,
    /// Created customer ID
    pub customer_id: i64,
    /// Generated customer code
    pub customer_code: String,
    /// Conversion status
    pub status: String,
}

#[derive(Debug)]
pub struct LeadSourceResponse {
    /// Source name
    pub source: String,
    /// Number of leads from this source
    pub count: i64,
}

} // verus!
