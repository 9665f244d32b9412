//! Request and response shapes of the Ticket endpoints.
use vstd::prelude::*;

verus! {

#[derive(Debug)]
pub struct TicketResponse {
    pub id: i64,
    pub ticket_number: String,
    pub customer_id: Option<i64>,
    pub subject: String,
    pub description: String,
    pub category: String,
    pub priority: String,
    pub status: String,
    pub assigned_to: Option<i64>,
}

#[derive(Debug)]
pub struct CreateTicketRequest {
    pub customer_id: Option<i64>,
    pub category: String,
    pub priority: String,
    pub subject: String,
    pub description: String,
    pub source: String,
}

#[derive(Debug)]
pub struct AssignTicketRequest {
    pub assigned_to: i64,
    pub notes: Option<String>,
}

#[derive(Debug)]
pub struct TicketListParams {
    pub page: Option<i64>,
    pub limit: Option<i64>,
    pub status: Option<String>,
    pub priority: Option<String>,
    pub category: Option<String>,
}

} // verus!
