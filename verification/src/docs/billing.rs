//! Request and response shapes of the Billing endpoints.
use vstd::prelude::*;

verus! {

#[derive(Debug)]
pub struct InvoiceResponse {
    pub id: i64,
    pub invoice_number: String,
    pub customer_id: i64,
    pub subscription_id: Option<i64>,
    pub total_amount: String,
    pub status: String,
    pub due_date: String,
}

#[derive(Debug)]
pub struct CreateInvoiceRequest {
    pub customer_id: i64,
    pub branch_id: i64,
    pub subscription_id: i64,
    pub billing_period_start: String,
    pub billing_period_end: String,
    pub total_amount: String,
}

#[derive(Debug)]
pub struct PaymentResponse {
    pub id: i64,
    pub payment_number: String,
    pub invoice_id: i64,
    pub amount: String,
    pub payment_method: String,
    pub status: String,
}

#[derive(Debug)]
pub struct RecordPaymentRequest {
    pub invoice_id: i64,
    pub customer_id: i64,
    pub branch_id: i64,
    pub amount: String,
    pub payment_method: String,
}

#[derive(Debug)]
pub struct InvoiceListParams {
    pub page: Option<i64>,
    pub limit: Option<i64>,
    pub status: Option<String>,
    pub customer_id: Option<i64>,
}

#[derive(Debug)]
pub struct PaymentListParams {
    pub page: Option<i64>,
    pub limit: Option<i64>,
    pub invoice_id: Option<i64>,
}

} // verus!
