//! Request and response shapes of the Payments endpoints.
use vstd::prelude::*;

verus! {

#[derive(Debug)]
pub struct PaymentLinkResponse {
    /// Payment link record ID
    pub id: i64,
    /// Unique link ID string
    pub link_id: String,
    /// Associated invoice ID
    pub invoice_id: i64,
    /// Payment amount
    pub amount: String,
    /// Currency code (e.g. INR)
    pub currency: String,
    /// Gateway identifier (e.g. razorpay, payu)
    pub gateway_id: String,
    /// Customer-facing payment URL
    pub payment_url: Option<String>,
    /// Payment status (pending, completed, failed, expired)
    pub status: String,
    /// Link expiry timestamp
    pub expires_at: Option<String>,
}

#[derive(Debug)]
pub struct ManualPaymentRequest {
    /// Invoice ID
    pub invoice_id: i64,
    /// Customer ID
    pub customer_id: i64,
    /// Branch ID
    pub branch_id: i64,
    /// Payment amount
    pub amount: String,
    /// Payment method (cash, cheque, bank_transfer)
    pub payment_method: String,
    /// Reference number
    pub reference_number: Option<String>,
    /// Payment notes
    pub notes: Option<String>,
}

#[derive(Debug)]
pub struct RetryPaymentRequest {
    /// Payment link ID to retry
    pub payment_link_id: i64,
    /// Optional gateway override
    pub gateway_id: Option<String>,
}

#[derive(Debug)]
pub struct RazorpayOrderResponse {
    /// Razorpay order ID
    pub order_id: String,
    /// Payment amount in paise
    pub amount: i64,
    /// Currency
    pub currency: String,
    /// Razorpay key ID
    pub key_id: String,
}

#[derive(Debug)]
pub struct PaymentVerificationResponse {
    /// Whether payment is valid
    pub verified: bool,
    /// Payment status
    pub status: String,
    /// Associated payment link ID
    pub payment_link_id: Option<i64>,
}

} // verus!
