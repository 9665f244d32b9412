//! Request and response shapes of the Notifications endpoints.
use vstd::prelude::*;

verus! {

#[derive(Debug)]
pub struct NotificationTemplateResponse {
    /// Template ID
    pub id: i64,
    /// Template name
    pub name: String,
    /// Channel (sms, email, push)
    pub channel: String,
    /// Whether template is active
    pub is_active: bool,
}

#[derive(Debug)]
pub struct CreateTemplateRequest {
    /// Template name
    pub name: String,
    /// Channel (sms, email, push)
    pub channel: String,
    /// Body template with placeholders
    pub body_template: String,
    /// Subject template (for email)
    pub subject_template: Option<String>,
}

#[derive(Debug)]
pub struct UpdateTemplateRequest {
    /// Updated subject template
    pub subject: Option<String>,
    /// Updated body template
    pub body: Option<String>,
    /// Updated channel
    pub channel: Option<String>,
}

#[derive(Debug)]
pub struct SendNotificationRequest {
    /// Channel (sms, email, push)
    pub channel: String,
    /// Recipient type (customer, lead, user)
    pub recipient_type: String,
    /// Recipient entity ID
    pub recipient_id: i64,
    /// Recipient address (email/phone)
    pub recipient_address: String,
    /// Subject (for email)
    pub subject: Option<String>,
    /// Notification body
    pub body: String,
}

#[derive(Debug)]
pub struct NotificationResponse {
    /// Notification ID
    pub id: i64,
    /// Channel used
    pub channel: String,
    /// Delivery status
    pub status: String,
    /// Recipient address
    pub recipient_address: String,
}

#[derive(Debug)]
pub struct DeliveryHistoryResponse {
    /// History entry ID
    pub id: i64,
    /// Associated notification ID
    pub notification_id: i64,
    /// Channel used
    pub channel: String,
    /// Delivery status
    pub status: String,
    /// Number of delivery attempts
    pub attempts: i32,
    /// Last error message if any
    pub last_error: Option<String>,
    /// Timestamp when sent
    pub sent_at: Option<String>,
}

#[derive(Debug)]
pub struct DeliveryHistoryParams {
    /// Page number
    pub page: Option<u64>,
    /// Items per page
    pub limit: Option<u64>,
    /// Filter by status
    pub status: Option<String>,
    /// Filter by channel
    pub channel: Option<String>,
}

} // verus!
