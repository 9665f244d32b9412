//! Request and response shapes of the Installations endpoints.
use vstd::prelude::*;

verus! {

#[derive(Debug)]
pub struct InstallationResponse {
    /// Installation order ID
    pub id: i64,
    /// Customer ID
    pub customer_id: i64,
    /// Order status
    pub status: String,
    /// Scheduled date (YYYY-MM-DD)
    pub scheduled_date: Option<String>,
}

#[derive(Debug)]
pub struct CreateOrderRequest {
    /// Customer ID
    pub customer_id: i64,
    /// Subscription ID (optional)
    pub subscription_id: Option<i64>,
}

#[derive(Debug)]
pub struct ScheduleRequest {
    /// Scheduled date (YYYY-MM-DD)
    pub scheduled_date: String,
    /// Time slot (optional, e.g. "09:00-12:00")
    pub scheduled_time_slot: Option<String>,
    /// Technician ID (optional)
    pub technician_id: Option<i64>,
}

#[derive(Debug)]
pub struct RescheduleRequest {
    /// New date (YYYY-MM-DD)
    pub new_date: String,
    /// New time slot (optional)
    pub new_time_slot: Option<String>,
}

#[derive(Debug)]
pub struct PhotoResponse {
    /// Photo ID
    pub id: i64,
    /// Installation order ID
    pub installation_order_id: i64,
    /// Storage key
    pub storage_key: String,
    /// Storage bucket
    pub storage_bucket: String,
    /// Photo type (e.g. "before", "after", "equipment")
    pub photo_type: String,
    /// User ID of uploader
    pub uploaded_by: Option<i64>,
    /// Notes
    pub notes: Option<String>,
}

#[derive(Debug)]
pub struct AddPhotoRequest {
    /// Storage key
    pub storage_key: String,
    /// Storage bucket
    pub storage_bucket: String,
    /// Photo type
    pub photo_type: String,
    /// Notes (optional)
    pub notes: Option<String>,
}

#[derive(Debug)]
pub struct EquipmentResponse {
    /// Equipment item ID
    pub id: i64,
    /// Installation order ID
    pub installation_order_id: i64,
    /// Equipment type
    pub equipment_type: String,
    /// Model name
    pub model_name: Option<String>,
    /// Serial number
    pub serial_number: Option<String>,
    /// Quantity
    pub quantity: i32,
    /// Status
    pub status: String,
    /// Notes
    pub notes: Option<String>,
}

#[derive(Debug)]
pub struct AddEquipmentRequest {
    /// Equipment type
    pub equipment_type: String,
    /// Model name (optional)
    pub model_name: Option<String>,
    /// Serial number (optional)
    pub serial_number: Option<String>,
    /// Quantity (optional, defaults to 1)
    pub quantity: Option<i32>,
    /// Notes (optional)
    pub notes: Option<String>,
}

#[derive(Debug)]
pub struct UpdateEquipmentStatusRequest {
    /// New status
    pub status: String,
}

} // verus!
