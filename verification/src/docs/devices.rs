//! Request and response shapes of the Device endpoints.
use vstd::prelude::*;

verus! {

#[derive(Debug)]
pub struct DeviceResponse {
    pub id: i64,
    pub name: String,
    pub serial_number: String,
    pub management_ip: String,
    pub status: String,
    pub health_score: Option<i32>,
}

#[derive(Debug)]
pub struct RegisterDeviceRequest {
    pub branch_id: i64,
    pub name: String,
    pub device_model_id: i64,
    pub serial_number: String,
    pub management_ip: String,
}

#[derive(Debug)]
pub struct UpdateDeviceStatusRequest {
    pub status: String,
}

#[derive(Debug)]
pub struct DeviceListParams {
    pub status: Option<String>,
    pub branch_id: Option<i64>,
}

} // verus!
