//! Request and response shapes of the Customer endpoints.
use vstd::prelude::*;

verus! {

#[derive(Debug)]
pub struct CustomerResponse {
    pub id: i64,
    pub customer_code: String,
    pub branch_id: i64,
    pub name: String,
    pub email: Option<String>,
    pub phone: String,
    pub status: String,
    pub created_at: String,
}

#[derive(Debug)]
pub struct CreateCustomerRequest {
    pub branch_id: i64,
    pub name: String,
    pub email: Option<String>,
    pub phone: String,
    pub alternate_phone: Option<String>,
}

#[derive(Debug)]
pub struct UpdateStatusRequest {
    pub status: String,
}

#[derive(Debug)]
pub struct AddressResponse {
    pub id: i64,
    pub customer_id: i64,
    pub address_type: String,
    pub line1: String,
    pub city: String,
    pub state: String,
    pub pincode: String,
    pub is_primary: bool,
}

#[derive(Debug)]
pub struct AddAddressRequest {
    pub address_type: Option<String>,
    pub line1: String,
    pub line2: Option<String>,
    pub city: String,
    pub state: String,
    pub pincode: String,
    pub landmark: Option<String>,
}

#[derive(Debug)]
pub struct CustomerListParams {
    pub page: Option<i64>,
    pub limit: Option<i64>,
    pub status: Option<String>,
    pub search: Option<String>,
    pub branch_id: Option<i64>,
}

} // verus!
