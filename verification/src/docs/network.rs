//! Request and response shapes of the Network endpoints.
use vstd::prelude::*;

verus! {

#[derive(Debug)]
pub struct VlanResponse {
    pub id: i64,
    pub branch_id: i64,
    pub vlan_id: i32,
    pub name: String,
    pub vlan_type: String,
    pub is_active: bool,
}

#[derive(Debug)]
pub struct CreateVlanRequest {
    pub branch_id: i64,
    pub vlan_id: i32,
    pub name: String,
    pub vlan_type: String,
}

#[derive(Debug)]
pub struct IpPoolResponse {
    pub id: i64,
    pub name: String,
    pub cidr: String,
    pub gateway: String,
    pub allocated_count: i32,
    pub total_count: i32,
    pub status: String,
}

#[derive(Debug)]
pub struct CreateIpPoolRequest {
    pub branch_id: i64,
    pub name: String,
    pub cidr: String,
    pub gateway: String,
    pub vlan_id: Option<i64>,
    pub pool_type: String,
    pub total_count: i32,
}

#[derive(Debug)]
pub struct PppoeSessionResponse {
    pub id: i64,
    pub username: String,
    pub assigned_ip: Option<String>,
    pub status: String,
    pub customer_id: i64,
}

#[derive(Debug)]
pub struct CreatePppoeRequest {
    pub branch_id: i64,
    pub customer_id: i64,
    pub subscription_id: i64,
    pub username: String,
    pub password_encrypted: String,
}

#[derive(Debug)]
pub struct VlanListParams {
    pub branch_id: Option<i64>,
    pub vlan_type: Option<String>,
}

#[derive(Debug)]
pub struct PppoeSessionListParams {
    pub branch_id: Option<i64>,
    pub customer_id: Option<i64>,
    pub status: Option<String>,
}

} // verus!
