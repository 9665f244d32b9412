//! Request and response shapes of the Discovery endpoints.
use vstd::prelude::*;

verus! {

#[derive(Debug)]
pub struct ScanResponse {
    /// Scan ID
    pub id: i64,
    /// Scan name
    pub name: String,
    /// Scan type (e.g. "network", "snmp")
    pub scan_type: String,
    /// Whether the scan is active
    pub is_active: bool,
}

#[derive(Debug)]
pub struct CreateScanRequest {
    /// Scan name
    pub name: String,
    /// Scan type
    pub scan_type: String,
}

#[derive(Debug)]
pub struct ResultResponse {
    /// Result ID
    pub id: i64,
    /// Discovered IP address
    pub discovered_ip: String,
    /// Device vendor
    pub vendor: Option<String>,
    /// Device model
    pub model: Option<String>,
    /// Device status (e.g. "pending", "approved")
    pub status: String,
}

} // verus!
