//! Request and response shapes of the Inventory endpoints.
use vstd::prelude::*;

verus! {

#[derive(Debug)]
pub struct InventoryItemResponse {
    /// Inventory item ID
    pub id: i64,
    /// Item type (e.g. "router", "cable", "ont")
    pub item_type: String,
    /// Serial number (if applicable)
    pub serial_number: Option<String>,
    /// Item status (e.g. "available", "assigned", "deployed")
    pub status: String,
}

#[derive(Debug)]
pub struct CreateInventoryItemRequest {
    /// Item type
    pub item_type: String,
    /// Serial number (optional)
    pub serial_number: Option<String>,
    /// Barcode (optional)
    pub barcode: Option<String>,
}

#[derive(Debug)]
pub struct UpdateStockRequest {
    /// Status to set
    pub status: String,
}

#[derive(Debug)]
pub struct AssignItemRequest {
    /// User ID to assign the item to
    pub assigned_to: i64,
}

} // verus!
