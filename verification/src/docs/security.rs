//! Request and response shapes of the Security (RBAC) endpoints.
use vstd::prelude::*;

verus! {

#[derive(Debug)]
pub struct RoleResponse {
    /// Role ID
    pub id: i64,
    /// Role name
    pub name: String,
    /// Role slug
    pub slug: String,
    /// Role description
    pub description: Option<String>,
    /// Parent role ID for hierarchy
    pub parent_role_id: Option<i64>,
    /// Whether this is a built-in system role
    pub is_system: bool,
}

#[derive(Debug)]
pub struct PermissionResponse {
    /// Permission ID
    pub id: i64,
    /// Permission name (e.g. "referral.view")
    pub name: String,
    /// Module the permission belongs to
    pub module: String,
    /// Resource within the module
    pub resource: String,
    /// Allowed action
    pub action: String,
}

#[derive(Debug)]
pub struct CreateRoleRequest {
    /// Role name
    pub name: String,
    /// Role slug (unique identifier)
    pub slug: String,
    /// Role description
    pub description: Option<String>,
    /// Parent role ID for hierarchy
    pub parent_role_id: Option<i64>,
}

#[derive(Debug)]
pub struct UpdateRoleRequest {
    /// Updated role name
    pub name: Option<String>,
    /// Updated description
    pub description: Option<String>,
    /// Updated parent role ID
    pub parent_role_id: Option<i64>,
}

#[derive(Debug)]
pub struct AssignPermissionRequest {
    /// Permission ID to assign
    pub permission_id: i64,
}

#[derive(Debug)]
pub struct AssignRoleRequest {
    /// Role ID to assign
    pub role_id: i64,
}

#[derive(Debug)]
pub struct RolePermissionsResponse {
    /// Role ID
    pub role_id: i64,
    /// Permissions assigned to the role
    pub permissions: Vec<PermissionResponse>,
}

} // verus!
