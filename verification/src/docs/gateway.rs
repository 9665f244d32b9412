//! Request and response shapes of the Gateway endpoints.
use vstd::prelude::*;

verus! {

#[derive(Debug)]
pub struct RateLimitRuleResponse {
    /// Rule ID
    pub id: i64,
    /// Route pattern (e.g. "/api/v1/*")
    pub route_pattern: String,
    /// HTTP methods (e.g. "GET,POST")
    pub methods: String,
    /// Maximum requests per window
    pub max_requests: i32,
    /// Window size in seconds
    pub window_seconds: i32,
    /// Optional role restriction
    pub role: Option<String>,
    /// Whether the rule is active
    pub is_active: bool,
}

#[derive(Debug)]
pub struct CreateRateLimitRuleRequest {
    /// Route pattern
    pub route_pattern: String,
    /// HTTP methods
    pub methods: String,
    /// Maximum requests per window
    pub max_requests: i32,
    /// Window size in seconds
    pub window_seconds: i32,
    /// Optional role restriction
    pub role: Option<String>,
    /// Optional branch ID
    pub branch_id: Option<i64>,
}

#[derive(Debug)]
pub struct ApiKeyResponse {
    /// API key ID
    pub id: i64,
    /// Key name
    pub name: String,
    /// Key prefix (first chars, for identification)
    pub key_prefix: String,
    /// Permissions string
    pub permissions: String,
    /// Whether the key is active
    pub is_active: bool,
    /// Expiry timestamp
    pub expires_at: Option<String>,
}

#[derive(Debug)]
pub struct CreateApiKeyRequest {
    /// Key name
    pub name: String,
    /// Permissions string
    pub permissions: String,
    /// Optional branch ID
    pub branch_id: Option<i64>,
    /// Optional expiry (RFC 3339)
    pub expires_at: Option<String>,
}

#[derive(Debug)]
pub struct RequestLogResponse {
    /// Log entry ID
    pub id: i64,
    /// HTTP method
    pub method: String,
    /// Request path
    pub path: String,
    /// Response status code
    pub status_code: i32,
    /// Response time in milliseconds
    pub response_time_ms: i32,
    /// Whether request was rate-limited
    pub rate_limited: bool,
    /// Timestamp
    pub created_at: String,
}

} // verus!
