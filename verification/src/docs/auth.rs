//! Request and response shapes of the Auth endpoints.
use vstd::prelude::*;

verus! {

#[derive(Debug)]
pub struct RegisterRequest {
    /// User email address
    pub email: String,
    /// Phone number
    pub phone: String,
    /// Display name
    pub name: String,
    /// Password
    pub password: String,
    /// Branch ID (optional for company-wide users)
    pub branch_id: Option<i64>,
}

#[derive(Debug)]
pub struct LoginRequest {
    /// User email address
    pub email: String,
    /// User password
    pub password: String,
}

#[derive(Debug)]
pub struct Login2FARequest {
    /// Pending 2FA token from initial login
    pub pending_token: String,
    /// TOTP code from authenticator app
    pub code: String,
}

#[derive(Debug)]
pub struct UserResponse {
    /// User ID
    pub id: i64,
    /// User email address
    pub email: String,
    /// Phone number
    pub phone: String,
    /// Display name
    pub name: String,
    /// Avatar URL
    pub avatar_url: Option<String>,
    /// Branch ID (null for company-wide users)
    pub branch_id: Option<i64>,
    /// Account status
    pub status: String,
    /// Last login timestamp (RFC 3339)
    pub last_login_at: Option<String>,
}

#[derive(Debug)]
pub struct AuthResponse {
    /// Whether 2FA verification is required
    pub requires_2fa: bool,
    /// JWT access token (null if 2FA required)
    pub access_token: Option<String>,
    /// Refresh token (null if 2FA required)
    pub refresh_token: Option<String>,
    /// Authenticated user details
    pub user: Option<UserResponse>,
    /// Pending token for 2FA step (null if not required)
    pub pending_token: Option<String>,
    /// Status message
    pub message: Option<String>,
}

#[derive(Debug)]
pub struct OtpRequestRequest {
    /// Phone number in E.164 format (e.g. +919876543210)
    pub phone: String,
    /// Delivery channel: sms, whatsapp, telegram or firebase (default: sms)
    pub channel: Option<String>,
    /// Firebase cloud messaging token (required when channel = firebase)
    pub fcm_token: Option<String>,
}

#[derive(Debug)]
pub struct OtpRequestResponse {
    /// Whether the OTP was generated and sent
    pub success: bool,
    /// Channel the OTP was delivered via
    pub channel: String,
    /// OTP validity window in seconds
    pub expires_in_secs: u64,
    /// Human-readable confirmation message
    pub message: String,
}

#[derive(Debug)]
pub struct OtpVerifyRequest {
    /// Phone number the OTP was sent to
    pub phone: String,
    /// Delivery channel used at request time (default: sms)
    pub channel: Option<String>,
    /// OTP code received by the user
    pub code: String,
}

#[derive(Debug)]
pub struct RefreshTokenRequest {
    /// Refresh token
    pub refresh_token: String,
}

#[derive(Debug)]
pub struct Setup2FARequest {
    /// User ID to set up 2FA for
    pub user_id: i64,
}

#[derive(Debug)]
pub struct Setup2FAResponse {
    /// TOTP secret key
    pub secret: String,
    /// QR code URL for authenticator apps
    pub qr_code_url: String,
    /// One-time backup codes
    pub backup_codes: Vec<String>,
}

#[derive(Debug)]
pub struct Confirm2FARequest {
    /// TOTP code to verify setup
    pub code: String,
    /// Secret from setup step
    pub secret: String,
}

#[derive(Debug)]
pub struct Verify2FARequest {
    /// TOTP code from authenticator app
    pub code: String,
    /// Pending 2FA token from initial login
    pub pending_token: String,
}

#[derive(Debug)]
pub struct VerifyBackupCodeRequest {
    /// Backup code
    pub code: String,
    /// Pending 2FA token
    pub pending_token: String,
}

} // verus!
