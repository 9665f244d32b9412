//! Request and response shapes of the Document endpoints.
use vstd::prelude::*;

verus! {

#[derive(Debug)]
pub struct DocumentResponse {
    /// Document ID
    pub id: i64,
    /// Filename
    pub filename: String,
    /// MIME type
    pub mime_type: String,
    /// File size in bytes
    pub file_size: i64,
    /// Document status
    pub status: String,
}

#[derive(Debug)]
pub struct UploadRequest {
    /// Filename
    pub filename: String,
    /// MIME type
    pub mime_type: String,
    /// File size in bytes
    pub file_size: i64,
    /// Storage bucket
    pub storage_bucket: String,
    /// Storage key
    pub storage_key: String,
}

#[derive(Debug)]
pub struct PresignUploadRequest {
    /// Filename
    pub filename: String,
    /// MIME type
    pub mime_type: String,
    /// File size in bytes
    pub file_size: i64,
    /// Storage bucket (optional)
    pub bucket: Option<String>,
    /// Upload purpose (optional, defaults to "general")
    pub purpose: Option<String>,
}

#[derive(Debug)]
pub struct PresignUploadResponse {
    /// Pre-signed upload URL
    pub upload_url: String,
    /// Storage key for the uploaded file
    pub storage_key: String,
    /// Storage bucket
    pub storage_bucket: String,
    /// URL expiry in seconds
    pub expires_in_secs: u64,
}

#[derive(Debug)]
pub struct DownloadUrlResponse {
    /// Pre-signed download URL
    pub url: String,
    /// URL expiry timestamp
    pub expires_at: String,
}

} // verus!
