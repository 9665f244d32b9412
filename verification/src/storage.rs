//! MinIO/S3 compatible storage: settings taken from the environment, the
//! bucket an operation uses, object locations, and how the answers of the
//! storage service are read.
use vstd::prelude::*;
use vstd::string::StringExecFns;

use crate::error::AppError;
use crate::text::{concat2, contains, contains_text, owned, str_eq};

verus! {

/// Storage settings.
pub struct StorageSettings {
    pub endpoint: String,
    pub access_key: String,
    pub secret_key: String,
    pub region: String,
    pub default_bucket: String,
}

/// A setting's value, or its default when the variable is unset.
pub open spec fn or_default(v: Option<String>, default: Seq<char>) -> Seq<char> {
    match v {
        Some(s) => s@,
        None => default,
    }
}

fn value_or(v: Option<String>, default: &str) -> (s: String)
    ensures
        s@ == or_default(v, default@),
{
    match v {
        Some(s) => s,
        None => owned(default),
    }
}

/// Storage settings from the values of `MINIO_ENDPOINT`, `MINIO_ACCESS_KEY`,
/// `MINIO_SECRET_KEY`, `MINIO_REGION` and `MINIO_BUCKET_DOCUMENTS` (each if
/// set). Both keys are required; the rest have defaults.
pub fn storage_settings(
    endpoint: Option<String>,
    access_key: Option<String>,
    secret_key: Option<String>,
    region: Option<String>,
    bucket: Option<String>,
) -> (r: Result<StorageSettings, AppError>)
    ensures
        access_key is None ==> (r matches Err(AppError::Internal(m)) && m@ == "MINIO_ACCESS_KEY not set"@),
        access_key is Some && secret_key is None ==> (r matches Err(AppError::Internal(m))
            && m@ == "MINIO_SECRET_KEY not set"@),
        (access_key is Some && secret_key is Some) ==> (r matches Ok(s)
            && s.endpoint@ == or_default(endpoint, "http://localhost:9000"@)
            && s.access_key == access_key->0
            && s.secret_key == secret_key->0
            && s.region@ == or_default(region, "us-east-1"@)
            && s.default_bucket@ == or_default(bucket, "aeroxe-documents"@)),
{
    let endpoint = value_or(endpoint, "http://localhost:9000");
    let access_key = match access_key {
        Some(k) => k,
        None => {
            return Err(AppError::Internal(owned("MINIO_ACCESS_KEY not set")));
        },
    };
    let secret_key = match secret_key {
        Some(k) => k,
        None => {
            return Err(AppError::Internal(owned("MINIO_SECRET_KEY not set")));
        },
    };
    let region = value_or(region, "us-east-1");
    let default_bucket = value_or(bucket, "aeroxe-documents");
    Ok(StorageSettings { endpoint, access_key, secret_key, region, default_bucket })
}

/// The bucket an operation uses: the one given, or the default bucket.
pub fn resolve_bucket<'a>(bucket: Option<&'a str>, default_bucket: &'a str) -> (b: &'a str)
    ensures
        bucket matches Some(x) ==> b == x,
        bucket is None ==> b == default_bucket,
{
    match bucket {
        Some(x) => x,
        None => default_bucket,
    }
}

/// Location reported for an uploaded object: `<bucket>/<key>`.
pub fn object_location(bucket: &str, key: &str) -> (l: String)
    ensures
        l@ == bucket@ + "/"@ + key@,
{
    let mut l = owned(bucket);
    l.append("/");
    l.append(key);
    l
}

/// Whether a failed existence check means the object is missing: its error
/// text mentions `NoSuchKey` or `404`.
pub fn head_error_means_missing(error_text: &str) -> (b: bool)
    ensures
        b == (contains_text(error_text@, "NoSuchKey"@) || contains_text(error_text@, "404"@)),
{
    contains(error_text, "NoSuchKey") || contains(error_text, "404")
}

/// Answer of an existence check from its outcome: found, missing, or an
/// error naming the cause.
pub fn object_exists_answer(found: bool, error_text: &str) -> (r: Result<bool, AppError>)
    ensures
        found ==> r == Ok::<bool, AppError>(true),
        (!found && (contains_text(error_text@, "NoSuchKey"@) || contains_text(error_text@, "404"@)))
            ==> r == Ok::<bool, AppError>(false),
        (!found && !(contains_text(error_text@, "NoSuchKey"@) || contains_text(error_text@, "404"@)))
            ==> (r matches Err(AppError::Internal(m)) && m@ == "Failed to check object existence: "@ + error_text@),
{
    if found {
        Ok(true)
    } else if head_error_means_missing(error_text) {
        Ok(false)
    } else {
        Err(AppError::Internal(concat2("Failed to check object existence: ", error_text)))
    }
}

/// Whether a bucket is among the listed buckets' names.
pub fn bucket_listed(names: &Vec<Option<String>>, bucket: &str) -> (b: bool)
    ensures
        b == exists|i: int| 0 <= i < names@.len() && (#[trigger] names@[i] matches Some(n) && n@ == bucket@),
{
    let mut i: usize = 0;
    while i < names.len()
        invariant
            i <= names@.len(),
            forall|j: int| 0 <= j < i ==> !(#[trigger] names@[j] matches Some(n) && n@ == bucket@),
        decreases names.len() - i,
    {
        match &names[i] {
            Some(n) => {
                if str_eq(n.as_str(), bucket) {
                    return true;
                }
            },
            None => {},
        }
        i = i + 1;
    }
    false
}

/// A storage operation that can fail.
#[derive(Debug, Clone, Copy, PartialEq, Eq, Structural)]
pub enum StorageFailure {
    PresignConfig,
    Presign,
    Upload,
    Download,
    ReadBody,
    Delete,
    ListBuckets,
    CreateBucket,
}

/// Prefix of the error message of each failure.
pub open spec fn failure_prefix(f: StorageFailure) -> Seq<char> {
    match f {
        StorageFailure::PresignConfig => "Presigning config error: "@,
        StorageFailure::Presign => "Failed to generate presigned URL: "@,
        StorageFailure::Upload => "Failed to upload object: "@,
        StorageFailure::Download => "Failed to download object: "@,
        StorageFailure::ReadBody => "Failed to read object body: "@,
        StorageFailure::Delete => "Failed to delete object: "@,
        StorageFailure::ListBuckets => "Failed to list buckets: "@,
        StorageFailure::CreateBucket => "Failed to create bucket: "@,
    }
}

/// The error a failed storage operation reports.
pub fn storage_error(failure: StorageFailure, cause: &str) -> (e: AppError)
    ensures
        e matches AppError::Internal(m) && m@ == failure_prefix(failure) + cause@,
{
    let prefix = match failure {
        StorageFailure::PresignConfig => "Presigning config error: ",
        StorageFailure::Presign => "Failed to generate presigned URL: ",
        StorageFailure::Upload => "Failed to upload object: ",
        StorageFailure::Download => "Failed to download object: ",
        StorageFailure::ReadBody => "Failed to read object body: ",
        StorageFailure::Delete => "Failed to delete object: ",
        StorageFailure::ListBuckets => "Failed to list buckets: ",
        StorageFailure::CreateBucket => "Failed to create bucket: ",
    };
    AppError::Internal(concat2(prefix, cause))
}

/// Each failed storage operation reports an internal error whose message
/// names the operation, followed by the cause.
pub proof fn law_storage_error_messages()
    ensures
        failure_prefix(StorageFailure::PresignConfig) == "Presigning config error: "@,
        failure_prefix(StorageFailure::Presign) == "Failed to generate presigned URL: "@,
        failure_prefix(StorageFailure::Upload) == "Failed to upload object: "@,
        failure_prefix(StorageFailure::Download) == "Failed to download object: "@,
        failure_prefix(StorageFailure::ReadBody) == "Failed to read object body: "@,
        failure_prefix(StorageFailure::Delete) == "Failed to delete object: "@,
        failure_prefix(StorageFailure::ListBuckets) == "Failed to list buckets: "@,
        failure_prefix(StorageFailure::CreateBucket) == "Failed to create bucket: "@,
{
}

} // verus!
