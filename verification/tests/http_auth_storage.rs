use aeroxe_backend::auth::{bearer_token, user_context_from_claims, user_from_request, Claims};
use aeroxe_backend::error::AppError;
use aeroxe_backend::http::{
    cors_allowed_headers, cors_allowed_methods, cors_policy, CORS_MAX_AGE_SECS,
    check_rate_limit, cors_origins, db_probe_status, is_production, overall_status, rate_limit_key,
    readiness_response, require_metrics_auth, swagger_enabled, total_worker_count, worker_labels,
    CorsOrigins, RateLimitConfig,
};
use aeroxe_backend::storage::{
    bucket_listed, head_error_means_missing, object_exists_answer, object_location, resolve_bucket,
    storage_error, storage_settings, StorageFailure,
};

#[test]
fn metrics_access_rules() {
    assert_eq!(require_metrics_auth("development", "", None), Ok(()));
    assert_eq!(require_metrics_auth("Production", "", None), Err(503));
    assert_eq!(require_metrics_auth("production", "s3cret", Some("Bearer s3cret")), Ok(()));
    assert_eq!(require_metrics_auth("production", "s3cret", Some("Bearer wrong")), Err(401));
    assert_eq!(require_metrics_auth("dev", "s3cret", Some("s3cret")), Err(401));
    assert_eq!(require_metrics_auth("dev", "s3cret", None), Err(401));
    assert!(is_production("PRODUCTION"));
    assert!(!is_production("prod"));
    assert!(!swagger_enabled("production"));
    assert!(swagger_enabled("staging"));
}

#[test]
fn health_answers() {
    assert_eq!(db_probe_status(true), "ok");
    assert_eq!(db_probe_status(false), "error");
    assert_eq!(overall_status("ok", "ok", "ok"), "ok");
    assert_eq!(overall_status("error", "ok", "ok"), "degraded");
    let r = readiness_response(false, true, true, "0.1.0");
    assert_eq!((r.status, r.version, r.services.database, r.services.redis, r.services.nats), ("degraded", "0.1.0", "error", "ok", "ok"));
    let ok = readiness_response(true, true, true, "0.1.0");
    assert_eq!(ok.status, "ok");
    let no_redis = readiness_response(true, false, true, "0.1.0");
    assert_eq!((no_redis.status, no_redis.services.redis, no_redis.services.nats), ("degraded", "error", "ok"));
    let no_nats = readiness_response(true, true, false, "0.1.0");
    assert_eq!((no_nats.status, no_nats.services.nats), ("degraded", "error"));
}

#[test]
fn rate_limiting() {
    let c = RateLimitConfig::default();
    assert_eq!((c.max_requests, c.window_secs), (100, 60));
    assert_eq!(rate_limit_key("1.2.3.4", 60), "rate:1.2.3.4:60");
    assert_eq!(check_rate_limit(100, 100).unwrap(), 100);
    assert!(matches!(check_rate_limit(101, 100), Err(AppError::RateLimited)));
    assert_eq!(cors_origins(&vec![]), CorsOrigins::Any);
    assert_eq!(cors_origins(&vec!["https://aeroxe.com".to_string()]), CorsOrigins::Configured);
    assert_eq!(worker_labels(), vec!["billing", "notification", "device_sync", "bandwidth", "radius", "scheduler", "monitoring", "partition"]);
    assert_eq!(total_worker_count(&vec![1, 2, 3]), 6);
    assert_eq!(total_worker_count(&vec![]), 0);
}

#[test]
fn bearer_tokens_and_claims() {
    assert_eq!(bearer_token(Some("Bearer abc.def")).unwrap(), "abc.def");
    assert!(matches!(bearer_token(Some("Basic abc")), Err(AppError::Unauthorized)));
    assert!(matches!(bearer_token(Some("bearer abc")), Err(AppError::Unauthorized)));
    assert!(matches!(bearer_token(None), Err(AppError::Unauthorized)));
    assert_eq!(bearer_token(Some("Bearer ")).unwrap(), "");
    let claims = Claims {
        sub: 12,
        email: "a@b.c".to_string(),
        role: "noc_engineer".to_string(),
        branch_id: Some(2),
        is_company_wide: false,
        permissions: vec!["device.*.view".to_string()],
        jti: "j".to_string(),
        exp: 10,
        iat: 1,
    };
    let u = user_context_from_claims(&claims);
    assert_eq!((u.user_id, u.email.as_str(), u.role.as_str(), u.branch_id, u.is_company_wide), (12, "a@b.c", "noc_engineer", Some(2), false));
    assert_eq!(u.permissions, vec!["device.*.view".to_string()]);
    assert_eq!(user_from_request(Some(u)).unwrap().user_id, 12);
    assert!(matches!(user_from_request(None), Err(AppError::Unauthorized)));
}

#[test]
fn storage_decisions() {
    let s = storage_settings(None, Some("ak".to_string()), Some("sk".to_string()), None, None).ok().unwrap();
    assert_eq!((s.endpoint.as_str(), s.region.as_str(), s.default_bucket.as_str()), ("http://localhost:9000", "us-east-1", "aeroxe-documents"));
    match storage_settings(None, None, Some("sk".to_string()), None, None) {
        Err(AppError::Internal(m)) => assert_eq!(m, "MINIO_ACCESS_KEY not set"),
        _ => panic!("expected missing access key"),
    }
    match storage_settings(None, Some("ak".to_string()), None, None, None) {
        Err(AppError::Internal(m)) => assert_eq!(m, "MINIO_SECRET_KEY not set"),
        _ => panic!("expected missing secret key"),
    }
    assert_eq!(resolve_bucket(None, "docs"), "docs");
    assert_eq!(resolve_bucket(Some("kyc"), "docs"), "kyc");
    assert_eq!(object_location("docs", "a/b.pdf"), "docs/a/b.pdf");
    assert!(head_error_means_missing("service error: NoSuchKey"));
    assert!(head_error_means_missing("status 404"));
    assert!(!head_error_means_missing("status 403"));
    assert_eq!(object_exists_answer(true, "").unwrap(), true);
    assert_eq!(object_exists_answer(false, "404 Not Found").unwrap(), false);
    match object_exists_answer(false, "timeout") {
        Err(AppError::Internal(m)) => assert_eq!(m, "Failed to check object existence: timeout"),
        _ => panic!("expected error"),
    }
    assert!(bucket_listed(&vec![None, Some("docs".to_string())], "docs"));
    assert!(!bucket_listed(&vec![Some("other".to_string())], "docs"));
    match storage_error(StorageFailure::Upload, "denied") {
        AppError::Internal(m) => assert_eq!(m, "Failed to upload object: denied"),
        _ => panic!("expected internal"),
    }
}

#[test]
fn error_responses() {
    let cases = vec![
        (AppError::NotFound("no plan".to_string()), 404, "no plan"),
        (AppError::Unauthorized, 401, "Unauthorized"),
        (AppError::Forbidden("nope".to_string()), 403, "nope"),
        (AppError::Validation("bad".to_string()), 400, "bad"),
        (AppError::Conflict("dup".to_string()), 409, "dup"),
        (AppError::RateLimited, 429, "Rate limited"),
        (AppError::Timeout, 408, "Request timeout"),
        (AppError::Internal("db down".to_string()), 500, "Internal server error"),
        (AppError::Database("pool".to_string()), 500, "Internal server error"),
        (AppError::External("sms".to_string()), 502, "External service error"),
    ];
    for (e, status, message) in cases {
        assert_eq!(e.status_code(), status);
        let (s, m) = e.into_response();
        assert_eq!(s, status);
        assert_eq!(m, message);
    }
    assert_eq!(AppError::NotFound("x".to_string()).to_string(), "Not found: x");
    assert_eq!(AppError::Database("x".to_string()).to_string(), "Database error");
    assert_eq!(AppError::External("x".to_string()).to_string(), "External service error: x");
    assert!(AppError::External("x".to_string()).is_server_error());
    assert!(!AppError::Timeout.is_server_error());
}

#[test]
fn server_cors_policy_by_environment() {
    assert_eq!(cors_policy("production", &vec![]), CorsOrigins::Configured);
    assert_eq!(cors_policy("production", &vec!["https://aeroxe.com".to_string()]), CorsOrigins::Configured);
    assert_eq!(cors_policy("development", &vec!["https://aeroxe.com".to_string()]), CorsOrigins::Any);
    assert_eq!(cors_allowed_methods(), vec!["GET", "POST", "PUT", "PATCH", "DELETE", "OPTIONS"]);
    assert_eq!(cors_allowed_headers()[3], "X-Request-ID");
    assert_eq!(CORS_MAX_AGE_SECS, 3600);
}
