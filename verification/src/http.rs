//! Decisions behind the HTTP edge: metrics endpoint access, health probes,
//! rate limiting, whether the OpenAPI spec is served, which CORS origins are
//! allowed, and the worker totals of the metrics summary.
use vstd::prelude::*;
use vstd::string::StringExecFns;

use crate::error::AppError;
use crate::text::{
    eq_ignore_ascii_case, eq_ignoring_ascii_case, has_prefix, int_decimal, owned, push_u64_decimal,
    str_eq, strip_prefix,
};

verus! {

/// Whether an `APP_ENV` value names production (compared ignoring ASCII case).
pub open spec fn is_production_env(app_env: Seq<char>) -> bool {
    eq_ignoring_ascii_case(app_env, "production"@)
}

/// Whether the deployment environment is production.
pub fn is_production(app_env: &str) -> (b: bool)
    ensures
        b == is_production_env(app_env@),
{
    eq_ignore_ascii_case(app_env, "production")
}

/// The token a request presents: what follows `Bearer ` in its
/// `Authorization` header, or nothing.
pub open spec fn presented_token(authorization: Option<Seq<char>>) -> Seq<char> {
    match authorization {
        Some(h) => if has_prefix(h, "Bearer "@) {
            h.skip(7)
        } else {
            Seq::empty()
        },
        None => Seq::empty(),
    }
}

/// Outcome of the metrics access check: `Ok`, or the status to answer with.
pub open spec fn metrics_access(app_env: Seq<char>, configured_token: Seq<char>, authorization: Option<Seq<char>>) -> Result<(), u16> {
    if configured_token.len() == 0 {
        if is_production_env(app_env) {
            Err(503)
        } else {
            Ok(())
        }
    } else if presented_token(authorization) == configured_token {
        Ok(())
    } else {
        Err(401)
    }
}

/// Require `Authorization: Bearer <token>` on metrics endpoints.
///
/// - When a metrics token is configured, the request must present it (401 otherwise).
/// - In production a token is required: without one the endpoint answers 503.
/// - In development, with no token configured, the endpoint stays open.
pub fn require_metrics_auth(app_env: &str, configured_token: &str, authorization: Option<&str>) -> (r: Result<(), u16>)
    ensures
        r == metrics_access(app_env@, configured_token@, match authorization {
            Some(h) => Some(h@),
            None => None,
        }),
{
    proof {
        reveal_strlit("Bearer ");
        reveal_strlit("");
    }
    let production = is_production(app_env);
    if configured_token.is_empty() {
        if production {
            return Err(503);
        }
        return Ok(());
    }
    let provided: String = match authorization {
        Some(h) => match strip_prefix(h, "Bearer ") {
            Some(t) => t,
            None => owned(""),
        },
        None => owned(""),
    };
    if str_eq(provided.as_str(), configured_token) {
        Ok(())
    } else {
        Err(401)
    }
}

/// Status of a service probe: `ok` when the probe succeeded.
pub fn db_probe_status(query_ok: bool) -> (s: &'static str)
    ensures
        query_ok ==> s@ == "ok"@,
        !query_ok ==> s@ == "error"@,
{
    if query_ok {
        "ok"
    } else {
        "error"
    }
}

/// Overall readiness: `ok` when every backing service is `ok`, `degraded` otherwise.
pub fn overall_status(database: &str, redis: &str, nats: &str) -> (s: &'static str)
    ensures
        (database@ == "ok"@ && redis@ == "ok"@ && nats@ == "ok"@) ==> s@ == "ok"@,
        !(database@ == "ok"@ && redis@ == "ok"@ && nats@ == "ok"@) ==> s@ == "degraded"@,
{
    if str_eq(database, "ok") && str_eq(redis, "ok") && str_eq(nats, "ok") {
        "ok"
    } else {
        "degraded"
    }
}

/// Health of each backing service.
pub struct ServiceHealth {
    pub database: &'static str,
    pub redis: &'static str,
    pub nats: &'static str,
}

/// Readiness probe answer.
pub struct HealthResponse {
    pub status: &'static str,
    pub version: &'static str,
    pub services: ServiceHealth,
}

/// The readiness answer, given whether each backing service answered its
/// probe: each service is `ok` or `error`, and the whole is `ok` only when
/// all three are, `degraded` otherwise.
pub fn readiness_response(db_ok: bool, redis_ok: bool, nats_ok: bool, version: &'static str) -> (r: HealthResponse)
    ensures
        r.version == version,
        r.services.database@ == (if db_ok { "ok"@ } else { "error"@ }),
        r.services.redis@ == (if redis_ok { "ok"@ } else { "error"@ }),
        r.services.nats@ == (if nats_ok { "ok"@ } else { "error"@ }),
        r.status@ == (if db_ok && redis_ok && nats_ok { "ok"@ } else { "degraded"@ }),
{
    proof {
        reveal_strlit("ok");
        reveal_strlit("error");
        assert("ok"@ != "error"@) by {
            assert("ok"@.len() != "error"@.len());
        }
    }
    let database = db_probe_status(db_ok);
    let redis = db_probe_status(redis_ok);
    let nats = db_probe_status(nats_ok);
    HealthResponse {
        status: overall_status(database, redis, nats),
        version,
        services: ServiceHealth { database, redis, nats },
    }
}

/// Rate limit configuration.
#[derive(Clone)]
pub struct RateLimitConfig {
    pub max_requests: u64,
    pub window_secs: u64,
}

impl Default for RateLimitConfig {
    /// 100 requests per 60-second window.
    fn default() -> (c: Self)
        ensures
            c.max_requests == 100,
            c.window_secs == 60,
    {
        RateLimitConfig { max_requests: 100, window_secs: 60 }
    }
}

/// The counter key of an identifier in a window: `rate:<identifier>:<window_secs>`.
pub fn rate_limit_key(identifier: &str, window_secs: u64) -> (k: String)
    ensures
        k@ == "rate:"@ + identifier@ + ":"@ + int_decimal(window_secs as int),
{
    let mut k = owned("rate:");
    k.append(identifier);
    k.append(":");
    push_u64_decimal(&mut k, window_secs);
    k
}

/// Verdict on a request, given the window's counter after counting it: the
/// count while within the limit, 429 once over it.
pub fn check_rate_limit(count: u64, max_requests: u64) -> (r: Result<u64, AppError>)
    ensures
        count <= max_requests ==> r == Ok::<u64, AppError>(count),
        count > max_requests ==> r matches Err(AppError::RateLimited),
{
    if count > max_requests {
        Err(AppError::RateLimited)
    } else {
        Ok(count)
    }
}

/// Whether the OpenAPI spec is served: everywhere but production.
pub fn swagger_enabled(app_env: &str) -> (b: bool)
    ensures
        b == !is_production_env(app_env@),
{
    !is_production(app_env)
}

/// Which origins CORS allows.
#[derive(Debug, Clone, Copy, PartialEq, Eq, Structural)]
pub enum CorsOrigins {
    /// Any origin.
    Any,
    /// Only the configured origins.
    Configured,
}

/// CORS origins: the configured list when one is given, any origin otherwise.
pub fn cors_origins(configured: &Vec<String>) -> (o: CorsOrigins)
    ensures
        configured@.len() == 0 ==> o == CorsOrigins::Any,
        configured@.len() > 0 ==> o == CorsOrigins::Configured,
{
    if configured.len() == 0 {
        CorsOrigins::Any
    } else {
        CorsOrigins::Configured
    }
}

/// The CORS origins the server allows: in production (an `APP_ENV` of
/// exactly `production`) only the configured origins, even when none is
/// configured; in any other environment any origin.
pub fn cors_policy(app_env: &str, configured: &Vec<String>) -> (o: CorsOrigins)
    ensures
        app_env@ == "production"@ ==> o == CorsOrigins::Configured,
        app_env@ != "production"@ ==> o == CorsOrigins::Any,
{
    if str_eq(app_env, "production") {
        CorsOrigins::Configured
    } else {
        CorsOrigins::Any
    }
}

/// Methods a production CORS policy allows.
pub fn cors_allowed_methods() -> (v: Vec<&'static str>)
    ensures
        v@.map_values(|m: &'static str| m@) == seq!["GET"@, "POST"@, "PUT"@, "PATCH"@, "DELETE"@, "OPTIONS"@],
{
    let v = vec!["GET", "POST", "PUT", "PATCH", "DELETE", "OPTIONS"];
    assert(v@.map_values(|m: &'static str| m@) =~= seq!["GET"@, "POST"@, "PUT"@, "PATCH"@, "DELETE"@, "OPTIONS"@]);
    v
}

/// Request headers a production CORS policy allows.
pub fn cors_allowed_headers() -> (v: Vec<&'static str>)
    ensures
        v@.map_values(|h: &'static str| h@) == seq!["authorization"@, "content-type"@, "accept"@,
            "X-Request-ID"@, "X-Idempotency-Key"@],
{
    let v = vec!["authorization", "content-type", "accept", "X-Request-ID", "X-Idempotency-Key"];
    assert(v@.map_values(|h: &'static str| h@) =~= seq!["authorization"@, "content-type"@, "accept"@,
        "X-Request-ID"@, "X-Idempotency-Key"@]);
    v
}

/// How long browsers may cache a production preflight answer, in seconds.
pub const CORS_MAX_AGE_SECS: u64 = 3600;

/// Labels of the background workers whose cycles and errors are counted.
pub open spec fn worker_label_seq() -> Seq<Seq<char>> {
    seq![
        "billing"@,
        "notification"@,
        "device_sync"@,
        "bandwidth"@,
        "radius"@,
        "scheduler"@,
        "monitoring"@,
        "partition"@,
    ]
}

/// Labels of the background workers, in summary order.
pub fn worker_labels() -> (v: Vec<&'static str>)
    ensures
        v@.len() == 8,
        forall|i: int| 0 <= i < 8 ==> #[trigger] v@[i]@ == worker_label_seq()[i],
{
    let v = vec![
        "billing",
        "notification",
        "device_sync",
        "bandwidth",
        "radius",
        "scheduler",
        "monitoring",
        "partition",
    ];
    v
}

/// Sum of a sequence of counts.
pub open spec fn total(s: Seq<u64>) -> nat
    decreases s.len(),
{
    if s.len() == 0 {
        0
    } else {
        total(s.drop_last()) + s.last() as nat
    }
}

/// Sum of the per-worker counts read from a counter family (missing labels
/// count as nothing).
pub fn total_worker_count(counts: &Vec<u64>) -> (t: u64)
    requires
        total(counts@) <= u64::MAX,
    ensures
        t as nat == total(counts@),
{
    let mut sum: u64 = 0;
    let mut i: usize = 0;
    while i < counts.len()
        invariant
            i <= counts@.len(),
            total(counts@) <= u64::MAX,
            sum as nat == total(counts@.subrange(0, i as int)),
        decreases counts.len() - i,
    {
        proof {
            assert(counts@.subrange(0, i + 1).drop_last() =~= counts@.subrange(0, i as int));
            lemma_total_prefix(counts@, i + 1);
        }
        sum = sum + counts[i];
        i = i + 1;
    }
    assert(counts@.subrange(0, counts@.len() as int) =~= counts@);
    sum
}

/// A prefix never sums to more than the whole.
proof fn lemma_total_prefix(s: Seq<u64>, k: int)
    requires
        0 <= k <= s.len(),
    ensures
        total(s.subrange(0, k)) <= total(s),
    decreases s.len() - k,
{
    if k < s.len() {
        lemma_total_prefix(s, k + 1);
        assert(s.subrange(0, k + 1).drop_last() =~= s.subrange(0, k));
    } else {
        assert(s.subrange(0, k) =~= s);
    }
}

/// Who may read the metrics: with no token configured, anyone outside
/// production and nobody in production (503); with a token configured,
/// exactly the requests whose `Authorization` header is `Bearer ` followed
/// by that token (401 otherwise), whatever the environment.
pub proof fn law_metrics_access(app_env: Seq<char>, token: Seq<char>, authorization: Option<Seq<char>>)
    ensures
        is_production_env(app_env) == eq_ignoring_ascii_case(app_env, "production"@),
        (token.len() == 0 && is_production_env(app_env)) ==> metrics_access(app_env, token, authorization) == Err::<(), u16>(503),
        (token.len() == 0 && !is_production_env(app_env)) ==> metrics_access(app_env, token, authorization) == Ok::<(), u16>(()),
        token.len() > 0 ==> (metrics_access(app_env, token, authorization) == Ok::<(), u16>(()) <==> (
            authorization matches Some(h) && has_prefix(h, "Bearer "@) && h.skip(7) == token)),
        token.len() > 0 ==> (metrics_access(app_env, token, authorization) is Ok
            || metrics_access(app_env, token, authorization) == Err::<(), u16>(401)),
{
    reveal_strlit("Bearer ");
    if token.len() > 0 {
        match authorization {
            Some(h) => {
                if !has_prefix(h, "Bearer "@) {
                    assert(presented_token(authorization) =~= Seq::<char>::empty());
                }
            },
            None => {
                assert(presented_token(authorization) =~= Seq::<char>::empty());
            },
        }
    }
}

/// The worker totals of the metrics summary add up the per-worker counts:
/// no counts sum to nothing, and one more count adds exactly itself.
pub proof fn law_total_sums(s: Seq<u64>, x: u64)
    ensures
        total(Seq::<u64>::empty()) == 0,
        total(s.push(x)) == total(s) + x,
{
    assert(s.push(x).drop_last() =~= s);
}

/// The workers the summary reports on, in order: billing, notification,
/// device sync, bandwidth, RADIUS, scheduler, monitoring and partition.
pub proof fn law_worker_labels()
    ensures
        worker_label_seq() == seq!["billing"@, "notification"@, "device_sync"@, "bandwidth"@, "radius"@,
            "scheduler"@, "monitoring"@, "partition"@],
{
}

} // verus!
