//! Redis key patterns used across the application.
use vstd::prelude::*;
use vstd::string::StringExecFns;

use crate::text::{concat2, int_decimal, lemma_int_decimal_injective, lemma_prefix_cancel, owned, push_i64_decimal};

verus! {

/// Cache key patterns for the application.
pub struct CacheKeys;

impl CacheKeys {
    /// `session:<user_id>`
    pub fn session(user_id: i64) -> (k: String)
        ensures
            k@ == "session:"@ + int_decimal(user_id as int),
    {
        let mut k = owned("session:");
        push_i64_decimal(&mut k, user_id);
        k
    }

    /// `otp:<phone>`
    pub fn otp(phone: &str) -> (k: String)
        ensures
            k@ == "otp:"@ + phone@,
    {
        concat2("otp:", phone)
    }

    /// `rate:<identifier>:<window>`
    pub fn rate_limit(identifier: &str, window: &str) -> (k: String)
        ensures
            k@ == "rate:"@ + identifier@ + ":"@ + window@,
    {
        let mut k = concat2("rate:", identifier);
        k.append(":");
        k.append(window);
        k
    }

    /// `cache:<key>`
    pub fn cache(key: &str) -> (k: String)
        ensures
            k@ == "cache:"@ + key@,
    {
        concat2("cache:", key)
    }

    /// The key of the cached list of active plans.
    pub fn active_plans() -> (k: String)
        ensures
            k@ == "cache:plans:active"@,
    {
        owned("cache:plans:active")
    }

    /// `cache:customer:<customer_id>:profile`
    pub fn customer_profile(customer_id: i64) -> (k: String)
        ensures
            k@ == "cache:customer:"@ + int_decimal(customer_id as int) + ":profile"@,
    {
        let mut k = owned("cache:customer:");
        push_i64_decimal(&mut k, customer_id);
        k.append(":profile");
        k
    }

    /// `cache:rbac:permissions:<user_id>`
    pub fn rbac_permissions(user_id: i64) -> (k: String)
        ensures
            k@ == "cache:rbac:permissions:"@ + int_decimal(user_id as int),
    {
        let mut k = owned("cache:rbac:permissions:");
        push_i64_decimal(&mut k, user_id);
        k
    }

    /// `blacklist:<token_jti>`
    pub fn blacklist(token_jti: &str) -> (k: String)
        ensures
            k@ == "blacklist:"@ + token_jti@,
    {
        concat2("blacklist:", token_jti)
    }

    /// `lock:<resource>:<id>`
    pub fn lock(resource: &str, id: &str) -> (k: String)
        ensures
            k@ == "lock:"@ + resource@ + ":"@ + id@,
    {
        let mut k = concat2("lock:", resource);
        k.append(":");
        k.append(id);
        k
    }
}


/// Keys built from ids never collide: distinct users have distinct session
/// and permission-cache keys, and distinct customers distinct profile keys.
pub proof fn law_id_keys_distinct(a: i64, b: i64)
    requires
        a != b,
    ensures
        "session:"@ + int_decimal(a as int) != "session:"@ + int_decimal(b as int),
        "cache:rbac:permissions:"@ + int_decimal(a as int) != "cache:rbac:permissions:"@ + int_decimal(b as int),
        "cache:customer:"@ + int_decimal(a as int) + ":profile"@
            != "cache:customer:"@ + int_decimal(b as int) + ":profile"@,
{
    let da = int_decimal(a as int);
    let db = int_decimal(b as int);
    if "session:"@ + da == "session:"@ + db {
        lemma_prefix_cancel("session:"@, da, db);
        lemma_int_decimal_injective(a as int, b as int);
    }
    if "cache:rbac:permissions:"@ + da == "cache:rbac:permissions:"@ + db {
        lemma_prefix_cancel("cache:rbac:permissions:"@, da, db);
        lemma_int_decimal_injective(a as int, b as int);
    }
    let p = "cache:customer:"@;
    let x = p + da + ":profile"@;
    let y = p + db + ":profile"@;
    if x == y {
        reveal_strlit(":profile");
        assert(x.take(x.len() - 8) =~= p + da);
        assert(y.take(y.len() - 8) =~= p + db);
        lemma_prefix_cancel(p, da, db);
        lemma_int_decimal_injective(a as int, b as int);
    }
}

} // verus!
