//! JWT authentication: the bearer token taken from the `Authorization`
//! header, and the user context built from validated claims.
use vstd::prelude::*;

use crate::error::AppError;
use crate::rbac::UserContext;
use crate::text::{has_prefix, strip_prefix};

verus! {

/// JWT claims.
#[derive(Debug)]
pub struct Claims {
    pub sub: i64,
    pub email: String,
    pub role: String,
    pub branch_id: Option<i64>,
    pub is_company_wide: bool,
    pub permissions: Vec<String>,
    pub jti: String,
    pub exp: usize,
    pub iat: usize,
}

/// The token of an `Authorization: Bearer <token>` header.
pub open spec fn bearer_of(header: Seq<char>) -> Option<Seq<char>> {
    if has_prefix(header, "Bearer "@) {
        Some(header.skip(7))
    } else {
        None
    }
}

/// The bearer token of a request, given its `Authorization` header (if
/// present and readable as text); 401 otherwise.
pub fn bearer_token(authorization: Option<&str>) -> (r: Result<String, AppError>)
    ensures
        authorization is None ==> r matches Err(AppError::Unauthorized),
        authorization matches Some(h) ==> match bearer_of(h@) {
            Some(t) => r matches Ok(tok) && tok@ == t,
            None => r matches Err(AppError::Unauthorized),
        },
{
    proof {
        reveal_strlit("Bearer ");
    }
    match authorization {
        None => Err(AppError::Unauthorized),
        Some(h) => match strip_prefix(h, "Bearer ") {
            Some(t) => Ok(t),
            None => Err(AppError::Unauthorized),
        },
    }
}

fn copy_strings(v: &Vec<String>) -> (r: Vec<String>)
    ensures
        r@ == v@,
{
    let mut r: Vec<String> = Vec::new();
    let mut i: usize = 0;
    while i < v.len()
        invariant
            i <= v@.len(),
            r@ == v@.subrange(0, i as int),
        decreases v.len() - i,
    {
        r.push(v[i].clone());
        i = i + 1;
        assert(r@ =~= v@.subrange(0, i as int));
    }
    assert(v@.subrange(0, v@.len() as int) =~= v@);
    r
}

/// The user a set of validated claims describes.
pub fn user_context_from_claims(claims: &Claims) -> (u: UserContext)
    ensures
        u.user_id == claims.sub,
        u.email == claims.email,
        u.role == claims.role,
        u.branch_id == claims.branch_id,
        u.is_company_wide == claims.is_company_wide,
        u.permissions@ == claims.permissions@,
{
    UserContext {
        user_id: claims.sub,
        email: claims.email.clone(),
        role: claims.role.clone(),
        branch_id: claims.branch_id,
        is_company_wide: claims.is_company_wide,
        permissions: copy_strings(&claims.permissions),
    }
}

/// The user attached to a request by the JWT middleware; 401 if none is.
pub fn user_from_request(attached: Option<UserContext>) -> (r: Result<UserContext, AppError>)
    ensures
        attached matches Some(u) ==> r == Ok::<UserContext, AppError>(u),
        attached is None ==> r matches Err(AppError::Unauthorized),
{
    match attached {
        Some(u) => Ok(u),
        None => Err(AppError::Unauthorized),
    }
}

/// The bearer token of a header is what follows `Bearer ` (with that exact
/// capitalisation and one space); a header without that prefix has none.
pub proof fn law_bearer_token(header: Seq<char>)
    ensures
        has_prefix(header, "Bearer "@) ==> bearer_of(header) == Some(header.skip(7)),
        !has_prefix(header, "Bearer "@) ==> bearer_of(header) is None,
{
}

} // verus!
