//! Role-based access control: exact and wildcard permissions, and the decision that
//! the permission middleware applies to every request.
use vstd::prelude::*;
use vstd::string::StringExecFns;

use crate::error::AppError;
use crate::text::{chars_of, owned, str_eq};

verus! {

/// Authenticated user attached to a request.
#[derive(Debug, Clone)]
pub struct UserContext {
    pub user_id: i64,
    pub email: String,
    pub role: String,
    pub branch_id: Option<i64>,
    pub is_company_wide: bool,
    pub permissions: Vec<String>,
}

/// The pieces of `s` between occurrences of `sep`, as `str::split` yields
/// them: always at least one piece, empty pieces kept.
pub open spec fn split_on(s: Seq<char>, sep: char) -> Seq<Seq<char>>
    decreases s.len(),
{
    if s.len() == 0 {
        seq![Seq::<char>::empty()]
    } else {
        let parts = split_on(s.drop_last(), sep);
        if s.last() == sep {
            parts.push(Seq::<char>::empty())
        } else {
            parts.update(parts.len() - 1, parts.last().push(s.last()))
        }
    }
}

/// `split_on` never yields an empty list of pieces.
pub proof fn lemma_split_nonempty(s: Seq<char>, sep: char)
    ensures
        split_on(s, sep).len() >= 1,
    decreases s.len(),
{
    if s.len() > 0 {
        lemma_split_nonempty(s.drop_last(), sep);
    }
}

/// A permission pattern matches a target when both have the same number of
/// dot-separated segments and each pattern segment is `*` or equals the
/// target's segment.
pub open spec fn wildcard_matches(pattern: Seq<char>, target: Seq<char>) -> bool {
    let ps = split_on(pattern, '.');
    let ts = split_on(target, '.');
    &&& ps.len() == ts.len()
    &&& forall|i: int| 0 <= i < ps.len() ==> (ps[i] == seq!['*'] || ps[i] == ts[i])
}

/// Whether one granted permission covers the requested one.
pub open spec fn grants(granted: Seq<char>, requested: Seq<char>) -> bool {
    granted == requested || wildcard_matches(granted, requested)
}

/// Whether a user holds a permission: a company-wide super admin holds every
/// permission; anyone else holds what one of their permissions grants.
pub open spec fn holds_permission(user: UserContext, permission: Seq<char>) -> bool {
    ||| (user.is_company_wide && user.role@ == "super_admin"@)
    ||| exists|i: int| 0 <= i < user.permissions@.len() && grants(#[trigger] user.permissions@[i]@, permission)
}

/// Splits `s` at every `sep`.
pub fn split_chars(s: &str, sep: char) -> (parts: Vec<Vec<char>>)
    ensures
        parts.deep_view() == split_on(s@, sep),
{
    let cs = chars_of(s);
    let mut done: Vec<Vec<char>> = Vec::new();
    let mut cur: Vec<char> = Vec::new();
    let mut i: usize = 0;
    while i < cs.len()
        invariant
            i <= cs@.len(),
            cs@ == s@,
            done.deep_view().push(cur@) == split_on(cs@.subrange(0, i as int), sep),
        decreases cs.len() - i,
    {
        let c = cs[i];
        let ghost prefix = cs@.subrange(0, i as int);
        let ghost next = cs@.subrange(0, i + 1);
        assert(next.drop_last() =~= prefix);
        assert(next.last() == c);
        proof {
            lemma_split_nonempty(prefix, sep);
        }
        if c == sep {
            let ghost old_done = done.deep_view();
            let finished = cur;
            let ghost fin = finished@;
            assert(finished.deep_view() =~= fin);
            done.push(finished);
            cur = Vec::new();
            assert(done.deep_view() =~= old_done.push(fin));
            assert(done.deep_view().push(cur@) =~= split_on(next, sep));
        } else {
            let ghost before = done.deep_view().push(cur@);
            cur.push(c);
            assert(done.deep_view().push(cur@) =~= before.update(before.len() - 1, before.last().push(c)));
        }
        i = i + 1;
    }
    assert(cs@.subrange(0, cs@.len() as int) =~= cs@);
    let ghost old_done = done.deep_view();
    let ghost last = cur@;
    assert(cur.deep_view() =~= last);
    done.push(cur);
    assert(done.deep_view() =~= old_done.push(last));
    done
}

fn is_star(p: &Vec<char>) -> (b: bool)
    ensures
        b == (p@ == seq!['*']),
{
    if p.len() == 1 && p[0] == '*' {
        assert(p@ =~= seq!['*']);
        true
    } else {
        false
    }
}

fn same_chars(a: &Vec<char>, b: &Vec<char>) -> (r: bool)
    ensures
        r == (a@ == b@),
{
    if a.len() != b.len() {
        return false;
    }
    let mut i: usize = 0;
    while i < a.len()
        invariant
            a@.len() == b@.len(),
            i <= a@.len(),
            forall|j: int| 0 <= j < i ==> a@[j] == b@[j],
        decreases a.len() - i,
    {
        if a[i] != b[i] {
            return false;
        }
        i = i + 1;
    }
    assert(a@ =~= b@);
    true
}

/// Check if a permission pattern (with `*` wildcards) matches a target.
pub fn matches_wildcard(pattern: &str, target: &str) -> (m: bool)
    ensures
        m == wildcard_matches(pattern@, target@),
{
    let ps = split_chars(pattern, '.');
    let ts = split_chars(target, '.');
    if ps.len() != ts.len() {
        return false;
    }
    let mut i: usize = 0;
    while i < ps.len()
        invariant
            ps.deep_view() == split_on(pattern@, '.'),
            ts.deep_view() == split_on(target@, '.'),
            ps@.len() == ts@.len(),
            i <= ps@.len(),
            forall|j: int| 0 <= j < i ==> (#[trigger] ps.deep_view()[j] == seq!['*'] || ps.deep_view()[j] == ts.deep_view()[j]),
        decreases ps.len() - i,
    {
        let star = is_star(&ps[i]);
        let same = same_chars(&ps[i], &ts[i]);
        assert(ps.deep_view()[i as int] == ps@[i as int]@);
        assert(ts.deep_view()[i as int] == ts@[i as int]@);
        if !star && !same {
            return false;
        }
        i = i + 1;
    }
    true
}

/// Check if a user has a specific permission (supports wildcards).
pub fn has_permission(user: &UserContext, permission: &str) -> (b: bool)
    ensures
        b == holds_permission(*user, permission@),
        (user.is_company_wide && user.role@ == "super_admin"@) ==> b,
        !(user.is_company_wide && user.role@ == "super_admin"@) ==> (b <==> exists|i: int|
            0 <= i < user.permissions@.len() && (#[trigger] user.permissions@[i]@ == permission@
                || wildcard_matches(user.permissions@[i]@, permission@))),
{
    if user.is_company_wide && str_eq(user.role.as_str(), "super_admin") {
        return true;
    }
    let mut i: usize = 0;
    while i < user.permissions.len()
        invariant
            i <= user.permissions@.len(),
            !(user.is_company_wide && user.role@ == "super_admin"@),
            forall|j: int| 0 <= j < i ==> !grants(#[trigger] user.permissions@[j]@, permission@),
        decreases user.permissions.len() - i,
    {
        let p = user.permissions[i].as_str();
        if str_eq(p, permission) || matches_wildcard(p, permission) {
            return true;
        }
        i = i + 1;
    }
    false
}

/// The message of the error for a missing permission.
pub open spec fn missing_permission_message(permission: Seq<char>) -> Seq<char> {
    "Missing permission: "@ + permission
}

/// Require a specific permission or answer 403.
pub fn require_permission(user: &UserContext, permission: &str) -> (r: Result<(), AppError>)
    ensures
        holds_permission(*user, permission@) ==> r is Ok,
        !holds_permission(*user, permission@) ==> (r matches Err(AppError::Forbidden(m))
            && m@ == missing_permission_message(permission@)),
{
    if has_permission(user, permission) {
        Ok(())
    } else {
        let mut m = owned("Missing permission: ");
        m.append(permission);
        Err(AppError::Forbidden(m))
    }
}

/// What the permission middleware does with a request.
#[derive(Debug, Clone, Copy, PartialEq, Eq, Structural)]
pub enum PermissionGate {
    /// Pass the request on to the inner service.
    Forward,
    /// Answer 403: the user lacks the permission.
    Forbidden,
    /// Answer 401: no authenticated user on the request.
    Unauthorized,
}

/// Middleware that enforces a required permission on every request.
#[derive(Clone)]
pub struct RequirePermission {
    permission: String,
}

/// The service that `RequirePermission` wraps around an inner service.
#[derive(Clone)]
pub struct RequirePermissionService<S> {
    pub inner: S,
    pub permission: String,
}

impl RequirePermission {
    /// The permission this layer requires.
    pub closed spec fn required(&self) -> Seq<char> {
        self.permission@
    }

    pub fn new(permission: &str) -> (l: Self)
        ensures
            l.required() == permission@,
    {
        RequirePermission { permission: owned(permission) }
    }

    /// Wraps `inner` in a service that requires this layer's permission.
    pub fn layer<S>(&self, inner: S) -> (svc: RequirePermissionService<S>)
        ensures
            svc.inner == inner,
            svc.required() == self.required(),
    {
        RequirePermissionService { inner, permission: self.permission.clone() }
    }
}

impl<S> RequirePermissionService<S> {
    /// The permission this service requires.
    pub open spec fn required(&self) -> Seq<char> {
        self.permission@
    }

    /// Decide what to do with a request carrying `user` (if authenticated).
    pub fn gate(&self, user: Option<&UserContext>) -> (g: PermissionGate)
        ensures
            user is None ==> g == PermissionGate::Unauthorized,
            user matches Some(u) ==> (g == if holds_permission(*u, self.required()) {
                PermissionGate::Forward
            } else {
                PermissionGate::Forbidden
            }),
    {
        match user {
            Some(u) => {
                if require_permission(u, self.permission.as_str()).is_err() {
                    PermissionGate::Forbidden
                } else {
                    PermissionGate::Forward
                }
            },
            None => PermissionGate::Unauthorized,
        }
    }
}

/// Every permission pattern matches itself.
pub proof fn law_pattern_matches_itself(p: Seq<char>)
    ensures
        wildcard_matches(p, p),
{
}

/// A pattern without any `*` segment matches exactly the targets equal to it,
/// so exact permissions are never widened.
pub proof fn law_exact_pattern_matches_only_itself(p: Seq<char>, t: Seq<char>)
    requires
        forall|i: int| 0 <= i < split_on(p, '.').len() ==> split_on(p, '.')[i] != seq!['*'],
        wildcard_matches(p, t),
    ensures
        p == t,
{
    assert(split_on(p, '.') =~= split_on(t, '.'));
    lemma_split_injective(p, t, '.');
}

/// Pieces joined back with the separator between them.
pub open spec fn join_on(parts: Seq<Seq<char>>, sep: char) -> Seq<char>
    decreases parts.len(),
{
    if parts.len() == 0 {
        Seq::<char>::empty()
    } else if parts.len() == 1 {
        parts[0]
    } else {
        join_on(parts.drop_last(), sep) + seq![sep] + parts.last()
    }
}

/// Joining the pieces of a split gives the string back.
pub proof fn lemma_join_split(s: Seq<char>, sep: char)
    ensures
        join_on(split_on(s, sep), sep) == s,
    decreases s.len(),
{
    if s.len() == 0 {
        assert(join_on(split_on(s, sep), sep) =~= s);
    } else {
        let prev = s.drop_last();
        let parts = split_on(prev, sep);
        lemma_join_split(prev, sep);
        lemma_split_nonempty(prev, sep);
        let q = split_on(s, sep);
        if s.last() == sep {
            assert(q.drop_last() =~= parts);
            assert(join_on(q, sep) =~= s);
        } else {
            if parts.len() == 1 {
                assert(join_on(q, sep) =~= s);
            } else {
                assert(q.drop_last() =~= parts.drop_last());
                assert(join_on(q, sep) =~= join_on(parts, sep).push(s.last()));
                assert(join_on(q, sep) =~= s);
            }
        }
    }
}

/// Two strings with the same pieces are the same string.
pub proof fn lemma_split_injective(a: Seq<char>, b: Seq<char>, sep: char)
    requires
        split_on(a, sep) == split_on(b, sep),
    ensures
        a == b,
{
    lemma_join_split(a, sep);
    lemma_join_split(b, sep);
}

/// Only a company-wide super admin bypasses the permission list. Any other
/// user, whatever their role (an ISP owner, a branch super admin, ...),
/// holds a permission exactly when one of their own permissions equals it
/// or matches it segment by segment with `*` wildcards.
pub proof fn law_only_company_wide_super_admin_bypasses(user: UserContext, permission: Seq<char>)
    ensures
        (user.is_company_wide && user.role@ == "super_admin"@) ==> holds_permission(user, permission),
        !(user.is_company_wide && user.role@ == "super_admin"@) ==> (holds_permission(user, permission)
            <==> exists|i: int| 0 <= i < user.permissions@.len() && (#[trigger] user.permissions@[i]@
                == permission || wildcard_matches(user.permissions@[i]@, permission))),
        user.permissions@.len() == 0 && !(user.is_company_wide && user.role@ == "super_admin"@)
            ==> !holds_permission(user, permission),
{
}

/// A wildcard pattern matches a target exactly when both have the same
/// number of dot-separated segments and every segment of the pattern is `*`
/// or the target's segment; so `device.*.view` grants `device.router.view`
/// but never `device.router.restart` or `billing.invoice.view`.
pub proof fn law_wildcard_is_segmentwise(pattern: Seq<char>, target: Seq<char>)
    ensures
        wildcard_matches(pattern, target) <==> (split_on(pattern, '.').len() == split_on(target, '.').len()
            && forall|i: int| 0 <= i < split_on(pattern, '.').len() ==> (#[trigger] split_on(pattern, '.')[i]
                == seq!['*'] || split_on(pattern, '.')[i] == split_on(target, '.')[i])),
{
}

/// A refused permission answers 403 with `Missing permission: ` followed by
/// the permission asked for.
pub proof fn law_missing_permission_message(permission: Seq<char>)
    ensures
        missing_permission_message(permission) == "Missing permission: "@ + permission,
{
}

} // verus!
