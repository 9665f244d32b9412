//! Values handed to PostgreSQL history triggers: which session settings are
//! set for an audited change, and how client-supplied values are cleaned
//! before they are stored. All values are passed as statement parameters.
use vstd::prelude::*;
use vstd::string::StrSliceExecFns;

use crate::text::{owned, string_push};

verus! {

/// Characters of an IP address (IPv4 or IPv6): ASCII hex digits, `.` and `:`.
pub open spec fn ip_char(c: char) -> bool {
    ('0' <= c && c <= '9') || ('a' <= c && c <= 'f') || ('A' <= c && c <= 'F') || c == '.' || c == ':'
}

/// The predicate `ip_char` as a value.
pub open spec fn ip_char_pred() -> spec_fn(char) -> bool {
    |c: char| ip_char(c)
}

/// Longest IPv6 text.
pub const MAX_IP_LEN: usize = 45;

/// Longest user agent stored.
pub const MAX_USER_AGENT_LEN: usize = 512;

/// The cleaned IP address: the allowed characters of `ip`, in order, at most
/// 45 of them; `unknown` when none is left.
pub open spec fn sanitized_ip(ip: Seq<char>) -> Seq<char> {
    let kept = ip.filter(ip_char_pred());
    if kept.len() == 0 {
        "unknown"@
    } else if kept.len() <= 45 {
        kept
    } else {
        kept.take(45)
    }
}

fn is_ip_char(c: char) -> (b: bool)
    ensures
        b == ip_char(c),
{
    ('0' <= c && c <= '9') || ('a' <= c && c <= 'f') || ('A' <= c && c <= 'F') || c == '.' || c == ':'
}

/// Sanitize an IP address: strip anything that is not an IP character, keep
/// at most 45 characters, and answer `unknown` if nothing is left.
pub fn sanitize_ip_address(ip: &str) -> (r: String)
    ensures
        r@ == sanitized_ip(ip@),
{
    let n = ip.unicode_len();
    let mut out = String::new();
    let mut count: usize = 0;
    let mut i: usize = 0;
    while i < n && count < MAX_IP_LEN
        invariant
            n == ip@.len(),
            i <= n,
            count == out@.len(),
            count <= 45,
            out@ == ip@.take(i as int).filter(ip_char_pred()),
        decreases n - i,
    {
        let c = ip.get_char(i);
        proof {
            ip@.take(i as int).lemma_filter_push(c, ip_char_pred());
            assert(ip@.take(i as int).push(c) =~= ip@.take(i + 1));
        }
        if is_ip_char(c) {
            string_push(&mut out, c);
            count = count + 1;
        }
        i = i + 1;
    }
    proof {
        let p = ip_char_pred();
        let head = ip@.take(i as int);
        let tail = ip@.skip(i as int);
        assert(ip@ =~= head + tail);
        Seq::filter_distributes_over_add(head, tail, p);
        let all = ip@.filter(p);
        assert(all == head.filter(p) + tail.filter(p));
        if i == n {
            assert(tail.len() == 0);
            assert(tail.filter(p) =~= Seq::<char>::empty()) by {
                reveal(Seq::filter);
            }
            assert(all =~= out@);
        } else {
            assert(count == 45);
            assert(all.take(45) =~= out@);
        }
    }
    if count == 0 {
        owned("unknown")
    } else {
        out
    }
}

/// The user agent as stored: its first 512 characters.
pub open spec fn truncated_user_agent(ua: Seq<char>) -> Seq<char> {
    if ua.len() <= 512 {
        ua
    } else {
        ua.take(512)
    }
}

/// Truncate a user agent to 512 characters.
pub fn truncate_user_agent(ua: &str) -> (r: String)
    ensures
        r@ == truncated_user_agent(ua@),
{
    let n = ua.unicode_len();
    let end = if n <= MAX_USER_AGENT_LEN {
        n
    } else {
        MAX_USER_AGENT_LEN
    };
    let mut out = String::new();
    let mut i: usize = 0;
    while i < end
        invariant
            n == ua@.len(),
            end <= n,
            i <= end,
            out@ == ua@.take(i as int),
        decreases end - i,
    {
        string_push(&mut out, ua.get_char(i));
        i = i + 1;
        assert(out@ =~= ua@.take(i as int));
    }
    assert(ua@.take(n as int) =~= ua@);
    out
}

/// Value bound to the parameter of a session setting.
#[derive(Debug)]
pub enum ContextValue {
    BigInt(i64),
    Text(String),
}

/// One session setting for the history triggers: the statement and the
/// value bound to its `$1`.
#[derive(Debug)]
pub struct ContextSetting {
    pub statement: String,
    pub value: ContextValue,
}

/// Abstract value of a setting's parameter.
pub enum ValueView {
    BigInt(i64),
    Text(Seq<char>),
}

/// The view of a setting: its statement text and parameter.
pub open spec fn setting_view(s: ContextSetting) -> (Seq<char>, ValueView) {
    (s.statement@, match s.value {
        ContextValue::BigInt(n) => ValueView::BigInt(n),
        ContextValue::Text(t) => ValueView::Text(t@),
    })
}

/// The settings applied before an audited change, in order: the user, then
/// the branch, the sanitized IP address and the truncated user agent when
/// they are known.
pub open spec fn history_settings(
    user_id: i64,
    branch_id: Option<i64>,
    ip_address: Option<Seq<char>>,
    user_agent: Option<Seq<char>>,
) -> Seq<(Seq<char>, ValueView)> {
    seq![("SELECT set_config('app.current_user_id', $1, true)"@, ValueView::BigInt(user_id))]
        + match branch_id {
        Some(b) => seq![("SELECT set_config('app.current_branch_id', $1, true)"@, ValueView::BigInt(b))],
        None => Seq::empty(),
    } + match ip_address {
        Some(ip) => seq![("SELECT set_config('app.current_ip_address', $1, true)"@, ValueView::Text(sanitized_ip(ip)))],
        None => Seq::empty(),
    } + match user_agent {
        Some(ua) => seq![("SELECT set_config('app.current_user_agent', $1, true)"@, ValueView::Text(truncated_user_agent(ua)))],
        None => Seq::empty(),
    }
}

/// The view of an optional string slice.
pub open spec fn opt_view(s: Option<&str>) -> Option<Seq<char>> {
    match s {
        Some(x) => Some(x@),
        None => None,
    }
}

/// The session settings that tell the history triggers who made a change.
pub fn history_context_settings(
    user_id: i64,
    branch_id: Option<i64>,
    ip_address: Option<&str>,
    user_agent: Option<&str>,
) -> (settings: Vec<ContextSetting>)
    ensures
        settings@.map_values(|s: ContextSetting| setting_view(s)) == history_settings(
            user_id,
            branch_id,
            opt_view(ip_address),
            opt_view(user_agent),
        ),
{
    let mut settings: Vec<ContextSetting> = Vec::new();
    settings.push(ContextSetting {
        statement: owned("SELECT set_config('app.current_user_id', $1, true)"),
        value: ContextValue::BigInt(user_id),
    });
    if let Some(branch) = branch_id {
        settings.push(ContextSetting {
            statement: owned("SELECT set_config('app.current_branch_id', $1, true)"),
            value: ContextValue::BigInt(branch),
        });
    }
    if let Some(ip) = ip_address {
        settings.push(ContextSetting {
            statement: owned("SELECT set_config('app.current_ip_address', $1, true)"),
            value: ContextValue::Text(sanitize_ip_address(ip)),
        });
    }
    if let Some(ua) = user_agent {
        settings.push(ContextSetting {
            statement: owned("SELECT set_config('app.current_user_agent', $1, true)"),
            value: ContextValue::Text(truncate_user_agent(ua)),
        });
    }
    assert(settings@.map_values(|s: ContextSetting| setting_view(s)) =~= history_settings(
        user_id,
        branch_id,
        opt_view(ip_address),
        opt_view(user_agent),
    ));
    settings
}

/// A cleaned IP address is never empty, never longer than 45 characters,
/// and holds only IP characters (or is `unknown`), whatever the client sent.
pub proof fn law_sanitized_ip_is_safe(ip: Seq<char>)
    ensures
        1 <= sanitized_ip(ip).len() <= 45,
        sanitized_ip(ip) == "unknown"@ || (forall|i: int| 0 <= i < sanitized_ip(ip).len()
            ==> ip_char(#[trigger] sanitized_ip(ip)[i])),
{
    reveal_strlit("unknown");
    let kept = ip.filter(ip_char_pred());
    if kept.len() > 0 {
        assert forall|i: int| 0 <= i < sanitized_ip(ip).len() implies ip_char(#[trigger] sanitized_ip(ip)[i]) by {
            ip.lemma_filter_pred(ip_char_pred(), i);
        }
    }
}

/// Cleaning is idempotent: a cleaned address is left as it is, and so is
/// `unknown`, which holds no IP character.
pub proof fn law_sanitize_idempotent(ip: Seq<char>)
    ensures
        sanitized_ip(sanitized_ip(ip)) == sanitized_ip(ip),
{
    let kept = ip.filter(ip_char_pred());
    let clean = sanitized_ip(ip);
    if kept.len() > 0 {
        assert forall|i: int| 0 <= i < clean.len() implies ip_char_pred()(#[trigger] clean[i]) by {
            ip.lemma_filter_pred(ip_char_pred(), i);
        }
        lemma_filter_keeps_all(clean, ip_char_pred());
    } else {
        reveal_strlit("unknown");
        assert forall|i: int| 0 <= i < clean.len() implies !ip_char_pred()(#[trigger] clean[i]) by {}
        lemma_filter_drops_all(clean, ip_char_pred());
    }
}

/// Filtering a sequence none of whose elements pass leaves nothing.
proof fn lemma_filter_drops_all(s: Seq<char>, p: spec_fn(char) -> bool)
    requires
        forall|i: int| 0 <= i < s.len() ==> !p(#[trigger] s[i]),
    ensures
        s.filter(p).len() == 0,
    decreases s.len(),
{
    if s.len() == 0 {
        reveal(Seq::filter);
    } else {
        let init = s.drop_last();
        assert forall|i: int| 0 <= i < init.len() implies !p(#[trigger] init[i]) by {
            assert(init[i] == s[i]);
        }
        lemma_filter_drops_all(init, p);
        init.lemma_filter_push(s.last(), p);
        assert(init.push(s.last()) =~= s);
    }
}

/// Filtering a sequence whose elements all pass leaves it unchanged.
proof fn lemma_filter_keeps_all(s: Seq<char>, p: spec_fn(char) -> bool)
    requires
        forall|i: int| 0 <= i < s.len() ==> p(#[trigger] s[i]),
    ensures
        s.filter(p) == s,
    decreases s.len(),
{
    if s.len() == 0 {
        reveal(Seq::filter);
    } else {
        let init = s.drop_last();
        assert forall|i: int| 0 <= i < init.len() implies p(#[trigger] init[i]) by {
            assert(init[i] == s[i]);
        }
        lemma_filter_keeps_all(init, p);
        init.lemma_filter_push(s.last(), p);
        assert(init.push(s.last()) =~= s);
    }
}

/// The IP characters are exactly the ASCII hex digits, `.` and `:`, so every
/// IPv4 and IPv6 address passes through cleaning unchanged; a user agent is
/// kept whole up to 512 characters and cut to its first 512 beyond.
pub proof fn law_ip_characters_and_user_agent(c: char, ua: Seq<char>)
    ensures
        ip_char(c) <==> (('0' <= c && c <= '9') || ('a' <= c && c <= 'f') || ('A' <= c && c <= 'F')
            || c == '.' || c == ':'),
        ua.len() <= 512 ==> truncated_user_agent(ua) == ua,
        ua.len() > 512 ==> truncated_user_agent(ua) == ua.take(512),
{
}

/// Before an audited change the acting user is always set, first; the
/// branch, the cleaned IP address and the cut user agent follow in that
/// order, each only when it is known.
pub proof fn law_history_settings(user_id: i64, branch_id: i64, ip: Seq<char>, ua: Seq<char>)
    ensures
        history_settings(user_id, None, None, None) == seq![("SELECT set_config('app.current_user_id', $1, true)"@, ValueView::BigInt(user_id))],
        history_settings(user_id, Some(branch_id), Some(ip), Some(ua)) == seq![
            ("SELECT set_config('app.current_user_id', $1, true)"@, ValueView::BigInt(user_id)),
            ("SELECT set_config('app.current_branch_id', $1, true)"@, ValueView::BigInt(branch_id)),
            ("SELECT set_config('app.current_ip_address', $1, true)"@, ValueView::Text(sanitized_ip(ip))),
            ("SELECT set_config('app.current_user_agent', $1, true)"@, ValueView::Text(truncated_user_agent(ua))),
        ],
        history_settings(user_id, None, Some(ip), None) == seq![
            ("SELECT set_config('app.current_user_id', $1, true)"@, ValueView::BigInt(user_id)),
            ("SELECT set_config('app.current_ip_address', $1, true)"@, ValueView::Text(sanitized_ip(ip))),
        ],
{
    assert(history_settings(user_id, None, None, None) =~= seq![("SELECT set_config('app.current_user_id', $1, true)"@, ValueView::BigInt(user_id))]);
    assert(history_settings(user_id, Some(branch_id), Some(ip), Some(ua)) =~= seq![
        ("SELECT set_config('app.current_user_id', $1, true)"@, ValueView::BigInt(user_id)),
        ("SELECT set_config('app.current_branch_id', $1, true)"@, ValueView::BigInt(branch_id)),
        ("SELECT set_config('app.current_ip_address', $1, true)"@, ValueView::Text(sanitized_ip(ip))),
        ("SELECT set_config('app.current_user_agent', $1, true)"@, ValueView::Text(truncated_user_agent(ua))),
    ]);
    assert(history_settings(user_id, None, Some(ip), None) =~= seq![
        ("SELECT set_config('app.current_user_id', $1, true)"@, ValueView::BigInt(user_id)),
        ("SELECT set_config('app.current_ip_address', $1, true)"@, ValueView::Text(sanitized_ip(ip))),
    ]);
}

} // verus!
