//! SQL statements of the transactional outbox and the dead-letter queue.
//!
//! Text values are quoted as SQL string literals with every single quote
//! doubled, so no value can end its literal early.
use vstd::prelude::*;
use vstd::string::StringExecFns;
use vstd::string::StrSliceExecFns;

use crate::text::{int_decimal, owned, push_i64_decimal, string_push};

verus! {

/// `s` with every single quote doubled, as `str::replace('\'', "''")` gives it.
pub open spec fn sql_escaped(s: Seq<char>) -> Seq<char>
    decreases s.len(),
{
    if s.len() == 0 {
        Seq::<char>::empty()
    } else {
        sql_escaped(s.drop_last()) + (if s.last() == '\'' {
            seq!['\'', '\'']
        } else {
            seq![s.last()]
        })
    }
}

/// How an SQL string literal's body is read back: a doubled quote stands for
/// one quote, any other character for itself.
pub open spec fn sql_unescaped(t: Seq<char>) -> Seq<char>
    decreases t.len(),
{
    if t.len() == 0 {
        Seq::<char>::empty()
    } else if t[0] == '\'' && t.len() >= 2 && t[1] == '\'' {
        seq!['\''] + sql_unescaped(t.skip(2))
    } else {
        seq![t[0]] + sql_unescaped(t.skip(1))
    }
}

/// Every quote in `t` is one of a doubled pair, so `t` cannot end the
/// literal it stands in.
pub open spec fn quotes_doubled(t: Seq<char>) -> bool
    decreases t.len(),
{
    if t.len() == 0 {
        true
    } else if t[0] == '\'' {
        t.len() >= 2 && t[1] == '\'' && quotes_doubled(t.skip(2))
    } else {
        quotes_doubled(t.skip(1))
    }
}

/// Escaping distributes over concatenation.
pub proof fn lemma_escaped_concat(a: Seq<char>, b: Seq<char>)
    ensures
        sql_escaped(a + b) == sql_escaped(a) + sql_escaped(b),
    decreases b.len(),
{
    if b.len() == 0 {
        assert(a + b =~= a);
        assert(sql_escaped(a) + sql_escaped(b) =~= sql_escaped(a));
    } else {
        lemma_escaped_concat(a, b.drop_last());
        assert((a + b).drop_last() =~= a + b.drop_last());
        assert((a + b).last() == b.last());
        assert(sql_escaped(a + b) =~= sql_escaped(a) + sql_escaped(b));
    }
}

/// The escaped text of a character followed by more text.
proof fn lemma_escaped_front(s: Seq<char>)
    requires
        s.len() > 0,
    ensures
        sql_escaped(s) == sql_escaped(seq![s[0]]) + sql_escaped(s.skip(1)),
        sql_escaped(seq![s[0]]) == (if s[0] == '\'' { seq!['\'', '\''] } else { seq![s[0]] }),
{
    assert(s =~= seq![s[0]] + s.skip(1));
    lemma_escaped_concat(seq![s[0]], s.skip(1));
    let one = seq![s[0]];
    assert(one.drop_last() =~= Seq::<char>::empty());
    assert(sql_escaped(one.drop_last()) == Seq::<char>::empty());
    assert(sql_escaped(one) =~= (if s[0] == '\'' { seq!['\'', '\''] } else { seq![s[0]] }));
}

/// Quoting is safe and exact: in the escaped text every quote is doubled,
/// so a value can never close its literal early, and reading the literal
/// back gives the value itself. Distinct values thus give distinct literals.
pub proof fn law_sql_literal_roundtrip(s: Seq<char>)
    ensures
        quotes_doubled(sql_escaped(s)),
        sql_unescaped(sql_escaped(s)) == s,
    decreases s.len(),
{
    if s.len() == 0 {
    } else {
        lemma_escaped_front(s);
        law_sql_literal_roundtrip(s.skip(1));
        let e = sql_escaped(s);
        let rest = sql_escaped(s.skip(1));
        if s[0] == '\'' {
            assert(e.skip(2) =~= rest);
            assert(e[0] == '\'' && e[1] == '\'');
            assert(sql_unescaped(e) =~= s);
        } else {
            assert(e.skip(1) =~= rest);
            assert(e[0] == s[0]);
            assert(sql_unescaped(e) =~= s);
        }
    }
}

/// Escaping never maps two different values to the same text.
pub proof fn law_sql_escaping_injective(a: Seq<char>, b: Seq<char>)
    requires
        sql_escaped(a) == sql_escaped(b),
    ensures
        a == b,
{
    law_sql_literal_roundtrip(a);
    law_sql_literal_roundtrip(b);
}

/// Appends `s` with every single quote doubled.
pub fn push_escaped(q: &mut String, s: &str)
    ensures
        final(q)@ == old(q)@ + sql_escaped(s@),
{
    let n = s.unicode_len();
    let mut i: usize = 0;
    while i < n
        invariant
            n == s@.len(),
            i <= n,
            q@ == old(q)@ + sql_escaped(s@.subrange(0, i as int)),
        decreases n - i,
    {
        let c = s.get_char(i);
        let ghost before = q@;
        if c == '\'' {
            string_push(q, '\'');
            string_push(q, '\'');
        } else {
            string_push(q, c);
        }
        assert(s@.subrange(0, i + 1).drop_last() =~= s@.subrange(0, i as int));
        i = i + 1;
        assert(q@ =~= old(q)@ + sql_escaped(s@.subrange(0, i as int)));
    }
    assert(s@.subrange(0, n as int) =~= s@);
}

/// `s` quoted as an SQL string literal.
pub fn sql_literal(s: &str) -> (q: String)
    ensures
        q@ == seq!['\''] + sql_escaped(s@) + seq!['\''],
{
    let mut q = String::new();
    string_push(&mut q, '\'');
    push_escaped(&mut q, s);
    string_push(&mut q, '\'');
    q
}

/// An optional id as SQL: its decimal digits, or `NULL`.
pub open spec fn opt_id_text(id: Option<i64>) -> Seq<char> {
    match id {
        Some(n) => int_decimal(n as int),
        None => "NULL"@,
    }
}

fn push_opt_id(q: &mut String, id: Option<i64>)
    ensures
        final(q)@ == old(q)@ + opt_id_text(id),
{
    match id {
        Some(n) => push_i64_decimal(q, n),
        None => q.append("NULL"),
    }
}

/// The view of an optional string slice.
pub open spec fn opt_str_view(s: Option<&str>) -> Option<Seq<char>> {
    match s {
        Some(x) => Some(x@),
        None => None,
    }
}

/// Optional JSON text as SQL: a quoted literal, or `NULL`.
pub open spec fn json_or_null(json: Option<Seq<char>>) -> Seq<char> {
    match json {
        Some(m) => seq!['\''] + sql_escaped(m) + seq!['\''],
        None => "NULL"@,
    }
}

fn push_json_or_null(q: &mut String, json: Option<&str>)
    ensures
        final(q)@ == old(q)@ + json_or_null(opt_str_view(json)),
{
    match json {
        Some(m) => {
            string_push(q, '\'');
            push_escaped(q, m);
            string_push(q, '\'');
            assert(q@ =~= old(q)@ + json_or_null(opt_str_view(json)));
        },
        None => q.append("NULL"),
    }
}

/// Text of: inserts an unpublished event into the outbox, created now.
pub open spec fn outbox_insert_text(event_id: Seq<char>, event_type: Seq<char>, aggregate_type: Seq<char>, aggregate_id: i64, payload_json: Seq<char>, metadata_json: Option<Seq<char>>, caused_by_user_id: Option<i64>, caused_by_branch_id: Option<i64>) -> Seq<char> {
    "INSERT INTO outbox_events (event_id, event_type, aggregate_type, aggregate_id, payload, metadata, caused_by_user_id, caused_by_branch_id, published, created_at)\n         VALUES ('"@ + event_id + "', '"@ + sql_escaped(event_type) + "', '"@ + sql_escaped(aggregate_type) + "', "@ + int_decimal(aggregate_id as int) + ", '"@ + sql_escaped(payload_json) + "'::jsonb, "@ + json_or_null(metadata_json) + "::jsonb, "@ + opt_id_text(caused_by_user_id) + ", "@ + opt_id_text(caused_by_branch_id) + ", false, NOW())"@
}

/// inserts an unpublished event into the outbox, created now.
pub fn outbox_insert_sql(event_id: &str, event_type: &str, aggregate_type: &str, aggregate_id: i64, payload_json: &str, metadata_json: Option<&str>, caused_by_user_id: Option<i64>, caused_by_branch_id: Option<i64>) -> (q: String)
    ensures
        q@ == outbox_insert_text(event_id@, event_type@, aggregate_type@, aggregate_id, payload_json@, opt_str_view(metadata_json), caused_by_user_id, caused_by_branch_id),
        q@ == "INSERT INTO outbox_events (event_id, event_type, aggregate_type, aggregate_id, payload, metadata, caused_by_user_id, caused_by_branch_id, published, created_at)\n         VALUES ('"@ + event_id@ + "', '"@ + sql_escaped(event_type@) + "', '"@ + sql_escaped(aggregate_type@) + "', "@ + int_decimal(aggregate_id as int) + ", '"@ + sql_escaped(payload_json@) + "'::jsonb, "@ + json_or_null(opt_str_view(metadata_json)) + "::jsonb, "@ + opt_id_text(caused_by_user_id) + ", "@ + opt_id_text(caused_by_branch_id) + ", false, NOW())"@,
{
    let mut q = owned("INSERT INTO outbox_events (event_id, event_type, aggregate_type, aggregate_id, payload, metadata, caused_by_user_id, caused_by_branch_id, published, created_at)\n         VALUES ('");
    q.append(event_id);
    q.append("', '");
    push_escaped(&mut q, event_type);
    q.append("', '");
    push_escaped(&mut q, aggregate_type);
    q.append("', ");
    push_i64_decimal(&mut q, aggregate_id);
    q.append(", '");
    push_escaped(&mut q, payload_json);
    q.append("'::jsonb, ");
    push_json_or_null(&mut q, metadata_json);
    q.append("::jsonb, ");
    push_opt_id(&mut q, caused_by_user_id);
    q.append(", ");
    push_opt_id(&mut q, caused_by_branch_id);
    q.append(", false, NOW())");
    proof {
        assert(q@ =~= outbox_insert_text(event_id@, event_type@, aggregate_type@, aggregate_id, payload_json@, opt_str_view(metadata_json), caused_by_user_id, caused_by_branch_id));
    }
    q
}

/// Text of: selects at most `limit` unpublished outbox events, oldest first.
pub open spec fn fetch_unpublished_text(limit: i64) -> Seq<char> {
    "SELECT id, event_id, event_type, aggregate_type, aggregate_id, payload, metadata,\n                caused_by_user_id, caused_by_branch_id, published, created_at\n         FROM outbox_events\n         WHERE published = false\n         ORDER BY created_at ASC\n         LIMIT "@ + int_decimal(limit as int)
}

/// selects at most `limit` unpublished outbox events, oldest first.
pub fn fetch_unpublished_sql(limit: i64) -> (q: String)
    ensures
        q@ == fetch_unpublished_text(limit),
        q@ == "SELECT id, event_id, event_type, aggregate_type, aggregate_id, payload, metadata,\n                caused_by_user_id, caused_by_branch_id, published, created_at\n         FROM outbox_events\n         WHERE published = false\n         ORDER BY created_at ASC\n         LIMIT "@ + int_decimal(limit as int),
{
    let mut q = owned("SELECT id, event_id, event_type, aggregate_type, aggregate_id, payload, metadata,\n                caused_by_user_id, caused_by_branch_id, published, created_at\n         FROM outbox_events\n         WHERE published = false\n         ORDER BY created_at ASC\n         LIMIT ");
    push_i64_decimal(&mut q, limit);
    proof {
        assert(q@ =~= fetch_unpublished_text(limit));
    }
    q
}

/// Text of: marks the outbox event with this event id as published.
pub open spec fn mark_published_text(event_id: Seq<char>) -> Seq<char> {
    "UPDATE outbox_events SET published = true WHERE event_id = '"@ + sql_escaped(event_id) + "'"@
}

/// marks the outbox event with this event id as published.
pub fn mark_published_sql(event_id: &str) -> (q: String)
    ensures
        q@ == mark_published_text(event_id@),
        q@ == "UPDATE outbox_events SET published = true WHERE event_id = '"@ + sql_escaped(event_id@) + "'"@,
{
    let mut q = owned("UPDATE outbox_events SET published = true WHERE event_id = '");
    push_escaped(&mut q, event_id);
    q.append("'");
    proof {
        assert(q@ =~= mark_published_text(event_id@));
    }
    q
}

/// Text of: stores a failed event in the dead-letter queue with status `failed`.
pub open spec fn dead_letter_insert_text(event_id: Seq<char>, event_type: Seq<char>, aggregate_type: Seq<char>, aggregate_id: i64, payload_json: Seq<char>, error_message: Seq<char>, retry_count: i32, max_retries: i32) -> Seq<char> {
    "INSERT INTO dead_letter_events (event_id, event_type, aggregate_type, aggregate_id, payload, error_message, retry_count, max_retries, status)\n         VALUES ('"@ + sql_escaped(event_id) + "', '"@ + sql_escaped(event_type) + "', '"@ + sql_escaped(aggregate_type) + "', "@ + int_decimal(aggregate_id as int) + ", '"@ + sql_escaped(payload_json) + "', '"@ + sql_escaped(error_message) + "', "@ + int_decimal(retry_count as int) + ", "@ + int_decimal(max_retries as int) + ", 'failed')"@
}

/// stores a failed event in the dead-letter queue with status `failed`.
pub fn dead_letter_insert_sql(event_id: &str, event_type: &str, aggregate_type: &str, aggregate_id: i64, payload_json: &str, error_message: &str, retry_count: i32, max_retries: i32) -> (q: String)
    ensures
        q@ == dead_letter_insert_text(event_id@, event_type@, aggregate_type@, aggregate_id, payload_json@, error_message@, retry_count, max_retries),
        q@ == "INSERT INTO dead_letter_events (event_id, event_type, aggregate_type, aggregate_id, payload, error_message, retry_count, max_retries, status)\n         VALUES ('"@ + sql_escaped(event_id@) + "', '"@ + sql_escaped(event_type@) + "', '"@ + sql_escaped(aggregate_type@) + "', "@ + int_decimal(aggregate_id as int) + ", '"@ + sql_escaped(payload_json@) + "', '"@ + sql_escaped(error_message@) + "', "@ + int_decimal(retry_count as int) + ", "@ + int_decimal(max_retries as int) + ", 'failed')"@,
{
    let mut q = owned("INSERT INTO dead_letter_events (event_id, event_type, aggregate_type, aggregate_id, payload, error_message, retry_count, max_retries, status)\n         VALUES ('");
    push_escaped(&mut q, event_id);
    q.append("', '");
    push_escaped(&mut q, event_type);
    q.append("', '");
    push_escaped(&mut q, aggregate_type);
    q.append("', ");
    push_i64_decimal(&mut q, aggregate_id);
    q.append(", '");
    push_escaped(&mut q, payload_json);
    q.append("', '");
    push_escaped(&mut q, error_message);
    q.append("', ");
    push_i64_decimal(&mut q, retry_count as i64);
    q.append(", ");
    push_i64_decimal(&mut q, max_retries as i64);
    q.append(", 'failed')");
    proof {
        assert(q@ =~= dead_letter_insert_text(event_id@, event_type@, aggregate_type@, aggregate_id, payload_json@, error_message@, retry_count, max_retries));
    }
    q
}

/// Text of: lists at most `limit` dead letters with the given status, newest first.
pub open spec fn dead_letters_with_status_text(status: Seq<char>, limit: i64) -> Seq<char> {
    "SELECT * FROM dead_letter_events WHERE status = '"@ + sql_escaped(status) + "' ORDER BY created_at DESC LIMIT "@ + int_decimal(limit as int)
}

/// lists at most `limit` dead letters with the given status, newest first.
pub fn dead_letters_with_status_sql(status: &str, limit: i64) -> (q: String)
    ensures
        q@ == dead_letters_with_status_text(status@, limit),
        q@ == "SELECT * FROM dead_letter_events WHERE status = '"@ + sql_escaped(status@) + "' ORDER BY created_at DESC LIMIT "@ + int_decimal(limit as int),
{
    let mut q = owned("SELECT * FROM dead_letter_events WHERE status = '");
    push_escaped(&mut q, status);
    q.append("' ORDER BY created_at DESC LIMIT ");
    push_i64_decimal(&mut q, limit);
    proof {
        assert(q@ =~= dead_letters_with_status_text(status@, limit));
    }
    q
}

/// Text of: lists at most `limit` dead letters, newest first.
pub open spec fn all_dead_letters_text(limit: i64) -> Seq<char> {
    "SELECT * FROM dead_letter_events ORDER BY created_at DESC LIMIT "@ + int_decimal(limit as int)
}

/// lists at most `limit` dead letters, newest first.
pub fn all_dead_letters_sql(limit: i64) -> (q: String)
    ensures
        q@ == all_dead_letters_text(limit),
        q@ == "SELECT * FROM dead_letter_events ORDER BY created_at DESC LIMIT "@ + int_decimal(limit as int),
{
    let mut q = owned("SELECT * FROM dead_letter_events ORDER BY created_at DESC LIMIT ");
    push_i64_decimal(&mut q, limit);
    proof {
        assert(q@ =~= all_dead_letters_text(limit));
    }
    q
}

/// Text of: selects the dead letter with this id, if it is still `failed`.
pub open spec fn failed_dead_letter_text(dead_letter_id: i64) -> Seq<char> {
    "SELECT * FROM dead_letter_events WHERE id = "@ + int_decimal(dead_letter_id as int) + " AND status = 'failed'"@
}

/// selects the dead letter with this id, if it is still `failed`.
pub fn failed_dead_letter_sql(dead_letter_id: i64) -> (q: String)
    ensures
        q@ == failed_dead_letter_text(dead_letter_id),
        q@ == "SELECT * FROM dead_letter_events WHERE id = "@ + int_decimal(dead_letter_id as int) + " AND status = 'failed'"@,
{
    let mut q = owned("SELECT * FROM dead_letter_events WHERE id = ");
    push_i64_decimal(&mut q, dead_letter_id);
    q.append(" AND status = 'failed'");
    proof {
        assert(q@ =~= failed_dead_letter_text(dead_letter_id));
    }
    q
}

/// Text of: marks the dead letter with this id as replayed, retried now.
pub open spec fn mark_replayed_text(dead_letter_id: i64) -> Seq<char> {
    "UPDATE dead_letter_events SET status = 'replayed', last_retry_at = NOW() WHERE id = "@ + int_decimal(dead_letter_id as int)
}

/// marks the dead letter with this id as replayed, retried now.
pub fn mark_replayed_sql(dead_letter_id: i64) -> (q: String)
    ensures
        q@ == mark_replayed_text(dead_letter_id),
        q@ == "UPDATE dead_letter_events SET status = 'replayed', last_retry_at = NOW() WHERE id = "@ + int_decimal(dead_letter_id as int),
{
    let mut q = owned("UPDATE dead_letter_events SET status = 'replayed', last_retry_at = NOW() WHERE id = ");
    push_i64_decimal(&mut q, dead_letter_id);
    proof {
        assert(q@ =~= mark_replayed_text(dead_letter_id));
    }
    q
}

/// Text of: marks the dead letter with this id as discarded.
pub open spec fn discard_dead_letter_text(dead_letter_id: i64) -> Seq<char> {
    "UPDATE dead_letter_events SET status = 'discarded' WHERE id = "@ + int_decimal(dead_letter_id as int)
}

/// marks the dead letter with this id as discarded.
pub fn discard_dead_letter_sql(dead_letter_id: i64) -> (q: String)
    ensures
        q@ == discard_dead_letter_text(dead_letter_id),
        q@ == "UPDATE dead_letter_events SET status = 'discarded' WHERE id = "@ + int_decimal(dead_letter_id as int),
{
    let mut q = owned("UPDATE dead_letter_events SET status = 'discarded' WHERE id = ");
    push_i64_decimal(&mut q, dead_letter_id);
    proof {
        assert(q@ =~= discard_dead_letter_text(dead_letter_id));
    }
    q
}

/// Text of: deletes replayed and discarded dead letters older than this many days.
pub open spec fn cleanup_dead_letters_text(older_than_days: i32) -> Seq<char> {
    "DELETE FROM dead_letter_events WHERE created_at < NOW() - INTERVAL '"@ + int_decimal(older_than_days as int) + " days' AND status IN ('replayed', 'discarded')"@
}

/// deletes replayed and discarded dead letters older than this many days.
pub fn cleanup_dead_letters_sql(older_than_days: i32) -> (q: String)
    ensures
        q@ == cleanup_dead_letters_text(older_than_days),
        q@ == "DELETE FROM dead_letter_events WHERE created_at < NOW() - INTERVAL '"@ + int_decimal(older_than_days as int) + " days' AND status IN ('replayed', 'discarded')"@,
{
    let mut q = owned("DELETE FROM dead_letter_events WHERE created_at < NOW() - INTERVAL '");
    push_i64_decimal(&mut q, older_than_days as i64);
    q.append(" days' AND status IN ('replayed', 'discarded')");
    proof {
        assert(q@ =~= cleanup_dead_letters_text(older_than_days));
    }
    q
}

/// The dead-letter lifecycle in the statements: a dead letter is stored as
/// `failed`; replay looks a letter up by its id among the `failed` ones only,
/// then marks it `replayed` (so a replayed letter is not found, nor replayed,
/// again); discarding marks it `discarded`; and clean-up deletes only
/// `replayed` and `discarded` letters, never a `failed` one.
pub proof fn law_dead_letter_lifecycle(
    id: i64,
    event_id: Seq<char>,
    event_type: Seq<char>,
    aggregate_type: Seq<char>,
    aggregate_id: i64,
    payload_json: Seq<char>,
    error_message: Seq<char>,
    retry_count: i32,
    max_retries: i32,
    days: i32,
)
    ensures
        dead_letter_insert_text(event_id, event_type, aggregate_type, aggregate_id, payload_json,
            error_message, retry_count, max_retries) == "INSERT INTO dead_letter_events (event_id, event_type, aggregate_type, aggregate_id, payload, error_message, retry_count, max_retries, status)\n         VALUES ('"@
            + sql_escaped(event_id) + "', '"@ + sql_escaped(event_type) + "', '"@ + sql_escaped(aggregate_type)
            + "', "@ + int_decimal(aggregate_id as int) + ", '"@ + sql_escaped(payload_json) + "', '"@
            + sql_escaped(error_message) + "', "@ + int_decimal(retry_count as int) + ", "@
            + int_decimal(max_retries as int) + ", 'failed')"@,
        failed_dead_letter_text(id) == "SELECT * FROM dead_letter_events WHERE id = "@ + int_decimal(id as int)
            + " AND status = 'failed'"@,
        mark_replayed_text(id) == "UPDATE dead_letter_events SET status = 'replayed', last_retry_at = NOW() WHERE id = "@
            + int_decimal(id as int),
        discard_dead_letter_text(id) == "UPDATE dead_letter_events SET status = 'discarded' WHERE id = "@
            + int_decimal(id as int),
        cleanup_dead_letters_text(days) == "DELETE FROM dead_letter_events WHERE created_at < NOW() - INTERVAL '"@
            + int_decimal(days as int) + " days' AND status IN ('replayed', 'discarded')"@,
{
}

/// The dead-letter table, created if it does not exist yet.
pub fn dead_letter_table_sql() -> (q: String)
    ensures
        q@ == DEAD_LETTER_TABLE@,
{
    owned(DEAD_LETTER_TABLE)
}

/// Definition of the dead-letter table.
pub const DEAD_LETTER_TABLE: &'static str = "CREATE TABLE IF NOT EXISTS dead_letter_events (\n            id BIGSERIAL PRIMARY KEY,\n            event_id VARCHAR(255) NOT NULL,\n            event_type VARCHAR(255) NOT NULL,\n            aggregate_type VARCHAR(255) NOT NULL,\n            aggregate_id BIGINT NOT NULL,\n            payload JSONB NOT NULL,\n            error_message TEXT NOT NULL,\n            retry_count INTEGER NOT NULL DEFAULT 0,\n            max_retries INTEGER NOT NULL DEFAULT 3,\n            status VARCHAR(50) NOT NULL DEFAULT 'failed',\n            created_at TIMESTAMPTZ NOT NULL DEFAULT NOW(),\n            last_retry_at TIMESTAMPTZ\n        )";

} // verus!
