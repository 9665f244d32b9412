//! Transactional outbox and dead-letter queue: the statements the outbox
//! worker and the dead-letter tools run, the errors they report, and how a
//! dead letter is replayed through the outbox.
//!
//! Events are stored in the outbox within the same transaction as the
//! business change, then a background worker publishes them to NATS. Events
//! that keep failing go to the dead-letter queue for inspection and replay.
use vstd::prelude::*;
use vstd::string::StringExecFns;

use crate::error::AppError;
use crate::messaging::{ends_with_zulu, is_hyphenated_uuid, new_event_id, now_rfc3339_zulu};
use crate::sql::{
    all_dead_letters_sql, all_dead_letters_text, dead_letters_with_status_sql,
    dead_letters_with_status_text, mark_replayed_sql, mark_replayed_text, outbox_insert_sql,
    outbox_insert_text, opt_str_view,
};
use crate::text::{concat2, int_decimal, owned, push_i64_decimal};

verus! {

/// A new outbox row: its fresh event id and the statement that stores it.
pub struct OutboxInsert {
    pub event_id: String,
    pub sql: String,
}

/// The statement that stores an event in the outbox under a fresh event id.
pub fn new_outbox_insert(
    event_type: &str,
    aggregate_type: &str,
    aggregate_id: i64,
    payload_json: &str,
    metadata_json: Option<&str>,
    caused_by_user_id: Option<i64>,
    caused_by_branch_id: Option<i64>,
) -> (ins: OutboxInsert)
    ensures
        is_hyphenated_uuid(ins.event_id@),
        ins.sql@ == outbox_insert_text(
            ins.event_id@,
            event_type@,
            aggregate_type@,
            aggregate_id,
            payload_json@,
            opt_str_view(metadata_json),
            caused_by_user_id,
            caused_by_branch_id,
        ),
{
    let event_id = new_event_id();
    let sql = outbox_insert_sql(
        event_id.as_str(),
        event_type,
        aggregate_type,
        aggregate_id,
        payload_json,
        metadata_json,
        caused_by_user_id,
        caused_by_branch_id,
    );
    OutboxInsert { event_id, sql }
}

/// Error for a failed outbox insert.
pub fn outbox_insert_failed(cause: &str) -> (e: AppError)
    ensures
        e matches AppError::Internal(m) && m@ == "Failed to insert outbox event: "@ + cause@,
{
    AppError::Internal(concat2("Failed to insert outbox event: ", cause))
}

/// Error for a failed fetch of unpublished events.
pub fn outbox_fetch_failed(cause: &str) -> (e: AppError)
    ensures
        e matches AppError::Internal(m) && m@ == "Failed to fetch outbox events: "@ + cause@,
{
    AppError::Internal(concat2("Failed to fetch outbox events: ", cause))
}

/// Error for a failed publish mark.
pub fn outbox_mark_failed(cause: &str) -> (e: AppError)
    ensures
        e matches AppError::Internal(m) && m@ == "Failed to mark event published: "@ + cause@,
{
    AppError::Internal(concat2("Failed to mark event published: ", cause))
}

/// The query listing dead letters: those with `status` if given, all otherwise.
pub fn dead_letters_sql(status: Option<&str>, limit: i64) -> (q: String)
    ensures
        status matches Some(s) ==> q@ == dead_letters_with_status_text(s@, limit),
        status is None ==> q@ == all_dead_letters_text(limit),
{
    match status {
        Some(s) => dead_letters_with_status_sql(s, limit),
        None => all_dead_letters_sql(limit),
    }
}

/// Error when the dead-letter query gives no rows back.
pub fn dead_letter_query_failed() -> (e: AppError)
    ensures
        e matches AppError::Internal(m) && m@ == "Failed to query dead letters"@,
{
    AppError::Internal(owned("Failed to query dead letters"))
}

/// Error when no failed dead letter has this id.
pub fn dead_letter_not_found(dead_letter_id: i64) -> (e: AppError)
    ensures
        e matches AppError::NotFound(m) && m@ == "Dead-letter event "@ + int_decimal(dead_letter_id as int)
            + " not found"@,
{
    let mut m = owned("Dead-letter event ");
    push_i64_decimal(&mut m, dead_letter_id);
    m.append(" not found");
    AppError::NotFound(m)
}

/// Error when a replayed event could not be put back into the outbox.
pub fn replay_reinsert_failed(cause: &str) -> (e: AppError)
    ensures
        e matches AppError::Internal(m) && m@ == "Failed to re-insert into outbox: "@ + cause@,
{
    AppError::Internal(concat2("Failed to re-insert into outbox: ", cause))
}

/// A dead-letter event.
#[derive(Debug)]
pub struct DeadLetterEvent {
    pub id: i64,
    pub event_id: String,
    pub event_type: String,
    pub aggregate_type: String,
    pub aggregate_id: i64,
    /// JSON text of the payload.
    pub payload: String,
    pub error_message: String,
    pub retry_count: i32,
    pub max_retries: i32,
    /// `failed`, `replayed` or `discarded`.
    pub status: String,
    /// RFC 3339 time.
    pub created_at: String,
    /// RFC 3339 time.
    pub last_retry_at: Option<String>,
}

/// The fields of a stored dead letter, as read from its row; a field that is
/// missing or of another type is `None`.
pub struct DeadLetterRow {
    pub event_id: Option<String>,
    pub event_type: Option<String>,
    pub aggregate_type: Option<String>,
    pub aggregate_id: Option<i64>,
    /// JSON text of the payload (`null` when missing).
    pub payload_json: String,
    pub error_message: Option<String>,
    pub retry_count: Option<i64>,
    pub max_retries: Option<i64>,
}

/// Text of an optional field, or the given default.
pub open spec fn text_or(v: Option<String>, default: Seq<char>) -> Seq<char> {
    match v {
        Some(s) => s@,
        None => default,
    }
}

/// Number of an optional field, or the given default.
pub open spec fn int_or(v: Option<i64>, default: i64) -> i64 {
    match v {
        Some(n) => n,
        None => default,
    }
}

/// What replaying a dead letter does: store it again in the outbox (as
/// `replay.<type>`), mark it replayed, and report it.
pub struct ReplayPlan {
    pub outbox: OutboxInsert,
    pub mark_replayed_sql: String,
    pub event: DeadLetterEvent,
}

fn text_or_default(v: &Option<String>, default: &str) -> (s: String)
    ensures
        s@ == text_or(*v, default@),
{
    match v {
        Some(x) => x.clone(),
        None => owned(default),
    }
}

/// How a failed dead letter is replayed.
pub fn replay_plan(dead_letter_id: i64, row: &DeadLetterRow) -> (plan: ReplayPlan)
    ensures
        ({
            let event_type = text_or(row.event_type, "unknown"@);
            let aggregate_type = text_or(row.aggregate_type, "unknown"@);
            let aggregate_id = int_or(row.aggregate_id, 0);
            &&& is_hyphenated_uuid(plan.outbox.event_id@)
            &&& plan.outbox.sql@ == outbox_insert_text(
                plan.outbox.event_id@,
                "replay."@ + event_type,
                aggregate_type,
                aggregate_id,
                row.payload_json@,
                None,
                None,
                None,
            )
            &&& plan.mark_replayed_sql@ == mark_replayed_text(dead_letter_id)
            &&& plan.event.id == dead_letter_id
            &&& plan.event.event_id@ == text_or(row.event_id, Seq::<char>::empty())
            &&& plan.event.event_type@ == event_type
            &&& plan.event.aggregate_type@ == aggregate_type
            &&& plan.event.aggregate_id == aggregate_id
            &&& plan.event.payload == row.payload_json
            &&& plan.event.error_message@ == text_or(row.error_message, Seq::<char>::empty())
            &&& plan.event.retry_count == #[verifier::truncate] (int_or(row.retry_count, 0) as i32)
            &&& plan.event.max_retries == #[verifier::truncate] (int_or(row.max_retries, 3) as i32)
            &&& plan.event.status@ == "replayed"@
            &&& ends_with_zulu(plan.event.created_at@)
            &&& plan.event.last_retry_at matches Some(t) && ends_with_zulu(t@)
        }),
{
    proof {
        reveal_strlit("");
    }
    let event_type = text_or_default(&row.event_type, "unknown");
    let aggregate_type = text_or_default(&row.aggregate_type, "unknown");
    let aggregate_id: i64 = match row.aggregate_id {
        Some(n) => n,
        None => 0,
    };
    let replay_type = concat2("replay.", event_type.as_str());
    let outbox = new_outbox_insert(
        replay_type.as_str(),
        aggregate_type.as_str(),
        aggregate_id,
        row.payload_json.as_str(),
        None,
        None,
        None,
    );
    let retry_count: i64 = match row.retry_count {
        Some(n) => n,
        None => 0,
    };
    let max_retries: i64 = match row.max_retries {
        Some(n) => n,
        None => 3,
    };
    let event = DeadLetterEvent {
        id: dead_letter_id,
        event_id: text_or_default(&row.event_id, ""),
        event_type,
        aggregate_type,
        aggregate_id,
        payload: row.payload_json.clone(),
        error_message: text_or_default(&row.error_message, ""),
        retry_count: #[verifier::truncate] (retry_count as i32),
        max_retries: #[verifier::truncate] (max_retries as i32),
        status: owned("replayed"),
        created_at: now_rfc3339_zulu(),
        last_retry_at: Some(now_rfc3339_zulu()),
    };
    ReplayPlan { outbox, mark_replayed_sql: mark_replayed_sql(dead_letter_id), event }
}

} // verus!
