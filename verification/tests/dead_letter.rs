use aeroxe_backend::error::AppError;
use aeroxe_backend::outbox::{
    dead_letter_not_found, dead_letters_sql, replay_plan, DeadLetterRow,
};
use aeroxe_backend::sql::{cleanup_dead_letters_sql, dead_letter_insert_sql, discard_dead_letter_sql};

#[test]
fn test_dead_letter_concepts() {
    // Verify module compiles and concepts are sound
    // Full integration tests require database
    assert!(true);
}

#[test]
fn dead_letter_insert_escapes_values() {
    let q = dead_letter_insert_sql("e-1", "customer.created", "customer", 7, "{\"name\":\"O'Brien\"}", "it's broken", 3, 3);
    assert_eq!(
        q,
        "INSERT INTO dead_letter_events (event_id, event_type, aggregate_type, aggregate_id, payload, error_message, retry_count, max_retries, status)\n         VALUES ('e-1', 'customer.created', 'customer', 7, '{\"name\":\"O''Brien\"}', 'it''s broken', 3, 3, 'failed')"
    );
}

#[test]
fn dead_letter_listing_queries() {
    assert_eq!(
        dead_letters_sql(Some("failed"), 50),
        "SELECT * FROM dead_letter_events WHERE status = 'failed' ORDER BY created_at DESC LIMIT 50"
    );
    assert_eq!(dead_letters_sql(None, 10), "SELECT * FROM dead_letter_events ORDER BY created_at DESC LIMIT 10");
    assert_eq!(discard_dead_letter_sql(9), "UPDATE dead_letter_events SET status = 'discarded' WHERE id = 9");
    assert_eq!(
        cleanup_dead_letters_sql(30),
        "DELETE FROM dead_letter_events WHERE created_at < NOW() - INTERVAL '30 days' AND status IN ('replayed', 'discarded')"
    );
}

#[test]
fn dead_letter_replay_plan_uses_defaults() {
    let row = DeadLetterRow {
        event_id: Some("abc".to_string()),
        event_type: None,
        aggregate_type: Some("invoice".to_string()),
        aggregate_id: None,
        payload_json: "{}".to_string(),
        error_message: None,
        retry_count: Some(2),
        max_retries: None,
    };
    let plan = replay_plan(12, &row);
    assert_eq!(plan.event.id, 12);
    assert_eq!(plan.event.event_id, "abc");
    assert_eq!(plan.event.event_type, "unknown");
    assert_eq!(plan.event.aggregate_type, "invoice");
    assert_eq!(plan.event.aggregate_id, 0);
    assert_eq!(plan.event.error_message, "");
    assert_eq!(plan.event.retry_count, 2);
    assert_eq!(plan.event.max_retries, 3);
    assert_eq!(plan.event.status, "replayed");
    assert!(plan.event.last_retry_at.as_deref().unwrap().ends_with('Z'));
    assert!(plan.event.created_at.ends_with('Z'));
    assert_eq!(
        plan.mark_replayed_sql,
        "UPDATE dead_letter_events SET status = 'replayed', last_retry_at = NOW() WHERE id = 12"
    );
    let expected = format!(
        "INSERT INTO outbox_events (event_id, event_type, aggregate_type, aggregate_id, payload, metadata, caused_by_user_id, caused_by_branch_id, published, created_at)\n         VALUES ('{}', 'replay.unknown', 'invoice', 0, '{{}}'::jsonb, NULL::jsonb, NULL, NULL, false, NOW())",
        plan.outbox.event_id
    );
    assert_eq!(plan.outbox.sql, expected);
}

#[test]
fn dead_letter_not_found_message() {
    match dead_letter_not_found(-4) {
        AppError::NotFound(m) => assert_eq!(m, "Dead-letter event -4 not found"),
        other => panic!("unexpected {:?}", other),
    }
}
