use aeroxe_backend::error::AppError;
use aeroxe_backend::outbox::{new_outbox_insert, outbox_insert_failed};
use aeroxe_backend::sql::{fetch_unpublished_sql, mark_published_sql, outbox_insert_sql, sql_literal};

#[test]
fn outbox_insert_statement() {
    let q = outbox_insert_sql("id-1", "o'rder.placed", "order", 77, "{\"a\":\"b'c\"}", Some("{\"k\":1}"), Some(4), None);
    assert_eq!(
        q,
        "INSERT INTO outbox_events (event_id, event_type, aggregate_type, aggregate_id, payload, metadata, caused_by_user_id, caused_by_branch_id, published, created_at)\n         VALUES ('id-1', 'o''rder.placed', 'order', 77, '{\"a\":\"b''c\"}'::jsonb, '{\"k\":1}'::jsonb, 4, NULL, false, NOW())"
    );
}

#[test]
fn outbox_insert_with_fresh_id() {
    let a = new_outbox_insert("invoice.paid", "invoice", 1, "{}", None, None, Some(2));
    let b = new_outbox_insert("invoice.paid", "invoice", 1, "{}", None, None, Some(2));
    assert_eq!(a.event_id.len(), 36);
    assert_ne!(a.event_id, b.event_id);
    assert_eq!(
        a.sql,
        format!(
            "INSERT INTO outbox_events (event_id, event_type, aggregate_type, aggregate_id, payload, metadata, caused_by_user_id, caused_by_branch_id, published, created_at)\n         VALUES ('{}', 'invoice.paid', 'invoice', 1, '{{}}'::jsonb, NULL::jsonb, NULL, 2, false, NOW())",
            a.event_id
        )
    );
}

#[test]
fn outbox_fetch_and_mark() {
    assert_eq!(
        fetch_unpublished_sql(100),
        "SELECT id, event_id, event_type, aggregate_type, aggregate_id, payload, metadata,\n                caused_by_user_id, caused_by_branch_id, published, created_at\n         FROM outbox_events\n         WHERE published = false\n         ORDER BY created_at ASC\n         LIMIT 100"
    );
    assert_eq!(
        mark_published_sql("x'; DROP TABLE outbox_events; --"),
        "UPDATE outbox_events SET published = true WHERE event_id = 'x''; DROP TABLE outbox_events; --'"
    );
}

#[test]
fn sql_literal_doubles_quotes() {
    assert_eq!(sql_literal("it's"), "'it''s'");
    assert_eq!(sql_literal("''"), "''''''");
    assert_eq!(sql_literal(""), "''");
}

#[test]
fn outbox_error_messages() {
    match outbox_insert_failed("connection reset") {
        AppError::Internal(m) => assert_eq!(m, "Failed to insert outbox event: connection reset"),
        other => panic!("unexpected {:?}", other),
    }
}
