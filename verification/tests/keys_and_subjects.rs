use aeroxe_backend::cache::CacheKeys;
use aeroxe_backend::messaging::{EventEnvelope, JetStreamConfig, NatsSubjects};

#[test]
fn cache_key_patterns() {
    assert_eq!(CacheKeys::session(42), "session:42");
    assert_eq!(CacheKeys::session(-7), "session:-7");
    assert_eq!(CacheKeys::session(0), "session:0");
    assert_eq!(CacheKeys::otp("+919876543210"), "otp:+919876543210");
    assert_eq!(CacheKeys::rate_limit("10.0.0.1", "60"), "rate:10.0.0.1:60");
    assert_eq!(CacheKeys::cache("plans"), "cache:plans");
    assert_eq!(CacheKeys::active_plans(), "cache:plans:active");
    assert_eq!(CacheKeys::customer_profile(1001), "cache:customer:1001:profile");
    assert_eq!(CacheKeys::rbac_permissions(9223372036854775807), "cache:rbac:permissions:9223372036854775807");
    assert_eq!(CacheKeys::blacklist("jti-1"), "blacklist:jti-1");
    assert_eq!(CacheKeys::lock("invoice", "17"), "lock:invoice:17");
}

#[test]
fn nats_subject_names() {
    assert_eq!(NatsSubjects::customer_created(), "aeroxe.customer.created.v1");
    assert_eq!(NatsSubjects::customer_kyc_verified(), "aeroxe.customer.kyc.verified.v1");
    assert_eq!(NatsSubjects::subscription_downgraded(), "aeroxe.subscription.downgraded.v1");
    assert_eq!(NatsSubjects::invoice_overdue(), "aeroxe.invoice.overdue.v1");
    assert_eq!(NatsSubjects::refund_processed(), "aeroxe.refund.processed.v1");
    assert_eq!(NatsSubjects::device_status_changed(), "aeroxe.device.status.changed.v1");
    assert_eq!(NatsSubjects::pppoe_session_ended(), "aeroxe.pppoe.session.ended.v1");
    assert_eq!(NatsSubjects::bandwidth_profile_applied(), "aeroxe.bandwidth.profile.applied.v1");
    assert_eq!(NatsSubjects::audit_action(), "aeroxe.audit.action.v1");
    assert_eq!(NatsSubjects::sla_breach_warning(), "aeroxe.sla.breach.warning.v1");
}

#[test]
fn event_envelope_fields() {
    let e = EventEnvelope::new("customer.created".to_string(), "customer-service".to_string(), 5u32);
    assert_eq!(e.event_type, "customer.created");
    assert_eq!(e.producer, "customer-service");
    assert_eq!(e.payload, 5);
    assert_eq!(e.version, 1);
    assert_eq!(e.event_id.len(), 36);
    assert_eq!(&e.event_id[14..15], "4");
    for (i, c) in e.event_id.chars().enumerate() {
        if i == 8 || i == 13 || i == 18 || i == 23 {
            assert_eq!(c, '-');
        } else {
            assert!(c.is_ascii_hexdigit() && !c.is_ascii_uppercase());
        }
    }
    assert!(e.occurred_at.ends_with('Z'));
    let other = EventEnvelope::new("x".to_string(), "y".to_string(), ());
    assert_ne!(e.event_id, other.event_id);
}

#[test]
fn outbox_envelope_producer() {
    let e = EventEnvelope::from_outbox("invoice.paid".to_string(), "{}".to_string());
    assert_eq!(e.producer, "outbox-worker");
    assert_eq!(e.version, 1);
    assert_eq!(e.payload, "{}");
    assert!(e.occurred_at.ends_with("+00:00"));
}

#[test]
fn jetstream_defaults() {
    let c = JetStreamConfig::default();
    assert_eq!(c.stream_name, "EVENTS");
    assert_eq!(c.subjects, vec!["aeroxe.>".to_string()]);
    assert_eq!(c.max_messages, 1_000_000);
    assert_eq!(c.max_bytes, 1_073_741_824);
    assert_eq!(c.max_age_secs, 2_592_000);
}

#[test]
fn every_domain_subject_is_kept_by_the_events_stream() {
    let filter = JetStreamConfig::default().subjects[0].clone();
    let prefix = filter.strip_suffix('>').unwrap();
    let subjects = vec![
        NatsSubjects::customer_created(),
        NatsSubjects::subscription_downgraded(),
        NatsSubjects::invoice_voided(),
        NatsSubjects::refund_processed(),
        NatsSubjects::device_discovered(),
        NatsSubjects::pppoe_session_ended(),
        NatsSubjects::ticket_resolved(),
        NatsSubjects::bandwidth_profile_applied(),
        NatsSubjects::plan_published(),
        NatsSubjects::lead_converted(),
        NatsSubjects::referral_rewarded(),
        NatsSubjects::installation_completed(),
        NatsSubjects::audit_action(),
        NatsSubjects::sla_breach_warning(),
    ];
    for s in subjects {
        assert!(s.starts_with(prefix) && s.len() > prefix.len(), "{}", s);
        assert!(s.ends_with(".v1"));
    }
}
