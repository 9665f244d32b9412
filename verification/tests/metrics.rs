use aeroxe_backend::metrics::{metric_definitions, MetricKind};

#[test]
fn metric_catalogue_in_registration_order() {
    let defs = metric_definitions();
    let names: Vec<&str> = defs.iter().map(|d| d.name).collect();
    assert_eq!(
        names,
        vec![
            "aeroxe_http_requests_total",
            "aeroxe_http_request_duration_seconds",
            "aeroxe_db_connections_active",
            "aeroxe_db_health_check_latency_seconds",
            "aeroxe_active_subscriptions",
            "aeroxe_invoices_generated_total",
            "aeroxe_device_online_count",
            "aeroxe_revenue_total",
            "aeroxe_worker_cycles_total",
            "aeroxe_worker_errors_total",
            "aeroxe_nats_messages_published",
            "aeroxe_nats_messages_consumed",
            "aeroxe_db_pool_active",
            "aeroxe_db_pool_idle",
        ]
    );
}

#[test]
fn metric_labels_and_kinds() {
    let defs = metric_definitions();
    assert_eq!(defs[0].kind, MetricKind::IntCounterVec);
    assert_eq!(defs[0].labels, vec!["method", "path", "status"]);
    assert_eq!(defs[1].kind, MetricKind::HistogramVec);
    assert_eq!(defs[1].help, "Request latency in seconds");
    assert_eq!(defs[7].kind, MetricKind::Gauge);
    assert_eq!(defs[8].labels, vec!["worker"]);
    assert_eq!(defs[9].help, "Worker cycle errors");
    assert!(defs[13].labels.is_empty());
}

#[test]
fn metric_names_are_distinct_and_well_formed() {
    let defs = metric_definitions();
    for (i, a) in defs.iter().enumerate() {
        assert!(!a.help.is_empty());
        let mut chars = a.name.chars();
        let first = chars.next().unwrap();
        assert!(first.is_ascii_alphabetic() || first == '_' || first == ':');
        assert!(chars.all(|c| c.is_ascii_alphanumeric() || c == '_' || c == ':'));
        for b in defs.iter().skip(i + 1) {
            assert_ne!(a.name, b.name);
        }
    }
}
