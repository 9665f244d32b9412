//! The Prometheus metrics of the backend: their names, help texts, label
//! dimensions and kinds, in the order they are registered. Registration only
//! succeeds for valid, pairwise distinct names, a non-empty help text and
//! valid, distinct label names; the laws below state that the catalogue
//! meets all of these.
use vstd::prelude::*;

verus! {

/// Kind of a Prometheus metric.
#[derive(Debug, Clone, Copy, PartialEq, Eq, Structural)]
pub enum MetricKind {
    IntCounter,
    IntCounterVec,
    IntGauge,
    Gauge,
    Histogram,
    HistogramVec,
}

/// A metric: its name, help text, variable label names and kind.
pub struct MetricDef {
    pub name: &'static str,
    pub help: &'static str,
    pub labels: Vec<&'static str>,
    pub kind: MetricKind,
}

/// A metric as plain values: name, help text, label names, kind.
pub type MetricSpec = (Seq<char>, Seq<char>, Seq<Seq<char>>, MetricKind);

/// The metrics of the backend, in registration order.
pub open spec fn metric_catalogue() -> Seq<MetricSpec> {
    seq![
        ("aeroxe_http_requests_total"@, "Total HTTP requests"@,
            seq!["method"@, "path"@, "status"@], MetricKind::IntCounterVec),
        ("aeroxe_http_request_duration_seconds"@, "Request latency in seconds"@,
            seq!["method"@, "path"@, "status"@], MetricKind::HistogramVec),
        ("aeroxe_db_connections_active"@, "Active DB connections"@,
            Seq::empty(), MetricKind::IntGauge),
        ("aeroxe_db_health_check_latency_seconds"@, "Database health check latency in seconds"@,
            Seq::empty(), MetricKind::Histogram),
        ("aeroxe_active_subscriptions"@, "Current active subscriptions"@,
            Seq::empty(), MetricKind::IntGauge),
        ("aeroxe_invoices_generated_total"@, "Total invoices generated"@,
            Seq::empty(), MetricKind::IntCounter),
        ("aeroxe_device_online_count"@, "Online device count"@,
            Seq::empty(), MetricKind::IntGauge),
        ("aeroxe_revenue_total"@, "Total revenue in INR"@,
            Seq::empty(), MetricKind::Gauge),
        ("aeroxe_worker_cycles_total"@, "Total worker cycles"@,
            seq!["worker"@], MetricKind::IntCounterVec),
        ("aeroxe_worker_errors_total"@, "Worker cycle errors"@,
            seq!["worker"@], MetricKind::IntCounterVec),
        ("aeroxe_nats_messages_published"@, "NATS messages published"@,
            Seq::empty(), MetricKind::IntCounter),
        ("aeroxe_nats_messages_consumed"@, "NATS messages consumed"@,
            Seq::empty(), MetricKind::IntCounter),
        ("aeroxe_db_pool_active"@, "Active connections in the DB pool"@,
            Seq::empty(), MetricKind::IntGauge),
        ("aeroxe_db_pool_idle"@, "Idle connections in the DB pool"@,
            Seq::empty(), MetricKind::IntGauge),
    ]
}

/// `[a-zA-Z_]`
pub open spec fn ident_start(c: char) -> bool {
    ('a' <= c <= 'z') || ('A' <= c <= 'Z') || c == '_'
}

/// A Prometheus metric name: `[a-zA-Z_:][a-zA-Z0-9_:]*`.
pub open spec fn is_valid_metric_name(s: Seq<char>) -> bool {
    &&& s.len() > 0
    &&& forall|i: int| 0 <= i < s.len() ==> (ident_start(#[trigger] s[i]) || s[i] == ':' || (i > 0
        && '0' <= s[i] <= '9'))
}

/// A Prometheus label name: `[a-zA-Z_][a-zA-Z0-9_]*`.
pub open spec fn is_valid_label_name(s: Seq<char>) -> bool {
    &&& s.len() > 0
    &&& forall|i: int| 0 <= i < s.len() ==> (ident_start(#[trigger] s[i]) || (i > 0 && '0' <= s[i] <= '9'))
}

/// Whether a kind carries variable labels.
pub open spec fn kind_is_vec(k: MetricKind) -> bool {
    k == MetricKind::IntCounterVec || k == MetricKind::HistogramVec
}

/// What Prometheus asks of one metric: a valid name, a help text, valid and
/// distinct label names, and labels exactly when the kind is a vector.
pub open spec fn metric_spec_valid(m: MetricSpec) -> bool {
    &&& is_valid_metric_name(m.0)
    &&& m.1.len() > 0
    &&& forall|j: int| 0 <= j < m.2.len() ==> is_valid_label_name(#[trigger] m.2[j])
    &&& forall|j: int, k: int| 0 <= j < k < m.2.len() ==> #[trigger] m.2[j] != #[trigger] m.2[k]
    &&& kind_is_vec(m.3) <==> m.2.len() > 0
}

/// The plain values of a metric definition.
pub open spec fn def_view(d: MetricDef) -> MetricSpec {
    (d.name@, d.help@, d.labels@.map_values(|l: &'static str| l@), d.kind)
}

/// The metrics of the backend, in registration order.
pub fn metric_definitions() -> (v: Vec<MetricDef>)
    ensures
        v@.len() == metric_catalogue().len(),
        forall|i: int| 0 <= i < v@.len() ==> #[trigger] def_view(v@[i]) == metric_catalogue()[i],
{
    let request_labels = vec!["method", "path", "status"];
    let request_labels2 = vec!["method", "path", "status"];
    let v = vec![
        MetricDef { name: "aeroxe_http_requests_total", help: "Total HTTP requests",
            labels: request_labels, kind: MetricKind::IntCounterVec },
        MetricDef { name: "aeroxe_http_request_duration_seconds", help: "Request latency in seconds",
            labels: request_labels2, kind: MetricKind::HistogramVec },
        MetricDef { name: "aeroxe_db_connections_active", help: "Active DB connections",
            labels: Vec::new(), kind: MetricKind::IntGauge },
        MetricDef { name: "aeroxe_db_health_check_latency_seconds",
            help: "Database health check latency in seconds", labels: Vec::new(),
            kind: MetricKind::Histogram },
        MetricDef { name: "aeroxe_active_subscriptions", help: "Current active subscriptions",
            labels: Vec::new(), kind: MetricKind::IntGauge },
        MetricDef { name: "aeroxe_invoices_generated_total", help: "Total invoices generated",
            labels: Vec::new(), kind: MetricKind::IntCounter },
        MetricDef { name: "aeroxe_device_online_count", help: "Online device count",
            labels: Vec::new(), kind: MetricKind::IntGauge },
        MetricDef { name: "aeroxe_revenue_total", help: "Total revenue in INR",
            labels: Vec::new(), kind: MetricKind::Gauge },
        MetricDef { name: "aeroxe_worker_cycles_total", help: "Total worker cycles",
            labels: vec!["worker"], kind: MetricKind::IntCounterVec },
        MetricDef { name: "aeroxe_worker_errors_total", help: "Worker cycle errors",
            labels: vec!["worker"], kind: MetricKind::IntCounterVec },
        MetricDef { name: "aeroxe_nats_messages_published", help: "NATS messages published",
            labels: Vec::new(), kind: MetricKind::IntCounter },
        MetricDef { name: "aeroxe_nats_messages_consumed", help: "NATS messages consumed",
            labels: Vec::new(), kind: MetricKind::IntCounter },
        MetricDef { name: "aeroxe_db_pool_active", help: "Active connections in the DB pool",
            labels: Vec::new(), kind: MetricKind::IntGauge },
        MetricDef { name: "aeroxe_db_pool_idle", help: "Idle connections in the DB pool",
            labels: Vec::new(), kind: MetricKind::IntGauge },
    ];
    proof {
        assert(def_view(v@[0]).2 =~= metric_catalogue()[0].2);
        assert(def_view(v@[1]).2 =~= metric_catalogue()[1].2);
        assert(def_view(v@[8]).2 =~= metric_catalogue()[8].2);
        assert(def_view(v@[9]).2 =~= metric_catalogue()[9].2);
        assert forall|i: int| 0 <= i < v@.len() implies #[trigger] def_view(v@[i]) == metric_catalogue()[i] by {
            if i != 0 && i != 1 && i != 8 && i != 9 {
                assert(def_view(v@[i]).2 =~= metric_catalogue()[i].2);
            }
        }
    }
    v
}

/// Character-by-character form of `is_valid_metric_name`'s tail condition.
spec fn metric_chars_ok(s: Seq<char>) -> bool
    decreases s.len(),
{
    if s.len() == 0 {
        true
    } else {
        (ident_start(s[0]) || s[0] == ':' || ('0' <= s[0] <= '9')) && metric_chars_ok(s.drop_first())
    }
}

/// Character-by-character form of `is_valid_label_name`'s tail condition.
spec fn label_chars_ok(s: Seq<char>) -> bool
    decreases s.len(),
{
    if s.len() == 0 {
        true
    } else {
        (ident_start(s[0]) || ('0' <= s[0] <= '9')) && label_chars_ok(s.drop_first())
    }
}

/// `x` differs from every element of `s`.
spec fn absent(x: Seq<char>, s: Seq<Seq<char>>) -> bool
    decreases s.len(),
{
    if s.len() == 0 {
        true
    } else {
        x != s[0] && absent(x, s.drop_first())
    }
}

/// No element of `s` occurs twice.
spec fn all_distinct(s: Seq<Seq<char>>) -> bool
    decreases s.len(),
{
    if s.len() == 0 {
        true
    } else {
        absent(s[0], s.drop_first()) && all_distinct(s.drop_first())
    }
}

/// Every label of `s` is a valid label name.
spec fn labels_ok(s: Seq<Seq<char>>) -> bool
    decreases s.len(),
{
    if s.len() == 0 {
        true
    } else {
        s[0].len() > 0 && ident_start(s[0][0]) && label_chars_ok(s[0]) && labels_ok(s.drop_first())
    }
}

/// Recursive form of `metric_spec_valid`.
spec fn spec_ok(m: MetricSpec) -> bool {
    &&& m.0.len() > 0
    &&& (ident_start(m.0[0]) || m.0[0] == ':')
    &&& metric_chars_ok(m.0)
    &&& m.1.len() > 0
    &&& labels_ok(m.2)
    &&& all_distinct(m.2)
    &&& (kind_is_vec(m.3) <==> m.2.len() > 0)
}

proof fn lemma_metric_chars(s: Seq<char>)
    requires
        metric_chars_ok(s),
    ensures
        forall|i: int| 0 <= i < s.len() ==> (ident_start(#[trigger] s[i]) || s[i] == ':' || ('0' <= s[i] <= '9')),
    decreases s.len(),
{
    if s.len() > 0 {
        lemma_metric_chars(s.drop_first());
        assert forall|i: int| 0 <= i < s.len() implies (ident_start(#[trigger] s[i]) || s[i] == ':' || ('0' <= s[i] <= '9')) by {
            if i > 0 {
                assert(s[i] == s.drop_first()[i - 1]);
            }
        }
    }
}

proof fn lemma_label_chars(s: Seq<char>)
    requires
        label_chars_ok(s),
    ensures
        forall|i: int| 0 <= i < s.len() ==> (ident_start(#[trigger] s[i]) || ('0' <= s[i] <= '9')),
    decreases s.len(),
{
    if s.len() > 0 {
        lemma_label_chars(s.drop_first());
        assert forall|i: int| 0 <= i < s.len() implies (ident_start(#[trigger] s[i]) || ('0' <= s[i] <= '9')) by {
            if i > 0 {
                assert(s[i] == s.drop_first()[i - 1]);
            }
        }
    }
}

proof fn lemma_labels(s: Seq<Seq<char>>)
    requires
        labels_ok(s),
    ensures
        forall|j: int| 0 <= j < s.len() ==> is_valid_label_name(#[trigger] s[j]),
    decreases s.len(),
{
    if s.len() > 0 {
        lemma_labels(s.drop_first());
        lemma_label_chars(s[0]);
        assert forall|j: int| 0 <= j < s.len() implies is_valid_label_name(#[trigger] s[j]) by {
            if j > 0 {
                assert(s[j] == s.drop_first()[j - 1]);
            }
        }
    }
}

proof fn lemma_absent(x: Seq<char>, s: Seq<Seq<char>>)
    requires
        absent(x, s),
    ensures
        forall|k: int| 0 <= k < s.len() ==> x != #[trigger] s[k],
    decreases s.len(),
{
    if s.len() > 0 {
        lemma_absent(x, s.drop_first());
        assert forall|k: int| 0 <= k < s.len() implies x != #[trigger] s[k] by {
            if k > 0 {
                assert(s[k] == s.drop_first()[k - 1]);
            }
        }
    }
}

proof fn lemma_all_distinct(s: Seq<Seq<char>>)
    requires
        all_distinct(s),
    ensures
        forall|j: int, k: int| 0 <= j < k < s.len() ==> #[trigger] s[j] != #[trigger] s[k],
    decreases s.len(),
{
    if s.len() > 0 {
        lemma_all_distinct(s.drop_first());
        lemma_absent(s[0], s.drop_first());
        assert forall|j: int, k: int| 0 <= j < k < s.len() implies #[trigger] s[j] != #[trigger] s[k] by {
            assert(s[k] == s.drop_first()[k - 1]);
            if j > 0 {
                assert(s[j] == s.drop_first()[j - 1]);
            }
        }
    }
}

proof fn lemma_spec_ok(m: MetricSpec)
    requires
        spec_ok(m),
    ensures
        metric_spec_valid(m),
{
    lemma_metric_chars(m.0);
    lemma_labels(m.2);
    lemma_all_distinct(m.2);
}

/// The request labels are valid and distinct.
proof fn lemma_request_labels_ok()
    ensures
        labels_ok(seq!["method"@, "path"@, "status"@]),
        all_distinct(seq!["method"@, "path"@, "status"@]),
{
    reveal_strlit("method");
    reveal_strlit("path");
    reveal_strlit("status");
    reveal_with_fuel(label_chars_ok, 7);
    reveal_with_fuel(labels_ok, 4);
    reveal_with_fuel(all_distinct, 4);
    reveal_with_fuel(absent, 3);
    let s = seq!["method"@, "path"@, "status"@];
    assert(s.drop_first() =~= seq!["path"@, "status"@]);
    assert(s.drop_first().drop_first() =~= seq!["status"@]);
    assert(s.drop_first().drop_first().drop_first() =~= Seq::<Seq<char>>::empty());
    assert("path"@.drop_first().drop_first().drop_first().drop_first() =~= Seq::<char>::empty());
}

/// The worker label is valid.
proof fn lemma_worker_labels_ok()
    ensures
        labels_ok(seq!["worker"@]),
        all_distinct(seq!["worker"@]),
{
    reveal_strlit("worker");
    reveal_with_fuel(label_chars_ok, 7);
    reveal_with_fuel(labels_ok, 2);
    reveal_with_fuel(all_distinct, 2);
    assert(seq!["worker"@].drop_first() =~= Seq::<Seq<char>>::empty());
}

/// Metric `i` of the catalogue passes the character-by-character checks.
#[verifier::spinoff_prover]
#[verifier::rlimit(100)]
proof fn lemma_catalogue_entry_ok(i: int)
    requires
        0 <= i < metric_catalogue().len(),
    ensures
        spec_ok(metric_catalogue()[i]),
{
    let c = metric_catalogue();
    lemma_request_labels_ok();
    lemma_worker_labels_ok();
    assert(labels_ok(Seq::<Seq<char>>::empty()) && all_distinct(Seq::<Seq<char>>::empty()));
    if i == 0 {
        assert(metric_chars_ok(c[0].0) && c[0].0.len() > 0 && ident_start(c[0].0[0]) && c[0].1.len() > 0) by {
            reveal_strlit("aeroxe_http_requests_total");
            reveal_strlit("Total HTTP requests");
            reveal_with_fuel(metric_chars_ok, 40);
        }
    } else if i == 1 {
        assert(metric_chars_ok(c[1].0) && c[1].0.len() > 0 && ident_start(c[1].0[0]) && c[1].1.len() > 0) by {
            reveal_strlit("aeroxe_http_request_duration_seconds");
            reveal_strlit("Request latency in seconds");
            reveal_with_fuel(metric_chars_ok, 40);
        }
    } else if i == 2 {
        assert(metric_chars_ok(c[2].0) && c[2].0.len() > 0 && ident_start(c[2].0[0]) && c[2].1.len() > 0) by {
            reveal_strlit("aeroxe_db_connections_active");
            reveal_strlit("Active DB connections");
            reveal_with_fuel(metric_chars_ok, 40);
        }
    } else if i == 3 {
        assert(metric_chars_ok(c[3].0) && c[3].0.len() > 0 && ident_start(c[3].0[0]) && c[3].1.len() > 0) by {
            reveal_strlit("aeroxe_db_health_check_latency_seconds");
            reveal_strlit("Database health check latency in seconds");
            reveal_with_fuel(metric_chars_ok, 40);
        }
    } else if i == 4 {
        assert(metric_chars_ok(c[4].0) && c[4].0.len() > 0 && ident_start(c[4].0[0]) && c[4].1.len() > 0) by {
            reveal_strlit("aeroxe_active_subscriptions");
            reveal_strlit("Current active subscriptions");
            reveal_with_fuel(metric_chars_ok, 40);
        }
    } else if i == 5 {
        assert(metric_chars_ok(c[5].0) && c[5].0.len() > 0 && ident_start(c[5].0[0]) && c[5].1.len() > 0) by {
            reveal_strlit("aeroxe_invoices_generated_total");
            reveal_strlit("Total invoices generated");
            reveal_with_fuel(metric_chars_ok, 40);
        }
    } else if i == 6 {
        assert(metric_chars_ok(c[6].0) && c[6].0.len() > 0 && ident_start(c[6].0[0]) && c[6].1.len() > 0) by {
            reveal_strlit("aeroxe_device_online_count");
            reveal_strlit("Online device count");
            reveal_with_fuel(metric_chars_ok, 40);
        }
    } else if i == 7 {
        assert(metric_chars_ok(c[7].0) && c[7].0.len() > 0 && ident_start(c[7].0[0]) && c[7].1.len() > 0) by {
            reveal_strlit("aeroxe_revenue_total");
            reveal_strlit("Total revenue in INR");
            reveal_with_fuel(metric_chars_ok, 40);
        }
    } else if i == 8 {
        assert(metric_chars_ok(c[8].0) && c[8].0.len() > 0 && ident_start(c[8].0[0]) && c[8].1.len() > 0) by {
            reveal_strlit("aeroxe_worker_cycles_total");
            reveal_strlit("Total worker cycles");
            reveal_with_fuel(metric_chars_ok, 40);
        }
    } else if i == 9 {
        assert(metric_chars_ok(c[9].0) && c[9].0.len() > 0 && ident_start(c[9].0[0]) && c[9].1.len() > 0) by {
            reveal_strlit("aeroxe_worker_errors_total");
            reveal_strlit("Worker cycle errors");
            reveal_with_fuel(metric_chars_ok, 40);
        }
    } else if i == 10 {
        assert(metric_chars_ok(c[10].0) && c[10].0.len() > 0 && ident_start(c[10].0[0]) && c[10].1.len() > 0) by {
            reveal_strlit("aeroxe_nats_messages_published");
            reveal_strlit("NATS messages published");
            reveal_with_fuel(metric_chars_ok, 40);
        }
    } else if i == 11 {
        assert(metric_chars_ok(c[11].0) && c[11].0.len() > 0 && ident_start(c[11].0[0]) && c[11].1.len() > 0) by {
            reveal_strlit("aeroxe_nats_messages_consumed");
            reveal_strlit("NATS messages consumed");
            reveal_with_fuel(metric_chars_ok, 40);
        }
    } else if i == 12 {
        assert(metric_chars_ok(c[12].0) && c[12].0.len() > 0 && ident_start(c[12].0[0]) && c[12].1.len() > 0) by {
            reveal_strlit("aeroxe_db_pool_active");
            reveal_strlit("Active connections in the DB pool");
            reveal_with_fuel(metric_chars_ok, 40);
        }
    } else if i == 13 {
        assert(metric_chars_ok(c[13].0) && c[13].0.len() > 0 && ident_start(c[13].0[0]) && c[13].1.len() > 0) by {
            reveal_strlit("aeroxe_db_pool_idle");
            reveal_strlit("Idle connections in the DB pool");
            reveal_with_fuel(metric_chars_ok, 40);
        }
    }
}

/// No two metrics share a name, so each registration finds its name free.
pub proof fn law_metric_names_distinct()
    ensures
        forall|i: int, j: int|
            0 <= i < j < metric_catalogue().len() ==> #[trigger] metric_catalogue()[i].0
                != #[trigger] metric_catalogue()[j].0,
{
    reveal_strlit("aeroxe_http_requests_total");
    reveal_strlit("aeroxe_http_request_duration_seconds");
    reveal_strlit("aeroxe_db_connections_active");
    reveal_strlit("aeroxe_db_health_check_latency_seconds");
    reveal_strlit("aeroxe_active_subscriptions");
    reveal_strlit("aeroxe_invoices_generated_total");
    reveal_strlit("aeroxe_device_online_count");
    reveal_strlit("aeroxe_revenue_total");
    reveal_strlit("aeroxe_worker_cycles_total");
    reveal_strlit("aeroxe_worker_errors_total");
    reveal_strlit("aeroxe_nats_messages_published");
    reveal_strlit("aeroxe_nats_messages_consumed");
    reveal_strlit("aeroxe_db_pool_active");
    reveal_strlit("aeroxe_db_pool_idle");
    let c = metric_catalogue();
    assert(c[0].0.len() != c[1].0.len());
    assert(c[0].0.len() != c[2].0.len());
    assert(c[0].0.len() != c[3].0.len());
    assert(c[0].0.len() != c[4].0.len());
    assert(c[0].0.len() != c[5].0.len());
    assert(c[0].0[7] != c[6].0[7]);
    assert(c[0].0.len() != c[7].0.len());
    assert(c[0].0[7] != c[8].0[7]);
    assert(c[0].0[7] != c[9].0[7]);
    assert(c[0].0.len() != c[10].0.len());
    assert(c[0].0.len() != c[11].0.len());
    assert(c[0].0.len() != c[12].0.len());
    assert(c[0].0.len() != c[13].0.len());
    assert(c[1].0.len() != c[2].0.len());
    assert(c[1].0.len() != c[3].0.len());
    assert(c[1].0.len() != c[4].0.len());
    assert(c[1].0.len() != c[5].0.len());
    assert(c[1].0.len() != c[6].0.len());
    assert(c[1].0.len() != c[7].0.len());
    assert(c[1].0.len() != c[8].0.len());
    assert(c[1].0.len() != c[9].0.len());
    assert(c[1].0.len() != c[10].0.len());
    assert(c[1].0.len() != c[11].0.len());
    assert(c[1].0.len() != c[12].0.len());
    assert(c[1].0.len() != c[13].0.len());
    assert(c[2].0.len() != c[3].0.len());
    assert(c[2].0.len() != c[4].0.len());
    assert(c[2].0.len() != c[5].0.len());
    assert(c[2].0.len() != c[6].0.len());
    assert(c[2].0.len() != c[7].0.len());
    assert(c[2].0.len() != c[8].0.len());
    assert(c[2].0.len() != c[9].0.len());
    assert(c[2].0.len() != c[10].0.len());
    assert(c[2].0.len() != c[11].0.len());
    assert(c[2].0.len() != c[12].0.len());
    assert(c[2].0.len() != c[13].0.len());
    assert(c[3].0.len() != c[4].0.len());
    assert(c[3].0.len() != c[5].0.len());
    assert(c[3].0.len() != c[6].0.len());
    assert(c[3].0.len() != c[7].0.len());
    assert(c[3].0.len() != c[8].0.len());
    assert(c[3].0.len() != c[9].0.len());
    assert(c[3].0.len() != c[10].0.len());
    assert(c[3].0.len() != c[11].0.len());
    assert(c[3].0.len() != c[12].0.len());
    assert(c[3].0.len() != c[13].0.len());
    assert(c[4].0.len() != c[5].0.len());
    assert(c[4].0.len() != c[6].0.len());
    assert(c[4].0.len() != c[7].0.len());
    assert(c[4].0.len() != c[8].0.len());
    assert(c[4].0.len() != c[9].0.len());
    assert(c[4].0.len() != c[10].0.len());
    assert(c[4].0.len() != c[11].0.len());
    assert(c[4].0.len() != c[12].0.len());
    assert(c[4].0.len() != c[13].0.len());
    assert(c[5].0.len() != c[6].0.len());
    assert(c[5].0.len() != c[7].0.len());
    assert(c[5].0.len() != c[8].0.len());
    assert(c[5].0.len() != c[9].0.len());
    assert(c[5].0.len() != c[10].0.len());
    assert(c[5].0.len() != c[11].0.len());
    assert(c[5].0.len() != c[12].0.len());
    assert(c[5].0.len() != c[13].0.len());
    assert(c[6].0.len() != c[7].0.len());
    assert(c[6].0[7] != c[8].0[7]);
    assert(c[6].0[7] != c[9].0[7]);
    assert(c[6].0.len() != c[10].0.len());
    assert(c[6].0.len() != c[11].0.len());
    assert(c[6].0.len() != c[12].0.len());
    assert(c[6].0.len() != c[13].0.len());
    assert(c[7].0.len() != c[8].0.len());
    assert(c[7].0.len() != c[9].0.len());
    assert(c[7].0.len() != c[10].0.len());
    assert(c[7].0.len() != c[11].0.len());
    assert(c[7].0.len() != c[12].0.len());
    assert(c[7].0.len() != c[13].0.len());
    assert(c[8].0[14] != c[9].0[14]);
    assert(c[8].0.len() != c[10].0.len());
    assert(c[8].0.len() != c[11].0.len());
    assert(c[8].0.len() != c[12].0.len());
    assert(c[8].0.len() != c[13].0.len());
    assert(c[9].0.len() != c[10].0.len());
    assert(c[9].0.len() != c[11].0.len());
    assert(c[9].0.len() != c[12].0.len());
    assert(c[9].0.len() != c[13].0.len());
    assert(c[10].0.len() != c[11].0.len());
    assert(c[10].0.len() != c[12].0.len());
    assert(c[10].0.len() != c[13].0.len());
    assert(c[11].0.len() != c[12].0.len());
    assert(c[11].0.len() != c[13].0.len());
    assert(c[12].0.len() != c[13].0.len());
    assert forall|i: int, j: int| 0 <= i < j < c.len() implies #[trigger] c[i].0 != #[trigger] c[j].0 by {
        assert(i == 0 || i == 1 || i == 2 || i == 3 || i == 4 || i == 5 || i == 6 || i == 7 || i == 8 || i == 9 || i == 10 || i == 11 || i == 12 || i == 13);
        assert(j == 0 || j == 1 || j == 2 || j == 3 || j == 4 || j == 5 || j == 6 || j == 7 || j == 8 || j == 9 || j == 10 || j == 11 || j == 12 || j == 13);
    }
}

/// Every metric is one Prometheus accepts: a valid name, a help text, valid
/// and distinct label names, and labels exactly for the vector kinds.
pub proof fn law_metric_definitions_valid()
    ensures
        forall|i: int| 0 <= i < metric_catalogue().len() ==> #[trigger] metric_spec_valid(metric_catalogue()[i]),
{
    assert forall|i: int| 0 <= i < metric_catalogue().len() implies #[trigger] metric_spec_valid(metric_catalogue()[i]) by {
        lemma_catalogue_entry_ok(i);
        lemma_spec_ok(metric_catalogue()[i]);
    }
}

/// The request metrics come first, counted and timed per method, path and
/// status; worker cycles and worker errors are counted per worker label.
pub proof fn law_request_and_worker_metrics()
    ensures
        metric_catalogue().len() == 14,
        metric_catalogue()[0] == ("aeroxe_http_requests_total"@, "Total HTTP requests"@,
            seq!["method"@, "path"@, "status"@], MetricKind::IntCounterVec),
        metric_catalogue()[1] == ("aeroxe_http_request_duration_seconds"@, "Request latency in seconds"@,
            seq!["method"@, "path"@, "status"@], MetricKind::HistogramVec),
        metric_catalogue()[8] == ("aeroxe_worker_cycles_total"@, "Total worker cycles"@, seq!["worker"@],
            MetricKind::IntCounterVec),
        metric_catalogue()[9] == ("aeroxe_worker_errors_total"@, "Worker cycle errors"@, seq!["worker"@],
            MetricKind::IntCounterVec),
{
}

} // verus!
