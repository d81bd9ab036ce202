use envoy_extension_core::errors::CoreError;
use envoy_extension_core::metrics::{MetricKind, MetricsRegistry};

#[test]
fn lookup_or_create_is_idempotent() {
    let mut m = MetricsRegistry::new();
    let a = m.counter("requests.total").unwrap();
    let b = m.counter("requests.total").unwrap();
    assert_eq!(a, b);
    m.inc_counter(a);
    m.inc_counter(b);
    assert_eq!(m.counter_value(a), 2);
}

#[test]
fn kind_mismatch_is_rejected_and_changes_nothing() {
    let mut m = MetricsRegistry::new();
    let c = m.counter("one.name").unwrap();
    assert_eq!(m.gauge("one.name").unwrap_err(), CoreError::MetricKindMismatch);
    assert_eq!(m.histogram("one.name").unwrap_err(), CoreError::MetricKindMismatch);
    // the original registration still answers
    assert_eq!(m.counter("one.name").unwrap(), c);
    assert_eq!(m.counter_value(c), 0);
}

#[test]
fn counter_is_monotonic() {
    let mut m = MetricsRegistry::new();
    let c = m.counter("hits").unwrap();
    assert_eq!(m.counter_value(c), 0);
    m.inc_counter(c);
    assert_eq!(m.counter_value(c), 1);
    m.inc_counter(c);
    m.inc_counter(c);
    assert_eq!(m.counter_value(c), 3);
}

#[test]
fn gauge_moves_both_ways() {
    let mut m = MetricsRegistry::new();
    let g = m.gauge("active").unwrap();
    assert_eq!(m.gauge_value(g), 0);
    m.inc_gauge(g);
    m.inc_gauge(g);
    assert_eq!(m.gauge_value(g), 2);
    m.dec_gauge(g);
    assert_eq!(m.gauge_value(g), 1);
    m.dec_gauge(g);
    m.dec_gauge(g);
    assert_eq!(m.gauge_value(g), -1);
}

#[test]
fn histogram_records_observations_in_order() {
    let mut m = MetricsRegistry::new();
    let h = m.histogram("sizes").unwrap();
    assert_eq!(m.histogram_count(h), 0);
    m.record_histogram(h, 10);
    m.record_histogram(h, 7);
    m.record_histogram(h, 10);
    assert_eq!(m.histogram_count(h), 3);
    assert_eq!(m.histogram_sample(h, 0), 10);
    assert_eq!(m.histogram_sample(h, 1), 7);
    assert_eq!(m.histogram_sample(h, 2), 10);
}

#[test]
fn distinct_names_get_distinct_metrics() {
    let mut m = MetricsRegistry::new();
    let a = m.counter("a.total").unwrap();
    let g = m.gauge("a.active").unwrap();
    let b = m.counter("b.total").unwrap();
    assert_ne!(a, b);
    m.inc_counter(a);
    assert_eq!(m.counter_value(a), 1);
    assert_eq!(m.counter_value(b), 0);
    assert_eq!(m.gauge_value(g), 0);
}

#[test]
fn lookup_kind_is_a_pure_probe() {
    let mut m = MetricsRegistry::new();
    assert_eq!(m.lookup_kind("requests.total"), None);
    m.counter("requests.total").unwrap();
    m.gauge("requests.active").unwrap();
    assert_eq!(m.lookup_kind("requests.total"), Some(MetricKind::Counter));
    assert_eq!(m.lookup_kind("requests.active"), Some(MetricKind::Gauge));
    assert_eq!(m.lookup_kind("requests.other"), None);
    // probing registered nothing
    assert_eq!(m.names.len(), 2);
}
