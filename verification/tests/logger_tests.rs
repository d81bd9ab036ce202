use envoy_extension_core::errors::CoreError;
use envoy_extension_core::headers::Headers;
use envoy_extension_core::logger::SampleAccessLogger;
use envoy_extension_core::metrics::MetricsRegistry;

#[test]
fn each_log_entry_counts_one_request_and_one_report() {
    let mut metrics = MetricsRegistry::new();
    let logger = SampleAccessLogger::new(&mut metrics).unwrap();

    let mut request = Headers::new();
    request.push(String::from(":path"), String::from("/hello"));
    let response = Headers::new();

    logger.on_log(&mut metrics, &request, &response).unwrap();
    logger.on_log(&mut metrics, &request, &response).unwrap();

    assert_eq!(metrics.counter_value(logger.stats.requests_total), 2);
    assert_eq!(metrics.counter_value(logger.stats.reports_total), 2);
    assert_eq!(metrics.gauge_value(logger.stats.reports_active), 0);
}

#[test]
fn logger_configuration_follows_the_publish_rules() {
    let mut metrics = MetricsRegistry::new();
    let mut logger = SampleAccessLogger::new(&mut metrics).unwrap();
    assert_eq!(SampleAccessLogger::name(), "sample_access_logger");

    logger.on_configure(b" { } ").unwrap();
    assert_eq!(logger.store.current().source, b" { } ".to_vec());

    assert_eq!(
        logger.on_configure(b"oops").unwrap_err(),
        CoreError::ConfigParseError
    );
    // the previously active configuration stays authoritative
    assert_eq!(logger.store.current().source, b" { } ".to_vec());

    // empty input falls back to the default configuration
    logger.on_configure(b"").unwrap();
    assert_eq!(logger.store.current().source, b"".to_vec());
}

#[test]
fn logger_metric_names_collide_with_mismatched_kinds() {
    let mut metrics = MetricsRegistry::new();
    // occupy one of the logger's names with the wrong kind
    metrics.gauge("examples.access_logger.requests_total").unwrap();
    match SampleAccessLogger::new(&mut metrics) {
        Err(e) => assert_eq!(e, CoreError::MetricKindMismatch),
        Ok(_) => panic!("registration with a mismatched kind must fail"),
    }
    // the failed construction registered nothing
    assert_eq!(metrics.names.len(), 1);
}

#[test]
fn logger_handles_denote_the_metrics_under_their_names() {
    let mut metrics = MetricsRegistry::new();
    let logger = SampleAccessLogger::new(&mut metrics).unwrap();
    assert_eq!(
        metrics.names[logger.stats.requests_total.index],
        String::from("examples.access_logger.requests_total")
    );
    assert_eq!(
        metrics.names[logger.stats.reports_active.index],
        String::from("examples.access_logger.reports_active")
    );
    assert_eq!(
        metrics.names[logger.stats.reports_total.index],
        String::from("examples.access_logger.reports_total")
    );
}
