use envoy_extension_core::correlator::{AsyncCallCorrelator, Delivery};
use envoy_extension_core::errors::CoreError;
use envoy_extension_core::headers::Headers;
use envoy_extension_core::http::{HeadersOutcome, SampleHttpFilterFactory};
use envoy_extension_core::instance::{EventStatus, InstanceRegistry, InstanceState};
use envoy_extension_core::metrics::MetricsRegistry;

fn request_headers(path: &str) -> Headers {
    let mut h = Headers::new();
    h.push(String::from(":method"), String::from("GET"));
    h.push(String::from(":path"), String::from(path));
    h
}

#[test]
fn ping_short_circuits_to_completed_without_a_handle() {
    // scenario: publish empty config, create an instance, deliver /ping
    let mut metrics = MetricsRegistry::new();
    let mut reg = InstanceRegistry::new();
    let mut corr = AsyncCallCorrelator::new();
    let mut factory = SampleHttpFilterFactory::new(&mut metrics).unwrap();
    factory.on_configure(b"").unwrap();

    let filter = factory.new_extension(&mut reg, 1).unwrap();
    let outcome = filter
        .on_request_headers(&mut reg, &mut corr, &mut metrics, &request_headers("/ping"), 10, 0)
        .unwrap();

    match outcome {
        HeadersOutcome::ShortCircuit(resp) => {
            assert_eq!(resp.status, 200);
            assert_eq!(resp.body, String::from("Pong!\n"));
        }
        other => panic!("expected a short circuit, got {:?}", other),
    }

    let inst = *reg.lookup(1).unwrap();
    assert_eq!(inst.state, InstanceState::Completed);
    assert_eq!(inst.pending, None);
    // no handle was ever issued
    assert_eq!(corr.next_handle, 0);
    assert_eq!(corr.calls.len(), 0);
    // the answered request was counted
    assert_eq!(metrics.counter_value(filter.stats.requests_total), 1);
}

#[test]
fn secret_pauses_then_resolve_and_complete_finish_the_exchange() {
    // scenario: /secret suspends on a side call, the response resumes the
    // exchange, completion counts it once and the gauge returns to baseline
    let mut metrics = MetricsRegistry::new();
    let mut reg = InstanceRegistry::new();
    let mut corr = AsyncCallCorrelator::new();
    let factory = SampleHttpFilterFactory::new(&mut metrics).unwrap();

    let filter = factory.new_extension(&mut reg, 2).unwrap();
    let active_before = metrics.gauge_value(filter.stats.requests_active);

    let outcome = filter
        .on_request_headers(&mut reg, &mut corr, &mut metrics, &request_headers("/secret"), 5, 0)
        .unwrap();
    assert!(matches!(outcome, HeadersOutcome::Pause));

    let inst = *reg.lookup(2).unwrap();
    assert_eq!(inst.state, InstanceState::Suspended);
    let h = inst.pending.expect("a handle must be pending");
    assert_eq!(metrics.gauge_value(filter.stats.requests_active), active_before + 1);

    assert_eq!(corr.resolve(&mut reg, h, 200).unwrap(), Delivery::Delivered);
    assert_eq!(reg.lookup(2).unwrap().state, InstanceState::Processing);

    filter.on_exchange_complete(&mut reg, &mut metrics).unwrap();
    let done = *reg.lookup(2).unwrap();
    assert_eq!(done.state, InstanceState::Completed);
    assert_eq!(metrics.counter_value(filter.stats.requests_total), 1);
    assert_eq!(metrics.gauge_value(filter.stats.requests_active), active_before);
}

#[test]
fn plain_request_continues_processing() {
    let mut metrics = MetricsRegistry::new();
    let mut reg = InstanceRegistry::new();
    let mut corr = AsyncCallCorrelator::new();
    let factory = SampleHttpFilterFactory::new(&mut metrics).unwrap();
    let filter = factory.new_extension(&mut reg, 3).unwrap();

    let outcome = filter
        .on_request_headers(&mut reg, &mut corr, &mut metrics, &request_headers("/index"), 5, 0)
        .unwrap();
    assert!(matches!(outcome, HeadersOutcome::Continue));
    assert_eq!(reg.lookup(3).unwrap().state, InstanceState::Processing);
    assert_eq!(corr.calls.len(), 0);
}

#[test]
fn missing_path_continues_processing() {
    let mut metrics = MetricsRegistry::new();
    let mut reg = InstanceRegistry::new();
    let mut corr = AsyncCallCorrelator::new();
    let factory = SampleHttpFilterFactory::new(&mut metrics).unwrap();
    let filter = factory.new_extension(&mut reg, 4).unwrap();

    let outcome = filter
        .on_request_headers(&mut reg, &mut corr, &mut metrics, &Headers::new(), 5, 0)
        .unwrap();
    assert!(matches!(outcome, HeadersOutcome::Continue));
}

#[test]
fn events_after_completed_are_ignored() {
    let mut metrics = MetricsRegistry::new();
    let mut reg = InstanceRegistry::new();
    let mut corr = AsyncCallCorrelator::new();
    let factory = SampleHttpFilterFactory::new(&mut metrics).unwrap();
    let filter = factory.new_extension(&mut reg, 5).unwrap();

    filter
        .on_request_headers(&mut reg, &mut corr, &mut metrics, &request_headers("/ping"), 5, 0)
        .unwrap();
    assert_eq!(reg.lookup(5).unwrap().state, InstanceState::Completed);

    // a second headers event, body data and completion are all no-ops now
    let again = filter
        .on_request_headers(&mut reg, &mut corr, &mut metrics, &request_headers("/ping"), 5, 0)
        .unwrap();
    assert!(matches!(again, HeadersOutcome::Ignored));
    assert_eq!(
        filter.on_response_body(&reg, &mut metrics, 512).unwrap(),
        EventStatus::Ignored
    );
    filter.on_exchange_complete(&mut reg, &mut metrics).unwrap();
    assert_eq!(metrics.counter_value(filter.stats.requests_total), 1);
}

#[test]
fn response_events_record_body_sizes_while_processing() {
    let mut metrics = MetricsRegistry::new();
    let mut reg = InstanceRegistry::new();
    let mut corr = AsyncCallCorrelator::new();
    let factory = SampleHttpFilterFactory::new(&mut metrics).unwrap();
    let filter = factory.new_extension(&mut reg, 6).unwrap();

    filter
        .on_request_headers(&mut reg, &mut corr, &mut metrics, &request_headers("/data"), 5, 0)
        .unwrap();
    assert_eq!(
        filter.on_response_headers(&reg, &Headers::new()).unwrap(),
        EventStatus::Continue
    );
    assert_eq!(
        filter.on_response_body(&reg, &mut metrics, 100).unwrap(),
        EventStatus::Continue
    );
    assert_eq!(
        filter.on_response_body(&reg, &mut metrics, 42).unwrap(),
        EventStatus::Continue
    );
    let h = filter.stats.response_body_size_bytes;
    assert_eq!(metrics.histogram_count(h), 2);
    assert_eq!(metrics.histogram_sample(h, 0), 100);
    assert_eq!(metrics.histogram_sample(h, 1), 42);
}

#[test]
fn events_for_unknown_instances_are_not_found() {
    let mut metrics = MetricsRegistry::new();
    let mut reg = InstanceRegistry::new();
    let mut corr = AsyncCallCorrelator::new();
    let factory = SampleHttpFilterFactory::new(&mut metrics).unwrap();
    let filter = factory.new_extension(&mut reg, 8).unwrap();
    reg.destroy(8);

    assert_eq!(
        filter
            .on_request_headers(&mut reg, &mut corr, &mut metrics, &request_headers("/x"), 5, 0)
            .unwrap_err(),
        CoreError::NotFound
    );
    assert_eq!(
        filter.on_exchange_complete(&mut reg, &mut metrics).unwrap_err(),
        CoreError::NotFound
    );
}

#[test]
fn duplicate_instance_id_is_rejected_by_the_factory() {
    let mut metrics = MetricsRegistry::new();
    let mut reg = InstanceRegistry::new();
    let factory = SampleHttpFilterFactory::new(&mut metrics).unwrap();
    factory.new_extension(&mut reg, 1).unwrap();
    assert_eq!(
        factory.new_extension(&mut reg, 1).unwrap_err(),
        CoreError::DuplicateId
    );
}

#[test]
fn factory_name_is_stable() {
    assert_eq!(SampleHttpFilterFactory::name(), "sample_http_filter");
}

#[test]
fn factory_rejects_malformed_configuration() {
    let mut metrics = MetricsRegistry::new();
    let mut factory = SampleHttpFilterFactory::new(&mut metrics).unwrap();
    assert_eq!(
        factory.on_configure(b"not json").unwrap_err(),
        CoreError::ConfigParseError
    );
    // the default configuration is still the active snapshot
    assert_eq!(factory.store.current_epoch(), 0);
}

#[test]
fn factory_accepts_names_already_taken_by_matching_kinds() {
    let mut metrics = MetricsRegistry::new();
    // a first factory registers the names; a second one reuses them
    let first = SampleHttpFilterFactory::new(&mut metrics).unwrap();
    let second = SampleHttpFilterFactory::new(&mut metrics).unwrap();
    assert_eq!(first.stats.requests_total, second.stats.requests_total);
    assert_eq!(first.stats.requests_active, second.stats.requests_active);
}

#[test]
fn factory_fails_on_a_name_taken_by_another_kind_and_changes_nothing() {
    let mut metrics = MetricsRegistry::new();
    metrics.histogram("examples.http_filter.requests_total").unwrap();
    match SampleHttpFilterFactory::new(&mut metrics) {
        Err(e) => assert_eq!(e, CoreError::MetricKindMismatch),
        Ok(_) => panic!("registration with a mismatched kind must fail"),
    }
    // the failed construction registered nothing
    assert_eq!(metrics.names.len(), 1);
    assert_eq!(metrics.names[0], String::from("examples.http_filter.requests_total"));
}

#[test]
fn factory_handles_denote_the_metrics_under_their_names() {
    let mut metrics = MetricsRegistry::new();
    // a pre-existing metric must not be captured by the factory's handles
    let stranger = metrics.counter("unrelated.total").unwrap();
    let factory = SampleHttpFilterFactory::new(&mut metrics).unwrap();

    let c = factory.stats.requests_total;
    assert_ne!(c, stranger);
    assert_eq!(
        metrics.names[c.index],
        String::from("examples.http_filter.requests_total")
    );
    assert_eq!(
        metrics.names[factory.stats.requests_active.index],
        String::from("examples.http_filter.requests_active")
    );
    assert_eq!(
        metrics.names[factory.stats.response_body_size_bytes.index],
        String::from("examples.http_filter.response_body_size_bytes")
    );
    // a later lookup by the same name is a pure lookup answering the same metric
    assert_eq!(metrics.counter("examples.http_filter.requests_total").unwrap(), c);
    // bumping through the handle moves the metric under the name, not the stranger
    metrics.inc_counter(c);
    assert_eq!(metrics.counter_value(c), 1);
    assert_eq!(metrics.counter_value(stranger), 0);
}
