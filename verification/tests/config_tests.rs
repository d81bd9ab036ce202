use envoy_extension_core::config::{
    config_bytes_valid, ConfigurationStore, SampleAccessLoggerConfig, SampleHttpFilterConfig,
    SampleNetworkFilterConfig,
};
use envoy_extension_core::errors::CoreError;
use envoy_extension_core::http::SampleHttpFilterFactory;
use envoy_extension_core::instance::InstanceRegistry;
use envoy_extension_core::metrics::MetricsRegistry;

#[test]
fn grammar_accepts_empty_object() {
    assert!(config_bytes_valid(b"{}"));
    assert!(config_bytes_valid(b"  {  }  "));
    assert!(config_bytes_valid(b"\t\r\n{\n}\n"));
}

#[test]
fn grammar_rejects_malformed_documents() {
    assert!(!config_bytes_valid(b""));
    assert!(!config_bytes_valid(b"{"));
    assert!(!config_bytes_valid(b"}"));
    assert!(!config_bytes_valid(b"}{"));
    assert!(!config_bytes_valid(b"{}{}"));
    assert!(!config_bytes_valid(b"{\"a\":1}"));
    assert!(!config_bytes_valid(b"null"));
    assert!(!config_bytes_valid(b"x{}"));
}

#[test]
fn publish_appends_and_reports_epochs() {
    let mut store = ConfigurationStore::new();
    assert_eq!(store.current_epoch(), 0);
    assert_eq!(store.current().source, b"".to_vec());

    let e1 = store.publish(b"{}").unwrap();
    assert_eq!(e1, 1);
    assert_eq!(store.current_epoch(), 1);
    assert_eq!(store.current().source, b"{}".to_vec());

    // empty input stands for the default configuration and is accepted
    let e2 = store.publish(b"").unwrap();
    assert_eq!(e2, 2);
    assert_eq!(store.current().source, b"".to_vec());
}

#[test]
fn rejected_publish_keeps_prior_config_active() {
    let mut store = ConfigurationStore::new();
    store.publish(b"{ }").unwrap();
    let err = store.publish(b"{broken").unwrap_err();
    assert_eq!(err, CoreError::ConfigParseError);
    assert_eq!(store.current_epoch(), 1);
    assert_eq!(store.current().source, b"{ }".to_vec());
}

#[test]
fn instance_keeps_snapshot_across_republish() {
    let mut metrics = MetricsRegistry::new();
    let mut reg = InstanceRegistry::new();
    let mut factory = SampleHttpFilterFactory::new(&mut metrics).unwrap();

    factory.on_configure(b"{}").unwrap();
    let filter = factory.new_extension(&mut reg, 7).unwrap();

    // a later republish must not reach the already-created instance
    factory.on_configure(b"{ }").unwrap();

    let inst = *reg.lookup(7).unwrap();
    assert_eq!(inst.config_epoch, 1);
    let seen = inst.current_config(&factory.store);
    assert_eq!(seen.source, b"{}".to_vec());
    assert_eq!(filter.instance_id, 7);

    // while new instances observe the newest snapshot
    let _ = factory.new_extension(&mut reg, 8).unwrap();
    let newer = reg.lookup(8).unwrap().current_config(&factory.store);
    assert_eq!(newer.source, b"{ }".to_vec());
}

#[test]
fn sample_configs_parse_the_same_grammar() {
    assert!(SampleAccessLoggerConfig::try_from(b"{}").is_ok());
    assert!(SampleHttpFilterConfig::try_from(b" { } ").is_ok());
    assert!(SampleNetworkFilterConfig::try_from(b"{}").is_ok());
    assert_eq!(
        SampleAccessLoggerConfig::try_from(b"[1]").unwrap_err(),
        CoreError::ConfigParseError
    );
    assert_eq!(
        SampleHttpFilterConfig::try_from(b"").unwrap_err(),
        CoreError::ConfigParseError
    );
    assert_eq!(
        SampleNetworkFilterConfig::try_from(b"{}}").unwrap_err(),
        CoreError::ConfigParseError
    );
    let _ = SampleAccessLoggerConfig::default();
    let _ = SampleHttpFilterConfig::default();
    let _ = SampleNetworkFilterConfig::default();
}
