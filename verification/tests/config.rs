use mihari_logger::{
    default_flush_interval, default_timeout, ConfigBuilder, MihariBuilder, DEFAULT_BATCH_SIZE,
    DEFAULT_ENDPOINT, DEFAULT_FLUSH_INTERVAL_SECS, DEFAULT_MAX_RETRIES, DEFAULT_TIMEOUT_SECS,
};
use serde_json::Value;
use std::time::Duration;

#[test]
fn builder_defaults() {
    let cfg = ConfigBuilder::new("tok_abc".to_string()).build();
    assert_eq!(cfg.token, "tok_abc");
    assert_eq!(cfg.endpoint, DEFAULT_ENDPOINT);
    assert_eq!(cfg.batch_size, DEFAULT_BATCH_SIZE);
    assert_eq!(cfg.flush_interval, Duration::from_secs(DEFAULT_FLUSH_INTERVAL_SECS));
    assert_eq!(cfg.max_retries, DEFAULT_MAX_RETRIES);
    assert!(cfg.gzip);
}

#[test]
fn builder_overrides() {
    let cfg = ConfigBuilder::new("tok".to_string())
        .endpoint("http://localhost:8080".to_string())
        .batch_size(50)
        .gzip(false)
        .max_retries(1)
        .with_meta("env".to_string(), Value::from("staging"))
        .build();

    assert_eq!(cfg.endpoint, "http://localhost:8080");
    assert_eq!(cfg.batch_size, 50);
    assert!(!cfg.gzip);
    assert_eq!(cfg.max_retries, 1);
    assert_eq!(cfg.default_metadata.len(), 1);
}

#[test]
fn documented_default_values() {
    let cfg = ConfigBuilder::new("t".to_string()).build();
    assert_eq!(cfg.endpoint, "https://api.mihari.io/v1/logs");
    assert_eq!(cfg.batch_size, 10);
    assert_eq!(cfg.flush_interval, Duration::from_secs(5));
    assert_eq!(cfg.max_retries, 3);
    assert_eq!(cfg.timeout, Duration::from_secs(30));
    assert_eq!(default_flush_interval(), Duration::from_secs(5));
    assert_eq!(default_timeout(), Duration::from_secs(DEFAULT_TIMEOUT_SECS));
    assert!(cfg.default_metadata.is_empty());
}

#[test]
fn durations_and_metadata_order() {
    let cfg = ConfigBuilder::new("t".to_string())
        .flush_interval(Duration::from_millis(250))
        .timeout(Duration::from_secs(2))
        .with_meta("a".to_string(), Value::from("1"))
        .with_meta("a".to_string(), Value::from("2"))
        .build();
    assert_eq!(cfg.flush_interval, Duration::from_millis(250));
    assert_eq!(cfg.timeout, Duration::from_secs(2));
    assert_eq!(cfg.default_metadata.len(), 2);
    assert_eq!(cfg.default_metadata[1].1, Value::from("2"));
    let copy = cfg.clone();
    assert_eq!(copy.default_metadata, cfg.default_metadata);
    assert_eq!(copy.token, "t");
}

#[test]
fn client_builder_matches_config_builder() {
    let cfg = MihariBuilder::new("test-token-xyz".to_string())
        .endpoint("http://127.0.0.1:9/v1/logs".to_string())
        .batch_size(2)
        .flush_interval(Duration::from_secs(60))
        .gzip(false)
        .max_retries(0)
        .timeout(Duration::from_secs(1))
        .with_meta("service".to_string(), Value::from("my-api"))
        .into_config();
    assert_eq!(cfg.token, "test-token-xyz");
    assert_eq!(cfg.endpoint, "http://127.0.0.1:9/v1/logs");
    assert_eq!(cfg.batch_size, 2);
    assert_eq!(cfg.flush_interval, Duration::from_secs(60));
    assert!(!cfg.gzip);
    assert_eq!(cfg.max_retries, 0);
    assert_eq!(cfg.timeout, Duration::from_secs(1));
    assert_eq!(cfg.default_metadata.len(), 1);
    let d = MihariBuilder::new("x".to_string()).into_config();
    assert_eq!(d.batch_size, 10);
    assert!(d.gzip);
}

#[test]
fn setter_chains_keep_last_values_and_agree() {
    let cfg = ConfigBuilder::new("tok".to_string())
        .batch_size(5)
        .endpoint("http://a".to_string())
        .with_meta("k".to_string(), Value::from("1"))
        .batch_size(8)
        .endpoint("http://b".to_string())
        .with_meta("k".to_string(), Value::from("2"))
        .build();
    let viaclient = MihariBuilder::new("tok".to_string())
        .batch_size(5)
        .endpoint("http://a".to_string())
        .with_meta("k".to_string(), Value::from("1"))
        .batch_size(8)
        .endpoint("http://b".to_string())
        .with_meta("k".to_string(), Value::from("2"))
        .into_config();
    assert_eq!(cfg.endpoint, "http://b");
    assert_eq!(cfg.batch_size, 8);
    assert_eq!(cfg.max_retries, 3);
    assert!(cfg.gzip);
    assert_eq!(
        cfg.default_metadata,
        vec![
            ("k".to_string(), Value::from("1")),
            ("k".to_string(), Value::from("2"))
        ]
    );
    assert_eq!(viaclient.token, cfg.token);
    assert_eq!(viaclient.endpoint, cfg.endpoint);
    assert_eq!(viaclient.batch_size, cfg.batch_size);
    assert_eq!(viaclient.flush_interval, cfg.flush_interval);
    assert_eq!(viaclient.max_retries, cfg.max_retries);
    assert_eq!(viaclient.timeout, cfg.timeout);
    assert_eq!(viaclient.gzip, cfg.gzip);
    assert_eq!(viaclient.default_metadata, cfg.default_metadata);
}
