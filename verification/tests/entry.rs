use mihari_logger::{
    timestamp_from_reading, ClockReading, LogEntry, LogLevel, Metadata, Timestamp, TracingLevel,
};
use serde_json::Value;

#[test]
fn log_level_display() {
    assert_eq!(LogLevel::Debug.to_string(), "debug");
    assert_eq!(LogLevel::Fatal.to_string(), "fatal");
}

#[test]
fn log_level_from_tracing() {
    assert_eq!(LogLevel::from(tracing::Level::INFO), LogLevel::Info);
    assert_eq!(LogLevel::from(tracing::Level::ERROR), LogLevel::Error);
    assert_eq!(LogLevel::from(tracing::Level::TRACE), LogLevel::Debug);
}

#[test]
fn every_level_has_its_lowercase_name() {
    assert_eq!(LogLevel::Info.to_string(), "info");
    assert_eq!(LogLevel::Warn.to_string(), "warn");
    assert_eq!(LogLevel::Error.to_string(), "error");
}

#[test]
fn every_tracing_level_maps() {
    assert_eq!(LogLevel::from(tracing::Level::DEBUG), LogLevel::Debug);
    assert_eq!(LogLevel::from(tracing::Level::WARN), LogLevel::Warn);
    assert_eq!(LogLevel::from_tracing_level(TracingLevel::Trace), LogLevel::Debug);
    assert_eq!(LogLevel::from_tracing_level(TracingLevel::Warn), LogLevel::Warn);
}

#[test]
fn log_entry_holds_level_message_and_meta() {
    let entry = LogEntry::new(LogLevel::Info, "hello world".to_string())
        .with_meta("service".to_string(), Value::from("test-svc"));
    assert_eq!(entry.level, LogLevel::Info);
    assert_eq!(entry.message, "hello world");
    assert_eq!(
        entry.metadata.get(&"service".to_string()),
        Some(&Value::from("test-svc"))
    );
    // The clock was read: the entry is stamped after 2020-09-13.
    assert!(entry.dt.secs > 1_600_000_000);
}

#[test]
fn with_meta_replaces_a_key() {
    let entry = LogEntry::new(LogLevel::Fatal, "something broke".to_string())
        .with_meta("request_id".to_string(), Value::from("abc-123"))
        .with_meta("request_id".to_string(), Value::from("def-456"))
        .with_meta("user".to_string(), Value::from(7u32));
    assert_eq!(entry.metadata.entries().len(), 2);
    assert_eq!(
        entry.metadata.get(&"request_id".to_string()),
        Some(&Value::from("def-456"))
    );
    assert_eq!(entry.metadata.get(&"user".to_string()), Some(&Value::from(7u32)));
    assert_eq!(entry.metadata.get(&"missing".to_string()), None);
}

#[test]
fn metadata_insert_and_lookup() {
    let mut m = Metadata::new();
    assert!(!m.contains_key(&"a".to_string()));
    m.insert("a".to_string(), Value::from(1u32));
    m.insert("b".to_string(), Value::from(2u32));
    m.insert("a".to_string(), Value::from(3u32));
    assert!(m.contains_key(&"a".to_string()));
    assert_eq!(m.get(&"a".to_string()), Some(&Value::from(3u32)));
    assert_eq!(m.get(&"b".to_string()), Some(&Value::from(2u32)));
    let keys: Vec<&str> = m.entries().iter().map(|(k, _)| k.as_str()).collect();
    assert_eq!(keys, vec!["a", "b"]);
    let c = m.clone();
    assert_eq!(c.get(&"a".to_string()), Some(&Value::from(3u32)));
}

#[test]
fn clock_readings_become_timestamps() {
    let after = ClockReading { after_epoch: true, secs: 1_705_314_600, nanos: 250 };
    assert_eq!(timestamp_from_reading(after), Timestamp { secs: 1_705_314_600, nanos: 250 });
    let before = ClockReading { after_epoch: false, secs: 2, nanos: 500_000_000 };
    assert_eq!(timestamp_from_reading(before), Timestamp { secs: -3, nanos: 500_000_000 });
    let before_whole = ClockReading { after_epoch: false, secs: 7, nanos: 0 };
    assert_eq!(timestamp_from_reading(before_whole), Timestamp { secs: -7, nanos: 0 });
    let far = ClockReading { after_epoch: true, secs: u64::MAX, nanos: 1 };
    assert_eq!(timestamp_from_reading(far), Timestamp { secs: i64::MAX, nanos: 999_999_999 });
    let far_back = ClockReading { after_epoch: false, secs: u64::MAX, nanos: 1 };
    assert_eq!(timestamp_from_reading(far_back), Timestamp { secs: i64::MIN, nanos: 0 });
    let e = LogEntry::new(LogLevel::Info, "now".to_string());
    assert!(e.dt.nanos < 1_000_000_000);
}
