use mihari_logger::{
    detect_hostname, event_entry, event_entry_at, name_or_unknown, ClientCore, ConfigBuilder,
    FieldVisitor, LogLevel, Timestamp,
};
use serde_json::Value;

#[test]
fn client_entry_has_auto_metadata() {
    let cfg = ConfigBuilder::new("t".to_string()).build();
    let core = ClientCore::new(cfg, Some("web-01".to_string()), 12345, None);
    let e = core.build_entry(LogLevel::Debug, "metadata check".to_string());
    assert_eq!(e.level, LogLevel::Debug);
    assert_eq!(e.message, "metadata check");
    assert_eq!(e.metadata.get(&"_hostname".to_string()), Some(&Value::String("web-01".to_string())));
    assert_eq!(e.metadata.get(&"_pid".to_string()), Some(&Value::from(12345u32)));
    assert!(e.metadata.get(&"_pid".to_string()).unwrap().is_number());
    assert_eq!(e.metadata.get(&"_rust_version".to_string()), Some(&Value::from("unknown")));
}

#[test]
fn custom_metadata_attached_and_overrides() {
    let cfg = ConfigBuilder::new("t".to_string())
        .with_meta("service".to_string(), Value::from("my-api"))
        .with_meta("env".to_string(), Value::from("test"))
        .with_meta("_hostname".to_string(), Value::from("override"))
        .with_meta("env".to_string(), Value::from("prod"))
        .build();
    let core = ClientCore::new(cfg, None, 1, Some("1.75".to_string()));
    let ts = Timestamp { secs: 1_705_314_600, nanos: 0 };
    let e = core.build_entry_at(ts, LogLevel::Info, "with custom meta".to_string());
    assert_eq!(e.dt, ts);
    assert_eq!(e.metadata.get(&"service".to_string()), Some(&Value::from("my-api")));
    assert_eq!(e.metadata.get(&"env".to_string()), Some(&Value::from("prod")));
    assert_eq!(e.metadata.get(&"_hostname".to_string()), Some(&Value::from("override")));
    assert_eq!(e.metadata.get(&"_rust_version".to_string()), Some(&Value::from("1.75")));
    assert_eq!(e.metadata.entries().len(), 5);
}

#[test]
fn unknown_fallback() {
    assert_eq!(name_or_unknown(None), "unknown");
    assert_eq!(name_or_unknown(Some("h".to_string())), "h");
    assert!(!detect_hostname().is_empty());
}

#[test]
fn visitor_separates_message() {
    let mut v = FieldVisitor::new();
    v.record_text("request_id".to_string(), "r-42".to_string());
    v.record_text("message".to_string(), "handled request".to_string());
    v.record_value("latency_ms".to_string(), Value::from(1200u32));
    v.record_value("message".to_string(), Value::from(true));
    assert_eq!(v.message.as_deref(), Some("handled request"));
    assert_eq!(v.fields.len(), 3);
    assert_eq!(v.fields[0], ("request_id".to_string(), Value::String("r-42".to_string())));
    let e = event_entry(LogLevel::from(tracing::Level::INFO), v, "my_app::handler".to_string());
    assert_eq!(e.level, LogLevel::Info);
    assert_eq!(e.message, "handled request");
    assert_eq!(e.metadata.get(&"request_id".to_string()), Some(&Value::from("r-42")));
    assert_eq!(e.metadata.get(&"latency_ms".to_string()), Some(&Value::from(1200u32)));
    assert_eq!(e.metadata.get(&"message".to_string()), Some(&Value::from(true)));
    assert_eq!(e.metadata.get(&"target".to_string()), Some(&Value::from("my_app::handler")));
}

#[test]
fn event_without_message_and_target_wins() {
    let mut v = FieldVisitor::new();
    v.record_text("target".to_string(), "shadowed".to_string());
    let ts = Timestamp { secs: 0, nanos: 5 };
    let e = event_entry_at(ts, LogLevel::Warn, v, "real::target".to_string());
    assert_eq!(e.message, "<no message>");
    assert_eq!(e.metadata.get(&"target".to_string()), Some(&Value::from("real::target")));
    assert_eq!(e.metadata.entries().len(), 1);
}

#[test]
fn decorate_adds_client_metadata_under_own_fields() {
    let cfg = ConfigBuilder::new("t".to_string())
        .with_meta("service".to_string(), Value::from("my-app"))
        .with_meta("env".to_string(), Value::from("production"))
        .build();
    let core = ClientCore::new(cfg, Some("web-01".to_string()), 42, None);
    let ts = Timestamp { secs: 10, nanos: 1 };
    let entry = mihari_logger::LogEntry::at(ts, LogLevel::Info, "user login".to_string())
        .with_meta("user_id".to_string(), Value::from("usr_42"))
        .with_meta("env".to_string(), Value::from("staging"));
    let e = core.decorate(entry);
    assert_eq!(e.dt, ts);
    assert_eq!(e.level, LogLevel::Info);
    assert_eq!(e.message, "user login");
    assert_eq!(e.metadata.get(&"user_id".to_string()), Some(&Value::from("usr_42")));
    assert_eq!(e.metadata.get(&"env".to_string()), Some(&Value::from("staging")));
    assert_eq!(e.metadata.get(&"service".to_string()), Some(&Value::from("my-app")));
    assert_eq!(e.metadata.get(&"_hostname".to_string()), Some(&Value::from("web-01")));
    assert_eq!(e.metadata.get(&"_pid".to_string()), Some(&Value::from(42u32)));
    assert_eq!(e.metadata.entries().len(), 6);
}
