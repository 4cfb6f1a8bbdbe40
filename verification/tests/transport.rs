use mihari_logger::{
    backoff_millis, body_after_compression, gzip_compress, prepare_request, request_body,
    BatchBuffer, ConfigBuilder, FlushEvent, LogEntry, LogLevel, RetrySchedule, RetryStep,
    TransportCommand,
};

use flate2::read::GzDecoder;
use std::io::Read;

fn entry(msg: &str) -> LogEntry {
    LogEntry::new(LogLevel::Info, msg.to_string())
}

fn send(msg: &str) -> FlushEvent {
    FlushEvent::Command(TransportCommand::Send(entry(msg)))
}

fn messages(batch: &[LogEntry]) -> Vec<String> {
    batch.iter().map(|e| e.message.clone()).collect()
}

#[test]
fn gzip_roundtrip() {
    let original = b"hello world, this is a test payload";
    let compressed = gzip_compress(original).unwrap();
    assert_ne!(compressed, original.as_slice());

    let mut decoder = GzDecoder::new(compressed.as_slice());
    let mut decompressed = Vec::new();
    decoder.read_to_end(&mut decompressed).unwrap();
    assert_eq!(decompressed, original);
}

#[test]
fn batch_ships_when_size_reached() {
    let mut buf = BatchBuffer::new(2);
    let a = buf.step(send("first message"));
    assert!(a.batch.is_none());
    assert!(!a.stop);
    assert_eq!(buf.len(), 1);
    let b = buf.step(send("second message"));
    let batch = b.batch.expect("a full batch ships");
    assert_eq!(messages(&batch), vec!["first message", "second message"]);
    assert_eq!(buf.len(), 0);
}

#[test]
fn flush_ships_partial_batch_and_empty_flush_ships_nothing() {
    let mut buf = BatchBuffer::new(2);
    buf.step(send("only one entry"));
    let a = buf.step(FlushEvent::Command(TransportCommand::Flush));
    assert_eq!(messages(&a.batch.unwrap()), vec!["only one entry"]);
    let b = buf.step(FlushEvent::Command(TransportCommand::Flush));
    assert!(b.batch.is_none());
    let c = buf.step(FlushEvent::Tick);
    assert!(c.batch.is_none());
    assert!(!c.stop);
}

#[test]
fn tick_ships_buffer() {
    let mut buf = BatchBuffer::new(10);
    buf.step(send("a"));
    buf.step(send("b"));
    let t = buf.step(FlushEvent::Tick);
    assert_eq!(messages(&t.batch.unwrap()), vec!["a", "b"]);
    assert_eq!(buf.len(), 0);
}

#[test]
fn shutdown_flushes_remaining_and_stops() {
    let mut buf = BatchBuffer::new(2);
    buf.step(send("final message"));
    let s = buf.step(FlushEvent::Command(TransportCommand::Shutdown));
    assert!(s.stop);
    assert_eq!(messages(&s.batch.unwrap()), vec!["final message"]);
    assert!(buf.is_stopped());
    assert_eq!(buf.len(), 0);
}

#[test]
fn closed_channel_stops_without_empty_batch() {
    let mut buf = BatchBuffer::new(3);
    let s = buf.step(FlushEvent::Closed);
    assert!(s.stop);
    assert!(s.batch.is_none());
}

#[test]
fn batch_size_zero_ships_every_entry() {
    let mut buf = BatchBuffer::new(0);
    assert_eq!(buf.batch_size(), 0);
    let a = buf.step(send("x"));
    assert_eq!(messages(&a.batch.unwrap()), vec!["x"]);
    assert_eq!(buf.len(), 0);
}

#[test]
fn run_delivers_everything_in_order() {
    let mut buf = BatchBuffer::new(3);
    let mut shipped: Vec<String> = Vec::new();
    let events = vec![
        send("1"),
        send("2"),
        FlushEvent::Tick,
        send("3"),
        send("4"),
        send("5"),
        send("6"),
        FlushEvent::Command(TransportCommand::Flush),
        send("7"),
        FlushEvent::Command(TransportCommand::Shutdown),
    ];
    let mut sizes = Vec::new();
    for ev in events {
        let a = buf.step(ev);
        if let Some(batch) = a.batch {
            assert!(!batch.is_empty() && batch.len() <= 3);
            sizes.push(batch.len());
            shipped.extend(messages(&batch));
        }
        if a.stop {
            break;
        }
    }
    assert_eq!(shipped, vec!["1", "2", "3", "4", "5", "6", "7"]);
    assert_eq!(sizes, vec![2, 3, 1, 1]);
}

#[test]
fn backoff_doubles_from_100ms() {
    assert_eq!(backoff_millis(0), 100);
    assert_eq!(backoff_millis(1), 200);
    assert_eq!(backoff_millis(2), 400);
    assert_eq!(backoff_millis(10), 102_400);
    assert_eq!(backoff_millis(57), 100 * (1u64 << 57));
}

#[test]
fn retries_then_gives_up() {
    let mut s = RetrySchedule::new(3);
    assert_eq!(s.on_outcome(false), RetryStep::RetryAfterMillis(100));
    assert_eq!(s.on_outcome(false), RetryStep::RetryAfterMillis(200));
    assert_eq!(s.on_outcome(false), RetryStep::RetryAfterMillis(400));
    assert_eq!(s.attempt(), 3);
    assert_eq!(s.on_outcome(false), RetryStep::GaveUp);
    assert!(s.finished());
}

#[test]
fn delivery_stops_retrying() {
    let mut s = RetrySchedule::new(3);
    assert_eq!(s.on_outcome(false), RetryStep::RetryAfterMillis(100));
    assert_eq!(s.on_outcome(true), RetryStep::Delivered);
    assert!(s.finished());
    assert_eq!(s.attempt(), 1);
}

#[test]
fn no_retries_means_one_attempt() {
    let mut s = RetrySchedule::new(0);
    assert_eq!(s.on_outcome(false), RetryStep::GaveUp);
}

#[test]
fn plain_request_carries_json() {
    let cfg = ConfigBuilder::new("test-token-xyz".to_string())
        .endpoint("http://localhost:8080/v1/logs".to_string())
        .gzip(false)
        .build();
    let json = br#"[{"level":"info"}]"#;
    let req = prepare_request(&cfg, json);
    assert_eq!(req.url, "http://localhost:8080/v1/logs");
    assert_eq!(req.bearer_token, "test-token-xyz");
    assert_eq!(
        req.headers,
        vec![("Content-Type".to_string(), "application/json".to_string())]
    );
    assert_eq!(req.body, json.to_vec());
}

#[test]
fn gzip_request_is_compressed() {
    let cfg = ConfigBuilder::new("tok".to_string()).build();
    let json = br#"[{"level":"warn","message":"disk usage above 80%"}]"#;
    let req = prepare_request(&cfg, json);
    assert_eq!(
        req.headers,
        vec![
            ("Content-Type".to_string(), "application/json".to_string()),
            ("Content-Encoding".to_string(), "gzip".to_string()),
        ]
    );
    assert_ne!(req.body, json.to_vec());
    assert_eq!(&req.body[..10], &[0x1f, 0x8b, 8, 0, 0, 0, 0, 0, 4, 255]);
    let mut out = Vec::new();
    GzDecoder::new(req.body.as_slice()).read_to_end(&mut out).unwrap();
    assert_eq!(out, json.to_vec());
    assert_eq!(request_body(json, false), (json.to_vec(), false));
    let (body, encoded) = request_body(json, true);
    assert!(encoded);
    assert_eq!(body, req.body);
}

#[test]
fn failed_compression_falls_back_to_json() {
    let json = b"{}";
    assert_eq!(body_after_compression(json, None), json.to_vec());
    assert_eq!(body_after_compression(json, Some(vec![1, 2])), vec![1, 2]);
}

#[test]
fn gzip_of_empty_input_is_a_stream() {
    let c = gzip_compress(&[]).unwrap();
    assert!(c.len() >= 18);
    assert_eq!(&c[..10], &[0x1f, 0x8b, 8, 0, 0, 0, 0, 0, 4, 255]);
}
