//! Verified core of a batched log-shipping client.
//!
//! The library holds what the client decides: log levels, entries and their
//! metadata, configuration and its defaults, the batching state machine of the
//! background transport, the retry schedule, and the shape of each HTTP request.
//! The asynchronous runtime, the network and JSON encoding stand around it.

pub mod client;
pub mod config;
pub mod delivery;
pub mod entry;
pub mod json;
pub mod layer;
pub mod level;
pub mod metadata;
pub mod transport;

pub use client::{
    detect_hostname, name_or_unknown, ClientCore, MihariBuilder, META_HOSTNAME,
    META_PID, META_RUST_VERSION, UNKNOWN,
};
pub use config::{
    default_flush_interval, default_timeout, Config, ConfigBuilder,
    DEFAULT_BATCH_SIZE, DEFAULT_ENDPOINT, DEFAULT_FLUSH_INTERVAL_SECS, DEFAULT_MAX_RETRIES,
    DEFAULT_TIMEOUT_SECS,
};
pub use delivery::{
    backoff_millis, body_after_compression, copy_bytes, gzip_compress, prepare_request,
    request_body, HttpRequest, RetrySchedule, RetryStep, MAX_BACKOFF_ATTEMPT,
};
pub use entry::{timestamp_from_reading, ClockReading, IngestResponse, LogEntry, Timestamp, NANOS_PER_SEC};
pub use layer::{event_entry, event_entry_at, FieldVisitor, MESSAGE_FIELD, NO_MESSAGE, TARGET_KEY};
pub use level::{LogLevel, TracingLevel};
pub use metadata::{clone_pairs, Metadata};
pub use transport::{BatchBuffer, FlushAction, FlushEvent, TransportCommand};
