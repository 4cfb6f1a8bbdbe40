use vstd::prelude::*;

use crate::level::LogLevel;
use crate::metadata::Metadata;

verus! {

/// An instant in UTC: whole seconds since the Unix epoch and the nanoseconds
/// past that second.
#[derive(Debug, Clone, Copy, PartialEq, Eq, Hash, Structural)]
pub struct Timestamp {
    pub secs: i64,
    pub nanos: u32,
}

/// Number of nanoseconds in a second.
pub const NANOS_PER_SEC: u32 = 1_000_000_000;

/// A reading of the system clock against the Unix epoch: the distance from
/// the epoch in whole seconds and nanoseconds past them, and on which side of
/// the epoch the clock stands.
#[derive(Debug, Clone, Copy, PartialEq, Eq, Structural)]
pub struct ClockReading {
    pub after_epoch: bool,
    pub secs: u64,
    pub nanos: u32,
}

/// Reads the system clock with `std::time::SystemTime::elapsed` on
/// `UNIX_EPOCH`: `Ok` gives the time since the epoch, `Err` (a clock before
/// the epoch) the time until it, each as seconds and subsecond nanoseconds.
/// What is claimed: the nanoseconds are below one second, as `Duration`
/// documents for `subsec_nanos`. The reading itself is the clock's.
#[verifier::external_body]
pub(crate) fn read_clock() -> (r: ClockReading)
    ensures
        r.nanos < NANOS_PER_SEC,
{
    match std::time::UNIX_EPOCH.elapsed() {
        Ok(d) => ClockReading { after_epoch: true, secs: d.as_secs(), nanos: d.subsec_nanos() },
        Err(e) => ClockReading {
            after_epoch: false,
            secs: e.duration().as_secs(),
            nanos: e.duration().subsec_nanos(),
        },
    }
}

/// The signed number of nanoseconds from the epoch to a clock reading.
pub open spec fn reading_nanos(r: ClockReading) -> int {
    let magnitude = r.secs * NANOS_PER_SEC + r.nanos;
    if r.after_epoch {
        magnitude
    } else {
        -magnitude
    }
}

/// The signed number of nanoseconds from the epoch to a timestamp.
pub open spec fn timestamp_nanos(t: Timestamp) -> int {
    t.secs * NANOS_PER_SEC + t.nanos
}

/// Whether a timestamp's seconds can hold the reading's whole seconds.
pub open spec fn reading_fits(r: ClockReading) -> bool {
    r.secs <= i64::MAX
}

/// The timestamp of a clock reading: the same instant where the seconds fit
/// in an `i64` (a time before the epoch gets negative seconds and nanoseconds
/// counted forward, as chrono does), else the latest or earliest timestamp.
pub fn timestamp_from_reading(r: ClockReading) -> (t: Timestamp)
    requires
        r.nanos < NANOS_PER_SEC,
    ensures
        t.nanos < NANOS_PER_SEC,
        reading_fits(r) ==> timestamp_nanos(t) == reading_nanos(r),
        !reading_fits(r) && r.after_epoch ==> t == (Timestamp { secs: i64::MAX, nanos: 999_999_999u32 }),
        !reading_fits(r) && !r.after_epoch ==> t == (Timestamp { secs: i64::MIN, nanos: 0 }),
{
    if r.secs > 9_223_372_036_854_775_807u64 {
        if r.after_epoch {
            Timestamp { secs: i64::MAX, nanos: NANOS_PER_SEC - 1 }
        } else {
            Timestamp { secs: i64::MIN, nanos: 0 }
        }
    } else {
        let secs: i64 = r.secs as i64;
        if r.after_epoch {
            Timestamp { secs, nanos: r.nanos }
        } else if r.nanos == 0 {
            Timestamp { secs: -secs, nanos: 0 }
        } else {
            Timestamp { secs: -secs - 1, nanos: NANOS_PER_SEC - r.nanos }
        }
    }
}

/// The current time from the system clock. It does not panic: a clock before
/// the epoch gives a negative timestamp.
pub(crate) fn now_utc() -> (t: Timestamp)
    ensures
        t.nanos < NANOS_PER_SEC,
{
    timestamp_from_reading(read_clock())
}

/// A single log entry to be sent to the ingestion API.
#[derive(Debug)]
pub struct LogEntry {
    /// Timestamp (written as ISO 8601).
    pub dt: Timestamp,
    /// Severity level.
    pub level: LogLevel,
    /// Message body.
    pub message: String,
    /// Additional key-value pairs, written as fields of the entry's JSON object.
    pub metadata: Metadata,
}

impl LogEntry {
    /// An entry with the given level and message, timestamped now, without metadata.
    pub fn new(level: LogLevel, message: String) -> (e: LogEntry)
        ensures
            e.dt.nanos < NANOS_PER_SEC,
            e.level == level,
            e.message@ == message@,
            e.metadata@ == Map::<Seq<char>, serde_json::Value>::empty(),
    {
        LogEntry::at(now_utc(), level, message)
    }

    /// An entry with the given timestamp, level and message, without metadata.
    pub fn at(dt: Timestamp, level: LogLevel, message: String) -> (e: LogEntry)
        ensures
            e.dt == dt,
            e.level == level,
            e.message@ == message@,
            e.metadata@ == Map::<Seq<char>, serde_json::Value>::empty(),
    {
        LogEntry { dt, level, message, metadata: Metadata::new() }
    }

    /// The same entry with `key` set to `value` in its metadata (replacing any
    /// earlier value of that key).
    pub fn with_meta(self, key: String, value: serde_json::Value) -> (e: LogEntry)
        ensures
            e.dt == self.dt,
            e.level == self.level,
            e.message == self.message,
            e.metadata@ == self.metadata@.insert(key@, value),
    {
        let mut e = self;
        e.metadata.insert(key, value);
        e
    }
}

impl Clone for LogEntry {
    fn clone(&self) -> (c: LogEntry)
        ensures
            c.dt == self.dt,
            c.level == self.level,
            c.message == self.message,
            c.metadata@ == self.metadata@,
    {
        LogEntry {
            dt: self.dt,
            level: self.level,
            message: self.message.clone(),
            metadata: self.metadata.clone(),
        }
    }
}

/// Response returned by the ingestion API on success.
#[derive(Debug)]
pub struct IngestResponse {
    pub status: String,
    pub count: usize,
}

impl Clone for IngestResponse {
    fn clone(&self) -> (c: IngestResponse)
        ensures
            c == *self,
    {
        IngestResponse { status: self.status.clone(), count: self.count }
    }
}

} // verus!
