use vstd::prelude::*;

verus! {

/// Log severity level.
#[derive(Debug, Clone, Copy, PartialEq, Eq, Hash, Structural)]
pub enum LogLevel {
    Debug,
    Info,
    Warn,
    Error,
    Fatal,
}

/// The five levels of the `tracing` ecosystem, told apart as plain values.
#[derive(Debug, Clone, Copy, PartialEq, Eq, Hash, Structural)]
pub enum TracingLevel {
    Trace,
    Debug,
    Info,
    Warn,
    Error,
}

/// The lowercase name under which a level is written on the wire.
pub open spec fn level_name(level: LogLevel) -> Seq<char> {
    match level {
        LogLevel::Debug => "debug"@,
        LogLevel::Info => "info"@,
        LogLevel::Warn => "warn"@,
        LogLevel::Error => "error"@,
        LogLevel::Fatal => "fatal"@,
    }
}

/// The log level that a `tracing` level is recorded at: `TRACE` and `DEBUG`
/// both become `Debug`; there is no `tracing` level for `Fatal`.
pub open spec fn level_of_tracing(level: TracingLevel) -> LogLevel {
    match level {
        TracingLevel::Trace | TracingLevel::Debug => LogLevel::Debug,
        TracingLevel::Info => LogLevel::Info,
        TracingLevel::Warn => LogLevel::Warn,
        TracingLevel::Error => LogLevel::Error,
    }
}

impl LogLevel {
    /// The level's lowercase name ("debug", "info", "warn", "error", "fatal").
    pub fn to_string(&self) -> (s: String)
        ensures
            s@ == level_name(*self),
    {
        let name: &str = match self {
            LogLevel::Debug => "debug",
            LogLevel::Info => "info",
            LogLevel::Warn => "warn",
            LogLevel::Error => "error",
            LogLevel::Fatal => "fatal",
        };
        name.to_owned()
    }

    /// The level that an event of the given `tracing` level is logged at.
    pub fn from_tracing_level(level: TracingLevel) -> (l: LogLevel)
        ensures
            l == level_of_tracing(level),
    {
        match level {
            TracingLevel::Trace | TracingLevel::Debug => LogLevel::Debug,
            TracingLevel::Info => LogLevel::Info,
            TracingLevel::Warn => LogLevel::Warn,
            TracingLevel::Error => LogLevel::Error,
        }
    }
}

#[verifier::external_type_specification]
#[verifier::external_body]
pub struct ExTracingLevel(tracing::Level);

/// Which of its five constants (`TRACE`, `DEBUG`, `INFO`, `WARN`, `ERROR`) a
/// `tracing::Level` is.
pub uninterp spec fn tracing_level_kind(level: tracing::Level) -> TracingLevel;

/// Tells the five constants of `tracing::Level` apart by matching on them, as
/// `tracing::Level::as_str` does. What is claimed: the result depends on the
/// level alone (it is `tracing_level_kind` of it). That `Level::INFO` gives
/// `Info` and so on is what the match reads, and is not stated.
#[verifier::external_body]
pub(crate) fn tracing_level(level: &tracing::Level) -> (k: TracingLevel)
    ensures
        k == tracing_level_kind(*level),
{
    match *level {
        tracing::Level::TRACE => TracingLevel::Trace,
        tracing::Level::DEBUG => TracingLevel::Debug,
        tracing::Level::INFO => TracingLevel::Info,
        tracing::Level::WARN => TracingLevel::Warn,
        tracing::Level::ERROR => TracingLevel::Error,
    }
}

impl From<tracing::Level> for LogLevel {
    fn from(level: tracing::Level) -> (l: LogLevel) {
        LogLevel::from_tracing_level(tracing_level(&level))
    }
}

impl vstd::std_specs::convert::FromSpecImpl<tracing::Level> for LogLevel {
    open spec fn obeys_from_spec() -> bool {
        true
    }

    open spec fn from_spec(level: tracing::Level) -> LogLevel {
        level_of_tracing(tracing_level_kind(level))
    }
}

} // verus!
