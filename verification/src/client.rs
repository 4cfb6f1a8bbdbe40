use vstd::prelude::*;

use crate::config::{Config, ConfigBuilder};
use crate::entry::{now_utc, LogEntry, Timestamp, NANOS_PER_SEC};
use crate::json::{json_from_u32, json_string, json_string_value, json_u32_value};
use crate::level::LogLevel;
use crate::metadata::{has_key, insert_all, lemma_insert_all_is_union, lemma_insert_all_lookup};
use std::time::Duration;

verus! {

/// Metadata key of the host name attached to every client entry.
pub const META_HOSTNAME: &'static str = "_hostname";

/// Metadata key of the process id attached to every client entry.
pub const META_PID: &'static str = "_pid";

/// Metadata key of the Rust version attached to every client entry.
pub const META_RUST_VERSION: &'static str = "_rust_version";

/// Placeholder for a host name or version that could not be found.
pub const UNKNOWN: &'static str = "unknown";

/// Asks the system for its host name with `hostname::get`, converted lossily
/// to UTF-8. Nothing is claimed of the answer; `None` stands for an error.
#[verifier::external_body]
pub(crate) fn system_hostname() -> (r: Option<String>) {
    match hostname::get() {
        Ok(h) => Some(h.to_string_lossy().into_owned()),
        Err(_) => None,
    }
}

/// The given name, or "unknown" where there is none.
pub fn name_or_unknown(name: Option<String>) -> (s: String)
    ensures
        s@ == match name {
            Some(n) => n@,
            None => UNKNOWN@,
        },
{
    match name {
        Some(n) => n,
        None => UNKNOWN.to_owned(),
    }
}

/// The host name of this machine, or "unknown" where the system gives none.
pub fn detect_hostname() -> (s: String) {
    name_or_unknown(system_hostname())
}

/// The metadata that a client attaches to each entry before its default
/// metadata: host name, process id and Rust version.
pub open spec fn auto_metadata(hostname: Seq<char>, pid: u32, rust_version: Seq<char>) -> Map<
    Seq<char>,
    serde_json::Value,
> {
    Map::<Seq<char>, serde_json::Value>::empty().insert(META_HOSTNAME@, json_string(hostname)).insert(
        META_PID@,
        json_from_u32(pid),
    ).insert(META_RUST_VERSION@, json_string(rust_version))
}

/// What a client needs to build entries: its configuration and the
/// environment captured when it was made.
#[derive(Debug)]
pub struct ClientCore {
    pub config: Config,
    pub hostname: String,
    pub pid: u32,
    pub rust_version: String,
}

impl ClientCore {
    /// A core for the given configuration and environment; a missing host
    /// name or Rust version becomes "unknown".
    pub fn new(config: Config, hostname: Option<String>, pid: u32, rust_version: Option<String>) -> (c: ClientCore)
        ensures
            c.config == config,
            c.hostname@ == match hostname {
                Some(h) => h@,
                None => UNKNOWN@,
            },
            c.pid == pid,
            c.rust_version@ == match rust_version {
                Some(v) => v@,
                None => UNKNOWN@,
            },
    {
        ClientCore {
            config,
            hostname: name_or_unknown(hostname),
            pid,
            rust_version: name_or_unknown(rust_version),
        }
    }

    /// The metadata of every entry this core builds.
    pub open spec fn entry_metadata(self) -> Map<Seq<char>, serde_json::Value> {
        insert_all(
            auto_metadata(self.hostname@, self.pid, self.rust_version@),
            self.config.default_metadata@,
        )
    }

    /// An entry at the given time: the level and message given, the host name,
    /// process id and Rust version, then the default metadata of the
    /// configuration in order (a default replaces an automatic field of the
    /// same key, and a later default an earlier one).
    pub fn build_entry_at(&self, dt: Timestamp, level: LogLevel, message: String) -> (e: LogEntry)
        ensures
            e.dt == dt,
            e.level == level,
            e.message@ == message@,
            e.metadata@ == self.entry_metadata(),
    {
        let mut entry = LogEntry::at(dt, level, message).with_meta(
            META_HOSTNAME.to_owned(),
            json_string_value(self.hostname.clone()),
        ).with_meta(META_PID.to_owned(), json_u32_value(self.pid)).with_meta(
            META_RUST_VERSION.to_owned(),
            json_string_value(self.rust_version.clone()),
        );
        proof {
            assert(entry.metadata@ =~= insert_all(
                auto_metadata(self.hostname@, self.pid, self.rust_version@),
                self.config.default_metadata@.subrange(0, 0),
            ));
        }
        let defaults = &self.config.default_metadata;
        let mut i: usize = 0;
        while i < defaults.len()
            invariant
                i <= defaults@.len(),
                defaults == &self.config.default_metadata,
                entry.dt == dt,
                entry.level == level,
                entry.message@ == message@,
                entry.metadata@ == insert_all(
                    auto_metadata(self.hostname@, self.pid, self.rust_version@),
                    defaults@.subrange(0, i as int),
                ),
            decreases defaults@.len() - i,
        {
            let (k, v) = &defaults[i];
            entry.metadata.insert(k.clone(), v.clone());
            proof {
                assert(defaults@.subrange(0, i + 1).drop_last() =~= defaults@.subrange(0, i as int));
            }
            i = i + 1;
        }
        proof {
            assert(defaults@.subrange(0, i as int) =~= defaults@);
        }
        entry
    }

    /// An entry timestamped now, otherwise as `build_entry_at`.
    pub fn build_entry(&self, level: LogLevel, message: String) -> (e: LogEntry)
        ensures
            e.dt.nanos < NANOS_PER_SEC,
            e.level == level,
            e.message@ == message@,
            e.metadata@ == self.entry_metadata(),
    {
        self.build_entry_at(now_utc(), level, message)
    }

    /// An entry made elsewhere, with this client's metadata added: the
    /// automatic fields and the default metadata, as on the entries the client
    /// builds, under the entry's own fields (a key the entry sets keeps its
    /// value).
    pub fn decorate(&self, entry: LogEntry) -> (e: LogEntry)
        ensures
            e.dt == entry.dt,
            e.level == entry.level,
            e.message@ == entry.message@,
            e.metadata@ == self.entry_metadata().union_prefer_right(entry.metadata@),
    {
        let LogEntry { dt, level, message, metadata } = entry;
        let ghost msg = message;
        let mut e = self.build_entry_at(dt, level, message);
        let own = metadata.entries();
        let mut i: usize = 0;
        while i < own.len()
            invariant
                i <= own@.len(),
                e.dt == dt,
                e.level == level,
                e.message@ == msg@,
                e.metadata@ == insert_all(self.entry_metadata(), own@.subrange(0, i as int)),
            decreases own@.len() - i,
        {
            let (k, v) = &own[i];
            e.metadata.insert(k.clone(), v.clone());
            proof {
                assert(own@.subrange(0, i + 1).drop_last() =~= own@.subrange(0, i as int));
            }
            i = i + 1;
        }
        proof {
            assert(own@.subrange(0, i as int) =~= own@);
            lemma_insert_all_is_union(self.entry_metadata(), own@);
        }
        e
    }
}

/// Metadata law of client entries: a key that the default metadata sets takes
/// the value of its last occurrence there; where the defaults do not set them,
/// the host name, process id and Rust version are present under their keys.
pub proof fn lemma_entry_metadata(core: ClientCore, k: Seq<char>)
    ensures
        ({
            let defaults = core.config.default_metadata@;
            let md = core.entry_metadata();
            &&& forall|i: int|
                0 <= i < defaults.len() && #[trigger] defaults[i].0@ == k && (forall|j: int|
                    i < j < defaults.len() ==> defaults[j].0@ != k) ==> md.dom().contains(k) && md[k]
                    == defaults[i].1
            &&& !has_key(defaults, META_HOSTNAME@) ==> md.dom().contains(META_HOSTNAME@) && md[META_HOSTNAME@]
                == json_string(core.hostname@)
            &&& !has_key(defaults, META_PID@) ==> md.dom().contains(META_PID@) && md[META_PID@]
                == json_from_u32(core.pid)
            &&& !has_key(defaults, META_RUST_VERSION@) ==> md.dom().contains(META_RUST_VERSION@)
                && md[META_RUST_VERSION@] == json_string(core.rust_version@)
        }),
{
    reveal_strlit("_hostname");
    reveal_strlit("_pid");
    reveal_strlit("_rust_version");
    let defaults = core.config.default_metadata@;
    let auto = auto_metadata(core.hostname@, core.pid, core.rust_version@);
    assert(META_HOSTNAME@.len() == 9);
    assert(META_PID@.len() == 4);
    assert(META_RUST_VERSION@.len() == 13);
    assert(META_HOSTNAME@ != META_PID@);
    assert(META_HOSTNAME@ != META_RUST_VERSION@);
    assert(META_PID@ != META_RUST_VERSION@);
    lemma_insert_all_lookup(auto, defaults, k);
    lemma_insert_all_lookup(auto, defaults, META_HOSTNAME@);
    lemma_insert_all_lookup(auto, defaults, META_PID@);
    lemma_insert_all_lookup(auto, defaults, META_RUST_VERSION@);
    assert forall|i: int|
        0 <= i < defaults.len() && #[trigger] defaults[i].0@ == k && (forall|j: int|
            i < j < defaults.len() ==> defaults[j].0@ != k) implies core.entry_metadata().dom().contains(k)
        && core.entry_metadata()[k] == defaults[i].1 by {
        assert(has_key(defaults, k));
    }
}

/// Fluent builder of a client's configuration, with the same defaults as
/// [`ConfigBuilder`] and setters that step exactly as its setters do
/// (`apply_setting`), so the same chain of calls builds the same
/// configuration (see `lemma_config_chain`).
#[derive(Debug)]
pub struct MihariBuilder {
    config_builder: ConfigBuilder,
}

impl MihariBuilder {
    /// The configuration that the client would be built with now.
    pub closed spec fn pending(self) -> Config {
        self.config_builder.pending()
    }

    /// Start from the defaults, with the required API bearer token.
    pub fn new(token: String) -> (b: MihariBuilder)
        ensures
            b.pending()@ == crate::config::default_config_view(token@),
            crate::config::is_default_config(b.pending(), token@),
    {
        MihariBuilder { config_builder: ConfigBuilder::new(token) }
    }

    /// Override the ingestion endpoint URL.
    pub fn endpoint(self, endpoint: String) -> (b: MihariBuilder)
        ensures
            b.pending()@ == crate::config::apply_setting(self.pending()@, crate::config::ConfigSetting::Endpoint(endpoint@)),
            b.pending() == (Config { endpoint, ..self.pending() }),
    {
        MihariBuilder { config_builder: self.config_builder.endpoint(endpoint) }
    }

    /// Set the batch size.
    pub fn batch_size(self, size: usize) -> (b: MihariBuilder)
        ensures
            b.pending()@ == crate::config::apply_setting(self.pending()@, crate::config::ConfigSetting::BatchSize(size)),
            b.pending() == (Config { batch_size: size, ..self.pending() }),
    {
        MihariBuilder { config_builder: self.config_builder.batch_size(size) }
    }

    /// Set the flush interval.
    pub fn flush_interval(self, interval: Duration) -> (b: MihariBuilder)
        ensures
            b.pending()@ == crate::config::apply_setting(self.pending()@, crate::config::ConfigSetting::FlushInterval(interval)),
            b.pending() == (Config { flush_interval: interval, ..self.pending() }),
    {
        MihariBuilder { config_builder: self.config_builder.flush_interval(interval) }
    }

    /// Set the number of retries.
    pub fn max_retries(self, retries: u32) -> (b: MihariBuilder)
        ensures
            b.pending()@ == crate::config::apply_setting(self.pending()@, crate::config::ConfigSetting::MaxRetries(retries)),
            b.pending() == (Config { max_retries: retries, ..self.pending() }),
    {
        MihariBuilder { config_builder: self.config_builder.max_retries(retries) }
    }

    /// Set the request timeout.
    pub fn timeout(self, timeout: Duration) -> (b: MihariBuilder)
        ensures
            b.pending()@ == crate::config::apply_setting(self.pending()@, crate::config::ConfigSetting::Timeout(timeout)),
            b.pending() == (Config { timeout, ..self.pending() }),
    {
        MihariBuilder { config_builder: self.config_builder.timeout(timeout) }
    }

    /// Enable or disable gzip compression.
    pub fn gzip(self, enabled: bool) -> (b: MihariBuilder)
        ensures
            b.pending()@ == crate::config::apply_setting(self.pending()@, crate::config::ConfigSetting::Gzip(enabled)),
            b.pending() == (Config { gzip: enabled, ..self.pending() }),
    {
        MihariBuilder { config_builder: self.config_builder.gzip(enabled) }
    }

    /// Add a metadata field attached to every entry.
    pub fn with_meta(self, key: String, value: serde_json::Value) -> (b: MihariBuilder)
        ensures
            b.pending()@ == crate::config::apply_setting(self.pending()@, crate::config::ConfigSetting::Meta(key, value)),
            b.pending().token == self.pending().token,
            b.pending().endpoint == self.pending().endpoint,
            b.pending().batch_size == self.pending().batch_size,
            b.pending().flush_interval == self.pending().flush_interval,
            b.pending().max_retries == self.pending().max_retries,
            b.pending().timeout == self.pending().timeout,
            b.pending().gzip == self.pending().gzip,
            b.pending().default_metadata@ == self.pending().default_metadata@.push((key, value)),
    {
        MihariBuilder { config_builder: self.config_builder.with_meta(key, value) }
    }

    /// The configuration that the client is built with.
    pub fn into_config(self) -> (c: Config)
        ensures
            c == self.pending(),
    {
        self.config_builder.build()
    }
}

} // verus!
