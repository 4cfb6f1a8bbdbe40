use vstd::prelude::*;

use crate::metadata::clone_pairs;
use std::time::Duration;

verus! {

/// Default ingestion endpoint.
pub const DEFAULT_ENDPOINT: &'static str = "https://api.mihari.io/v1/logs";

/// Default number of buffered entries that triggers a flush.
pub const DEFAULT_BATCH_SIZE: usize = 10;

/// Default seconds between automatic flushes.
pub const DEFAULT_FLUSH_INTERVAL_SECS: u64 = 5;

/// Default number of retries after a failed request.
pub const DEFAULT_MAX_RETRIES: u32 = 3;

/// Default seconds before an HTTP request times out.
pub const DEFAULT_TIMEOUT_SECS: u64 = 30;

/// The `Duration` that `Duration::from_secs` makes of a number of seconds.
pub uninterp spec fn duration_of_secs(secs: u64) -> Duration;

/// Calls `std::time::Duration::from_secs`. What is claimed: the result
/// depends on the number of seconds alone.
#[verifier::external_body]
pub(crate) fn duration_from_secs(secs: u64) -> (d: Duration)
    ensures
        d == duration_of_secs(secs),
{
    Duration::from_secs(secs)
}

/// Default time between automatic flushes (5 s).
pub fn default_flush_interval() -> (d: Duration)
    ensures
        d == duration_of_secs(DEFAULT_FLUSH_INTERVAL_SECS),
{
    duration_from_secs(DEFAULT_FLUSH_INTERVAL_SECS)
}

/// Default HTTP request timeout (30 s).
pub fn default_timeout() -> (d: Duration)
    ensures
        d == duration_of_secs(DEFAULT_TIMEOUT_SECS),
{
    duration_from_secs(DEFAULT_TIMEOUT_SECS)
}

/// Configuration of a client.
#[derive(Debug)]
pub struct Config {
    /// API bearer token.
    pub token: String,
    /// Ingestion endpoint URL.
    pub endpoint: String,
    /// Number of buffered entries that triggers a flush.
    pub batch_size: usize,
    /// Time between automatic flushes.
    pub flush_interval: Duration,
    /// Retries after a failed request.
    pub max_retries: u32,
    /// HTTP request timeout.
    pub timeout: Duration,
    /// Whether request bodies are gzip-compressed.
    pub gzip: bool,
    /// Metadata attached to every entry the client builds, in the order given.
    pub default_metadata: Vec<(String, serde_json::Value)>,
}

impl Clone for Config {
    fn clone(&self) -> (c: Config)
        ensures
            c.token == self.token,
            c.endpoint == self.endpoint,
            c.batch_size == self.batch_size,
            c.flush_interval == self.flush_interval,
            c.max_retries == self.max_retries,
            c.timeout == self.timeout,
            c.gzip == self.gzip,
            c.default_metadata@ == self.default_metadata@,
    {
        Config {
            token: self.token.clone(),
            endpoint: self.endpoint.clone(),
            batch_size: self.batch_size,
            flush_interval: self.flush_interval,
            max_retries: self.max_retries,
            timeout: self.timeout,
            gzip: self.gzip,
            default_metadata: clone_pairs(&self.default_metadata),
        }
    }
}

/// A configuration seen as values: strings by their characters, the metadata
/// pairs in order.
pub struct ConfigView {
    pub token: Seq<char>,
    pub endpoint: Seq<char>,
    pub batch_size: usize,
    pub flush_interval: Duration,
    pub max_retries: u32,
    pub timeout: Duration,
    pub gzip: bool,
    pub default_metadata: Seq<(String, serde_json::Value)>,
}

impl View for Config {
    type V = ConfigView;

    open spec fn view(&self) -> ConfigView {
        ConfigView {
            token: self.token@,
            endpoint: self.endpoint@,
            batch_size: self.batch_size,
            flush_interval: self.flush_interval,
            max_retries: self.max_retries,
            timeout: self.timeout,
            gzip: self.gzip,
            default_metadata: self.default_metadata@,
        }
    }
}

/// The configuration that a builder starts from: every default, with the
/// given token.
pub open spec fn default_config_view(token: Seq<char>) -> ConfigView {
    ConfigView {
        token,
        endpoint: DEFAULT_ENDPOINT@,
        batch_size: DEFAULT_BATCH_SIZE,
        flush_interval: duration_of_secs(DEFAULT_FLUSH_INTERVAL_SECS),
        max_retries: DEFAULT_MAX_RETRIES,
        timeout: duration_of_secs(DEFAULT_TIMEOUT_SECS),
        gzip: true,
        default_metadata: Seq::empty(),
    }
}

/// One call of a builder's setters, with its argument.
pub enum ConfigSetting {
    Endpoint(Seq<char>),
    BatchSize(usize),
    FlushInterval(Duration),
    MaxRetries(u32),
    Timeout(Duration),
    Gzip(bool),
    Meta(String, serde_json::Value),
}

/// Which setter a setting calls (0 to 6, in the order of the variants).
pub open spec fn setting_kind(s: ConfigSetting) -> nat {
    match s {
        ConfigSetting::Endpoint(_) => 0,
        ConfigSetting::BatchSize(_) => 1,
        ConfigSetting::FlushInterval(_) => 2,
        ConfigSetting::MaxRetries(_) => 3,
        ConfigSetting::Timeout(_) => 4,
        ConfigSetting::Gzip(_) => 5,
        ConfigSetting::Meta(_, _) => 6,
    }
}

/// What one setter call does to the configuration being built.
pub open spec fn apply_setting(c: ConfigView, s: ConfigSetting) -> ConfigView {
    match s {
        ConfigSetting::Endpoint(e) => ConfigView { endpoint: e, ..c },
        ConfigSetting::BatchSize(n) => ConfigView { batch_size: n, ..c },
        ConfigSetting::FlushInterval(d) => ConfigView { flush_interval: d, ..c },
        ConfigSetting::MaxRetries(n) => ConfigView { max_retries: n, ..c },
        ConfigSetting::Timeout(d) => ConfigView { timeout: d, ..c },
        ConfigSetting::Gzip(b) => ConfigView { gzip: b, ..c },
        ConfigSetting::Meta(k, v) => ConfigView { default_metadata: c.default_metadata.push((k, v)), ..c },
    }
}

/// What a chain of setter calls does, in order.
pub open spec fn apply_all(c: ConfigView, settings: Seq<ConfigSetting>) -> ConfigView
    decreases settings.len(),
{
    if settings.len() == 0 {
        c
    } else {
        apply_setting(apply_all(c, settings.drop_last()), settings.last())
    }
}

/// The metadata pairs of a chain of setter calls, in call order.
pub open spec fn meta_pairs(settings: Seq<ConfigSetting>) -> Seq<(String, serde_json::Value)>
    decreases settings.len(),
{
    if settings.len() == 0 {
        Seq::empty()
    } else {
        match settings.last() {
            ConfigSetting::Meta(k, v) => meta_pairs(settings.drop_last()).push((k, v)),
            _ => meta_pairs(settings.drop_last()),
        }
    }
}

/// No setting of the chain after position `i` calls the same setter.
pub open spec fn last_of_kind(settings: Seq<ConfigSetting>, i: int) -> bool {
    forall|j: int| i < j < settings.len() ==> setting_kind(#[trigger] settings[j]) != setting_kind(settings[i])
}

/// No setting of the chain calls setter `kind`.
pub open spec fn never_set(settings: Seq<ConfigSetting>, kind: nat) -> bool {
    forall|j: int| 0 <= j < settings.len() ==> setting_kind(#[trigger] settings[j]) != kind
}

/// A setting's value is what the configuration holds for its setter.
pub open spec fn holds_setting(c: ConfigView, s: ConfigSetting) -> bool {
    match s {
        ConfigSetting::Endpoint(e) => c.endpoint == e,
        ConfigSetting::BatchSize(n) => c.batch_size == n,
        ConfigSetting::FlushInterval(d) => c.flush_interval == d,
        ConfigSetting::MaxRetries(n) => c.max_retries == n,
        ConfigSetting::Timeout(d) => c.timeout == d,
        ConfigSetting::Gzip(b) => c.gzip == b,
        ConfigSetting::Meta(_, _) => true,
    }
}

/// Setter-chain law of the builders. Both `ConfigBuilder` and `MihariBuilder`
/// start at `default_config_view(token)` and step by `apply_setting` on every
/// setter call, so after any chain of calls both hold
/// `apply_all(default_config_view(token), chain)`, which this law describes:
/// the token given; for each setter, the argument of its last call, or the
/// default where it was never called; and the metadata pairs of all `with_meta`
/// calls in call order, duplicates kept.
pub proof fn lemma_config_chain(token: Seq<char>, settings: Seq<ConfigSetting>)
    ensures
        ({
            let c = apply_all(default_config_view(token), settings);
            &&& c.token == token
            &&& forall|i: int| 0 <= i < settings.len() && last_of_kind(settings, i) ==> holds_setting(c, #[trigger] settings[i])
            &&& never_set(settings, 0) ==> c.endpoint == DEFAULT_ENDPOINT@
            &&& never_set(settings, 1) ==> c.batch_size == DEFAULT_BATCH_SIZE
            &&& never_set(settings, 2) ==> c.flush_interval == duration_of_secs(DEFAULT_FLUSH_INTERVAL_SECS)
            &&& never_set(settings, 3) ==> c.max_retries == DEFAULT_MAX_RETRIES
            &&& never_set(settings, 4) ==> c.timeout == duration_of_secs(DEFAULT_TIMEOUT_SECS)
            &&& never_set(settings, 5) ==> c.gzip
            &&& c.default_metadata == meta_pairs(settings)
        }),
{
    lemma_chain_last_wins(default_config_view(token), settings);
    lemma_chain_untouched(default_config_view(token), settings);
}

/// A setter's last call decides its field.
proof fn lemma_chain_last_wins(start: ConfigView, settings: Seq<ConfigSetting>)
    ensures
        forall|i: int| 0 <= i < settings.len() && last_of_kind(settings, i) ==> holds_setting(apply_all(start, settings), #[trigger] settings[i]),
    decreases settings.len(),
{
    if settings.len() > 0 {
        let prefix = settings.drop_last();
        let n = settings.len() - 1;
        lemma_chain_last_wins(start, prefix);
        let prev = apply_all(start, prefix);
        let c = apply_all(start, settings);
        assert(c == apply_setting(prev, settings[n]));
        assert forall|i: int| 0 <= i < settings.len() && last_of_kind(settings, i) implies holds_setting(c, #[trigger] settings[i]) by {
            if i < n {
                assert(setting_kind(settings[n]) != setting_kind(settings[i]));
                assert(prefix[i] == settings[i]);
                assert forall|j: int| i < j < prefix.len() implies setting_kind(#[trigger] prefix[j]) != setting_kind(prefix[i]) by {
                    assert(prefix[j] == settings[j]);
                }
                assert(holds_setting(prev, prefix[i]));
            }
        }
    }
}

/// Fields whose setter was never called keep their starting value; the token
/// never changes; metadata pairs are appended in call order.
proof fn lemma_chain_untouched(start: ConfigView, settings: Seq<ConfigSetting>)
    ensures
        ({
            let c = apply_all(start, settings);
            &&& c.token == start.token
            &&& never_set(settings, 0) ==> c.endpoint == start.endpoint
            &&& never_set(settings, 1) ==> c.batch_size == start.batch_size
            &&& never_set(settings, 2) ==> c.flush_interval == start.flush_interval
            &&& never_set(settings, 3) ==> c.max_retries == start.max_retries
            &&& never_set(settings, 4) ==> c.timeout == start.timeout
            &&& never_set(settings, 5) ==> c.gzip == start.gzip
            &&& c.default_metadata == start.default_metadata + meta_pairs(settings)
        }),
    decreases settings.len(),
{
    if settings.len() == 0 {
        assert(start.default_metadata + Seq::<(String, serde_json::Value)>::empty() =~= start.default_metadata);
    } else {
        let prefix = settings.drop_last();
        let n = settings.len() - 1;
        lemma_chain_untouched(start, prefix);
        assert forall|k: nat| #[trigger] never_set(settings, k) implies never_set(prefix, k) && setting_kind(settings[n]) != k by {
            assert forall|j: int| 0 <= j < prefix.len() implies setting_kind(#[trigger] prefix[j]) != k by {
                assert(prefix[j] == settings[j]);
            }
        }
        let prev = apply_all(start, prefix);
        match settings[n] {
            ConfigSetting::Meta(k, v) => {
                assert(prev.default_metadata.push((k, v)) =~= start.default_metadata + meta_pairs(prefix).push((k, v)));
            },
            _ => {},
        }
    }
}

/// A configuration that holds every default, with the given token.
pub open spec fn is_default_config(c: Config, token: Seq<char>) -> bool {
    &&& c.token@ == token
    &&& c.endpoint@ == DEFAULT_ENDPOINT@
    &&& c.batch_size == DEFAULT_BATCH_SIZE
    &&& c.flush_interval == duration_of_secs(DEFAULT_FLUSH_INTERVAL_SECS)
    &&& c.max_retries == DEFAULT_MAX_RETRIES
    &&& c.timeout == duration_of_secs(DEFAULT_TIMEOUT_SECS)
    &&& c.gzip
    &&& c.default_metadata@ == Seq::<(String, serde_json::Value)>::empty()
}

/// Fluent builder for [`Config`].
#[derive(Debug)]
pub struct ConfigBuilder {
    config: Config,
}

impl ConfigBuilder {
    /// The configuration that `build` would produce now.
    pub closed spec fn pending(self) -> Config {
        self.config
    }

    /// Start from the defaults, with the required API bearer token.
    pub fn new(token: String) -> (b: ConfigBuilder)
        ensures
            b.pending()@ == default_config_view(token@),
            is_default_config(b.pending(), token@),
    {
        ConfigBuilder {
            config: Config {
                token,
                endpoint: DEFAULT_ENDPOINT.to_owned(),
                batch_size: DEFAULT_BATCH_SIZE,
                flush_interval: default_flush_interval(),
                max_retries: DEFAULT_MAX_RETRIES,
                timeout: default_timeout(),
                gzip: true,
                default_metadata: Vec::new(),
            },
        }
    }

    /// Override the ingestion endpoint URL.
    pub fn endpoint(self, endpoint: String) -> (b: ConfigBuilder)
        ensures
            b.pending()@ == apply_setting(self.pending()@, ConfigSetting::Endpoint(endpoint@)),
            b.pending() == (Config { endpoint, ..self.pending() }),
    {
        let mut b = self;
        b.config.endpoint = endpoint;
        b
    }

    /// Number of entries to buffer before a flush (default: 10).
    pub fn batch_size(self, size: usize) -> (b: ConfigBuilder)
        ensures
            b.pending()@ == apply_setting(self.pending()@, ConfigSetting::BatchSize(size)),
            b.pending() == (Config { batch_size: size, ..self.pending() }),
    {
        let mut b = self;
        b.config.batch_size = size;
        b
    }

    /// Time between automatic flushes (default: 5 s).
    pub fn flush_interval(self, interval: Duration) -> (b: ConfigBuilder)
        ensures
            b.pending()@ == apply_setting(self.pending()@, ConfigSetting::FlushInterval(interval)),
            b.pending() == (Config { flush_interval: interval, ..self.pending() }),
    {
        let mut b = self;
        b.config.flush_interval = interval;
        b
    }

    /// Retries after a failed request (default: 3).
    pub fn max_retries(self, retries: u32) -> (b: ConfigBuilder)
        ensures
            b.pending()@ == apply_setting(self.pending()@, ConfigSetting::MaxRetries(retries)),
            b.pending() == (Config { max_retries: retries, ..self.pending() }),
    {
        let mut b = self;
        b.config.max_retries = retries;
        b
    }

    /// HTTP request timeout (default: 30 s).
    pub fn timeout(self, timeout: Duration) -> (b: ConfigBuilder)
        ensures
            b.pending()@ == apply_setting(self.pending()@, ConfigSetting::Timeout(timeout)),
            b.pending() == (Config { timeout, ..self.pending() }),
    {
        let mut b = self;
        b.config.timeout = timeout;
        b
    }

    /// Enable or disable gzip compression (default: enabled).
    pub fn gzip(self, enabled: bool) -> (b: ConfigBuilder)
        ensures
            b.pending()@ == apply_setting(self.pending()@, ConfigSetting::Gzip(enabled)),
            b.pending() == (Config { gzip: enabled, ..self.pending() }),
    {
        let mut b = self;
        b.config.gzip = enabled;
        b
    }

    /// Add a metadata field attached to every entry (after those added before).
    pub fn with_meta(self, key: String, value: serde_json::Value) -> (b: ConfigBuilder)
        ensures
            b.pending()@ == apply_setting(self.pending()@, ConfigSetting::Meta(key, value)),
            b.pending().token == self.pending().token,
            b.pending().endpoint == self.pending().endpoint,
            b.pending().batch_size == self.pending().batch_size,
            b.pending().flush_interval == self.pending().flush_interval,
            b.pending().max_retries == self.pending().max_retries,
            b.pending().timeout == self.pending().timeout,
            b.pending().gzip == self.pending().gzip,
            b.pending().default_metadata@ == self.pending().default_metadata@.push((key, value)),
    {
        let mut b = self;
        b.config.default_metadata.push((key, value));
        b
    }

    /// The configuration built so far.
    pub fn build(self) -> (c: Config)
        ensures
            c == self.pending(),
    {
        self.config
    }
}

} // verus!
