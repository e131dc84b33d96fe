//! Configuration of the extension.
//!
//! The settings and their defaults, a builder, and the meaning of the
//! environment variables that override them. Reading the environment and the
//! configuration file is up to the program.
use crate::table::Table;
use crate::text;
use crate::text::read_unsigned;
use crate::time::Duration;
use vstd::prelude::*;
use vstd::string::*;

verus! {

/// OTLP protocol for export.
#[non_exhaustive]
#[derive(Debug, Clone, Copy, PartialEq, Eq, Structural)]
pub enum Protocol {
    /// gRPC protocol (port 4317).
    Grpc,
    /// HTTP/protobuf protocol (port 4318).
    Http,
}

impl Default for Protocol {
    fn default() -> (p: Self)
        ensures
            p == Protocol::Http,
    {
        Protocol::Http
    }
}

/// Compression algorithm for OTLP export.
#[non_exhaustive]
#[derive(Debug, Clone, Copy, PartialEq, Eq, Structural)]
pub enum Compression {
    /// No compression.
    Uncompressed,
    /// Gzip compression.
    Gzip,
}

impl Default for Compression {
    fn default() -> (c: Self)
        ensures
            c == Compression::Gzip,
    {
        Compression::Gzip
    }
}

/// Flush strategy for buffered signals.
#[non_exhaustive]
#[derive(Debug, Clone, Copy, PartialEq, Eq, Structural)]
pub enum FlushStrategy {
    /// Adaptive strategy based on invocation patterns.
    Default,
    /// Flush at the end of each invocation.
    End,
    /// Periodic flush at fixed intervals.
    Periodic,
    /// Continuous flush every 20 seconds.
    Continuous,
}

impl Default for FlushStrategy {
    fn default() -> (s: Self)
        ensures
            s == FlushStrategy::Default,
    {
        FlushStrategy::Default
    }
}

/// How long to hold the `/next` poll waiting for invocation completion
/// signals before flushing in the post-invocation window.
#[derive(Debug, Clone, Copy, PartialEq, Eq, Structural)]
pub enum CompletionWait {
    /// Hold until a completion signal arrives, bounded by the invocation
    /// deadline.
    Auto,
    /// Never hold `/next`; flush opportunistically at the next INVOKE instead.
    Off,
    /// As `Auto`, but hold no longer than the given time.
    Cap(Duration),
}

impl Default for CompletionWait {
    fn default() -> (w: Self)
        ensures
            w == CompletionWait::Auto,
    {
        CompletionWait::Auto
    }
}

/// OTLP exporter configuration.
#[derive(Debug, Clone)]
pub struct ExporterConfig {
    /// OTLP endpoint URL.
    pub endpoint: Option<String>,
    /// Protocol to use for export.
    pub protocol: Protocol,
    /// Request timeout.
    pub timeout: Duration,
    /// Compression algorithm.
    pub compression: Compression,
    /// Additional headers to send with requests.
    pub headers: Table<String>,
}

impl Default for ExporterConfig {
    fn default() -> (c: Self)
        ensures
            c.endpoint is None,
            c.protocol == Protocol::Http,
            c.timeout@ == 500_000_000,
            c.compression == Compression::Gzip,
            c.headers.wf(),
            c.headers@ == Map::<Seq<char>, String>::empty(),
    {
        ExporterConfig {
            endpoint: None,
            protocol: Protocol::Http,
            timeout: Duration::from_millis(500),
            compression: Compression::Gzip,
            headers: Table::new(),
        }
    }
}

/// OTLP receiver configuration.
#[derive(Debug, Clone, Copy)]
pub struct ReceiverConfig {
    /// HTTP port (default 4318).
    pub http_port: u16,
    /// Whether to enable the HTTP receiver.
    pub http_enabled: bool,
}

impl Default for ReceiverConfig {
    fn default() -> (c: Self)
        ensures
            c == (ReceiverConfig { http_port: 4318, http_enabled: true }),
    {
        ReceiverConfig { http_port: 4318, http_enabled: true }
    }
}

/// Flush behaviour configuration.
#[derive(Debug, Clone, Copy)]
pub struct FlushConfig {
    /// Flush strategy to use.
    pub strategy: FlushStrategy,
    /// Periodic flush interval.
    pub interval: Duration,
    /// Maximum batch size in bytes.
    pub max_batch_bytes: usize,
    /// Maximum entries per batch.
    pub max_batch_entries: usize,
    /// How long to hold `/next` waiting for invocation completion.
    pub completion_wait: CompletionWait,
    /// Maximum bytes of encoded telemetry buffered across all signal queues.
    /// When the budget is exceeded, the oldest signals are dropped.
    pub max_queue_bytes: usize,
    /// Maximum number of signals buffered across all signal queues.
    pub max_queue_entries: usize,
}

/// The default queue budget for a function of the given memory size: a tenth of
/// the memory, but no less than 4 and no more than 32 MiB; 16 MiB where the size
/// is unknown.
pub open spec fn queue_budget(memory_mb: Option<nat>) -> nat {
    match memory_mb {
        Some(mb) => {
            let tenth = mb * 1_048_576 / 10;
            if tenth < 4_194_304 {
                4_194_304
            } else if tenth > 33_554_432 {
                33_554_432
            } else {
                tenth
            }
        },
        None => 16_777_216,
    }
}

/// The memory size, in MB, that the value of `AWS_LAMBDA_FUNCTION_MEMORY_SIZE` gives.
pub open spec fn memory_size(value: Option<Seq<char>>) -> Option<nat> {
    match value {
        Some(s) => text::parse_unsigned(s, usize::MAX as nat),
        None => None,
    }
}

/// Whether these are the default settings of flushing, for a function of the given
/// memory size.
pub open spec fn is_default_flush(c: FlushConfig, memory_mb: Option<nat>) -> bool {
    &&& c.strategy == FlushStrategy::Default
    &&& c.interval@ == 20_000_000_000
    &&& c.max_batch_bytes == 4_194_304
    &&& c.max_batch_entries == 1000
    &&& c.completion_wait == CompletionWait::Auto
    &&& c.max_queue_bytes == queue_budget(memory_mb)
    &&& c.max_queue_entries == 4096
}

/// Derives the default queue byte budget from the function's memory size, which
/// is the value of `AWS_LAMBDA_FUNCTION_MEMORY_SIZE` where that is set.
pub fn default_max_queue_bytes(memory_size_mb: Option<&str>) -> (n: usize)
    ensures
        n == queue_budget(memory_size(text::opt_str_view(memory_size_mb))),
{
    let mb: Option<u64> = match memory_size_mb {
        Some(s) => read_unsigned(s, usize::MAX as u64),
        None => None,
    };
    match mb {
        Some(mb) => {
            let tenth: u128 = mb as u128 * 1_048_576 / 10;
            if tenth < 4_194_304 {
                4_194_304
            } else if tenth > 33_554_432 {
                33_554_432
            } else {
                tenth as usize
            }
        },
        None => 16_777_216,
    }
}

impl FlushConfig {
    /// The default configuration for a function of the given memory size.
    pub fn for_memory_size(memory_size_mb: Option<&str>) -> (c: FlushConfig)
        ensures
            is_default_flush(c, memory_size(text::opt_str_view(memory_size_mb))),
    {
        FlushConfig {
            strategy: FlushStrategy::Default,
            interval: Duration::from_secs(20),
            max_batch_bytes: 4_194_304,
            max_batch_entries: 1000,
            completion_wait: CompletionWait::Auto,
            max_queue_bytes: default_max_queue_bytes(memory_size_mb),
            max_queue_entries: 4096,
        }
    }
}

/// The defaults where the memory size of the function is not known;
/// [`FlushConfig::for_memory_size`] gives those where it is.
impl Default for FlushConfig {
    fn default() -> (c: Self)
        ensures
            is_default_flush(c, None),
    {
        FlushConfig::for_memory_size(None)
    }
}

/// Span correlation configuration.
#[derive(Debug, Clone, Copy)]
pub struct CorrelationConfig {
    /// Maximum time to wait for parent span context.
    pub max_correlation_delay: Duration,
    /// Maximum buffered events per invocation.
    pub max_buffered_events_per_invocation: usize,
    /// Maximum total buffered events.
    pub max_total_buffered_events: usize,
    /// Maximum lifetime for invocation context.
    pub max_invocation_lifetime: Duration,
    /// Whether to emit orphaned spans without parent context.
    pub emit_orphaned_spans: bool,
}

/// Whether these are the default settings of span correlation.
pub open spec fn is_default_correlation(c: CorrelationConfig) -> bool {
    &&& c.max_correlation_delay@ == 500_000_000
    &&& c.max_buffered_events_per_invocation == 50
    &&& c.max_total_buffered_events == 500
    &&& c.max_invocation_lifetime@ == 900_000_000_000
    &&& c.emit_orphaned_spans
}

impl Default for CorrelationConfig {
    fn default() -> (c: Self)
        ensures
            is_default_correlation(c),
    {
        CorrelationConfig {
            max_correlation_delay: Duration::from_millis(500),
            max_buffered_events_per_invocation: 50,
            max_total_buffered_events: 500,
            max_invocation_lifetime: Duration::from_secs(15 * 60),
            emit_orphaned_spans: true,
        }
    }
}

/// Telemetry API configuration.
#[derive(Debug, Clone, Copy)]
pub struct TelemetryApiConfig {
    /// Whether to enable Telemetry API subscription.
    pub enabled: bool,
    /// Port for receiving Telemetry API events.
    pub listener_port: u16,
    /// Buffer size for Telemetry API events, and capacity of the channel that
    /// carries signals from the receiver to the aggregator.
    pub buffer_size: usize,
}

impl Default for TelemetryApiConfig {
    fn default() -> (c: Self)
        ensures
            c == (TelemetryApiConfig { enabled: true, listener_port: 9999, buffer_size: 256 }),
    {
        TelemetryApiConfig { enabled: true, listener_port: 9999, buffer_size: 256 }
    }
}

/// Main configuration struct for the extension.
#[derive(Debug, Clone)]
pub struct Config {
    /// OTLP exporter configuration.
    pub exporter: ExporterConfig,
    /// OTLP receiver configuration.
    pub receiver: ReceiverConfig,
    /// Flush behaviour configuration.
    pub flush: FlushConfig,
    /// Span correlation configuration.
    pub correlation: CorrelationConfig,
    /// Telemetry API configuration.
    pub telemetry_api: TelemetryApiConfig,
}

/// Whether every setting has its default value, for a function of the given memory
/// size.
pub open spec fn is_default_for(c: Config, memory_mb: Option<nat>) -> bool {
    &&& c.exporter.endpoint is None
    &&& c.exporter.protocol == Protocol::Http
    &&& c.exporter.timeout@ == 500_000_000
    &&& c.exporter.compression == Compression::Gzip
    &&& c.exporter.headers.wf()
    &&& c.exporter.headers@ == Map::<Seq<char>, String>::empty()
    &&& c.receiver == (ReceiverConfig { http_port: 4318, http_enabled: true })
    &&& is_default_flush(c.flush, memory_mb)
    &&& is_default_correlation(c.correlation)
    &&& c.telemetry_api == (TelemetryApiConfig {
        enabled: true,
        listener_port: 9999,
        buffer_size: 256,
    })
}

/// Whether every setting has its default value, with the queue budget of a
/// function of unknown memory size.
pub open spec fn is_default_config(c: Config) -> bool {
    is_default_for(c, None)
}

/// The defaults where the memory size of the function is not known;
/// [`Config::for_memory_size`] gives those where it is.
impl Default for Config {
    fn default() -> (c: Self)
        ensures
            is_default_config(c),
    {
        Config::for_memory_size(None)
    }
}

impl Config {
    /// The default configuration for a function of the given memory size, which is
    /// the value of `AWS_LAMBDA_FUNCTION_MEMORY_SIZE` where that is set.
    pub fn for_memory_size(memory_size_mb: Option<&str>) -> (c: Config)
        ensures
            is_default_for(c, memory_size(text::opt_str_view(memory_size_mb))),
    {
        Config {
            exporter: ExporterConfig::default(),
            receiver: ReceiverConfig::default(),
            flush: FlushConfig::for_memory_size(memory_size_mb),
            correlation: CorrelationConfig::default(),
            telemetry_api: TelemetryApiConfig::default(),
        }
    }

    /// Creates a new config builder.
    pub fn builder() -> (b: ConfigBuilder)
        ensures
            is_default_config(b.config),
    {
        ConfigBuilder::new()
    }
}

/// Builder for constructing configuration programmatically.
#[must_use]
pub struct ConfigBuilder {
    /// The configuration built so far.
    pub config: Config,
}

impl ConfigBuilder {
    /// Creates a new config builder with default values.
    pub fn new() -> (b: Self)
        ensures
            is_default_config(b.config),
    {
        ConfigBuilder { config: Config::default() }
    }

    /// Sets the exporter endpoint.
    pub fn exporter_endpoint(self, endpoint: &str) -> (b: Self)
        ensures
            text::opt_view(b.config.exporter.endpoint) == Some(endpoint@),
            b.config == (Config {
                exporter: ExporterConfig {
                    endpoint: b.config.exporter.endpoint,
                    ..self.config.exporter
                },
                ..self.config
            }),
    {
        let mut config = self.config;
        config.exporter.endpoint = Some(endpoint.to_owned());
        ConfigBuilder { config }
    }

    /// Sets the exporter protocol.
    pub fn exporter_protocol(self, protocol: Protocol) -> (b: Self)
        ensures
            b.config == (Config {
                exporter: ExporterConfig { protocol, ..self.config.exporter },
                ..self.config
            }),
    {
        let mut config = self.config;
        config.exporter.protocol = protocol;
        ConfigBuilder { config }
    }

    /// Sets the exporter timeout.
    pub fn exporter_timeout(self, timeout: Duration) -> (b: Self)
        ensures
            b.config == (Config {
                exporter: ExporterConfig { timeout, ..self.config.exporter },
                ..self.config
            }),
    {
        let mut config = self.config;
        config.exporter.timeout = timeout;
        ConfigBuilder { config }
    }

    /// Sets the flush strategy.
    pub fn flush_strategy(self, strategy: FlushStrategy) -> (b: Self)
        ensures
            b.config == (Config {
                flush: FlushConfig { strategy, ..self.config.flush },
                ..self.config
            }),
    {
        let mut config = self.config;
        config.flush.strategy = strategy;
        ConfigBuilder { config }
    }

    /// Sets the flush interval.
    pub fn flush_interval(self, interval: Duration) -> (b: Self)
        ensures
            b.config == (Config {
                flush: FlushConfig { interval, ..self.config.flush },
                ..self.config
            }),
    {
        let mut config = self.config;
        config.flush.interval = interval;
        ConfigBuilder { config }
    }

    /// Sets the correlation delay.
    pub fn correlation_delay(self, delay: Duration) -> (b: Self)
        ensures
            b.config == (Config {
                correlation: CorrelationConfig {
                    max_correlation_delay: delay,
                    ..self.config.correlation
                },
                ..self.config
            }),
    {
        let mut config = self.config;
        config.correlation.max_correlation_delay = delay;
        ConfigBuilder { config }
    }

    /// Sets whether to emit orphaned spans.
    pub fn emit_orphaned_spans(self, emit: bool) -> (b: Self)
        ensures
            b.config == (Config {
                correlation: CorrelationConfig {
                    emit_orphaned_spans: emit,
                    ..self.config.correlation
                },
                ..self.config
            }),
    {
        let mut config = self.config;
        config.correlation.emit_orphaned_spans = emit;
        ConfigBuilder { config }
    }

    /// Enables or disables the HTTP receiver.
    pub fn http_receiver(self, enabled: bool) -> (b: Self)
        ensures
            b.config == (Config {
                receiver: ReceiverConfig { http_enabled: enabled, ..self.config.receiver },
                ..self.config
            }),
    {
        let mut config = self.config;
        config.receiver.http_enabled = enabled;
        ConfigBuilder { config }
    }

    /// Sets the HTTP receiver port.
    pub fn http_port(self, port: u16) -> (b: Self)
        ensures
            b.config == (Config {
                receiver: ReceiverConfig { http_port: port, ..self.config.receiver },
                ..self.config
            }),
    {
        let mut config = self.config;
        config.receiver.http_port = port;
        ConfigBuilder { config }
    }

    /// Enables or disables the Telemetry API.
    pub fn telemetry_api(self, enabled: bool) -> (b: Self)
        ensures
            b.config == (Config {
                telemetry_api: TelemetryApiConfig { enabled, ..self.config.telemetry_api },
                ..self.config
            }),
    {
        let mut config = self.config;
        config.telemetry_api.enabled = enabled;
        ConfigBuilder { config }
    }

    /// Builds the configuration.
    pub fn build(self) -> (c: Config)
        ensures
            c == self.config,
    {
        self.config
    }
}

impl Default for ConfigBuilder {
    fn default() -> (b: Self)
        ensures
            is_default_config(b.config),
    {
        ConfigBuilder::new()
    }
}

/// The values of the standard OpenTelemetry environment variables.
#[derive(Debug, Clone)]
pub struct OtelEnvironment {
    /// `OTEL_EXPORTER_OTLP_ENDPOINT`.
    pub endpoint: Option<String>,
    /// `OTEL_EXPORTER_OTLP_PROTOCOL`.
    pub protocol: Option<String>,
    /// `OTEL_EXPORTER_OTLP_COMPRESSION`.
    pub compression: Option<String>,
    /// `OTEL_EXPORTER_OTLP_HEADERS`.
    pub headers: Option<String>,
}

/// The exporter settings that the standard environment variables override.
#[derive(Debug, Clone)]
pub struct PartialExporterConfig {
    /// OTLP endpoint URL, where it is overridden.
    pub endpoint: Option<String>,
    /// Protocol, where it is overridden.
    pub protocol: Option<Protocol>,
    /// Compression, where it is overridden.
    pub compression: Option<Compression>,
    /// Additional headers.
    pub headers: Table<String>,
}

/// The protocol that a value of `OTEL_EXPORTER_OTLP_PROTOCOL` names, in any case.
pub open spec fn protocol_named(value: Seq<char>) -> Option<Protocol> {
    let lower = text::ascii_lower_all(value);
    if lower == "grpc"@ {
        Some(Protocol::Grpc)
    } else if lower == "http/protobuf"@ || lower == "http"@ {
        Some(Protocol::Http)
    } else {
        None
    }
}

/// The compression that a value of `OTEL_EXPORTER_OTLP_COMPRESSION` names, in any case.
pub open spec fn compression_named(value: Seq<char>) -> Option<Compression> {
    let lower = text::ascii_lower_all(value);
    if lower == "gzip"@ {
        Some(Compression::Gzip)
    } else if lower == "none"@ {
        Some(Compression::Uncompressed)
    } else {
        None
    }
}

/// The headers with one more `name=value` pair, which replaces an earlier one of
/// that name; a pair without `=` adds nothing.
pub open spec fn with_pair(headers: Map<Seq<char>, Seq<char>>, pair: Seq<char>) -> Map<
    Seq<char>,
    Seq<char>,
> {
    match text::split_once(pair, '=') {
        Some(p) => headers.insert(text::trim(p.0), text::trim(p.1)),
        None => headers,
    }
}

/// The headers that a list of `name=value` pairs stands for.
pub open spec fn pairs_map(pairs: Seq<Seq<char>>) -> Map<Seq<char>, Seq<char>>
    decreases pairs.len(),
{
    if pairs.len() == 0 {
        Map::empty()
    } else {
        with_pair(pairs_map(pairs.drop_last()), pairs.last())
    }
}

/// The headers that a value of `OTEL_EXPORTER_OTLP_HEADERS` stands for.
pub open spec fn headers_named(value: Seq<char>) -> Map<Seq<char>, Seq<char>> {
    pairs_map(text::split(value, ','))
}

/// A table of strings, with each value as its characters.
pub open spec fn string_table(t: Table<String>) -> Map<Seq<char>, Seq<char>> {
    t@.map_values(|v: String| v@)
}

/// Reads the name of a protocol.
pub fn parse_protocol(value: &str) -> (p: Option<Protocol>)
    ensures
        p == protocol_named(value@),
{
    let lower = text::to_ascii_lower(value);
    if text::equal(lower.as_str(), "grpc") {
        Some(Protocol::Grpc)
    } else if text::equal(lower.as_str(), "http/protobuf") || text::equal(lower.as_str(), "http") {
        Some(Protocol::Http)
    } else {
        None
    }
}

/// Reads the name of a compression algorithm.
pub fn parse_compression(value: &str) -> (c: Option<Compression>)
    ensures
        c == compression_named(value@),
{
    let lower = text::to_ascii_lower(value);
    if text::equal(lower.as_str(), "gzip") {
        Some(Compression::Gzip)
    } else if text::equal(lower.as_str(), "none") {
        Some(Compression::Uncompressed)
    } else {
        None
    }
}

/// Reads a comma-separated list of headers.
pub fn parse_headers(value: &str) -> (t: Table<String>)
    ensures
        t.wf(),
        string_table(t) == headers_named(value@),
{
    let pairs = text::split_str(value, ',');
    let mut t: Table<String> = Table::new();
    let ghost all = text::views(pairs@);
    let mut i: usize = 0;
    proof {
        assert(string_table(t) =~= Map::<Seq<char>, Seq<char>>::empty());
        assert(all.take(0) =~= Seq::<Seq<char>>::empty());
    }
    while i < pairs.len()
        invariant
            i <= pairs.len(),
            t.wf(),
            all == text::views(pairs@),
            string_table(t) == pairs_map(all.take(i as int)),
        decreases pairs.len() - i,
    {
        let ghost before = t;
        proof {
            assert(all.take(i + 1).drop_last() =~= all.take(i as int));
            assert(all.take(i + 1).last() == pairs@[i as int]@);
        }
        if let Some((name, text)) = text::split_once_str(pairs[i], '=') {
            let name = text::trim_str(name).to_owned();
            let text = text::trim_str(text).to_owned();
            t.insert(name, text);
            proof {
                assert(string_table(t) =~= string_table(before).insert(name@, text@));
            }
        }
        i = i + 1;
    }
    assert(all.take(i as int) =~= all);
    t
}

/// Whether no setting is overridden.
pub fn is_partial_exporter_empty(config: &PartialExporterConfig) -> (r: bool)
    requires
        config.headers.wf(),
    ensures
        r == (config.endpoint is None && config.protocol is None && config.compression is None
            && config.headers@.dom() == Set::<Seq<char>>::empty()),
{
    let n: usize = config.headers.len();
    proof {
        config.headers.lemma_listed();
        if n == 0 {
            assert(config.headers@.dom() =~= Set::<Seq<char>>::empty());
        }
    }
    config.endpoint.is_none() && config.protocol.is_none() && config.compression.is_none() && n
        == 0
}

/// The exporter settings that the standard environment variables give. A
/// variable that is not set, or that names no known protocol or compression,
/// overrides nothing.
pub fn standard_otel_env(env: OtelEnvironment) -> (c: PartialExporterConfig)
    ensures
        c.endpoint == env.endpoint,
        c.protocol == (match env.protocol {
            Some(v) => protocol_named(v@),
            None => None,
        }),
        c.compression == (match env.compression {
            Some(v) => compression_named(v@),
            None => None,
        }),
        c.headers.wf(),
        string_table(c.headers) == (match env.headers {
            Some(v) => headers_named(v@),
            None => Map::empty(),
        }),
{
    let protocol = match &env.protocol {
        Some(v) => parse_protocol(v.as_str()),
        None => None,
    };
    let compression = match &env.compression {
        Some(v) => parse_compression(v.as_str()),
        None => None,
    };
    let headers = match &env.headers {
        Some(v) => parse_headers(v.as_str()),
        None => Table::new(),
    };
    proof {
        if env.headers is None {
            assert(string_table(headers) =~= Map::<Seq<char>, Seq<char>>::empty());
        }
    }
    PartialExporterConfig { endpoint: env.endpoint, protocol, compression, headers }
}

/// The configuration path of a key in the given section: `section.field` for a
/// key `section_field`.
pub open spec fn key_in_section(key: Seq<char>, section: Seq<char>) -> Option<Seq<char>> {
    match text::strip_prefix(key, section.push('_')) {
        Some(field) => Some(section.push('.') + field),
        None => None,
    }
}

/// The configuration path of an environment variable, less its prefix. The part
/// before the field is one of the known sections, since both sections and fields
/// may hold underscores.
pub open spec fn config_key(key: Seq<char>) -> Seq<char> {
    let lower = text::ascii_lower_all(key);
    match key_in_section(lower, "telemetry_api"@) {
        Some(path) => path,
        None => match key_in_section(lower, "exporter"@) {
            Some(path) => path,
            None => match key_in_section(lower, "receiver"@) {
                Some(path) => path,
                None => match key_in_section(lower, "flush"@) {
                    Some(path) => path,
                    None => match key_in_section(lower, "correlation"@) {
                        Some(path) => path,
                        None => lower,
                    },
                },
            },
        },
    }
}

/// Maps a key onto a path in the given section.
fn section_path(key: &str, section: &str) -> (r: Option<String>)
    ensures
        text::opt_view(r) == key_in_section(key@, section@),
{
    let mut prefix = section.to_owned();
    prefix.push('_');
    match text::strip_prefix_str(key, prefix.as_str()) {
        Some(field) => {
            let mut path = section.to_owned();
            path.push('.');
            path.append(field);
            Some(path)
        },
        None => None,
    }
}

/// Maps the name of an environment variable, less its prefix, onto a
/// configuration path.
pub fn env_config_key(key: &str) -> (path: String)
    ensures
        path@ == config_key(key@),
{
    let lower = text::to_ascii_lower(key);
    if let Some(path) = section_path(lower.as_str(), "telemetry_api") {
        return path;
    }
    if let Some(path) = section_path(lower.as_str(), "exporter") {
        return path;
    }
    if let Some(path) = section_path(lower.as_str(), "receiver") {
        return path;
    }
    if let Some(path) = section_path(lower.as_str(), "flush") {
        return path;
    }
    if let Some(path) = section_path(lower.as_str(), "correlation") {
        return path;
    }
    lower
}

/// The names of the configuration sections.
pub open spec fn is_section(section: Seq<char>) -> bool {
    ||| section == "telemetry_api"@
    ||| section == "exporter"@
    ||| section == "receiver"@
    ||| section == "flush"@
    ||| section == "correlation"@
}

/// Every field of every section can be reached, whatever underscores its name
/// holds: `SECTION_FIELD`, in any case, is the field of that section.
pub proof fn law_every_field_is_reachable(key: Seq<char>, section: Seq<char>, field: Seq<char>)
    requires
        is_section(section),
        text::ascii_lower_all(key) == section.push('_') + field,
    ensures
        config_key(key) == section.push('.') + field,
{
    reveal_strlit("telemetry_api");
    reveal_strlit("exporter");
    reveal_strlit("receiver");
    reveal_strlit("flush");
    reveal_strlit("correlation");
    let lower = text::ascii_lower_all(key);
    let prefix = section.push('_');
    assert(lower.subrange(0, prefix.len() as int) =~= prefix);
    assert(lower.skip(prefix.len() as int) =~= field);
    assert(key_in_section(lower, section) == Some(section.push('.') + field));
    assert(lower[0] == section[0]);
    assert forall|other: Seq<char>| is_section(other) && other != section implies key_in_section(
        lower,
        other,
    ) is None by {
        let p = other.push('_');
        if p.is_prefix_of(lower) {
            assert(lower.subrange(0, p.len() as int)[0] == p[0]);
            assert(p[0] == other[0]);
        }
    }
}

/// The queue takes a tenth of the memory, between 4 and 32 MiB, and 16 MiB where the memory
/// is not known.
pub proof fn law_the_queue_takes_a_tenth_of_the_memory(memory_mb: nat, more: nat)
    requires
        memory_mb <= more,
    ensures
        queue_budget(None) == 16 * 1024 * 1024,
        memory_mb <= 40 ==> queue_budget(Some(memory_mb)) == 4 * 1024 * 1024,
        memory_mb > 320 ==> queue_budget(Some(memory_mb)) == 32 * 1024 * 1024,
        40 <= memory_mb <= 320 ==> 10 * queue_budget(Some(memory_mb)) <= memory_mb * 1024 * 1024
            < 10 * queue_budget(Some(memory_mb)) + 10,
        queue_budget(Some(memory_mb)) <= queue_budget(Some(more)),
{
}

/// The memory size is what its variable says in decimal; one that is not set, or says no
/// number, tells nothing.
pub proof fn law_the_memory_size_is_read(n: nat, s: Seq<char>, i: int)
    requires
        n <= usize::MAX,
        0 <= i < s.len(),
        !('0' <= s[i] <= '9'),
        i > 0 || (s[0] != '+' && s[0] != '-'),
    ensures
        memory_size(Some(text::decimal(n))) == Some(n),
        memory_size(Some(s)) is None,
        memory_size(None) is None,
{
    text::law_decimal_reads_back(n, usize::MAX as nat);
    text::law_only_digits_are_numbers(s, i, usize::MAX as nat);
}

/// The defaults are those that are documented.
pub proof fn law_defaults_are_as_documented(c: Config, memory_mb: Option<nat>)
    requires
        is_default_for(c, memory_mb),
    ensures
        c.exporter.endpoint is None,
        c.exporter.protocol == Protocol::Http,
        c.exporter.timeout@ == 500 * 1_000_000,
        c.exporter.compression == Compression::Gzip,
        c.exporter.headers@.dom() == Set::<Seq<char>>::empty(),
        c.receiver.http_port == 4318,
        c.receiver.http_enabled,
        c.telemetry_api.enabled,
        c.telemetry_api.listener_port == 9999,
        c.telemetry_api.buffer_size == 256,
        c.flush.strategy == FlushStrategy::Default,
        c.flush.interval@ == 20 * 1_000_000_000,
        c.flush.max_batch_bytes == 4 * 1024 * 1024,
        c.flush.max_batch_entries == 1000,
        c.flush.completion_wait == CompletionWait::Auto,
        c.flush.max_queue_bytes == queue_budget(memory_mb),
        c.flush.max_queue_entries == 4096,
        c.correlation.max_correlation_delay@ == 500 * 1_000_000,
        c.correlation.max_buffered_events_per_invocation == 50,
        c.correlation.max_total_buffered_events == 500,
        c.correlation.max_invocation_lifetime@ == 15 * 60 * 1_000_000_000,
        c.correlation.emit_orphaned_spans,
        is_default_config(c) ==> c.flush.max_queue_bytes == 16 * 1024 * 1024,
{
    assert(c.exporter.headers@.dom() =~= Set::<Seq<char>>::empty());
}

/// A protocol and a compression are named by their words, in any case of the letters, and
/// by no other.
pub proof fn law_words_name_protocols_and_compressions(value: Seq<char>)
    ensures
        protocol_named(value) == Some(Protocol::Grpc) <==> text::ascii_lower_all(value)
            == "grpc"@,
        protocol_named(value) == Some(Protocol::Http) <==> text::ascii_lower_all(value)
            == "http/protobuf"@ || text::ascii_lower_all(value) == "http"@,
        compression_named(value) == Some(Compression::Gzip) <==> text::ascii_lower_all(value)
            == "gzip"@,
        compression_named(value) == Some(Compression::Uncompressed) <==> text::ascii_lower_all(
            value,
        ) == "none"@,
{
    reveal_strlit("grpc");
    reveal_strlit("http/protobuf");
    reveal_strlit("http");
    reveal_strlit("gzip");
    reveal_strlit("none");
    assert("grpc"@[0] != "http"@[0]);
    assert("grpc"@.len() != "http/protobuf"@.len());
    assert("gzip"@[0] != "none"@[0]);
}

/// A pair sets the header of its name to its value, both without white space around them; a
/// value may hold `=` itself. What has no `=` sets nothing, and no other header changes.
pub proof fn law_a_pair_sets_its_header(
    headers: Map<Seq<char>, Seq<char>>,
    name: Seq<char>,
    value: Seq<char>,
    other: Seq<char>,
)
    requires
        text::free_of(name, '='),
        other != text::trim(name),
    ensures
        ({
            let after = with_pair(headers, name.push('=') + value);
            &&& after.dom().contains(text::trim(name))
            &&& after[text::trim(name)] == text::trim(value)
            &&& after.dom().contains(other) == headers.dom().contains(other)
            &&& headers.dom().contains(other) ==> after[other] == headers[other]
        }),
        with_pair(headers, name) == headers,
{
    text::lemma_split_join(name, '=', value);
    text::lemma_split_single(name, '=');
}

/// A list of headers is read pair by pair, and a later one replaces an earlier one of its
/// name.
pub proof fn law_headers_are_read_pair_by_pair(front: Seq<char>, pair: Seq<char>)
    requires
        text::free_of(pair, ','),
    ensures
        headers_named(front.push(',') + pair) == with_pair(headers_named(front), pair),
        headers_named(pair) == with_pair(Map::empty(), pair),
{
    text::law_the_last_part_follows_the_last_separator(front, ',', pair);
    let all = text::split(front.push(',') + pair, ',');
    assert(all.drop_last() =~= text::split(front, ','));
    assert(all.last() == pair);
    text::lemma_split_single(pair, ',');
    assert(seq![pair].drop_last() =~= Seq::<Seq<char>>::empty());
    assert(pairs_map(Seq::<Seq<char>>::empty()) == Map::<Seq<char>, Seq<char>>::empty());
}

/// The five sections are reached by their names, in any case: `SECTION_FIELD` is the field
/// of its section, whatever underscores it holds. A key of no section is told in lower
/// case.
pub proof fn law_sections_are_reached_by_name(key: Seq<char>, field: Seq<char>)
    ensures
        ({
            let lower = text::ascii_lower_all(key);
            let path = config_key(key);
            &&& lower == "telemetry_api"@.push('_') + field ==> path == "telemetry_api"@.push('.')
                + field
            &&& lower == "exporter"@.push('_') + field ==> path == "exporter"@.push('.') + field
            &&& lower == "receiver"@.push('_') + field ==> path == "receiver"@.push('.') + field
            &&& lower == "flush"@.push('_') + field ==> path == "flush"@.push('.') + field
            &&& lower == "correlation"@.push('_') + field ==> path == "correlation"@.push('.')
                + field
            &&& text::free_of(lower, '_') ==> path == lower
        }),
{
    let lower = text::ascii_lower_all(key);
    if lower == "telemetry_api"@.push('_') + field {
        law_every_field_is_reachable(key, "telemetry_api"@, field);
    }
    if lower == "exporter"@.push('_') + field {
        law_every_field_is_reachable(key, "exporter"@, field);
    }
    if lower == "receiver"@.push('_') + field {
        law_every_field_is_reachable(key, "receiver"@, field);
    }
    if lower == "flush"@.push('_') + field {
        law_every_field_is_reachable(key, "flush"@, field);
    }
    if lower == "correlation"@.push('_') + field {
        law_every_field_is_reachable(key, "correlation"@, field);
    }
    if text::free_of(lower, '_') {
        assert forall|section: Seq<char>| #[trigger] key_in_section(lower, section) is None by {
            let p = section.push('_');
            if p.is_prefix_of(lower) {
                assert(lower.subrange(0, p.len() as int)[p.len() - 1] == p[p.len() - 1]);
                assert(lower[p.len() - 1] == '_');
            }
        }
        assert(key_in_section(lower, "telemetry_api"@) is None);
        assert(key_in_section(lower, "exporter"@) is None);
        assert(key_in_section(lower, "receiver"@) is None);
        assert(key_in_section(lower, "flush"@) is None);
        assert(key_in_section(lower, "correlation"@) is None);
    }
}

/// The standard variables override what they name, and nothing else: the endpoint as it is,
/// the protocol and the compression by their words, the headers by their pairs.
pub proof fn law_standard_variables_override_what_they_name(
    env: OtelEnvironment,
    c: PartialExporterConfig,
    empty: bool,
)
    requires
        call_ensures(standard_otel_env, (env,), c),
        call_ensures(is_partial_exporter_empty, (&c,), empty),
    ensures
        c.endpoint == env.endpoint,
        env.protocol is None ==> c.protocol is None,
        env.protocol is Some ==> {
            &&& c.protocol == Some(Protocol::Grpc) <==> text::ascii_lower_all(env.protocol->0@)
                == "grpc"@
            &&& c.protocol == Some(Protocol::Http) <==> text::ascii_lower_all(env.protocol->0@)
                == "http/protobuf"@ || text::ascii_lower_all(env.protocol->0@) == "http"@
        },
        env.compression is None ==> c.compression is None,
        env.compression is Some ==> {
            &&& c.compression == Some(Compression::Gzip) <==> text::ascii_lower_all(
                env.compression->0@,
            ) == "gzip"@
            &&& c.compression == Some(Compression::Uncompressed) <==> text::ascii_lower_all(
                env.compression->0@,
            ) == "none"@
        },
        env.headers is None ==> string_table(c.headers).dom() == Set::<Seq<char>>::empty(),
        env.headers is Some ==> string_table(c.headers) == headers_named(env.headers->0@),
        env.endpoint is Some ==> !empty,
        env.endpoint is None && env.protocol is None && env.compression is None
            && env.headers is None ==> empty,
{
    if env.protocol is Some {
        law_words_name_protocols_and_compressions(env.protocol->0@);
    }
    if env.compression is Some {
        law_words_name_protocols_and_compressions(env.compression->0@);
    }
    if env.headers is None {
        assert(string_table(c.headers).dom() =~= Set::<Seq<char>>::empty());
        assert(c.headers@.dom() =~= string_table(c.headers).dom());
    }
}

/// A builder changes the setting that it names, and no other.
pub proof fn law_a_builder_sets_what_it_names(
    b: ConfigBuilder,
    endpoint: &str,
    protocol: Protocol,
    timeout: Duration,
    strategy: FlushStrategy,
    port: u16,
    a1: ConfigBuilder,
    a2: ConfigBuilder,
    a3: ConfigBuilder,
    a4: ConfigBuilder,
    a5: ConfigBuilder,
)
    requires
        call_ensures(ConfigBuilder::exporter_endpoint, (b, endpoint), a1),
        call_ensures(ConfigBuilder::exporter_protocol, (b, protocol), a2),
        call_ensures(ConfigBuilder::exporter_timeout, (b, timeout), a3),
        call_ensures(ConfigBuilder::flush_strategy, (b, strategy), a4),
        call_ensures(ConfigBuilder::http_port, (b, port), a5),
    ensures
        a1.config.exporter.endpoint is Some && a1.config.exporter.endpoint->0@ == endpoint@,
        a1.config.exporter.protocol == b.config.exporter.protocol,
        a1.config.flush == b.config.flush,
        a2.config.exporter.protocol == protocol,
        a2.config.exporter.endpoint == b.config.exporter.endpoint,
        a3.config.exporter.timeout == timeout,
        a3.config.exporter.endpoint == b.config.exporter.endpoint,
        a4.config.flush.strategy == strategy,
        a4.config.flush.interval == b.config.flush.interval,
        a5.config.receiver.http_port == port,
        a5.config.receiver.http_enabled == b.config.receiver.http_enabled,
{
}

} // verus!
