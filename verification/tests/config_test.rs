//! Tests of the configuration.
use figment::providers::Env;
use figment::Figment;
use opentelemetry_lambda::config::{
    default_max_queue_bytes, env_config_key, is_partial_exporter_empty, parse_compression,
    parse_headers, parse_protocol, standard_otel_env, Compression, CompletionWait, Config,
    FlushConfig, FlushStrategy, OtelEnvironment, Protocol,
};
use opentelemetry_lambda::table::Table;
use opentelemetry_lambda::time::Duration;

#[test]
fn test_default_config() {
    let config = Config::default();

    assert!(config.exporter.endpoint.is_none());
    assert_eq!(config.exporter.protocol, Protocol::Http);
    assert_eq!(config.exporter.timeout, Duration::from_millis(500));
    assert_eq!(config.exporter.compression, Compression::Gzip);

    assert_eq!(config.receiver.http_port, 4318);
    assert!(config.receiver.http_enabled);

    assert_eq!(config.flush.strategy, FlushStrategy::Default);
    assert_eq!(config.flush.interval, Duration::from_secs(20));

    assert_eq!(config.correlation.max_correlation_delay, Duration::from_millis(500));
    assert!(config.correlation.emit_orphaned_spans);

    assert!(config.telemetry_api.enabled);
}

#[test]
fn test_config_builder() {
    let config = Config::builder()
        .exporter_endpoint("https://collector:4318")
        .exporter_protocol(Protocol::Grpc)
        .exporter_timeout(Duration::from_millis(1000))
        .flush_strategy(FlushStrategy::Continuous)
        .flush_interval(Duration::from_secs(10))
        .correlation_delay(Duration::from_millis(200))
        .emit_orphaned_spans(false)
        .http_receiver(true)
        .http_port(5318)
        .telemetry_api(false)
        .build();

    assert_eq!(config.exporter.endpoint, Some("https://collector:4318".to_string()));
    assert_eq!(config.exporter.protocol, Protocol::Grpc);
    assert_eq!(config.exporter.timeout, Duration::from_millis(1000));
    assert_eq!(config.flush.strategy, FlushStrategy::Continuous);
    assert_eq!(config.flush.interval, Duration::from_secs(10));
    assert_eq!(config.correlation.max_correlation_delay, Duration::from_millis(200));
    assert!(!config.correlation.emit_orphaned_spans);
    assert!(config.receiver.http_enabled);
    assert_eq!(config.receiver.http_port, 5318);
    assert!(!config.telemetry_api.enabled);
}

#[test]
fn test_env_vars_map_to_multi_word_fields() {
    temp_env::with_vars(
        [
            ("LAMBDA_OTEL_RECEIVER_HTTP_PORT", Some("24418")),
            ("LAMBDA_OTEL_FLUSH_MAX_BATCH_ENTRIES", Some("42")),
            ("LAMBDA_OTEL_TELEMETRY_API_BUFFER_SIZE", Some("77")),
            ("LAMBDA_OTEL_EXPORTER_ENDPOINT", Some("http://env:4318")),
        ],
        || {
            let env = Env::prefixed("LAMBDA_OTEL_")
                .map(|key| env_config_key(key.as_str()).into())
                .split(".");
            let figment = Figment::new().merge(env);

            assert_eq!(figment.extract_inner::<u16>("receiver.http_port").unwrap(), 24418);
            assert_eq!(figment.extract_inner::<usize>("flush.max_batch_entries").unwrap(), 42);
            assert_eq!(figment.extract_inner::<usize>("telemetry_api.buffer_size").unwrap(), 77);
            assert_eq!(
                figment.extract_inner::<Option<String>>("exporter.endpoint").unwrap(),
                Some("http://env:4318".to_string())
            );
        },
    );
}

#[test]
fn other_variables_map_to_no_section() {
    assert_eq!(
        env_config_key("Correlation_Max_Correlation_Delay"),
        "correlation.max_correlation_delay"
    );
    assert_eq!(env_config_key("FLUSH"), "flush");
    assert_eq!(env_config_key("SOMETHING_ELSE"), "something_else");
}

#[test]
fn the_queue_budget_follows_the_memory() {
    assert_eq!(default_max_queue_bytes(None), 16 * 1024 * 1024);
    assert_eq!(default_max_queue_bytes(Some("nonsense")), 16 * 1024 * 1024);
    assert_eq!(default_max_queue_bytes(Some("1")), 4 * 1024 * 1024);
    assert_eq!(default_max_queue_bytes(Some("128")), 128 * 1024 * 1024 / 10);
    assert_eq!(default_max_queue_bytes(Some("10240")), 32 * 1024 * 1024);
    assert_eq!(
        FlushConfig::for_memory_size(Some("128")).max_queue_bytes,
        128 * 1024 * 1024 / 10
    );
    assert_eq!(FlushConfig::default().completion_wait, CompletionWait::default());
}

#[test]
fn names_of_protocols_and_compressions() {
    assert_eq!(parse_protocol("GRPC"), Some(Protocol::Grpc));
    assert_eq!(parse_protocol("http/protobuf"), Some(Protocol::Http));
    assert_eq!(parse_protocol("http"), Some(Protocol::Http));
    assert_eq!(parse_protocol("http/json"), None);
    assert_eq!(parse_compression("gzip"), Some(Compression::Gzip));
    assert_eq!(parse_compression("None"), Some(Compression::Uncompressed));
    assert_eq!(parse_compression("zstd"), None);
}

fn header<'a>(t: &'a Table<String>, key: &str) -> Option<&'a str> {
    t.get(key).map(|s| s.as_str())
}

#[test]
fn headers_are_pairs() {
    let t = parse_headers("a=1, b = 2 ,nothing,a=3=4,c=");
    assert_eq!(t.len(), 3);
    assert_eq!(header(&t, "a"), Some("3=4"));
    assert_eq!(header(&t, "b"), Some("2"));
    assert_eq!(header(&t, "c"), Some(""));
}

#[test]
fn standard_variables_override_the_exporter() {
    let unset = || OtelEnvironment {
        endpoint: None,
        protocol: None,
        compression: None,
        headers: None,
    };
    assert!(is_partial_exporter_empty(&standard_otel_env(unset())));
    let mut env = unset();
    env.endpoint = Some("http://c:4318".to_string());
    env.protocol = Some("grpc".to_string());
    env.compression = Some("unknown".to_string());
    env.headers = Some("k=v".to_string());
    let partial = standard_otel_env(env);
    assert!(!is_partial_exporter_empty(&partial));
    assert_eq!(partial.endpoint, Some("http://c:4318".to_string()));
    assert_eq!(partial.protocol, Some(Protocol::Grpc));
    assert_eq!(partial.compression, None);
    assert_eq!(header(&partial.headers, "k"), Some("v"));
}

#[test]
fn a_table_holds_each_key_once() {
    let mut t: Table<u8> = Table::new();
    t.insert("a".to_string(), 1);
    t.insert("b".to_string(), 2);
    t.insert("a".to_string(), 3);
    assert_eq!(t.len(), 2);
    assert_eq!(t.get("a"), Some(&3));
    assert!(t.contains_key("b"));
    assert_eq!(t.entry(0).0, "a");
    assert_eq!(t.remove("a"), Some(3));
    assert_eq!(t.remove("a"), None);
    assert_eq!(t.position("b"), 0);
    t.clear();
    assert_eq!(t.len(), 0);
}
