//! Tests of the receiver, the exporter and the lifecycle.
use opentelemetry_lambda::aggregator::BatchedSignal;
use opentelemetry_lambda::completion::CompletionSource;
use opentelemetry_lambda::config::{
    Compression, CompletionWait, Config, ExporterConfig, FlushConfig, FlushStrategy, Protocol,
    ReceiverConfig,
};
use opentelemetry_lambda::error::ExtensionError;
use opentelemetry_lambda::exporter::{
    export_result, interpret_response, ExportError, ExportResult, OtlpExporter, RetryStep,
};
use opentelemetry_lambda::model::{AnyValue, Float64, MetricsData, Resource, TracesData};
use opentelemetry_lambda::otlp::{
    ExportLogsServiceRequest, ExportMetricsServiceRequest, ExportTraceServiceRequest,
};
use opentelemetry_lambda::receiver::{
    decompress_gzip, parse_logs, parse_metrics, parse_traces, Delivery, FlushError,
    OtlpReceiver, ReceiverHandle, Signal,
};
use opentelemetry_lambda::resource::{detect_resource, to_proto_resource, LambdaEnvironment};
use opentelemetry_lambda::runtime::{
    telemetry_types, ExtensionRuntime, RuntimeBuilder, RuntimeError, RuntimeErrorSource,
};
use opentelemetry_lambda::service::{
    collect_runtime_done_ids, convert_telemetry_events, hold_deadline, shutdown_deadline,
    ExtensionState, FinalFlush, HoldStep, InvocationStatus, InvokeAction, LambdaTelemetry, LambdaTelemetryRecord,
    TraceContext,
};
use opentelemetry_lambda::table::Table;
use opentelemetry_lambda::telemetry::{ReportMetrics, TelemetryEvent};
use opentelemetry_lambda::time::{Duration, Moment};
use opentelemetry_proto::tonic::collector::trace::v1::ExportTraceServiceRequest as WireTraces;
use opentelemetry_proto::tonic::metrics::v1::ResourceMetrics;
use opentelemetry_proto::tonic::trace::v1::{ResourceSpans, ScopeSpans, Span};
use prost::Message;
use std::io::Write;

fn at(ms: u64) -> Moment {
    Moment { nanos: ms as u128 * 1_000_000 }
}

fn spans(name: &str) -> Vec<ResourceSpans> {
    vec![ResourceSpans {
        scope_spans: vec![ScopeSpans {
            spans: vec![Span {
                name: name.to_string(),
                trace_id: vec![1; 16],
                span_id: vec![1; 8],
                ..Default::default()
            }],
            ..Default::default()
        }],
        ..Default::default()
    }]
}

fn wire(name: &str) -> Vec<u8> {
    WireTraces { resource_spans: spans(name) }.encode_to_vec()
}

fn make_trace_batch() -> BatchedSignal {
    BatchedSignal::Traces(ExportTraceServiceRequest { resource_spans: spans("test-span") })
}

fn empty_batch() -> BatchedSignal {
    BatchedSignal::Traces(ExportTraceServiceRequest { resource_spans: Vec::new() })
}

fn exporter(config: ExporterConfig) -> OtlpExporter {
    OtlpExporter::new(config)
}

fn with_endpoint() -> ExporterConfig {
    ExporterConfig {
        endpoint: Some("http://localhost:4318".to_string()),
        ..Default::default()
    }
}

fn name_of(request: &ExportTraceServiceRequest) -> &str {
    &request.resource_spans[0].scope_spans[0].spans[0].name
}

fn gzipped(bytes: &[u8]) -> Vec<u8> {
    let mut encoder =
        flate2::write::GzEncoder::new(Vec::new(), flate2::Compression::default());
    encoder.write_all(bytes).unwrap();
    encoder.finish().unwrap()
}

#[test]
fn exporter_test_export_no_endpoint_skips() {
    let exporter = OtlpExporter::with_defaults();
    assert_eq!(exporter.begin_export(None), Err(ExportResult::Skipped));
    assert!(matches!(exporter.request(&make_trace_batch()), Err(ExportError::NoEndpoint)));
}

#[test]
fn exporter_test_test_export_no_endpoint_skips() {
    let exporter = exporter(ExporterConfig { endpoint: None, ..Default::default() });
    assert_eq!(exporter.begin_export(Some(at(0))), Err(ExportResult::Skipped));
}

#[test]
fn test_has_endpoint() {
    let exporter = OtlpExporter::with_defaults();
    assert!(!exporter.has_endpoint());

    let exporter = OtlpExporter::new(with_endpoint());
    assert!(exporter.has_endpoint());
}

#[test]
fn test_encode_request() {
    let config = ExporterConfig { compression: Compression::Uncompressed, ..Default::default() };
    let exporter = exporter(config);

    let encoded = exporter.encode_request(&empty_batch());
    assert!(encoded.is_ok());
    assert_eq!(exporter.encode_request(&make_trace_batch()).unwrap(), wire("test-span"));
}

#[test]
fn test_encode_request_with_gzip() {
    let config = ExporterConfig { compression: Compression::Gzip, ..Default::default() };
    let exporter = exporter(config);

    let encoded = exporter.encode_request(&empty_batch());
    assert!(encoded.is_ok());
    let body = exporter.encode_request(&make_trace_batch()).unwrap();
    assert_ne!(body, wire("test-span"));
    assert_eq!(decompress_gzip(&body).unwrap(), wire("test-span"));
}

#[test]
fn test_content_type() {
    let config = ExporterConfig { protocol: Protocol::Http, ..Default::default() };
    assert_eq!(exporter(config).content_type(), "application/x-protobuf");

    let config = ExporterConfig { protocol: Protocol::Grpc, ..Default::default() };
    assert_eq!(exporter(config).content_type(), "application/grpc");
}

#[test]
fn test_export_error_display() {
    let err = ExportError::NoEndpoint;
    assert_eq!(err.message(), "no endpoint configured");

    let err = ExportError::status(500, "Internal Server Error".to_string());
    assert!(err.message().contains("500"));
    assert!(matches!(err, ExportError::Status { status: 500, .. }));
    assert_eq!(err.message(), "server returned 500: Internal Server Error");
    assert_eq!(ExportError::Http("refused".to_string()).message(), "HTTP request failed");
}

#[test]
fn test_export_error_chain() {
    let io_err = std::io::Error::other("test error");
    let err = ExportError::encode(io_err);

    assert!(err.source().is_some());
    assert!(err.message().contains("encode"));
    assert!(ExportError::Http("refused".to_string()).source().is_some());
    assert!(ExportError::NoEndpoint.source().is_none());
}

#[test]
fn test_is_retryable() {
    assert!(OtlpExporter::is_retryable(408));
    assert!(OtlpExporter::is_retryable(429));
    assert!(OtlpExporter::is_retryable(500));
    assert!(OtlpExporter::is_retryable(502));
    assert!(OtlpExporter::is_retryable(503));
    assert!(OtlpExporter::is_retryable(504));

    assert!(!OtlpExporter::is_retryable(400));
    assert!(!OtlpExporter::is_retryable(401));
    assert!(!OtlpExporter::is_retryable(403));
    assert!(!OtlpExporter::is_retryable(404));
    assert!(!OtlpExporter::is_retryable(405));
}

#[test]
fn requests_go_to_the_path_of_their_kind() {
    let mut headers = Table::new();
    headers.insert("x-key".to_string(), "v".to_string());
    let exporter = exporter(ExporterConfig { headers, ..with_endpoint() });
    let request = exporter.request(&make_trace_batch()).unwrap();
    assert_eq!(request.url, "http://localhost:4318/v1/traces");
    assert_eq!(
        request.headers,
        vec![
            ("Content-Type".to_string(), "application/x-protobuf".to_string()),
            ("x-key".to_string(), "v".to_string()),
            ("Content-Encoding".to_string(), "gzip".to_string()),
        ]
    );
    let metrics =
        BatchedSignal::Metrics(ExportMetricsServiceRequest { resource_metrics: Vec::new() });
    assert_eq!(exporter.request(&metrics).unwrap().url, "http://localhost:4318/v1/metrics");
    let logs = BatchedSignal::Logs(ExportLogsServiceRequest { resource_logs: Vec::new() });
    assert_eq!(exporter.request(&logs).unwrap().url, "http://localhost:4318/v1/logs");
}

#[test]
fn attempts_are_three_with_doubling_waits() {
    let mut retry = exporter(with_endpoint()).begin_export(None).unwrap();
    let fail = || Err(ExportError::Http("refused".to_string()));
    assert_eq!(retry.attempt_timeout(at(0)), Some(Duration::from_millis(500)));
    match retry.after_attempt(fail(), at(0)) {
        RetryStep::Wait(d) => assert_eq!(d, Duration::from_millis(50)),
        _ => panic!("Expected another attempt"),
    }
    match retry.after_attempt(fail(), at(0)) {
        RetryStep::Wait(d) => assert_eq!(d, Duration::from_millis(100)),
        _ => panic!("Expected another attempt"),
    }
    assert!(matches!(retry.after_attempt(fail(), at(0)), RetryStep::Failed(_)));
}

#[test]
fn refusals_are_final_and_deadlines_end_the_attempts() {
    let begin = |deadline| exporter(with_endpoint()).begin_export(deadline).unwrap();
    let refused = interpret_response(403, "no".to_string());
    assert!(matches!(begin(None).after_attempt(refused, at(0)), RetryStep::Failed(_)));
    let busy = || interpret_response(503, String::new());
    assert!(matches!(begin(None).after_attempt(busy(), at(0)), RetryStep::Wait(_)));
    let mut retry = begin(Some(at(100)));
    assert_eq!(retry.attempt_timeout(at(90)), Some(Duration::from_millis(10)));
    assert_eq!(retry.attempt_timeout(at(100)), None);
    assert!(matches!(retry.after_attempt(busy(), at(60)), RetryStep::Failed(_)));
    assert!(matches!(retry.after_attempt(busy(), at(40)), RetryStep::Wait(_)));
    let ok = interpret_response(204, String::new());
    assert_eq!(export_result(&ok), ExportResult::Success);
    assert_eq!(export_result(&busy()), ExportResult::Fallback);
    assert!(matches!(begin(None).after_attempt(ok, at(0)), RetryStep::Succeeded));
}

#[test]
fn test_otel_031_correct_http_paths() {
    let config = ExporterConfig {
        endpoint: Some("http://localhost:4318".to_string()),
        protocol: Protocol::Http,
        ..Default::default()
    };

    let exporter = exporter(config);

    assert_eq!(exporter.endpoint(), Some("http://localhost:4318"));
}

#[test]
fn test_otel_032_content_type_header() {
    let http_exporter =
        exporter(ExporterConfig { protocol: Protocol::Http, ..Default::default() });
    let grpc_exporter =
        exporter(ExporterConfig { protocol: Protocol::Grpc, ..Default::default() });

    assert!(!http_exporter.has_endpoint());
    assert!(!grpc_exporter.has_endpoint());
}

#[test]
fn test_otel_033_gzip_compression() {
    let uncompressed_exporter = exporter(ExporterConfig {
        compression: Compression::Uncompressed,
        ..Default::default()
    });
    let compressed_exporter =
        exporter(ExporterConfig { compression: Compression::Gzip, ..Default::default() });

    assert!(!uncompressed_exporter.has_endpoint());
    assert!(!compressed_exporter.has_endpoint());

    let long = "test-span-with-some-content".repeat(20);
    let batch =
        BatchedSignal::Traces(ExportTraceServiceRequest { resource_spans: spans(&long) });
    let plain = uncompressed_exporter.encode_request(&batch).unwrap();
    let packed = compressed_exporter.encode_request(&batch).unwrap();
    assert!(packed.len() < plain.len());
}

#[test]
fn test_otel_034_retry_logic_for_5xx() {
    let err_403 = ExportError::Status { status: 403, body: "Forbidden".to_string() };
    let err_500 = ExportError::Status { status: 500, body: "Internal Server Error".to_string() };
    let err_502 = ExportError::Status { status: 502, body: "Bad Gateway".to_string() };
    let err_503 = ExportError::Status { status: 503, body: "Service Unavailable".to_string() };

    assert!(matches!(err_403, ExportError::Status { status: 403, .. }));
    assert!(matches!(err_500, ExportError::Status { status: 500, .. }));
    assert!(matches!(err_502, ExportError::Status { status: 502, .. }));
    assert!(matches!(err_503, ExportError::Status { status: 503, .. }));

    for error in [err_500, err_502, err_503] {
        let mut retry = exporter(with_endpoint()).begin_export(None).unwrap();
        assert!(matches!(retry.after_attempt(Err(error), at(0)), RetryStep::Wait(_)));
    }
}

#[test]
fn test_otel_035_no_retry_for_4xx() {
    let err_400 = ExportError::Status { status: 400, body: "Bad Request".to_string() };
    let err_401 = ExportError::Status { status: 401, body: "Unauthorized".to_string() };
    let err_403 = ExportError::Status { status: 403, body: "Forbidden".to_string() };
    let err_404 = ExportError::Status { status: 404, body: "Not Found".to_string() };

    assert!(err_400.message().contains("400"));
    assert!(err_401.message().contains("401"));
    assert!(err_403.message().contains("403"));
    assert!(err_404.message().contains("404"));

    for error in [err_400, err_401, err_403, err_404] {
        let mut retry = exporter(with_endpoint()).begin_export(None).unwrap();
        assert!(matches!(retry.after_attempt(Err(error), at(0)), RetryStep::Failed(_)));
    }
}

#[test]
fn test_signal_debug() {
    let request = ExportTraceServiceRequest { resource_spans: Vec::new() };
    let signal = Signal::Traces(request);
    let debug = format!("{:?}", signal);
    assert!(debug.contains("Traces"));
}

#[test]
fn test_parse_traces_protobuf() {
    let parsed =
        parse_traces(Some("application/x-protobuf"), None, &wire("test-span")).unwrap();

    assert_eq!(name_of(&parsed), "test-span");
}

#[test]
fn test_parse_traces_json() {
    let json = r#"{"resourceSpans":[]}"#;

    let parsed = parse_traces(Some("application/json"), None, json.as_bytes()).unwrap();

    assert!(parsed.resource_spans.is_empty());
}

#[test]
fn test_parse_invalid_protobuf() {
    let result = parse_traces(Some("application/x-protobuf"), None, b"invalid");

    assert!(result.is_err());
}

#[test]
fn test_parse_invalid_json() {
    let result = parse_traces(Some("application/json"), None, b"{invalid}");

    assert!(result.is_err());
}

#[test]
fn test_parse_gzip_compressed_protobuf() {
    let compressed = gzipped(&wire("compressed-span"));

    let parsed =
        parse_traces(Some("application/x-protobuf"), Some("gzip"), &compressed).unwrap();

    assert_eq!(name_of(&parsed), "compressed-span");
}

#[test]
fn test_receiver_accepts_protobuf_traces() {
    let mut handle = ReceiverHandle::new(14318);
    let traces =
        parse_traces(Some("application/x-protobuf"), None, &wire("test-span")).unwrap();
    assert_eq!(handle.record_delivery(Delivery::Accepted), 200);
    assert_eq!(traces.resource_spans.len(), 1);
    assert_eq!(name_of(&traces), "test-span");
}

#[test]
fn test_receiver_accepts_json_traces() {
    let json = r#"{"resourceSpans":[{"scopeSpans":[{"spans":[{"name":"json-span","traceId":"0102030405060708090a0b0c0d0e0f10","spanId":"0102030405060708"}]}]}]}"#;
    let traces = parse_traces(Some("application/json"), None, json.as_bytes()).unwrap();
    assert_eq!(traces.resource_spans.len(), 1);
    assert_eq!(name_of(&traces), "json-span");
}

#[test]
fn test_receiver_backpressure() {
    let mut handle = ReceiverHandle::new(14320);
    assert_eq!(handle.record_delivery(Delivery::Accepted), 200);
    // When queue is full, return 503 to signal backpressure to clients
    assert_eq!(handle.record_delivery(Delivery::Full), 503);
    assert_eq!(handle.record_delivery(Delivery::Closed), 500);
    assert_eq!(handle.signals_received(), 1);
}

#[test]
fn test_receiver_invalid_protobuf() {
    let result =
        parse_traces(Some("application/x-protobuf"), None, b"invalid protobuf data");
    assert_eq!(result.err(), Some(400));
}

#[test]
fn test_receiver_handles_metrics() {
    let parsed =
        parse_metrics(Some("application/json"), None, br#"{"resourceMetrics":[]}"#).unwrap();
    assert!(parsed.resource_metrics.is_empty());
    assert_eq!(parse_metrics(None, Some("gzip"), b"not gzip").err(), Some(400));
    assert!(parse_metrics(None, None, b"").is_ok());
    assert_eq!(parse_metrics(Some("application/json"), None, b"[").err(), Some(400));
}

#[test]
fn test_receiver_handles_logs() {
    let parsed =
        parse_logs(Some("application/json; charset=utf-8"), None, br#"{"resourceLogs":[]}"#)
            .unwrap();
    assert!(parsed.resource_logs.is_empty());
    assert!(parse_logs(None, Some("gzip"), &gzipped(b"")).is_ok());
    assert_eq!(parse_logs(None, None, b"invalid").err(), Some(400));
}

#[test]
fn receiver_listens_where_it_is_enabled() {
    let mut config = ReceiverConfig::default();
    assert_eq!(OtlpReceiver::new(config).listen_port(), Some(4318));
    config.http_enabled = false;
    assert_eq!(OtlpReceiver::new(config).listen_port(), None);
    let handle = ReceiverHandle::new(4318);
    assert_eq!(handle.port(), 4318);
    assert_eq!(handle.url(), "http://127.0.0.1:4318");
    assert_eq!(handle.health().status, "ready");
    assert_eq!(handle.health().signals_received, 0);
    assert_eq!(FlushError::Timeout.message(), "flush operation timed out");
}

#[test]
fn test_runtime_builder() {
    let runtime = RuntimeBuilder::new()
        .exporter_endpoint("http://localhost:4318")
        .flush_strategy(FlushStrategy::End)
        .disable_telemetry_api()
        .build(&LambdaEnvironment::empty());

    assert_eq!(
        runtime.config.exporter.endpoint,
        Some("http://localhost:4318".to_string())
    );
    assert_eq!(runtime.config.flush.strategy, FlushStrategy::End);
    assert!(!runtime.config.telemetry_api.enabled);
}

#[test]
fn the_builder_fits_the_queue_to_the_memory() {
    let env = LambdaEnvironment {
        memory_size: Some("128".to_string()),
        ..LambdaEnvironment::empty()
    };
    let runtime = RuntimeBuilder::for_environment(&env).build(&env);
    assert_eq!(
        runtime.config.flush.max_queue_bytes,
        FlushConfig::for_memory_size(Some("128")).max_queue_bytes
    );
    assert_ne!(runtime.config.flush.max_queue_bytes, FlushConfig::default().max_queue_bytes);
}

#[test]
fn test_runtime_with_defaults() {
    let runtime = ExtensionRuntime::with_defaults(&LambdaEnvironment::empty());
    assert!(runtime.config.telemetry_api.enabled);
    assert_eq!(runtime.config.flush.max_queue_bytes, 16 * 1024 * 1024);
    assert!(runtime.resource.schema_url.is_none());
    let env = LambdaEnvironment {
        memory_size: Some("128".to_string()),
        ..LambdaEnvironment::empty()
    };
    let runtime = ExtensionRuntime::with_defaults(&env);
    assert_eq!(runtime.config.flush.max_queue_bytes, 128 * 1024 * 1024 / 10);
}

#[test]
fn runtime_takes_another_resource() {
    let env = LambdaEnvironment {
        execution_env: Some("AWS_Lambda_x".to_string()),
        ..LambdaEnvironment::empty()
    };
    let other = detect_resource(&env);
    let n = other.len();
    let runtime = RuntimeBuilder::default()
        .config(Config::default())
        .resource(other)
        .build(&LambdaEnvironment::empty());
    assert_eq!(runtime.resource.len(), n);
    assert_eq!(telemetry_types(), vec!["platform", "function", "extension"]);
}

#[test]
fn runtime_takes_more_attributes() {
    let runtime = RuntimeBuilder::new()
        .with_resource_attributes(&LambdaEnvironment::empty(), |b| b.add_int("custom", 7))
        .build(&LambdaEnvironment::empty());
    assert_eq!(runtime.resource.get("custom"), Some(&AnyValue::IntValue(7)));
    assert!(runtime.resource.get("service.name").is_some());
}

#[test]
fn test_runtime_error_display() {
    let io_err = std::io::Error::new(std::io::ErrorKind::AddrInUse, "port in use");
    let err = RuntimeError::ReceiverStart(io_err);

    assert!(err.message().contains("receiver"));
    assert!(err.source().is_some());
}

#[test]
fn errors_in_words() {
    let event_loop = RuntimeError::EventLoop("gone".to_string());
    assert_eq!(event_loop.message(), "event loop error");
    assert!(matches!(event_loop.source(), Some(RuntimeErrorSource::Reason("gone"))));
    let state = RuntimeError::StateInit(ExportError::NoEndpoint);
    assert_eq!(state.message(), "failed to create extension state");
    assert_eq!(ExtensionError::Config("x".to_string()).message(), "configuration error");
    assert_eq!(
        ExtensionError::Export(ExportError::NoEndpoint).message(),
        "no endpoint configured"
    );
    assert_eq!(ExtensionError::Runtime(event_loop).message(), "event loop error");
    assert_eq!(
        ExtensionError::Tracing("x".to_string()).message(),
        "failed to initialise tracing"
    );
}

fn state(flush: FlushConfig) -> ExtensionState {
    ExtensionState::new(ExporterConfig::default(), flush, Resource::default())
}

fn add_span(state: &mut ExtensionState) {
    state
        .aggregator
        .add(Signal::Traces(ExportTraceServiceRequest { resource_spans: spans("s") }));
}

#[test]
fn test_extension_state_creation() {
    let config = Config::default();
    let resource = detect_resource(&LambdaEnvironment::empty());
    let proto_resource = to_proto_resource(&resource);

    let mut state = ExtensionState::new(config.exporter, config.flush, proto_resource);
    assert!(state.aggregator.is_empty());
    assert!(state.signal_shutdown_complete());
    assert!(!state.signal_shutdown_complete());
}

#[test]
fn test_simulator_telemetry_format_deserialization() {
    let json = r#"[{"time":"2025-11-30T22:29:09.581655Z","type":"platform.start","record":{"requestId":"38432cb4-cb8b-4162-982d-923d3c3f6d10","tracing":{"type":"X-Amzn-Trace-Id","value":"Root=1-692cc535-0338d3516cb745b7b41f878e"},"version":"$LATEST"}}]"#;

    let result: Result<Vec<lambda_extension::LambdaTelemetry>, _> = serde_json::from_str(json);
    assert!(result.is_ok(), "Failed to deserialize: {:?}", result.err());
}

#[test]
fn test_full_simulator_batch_deserialization() {
    let json = r#"[{"time":"2025-11-30T22:35:51.565094Z","type":"platform.start","record":{"requestId":"0c90003a-8970-474c-b696-fca5336ef4f5","tracing":{"type":"X-Amzn-Trace-Id","value":"Root=1-692cc6c7-f2ce8d3383524609b99c07a9"},"version":"$LATEST"}},{"time":"2025-11-30T22:35:51.565857Z","type":"platform.initRuntimeDone","record":{"initializationType":"on-demand","phase":"init","status":"success"}},{"time":"2025-11-30T22:35:51.565857Z","type":"platform.initReport","record":{"initializationType":"on-demand","phase":"init","status":"success","metrics":{"durationMs":565.4}}},{"time":"2025-11-30T22:35:51.578834Z","type":"platform.runtimeDone","record":{"requestId":"0c90003a-8970-474c-b696-fca5336ef4f5","status":"success","metrics":{"durationMs":13.74},"spans":[],"tracing":{"type":"X-Amzn-Trace-Id","value":"Root=1-692cc6c7-f2ce8d3383524609b99c07a9"}}},{"time":"2025-11-30T22:35:51.578909Z","type":"platform.report","record":{"requestId":"0c90003a-8970-474c-b696-fca5336ef4f5","status":"success","metrics":{"durationMs":13.74,"billedDurationMs":100,"memorySizeMB":128,"maxMemoryUsedMB":64},"tracing":{"type":"X-Amzn-Trace-Id","value":"Root=1-692cc6c7-f2ce8d3383524609b99c07a9"}}}]"#;

    let result: Result<Vec<lambda_extension::LambdaTelemetry>, _> = serde_json::from_str(json);
    assert!(result.is_ok(), "Failed to deserialize: {:?}", result.err());
}

fn delivered() -> Vec<LambdaTelemetry> {
    let tracing = || {
        Some(TraceContext {
            trace_type: "X-Amzn-Trace-Id".to_string(),
            value: "Root=1-692cc6c7-f2ce8d3383524609b99c07a9".to_string(),
        })
    };
    let event = |record| LambdaTelemetry { time: "2025-11-30T22:35:51.565094Z".to_string(), record };
    vec![
        event(LambdaTelemetryRecord::PlatformStart {
            request_id: "r".to_string(),
            version: Some("$LATEST".to_string()),
            tracing: tracing(),
        }),
        event(LambdaTelemetryRecord::Other),
        event(LambdaTelemetryRecord::PlatformRuntimeDone {
            request_id: "r".to_string(),
            status: InvocationStatus::Success.text(),
            metrics: None,
            spans: Vec::new(),
            tracing: tracing(),
        }),
        event(LambdaTelemetryRecord::PlatformReport {
            request_id: "r".to_string(),
            status: InvocationStatus::Success.text(),
            metrics: ReportMetrics {
                duration_ms: Float64 { bits: 13.74f64.to_bits() },
                billed_duration_ms: 100,
                memory_size_mb: 128,
                max_memory_used_mb: 64,
                init_duration_ms: None,
                restore_duration_ms: None,
            },
            tracing: tracing(),
        }),
    ]
}

#[test]
fn platform_events_are_converted() {
    let events = convert_telemetry_events(delivered());
    assert_eq!(events.len(), 3);
    match &events[0] {
        TelemetryEvent::Start { record, .. } => {
            let tracing = record.tracing.as_ref().unwrap();
            assert_eq!(tracing.trace_type, Some("X-Amzn-Trace-Id".to_string()));
        }
        _ => panic!("Expected Start event"),
    }
    assert!(matches!(events[1], TelemetryEvent::RuntimeDone { .. }));
    assert!(matches!(events[2], TelemetryEvent::Report { .. }));
    assert_eq!(collect_runtime_done_ids(&delivered()), vec!["r".to_string()]);
}

#[test]
fn telemetry_gives_metrics_and_completions() {
    let mut state = state(FlushConfig::default());
    let outcome = state.convert_telemetry(delivered());
    assert!(state.aggregator.is_empty());
    assert_eq!(outcome.metrics.len(), 1);
    assert_eq!(outcome.traces.len(), 1);
    let span = &outcome.traces[0].resource_spans[0].scope_spans[0].spans[0];
    assert_eq!(span.name, "lambda.invoke");
    assert_eq!(span.status.as_ref().unwrap().code, 0);
    assert_eq!(outcome.completed, vec!["r".to_string()]);
    state.completion.begin("r", at(60_000_000));
    state.complete_runtime_done(&outcome.completed);
    let (generation, _) = state.completion.start_wait().unwrap();
    match state.hold_step(generation, false, at(0), 0) {
        HoldStep::Release(d) => assert_eq!(d, Duration::from_millis(20)),
        _ => panic!("Expected the release"),
    }
}

/// A request that names the first metric.
fn metrics_request(data: MetricsData) -> ExportMetricsServiceRequest {
    let name = data.resource_metrics[0].scope_metrics[0].metrics[0].name.clone();
    let entry = ResourceMetrics { schema_url: name, ..Default::default() };
    ExportMetricsServiceRequest { resource_metrics: vec![entry] }
}

/// A request with the first span's name.
fn traces_request(data: TracesData) -> ExportTraceServiceRequest {
    let name = data.resource_spans[0].scope_spans[0].spans[0].name.clone();
    ExportTraceServiceRequest { resource_spans: spans(&name) }
}

#[test]
fn telemetry_is_queued_before_its_invocation_completes() {
    let mut state = state(FlushConfig::default());
    state.completion.begin("r", at(60_000_000));
    let (generation, _) = state.completion.start_wait().unwrap();
    let first = state.convert_telemetry(delivered()).metrics.remove(0);
    let name = first.resource_metrics[0].scope_metrics[0].metrics[0].name.clone();
    state.process_telemetry(delivered(), metrics_request, traces_request);
    assert_eq!(state.aggregator.pending_count(), 2);
    assert_eq!(state.aggregator.dropped_count(), 0);
    match state.hold_step(generation, false, at(0), 0) {
        HoldStep::Release(d) => assert_eq!(d, Duration::from_millis(20)),
        _ => panic!("Expected the release"),
    }
    for batch in state.take_batches() {
        match batch {
            BatchedSignal::Traces(request) => {
                assert_eq!(request.resource_spans, spans("lambda.invoke"));
            }
            BatchedSignal::Metrics(request) => {
                assert_eq!(request.resource_metrics[0].schema_url, name);
            }
            _ => panic!("Expected traces and metrics"),
        }
    }
}

#[test]
fn queued_signals_evict_the_oldest() {
    let mut state = state(FlushConfig { max_queue_entries: 1, ..Default::default() });
    state.completion.begin("r", at(60_000_000));
    let (generation, _) = state.completion.start_wait().unwrap();
    let signal = |name| Signal::Traces(ExportTraceServiceRequest { resource_spans: spans(name) });
    state.queue_telemetry(vec![signal("a"), signal("b")], &vec!["r".to_string()]);
    assert_eq!(state.aggregator.dropped_count(), 1);
    assert!(matches!(state.hold_step(generation, false, at(0), 0), HoldStep::Release(_)));
    match &state.take_batches()[0] {
        BatchedSignal::Traces(request) => assert_eq!(request.resource_spans, spans("b")),
        _ => panic!("Expected traces"),
    }
}

#[test]
fn the_shutdown_metric_is_in_the_final_flush() {
    let mut state = state(FlushConfig::default());
    let mut flush = state.begin_final_flush("spindown", at(100), metrics_request);
    assert_eq!(flush.deadline, at(100));
    assert_eq!(state.aggregator.pending_count(), 1);
    match flush.next_batch(&mut state.aggregator, at(0)) {
        Some(BatchedSignal::Metrics(request)) => {
            assert_eq!(request.resource_metrics[0].schema_url, "extension.shutdown_count");
        }
        _ => panic!("Expected the metric"),
    }
    assert!(flush.next_batch(&mut state.aggregator, at(0)).is_none());
    assert_eq!(flush.exported, 1);
}

#[test]
fn holds_end_a_second_before_the_deadline() {
    let hold = |deadline, wait| hold_deadline(deadline, wait, at(7), 1_000);
    assert_eq!(hold(5_000, CompletionWait::Auto), Some(at(3_007)));
    assert_eq!(hold(5_000, CompletionWait::Off), None);
    assert_eq!(
        hold(5_000, CompletionWait::Cap(Duration::from_millis(100))),
        Some(at(107))
    );
    assert_eq!(
        hold(5_000, CompletionWait::Cap(Duration::from_secs(100))),
        Some(at(3_007))
    );
    assert_eq!(hold(2_000, CompletionWait::Auto), None);
    assert_eq!(hold(0, CompletionWait::Auto), None);
    assert_eq!(shutdown_deadline(3_000, at(0), 1_000), at(1_800));
    assert_eq!(shutdown_deadline(0, at(5), 1_000), at(5));
}

#[test]
fn an_invocation_is_held_until_it_completes() {
    let mut state = state(FlushConfig::default());
    let (generation, until) = match state.handle_invoke_at("r", 5_000, at(0), 1_000) {
        InvokeAction::Hold(generation, until) => (generation, until),
        InvokeAction::Flush => panic!("Expected a hold"),
    };
    assert_eq!(until, at(3_000));
    assert!(matches!(
        state.hold_step(generation, false, at(1), 1_001),
        HoldStep::Wait(m, None) if m == at(3_000)
    ));
    assert_eq!(state.invocation_complete(Some("r")), 202);
    assert!(matches!(state.hold_step(generation, false, at(2), 1_002), HoldStep::Release(_)));
    add_span(&mut state);
    assert!(state.post_invoke_flush_at(at(3), 1_003));
    assert_eq!(state.take_batches().len(), 1);
    assert!(!state.post_invoke_flush());
}

#[test]
fn an_expired_hold_is_not_repeated() {
    let mut state = state(FlushConfig::default());
    let generation = match state.handle_invoke_at("a", 5_000, at(0), 1_000) {
        InvokeAction::Hold(generation, _) => generation,
        InvokeAction::Flush => panic!("Expected a hold"),
    };
    match state.hold_step(generation, false, at(3_000), 4_000) {
        HoldStep::Release(d) => assert!(d.is_zero()),
        _ => panic!("Expected the release"),
    }
    assert_eq!(
        state.handle_invoke_at("b", 15_000, at(10_000), 11_000),
        InvokeAction::Flush
    );
    state.completion.complete_at(Some("b"), CompletionSource::RuntimeDone, at(10_001));
    assert!(matches!(
        state.handle_invoke_at("c", 25_000, at(20_000), 21_000),
        InvokeAction::Hold(_, _)
    ));
}

#[test]
fn statuses_are_written_as_they_come() {
    assert_eq!(InvocationStatus::Success.text(), "success");
    assert_eq!(InvocationStatus::Error.text(), "error");
    assert_eq!(InvocationStatus::Failure.text(), "failure");
    assert_eq!(InvocationStatus::Timeout.text(), "timeout");
}

#[test]
fn failures_in_a_row_flush_midway_under_any_strategy() {
    let mut state = state(FlushConfig { strategy: FlushStrategy::End, ..Default::default() });
    assert!(state.time_until_periodic_flush(at(0)).is_none());
    for _ in 0..20 {
        state.record_export(ExportResult::Fallback);
    }
    assert_eq!(state.time_until_periodic_flush(at(0)), Some(Duration::from_millis(10)));
}

#[test]
fn long_invocations_are_flushed_midway() {
    let mut state = state(FlushConfig {
        strategy: FlushStrategy::Periodic,
        interval: Duration::from_millis(100),
        ..Default::default()
    });
    let generation = match state.handle_invoke_at("r", 60_000, at(0), 0) {
        InvokeAction::Hold(generation, _) => generation,
        InvokeAction::Flush => panic!("Expected a hold"),
    };
    add_span(&mut state);
    assert!(matches!(
        state.hold_step(generation, true, at(1), 1),
        HoldStep::FlushBefore(m) if m == at(1_001)
    ));
    state.record_export(ExportResult::Fallback);
    assert_eq!(state.flush_manager.consecutive_timeout_count(), 1);
    state.record_export(ExportResult::Success);
    assert_eq!(state.flush_manager.consecutive_timeout_count(), 0);
    assert!(state.time_until_periodic_flush(at(2)).is_some());
}

#[test]
fn shutdown_waits_for_a_quarter_at_most() {
    let plan = ExtensionState::plan_shutdown(2_200, at(0), 1_000);
    assert_eq!(plan.deadline, at(1_000));
    assert_eq!(plan.processing_wait, Duration::from_millis(250));
    let plan = ExtensionState::plan_shutdown(60_000, at(0), 1_000);
    assert_eq!(plan.processing_wait, Duration::from_millis(500));
    let metric = state(FlushConfig::default()).shutdown_metric("spindown");
    assert_eq!(metric.resource_metrics[0].scope_metrics[0].metrics.len(), 1);
}

#[test]
fn the_final_flush_drains_until_the_deadline() {
    let mut state = state(FlushConfig { max_batch_entries: 1, ..Default::default() });
    for _ in 0..3 {
        add_span(&mut state);
    }
    let mut flush = FinalFlush::new(at(100));
    assert!(flush.next_batch(&mut state.aggregator, at(0)).is_some());
    assert!(flush.next_batch(&mut state.aggregator, at(100)).is_none());
    assert_eq!(flush.exported, 1);
    assert_eq!(flush.abandoned, 2);
    assert!(flush.done);
    add_span(&mut state);
    let mut flush = FinalFlush::new(at(100));
    assert!(flush.next_batch(&mut state.aggregator, at(0)).is_some());
    assert!(flush.next_batch(&mut state.aggregator, at(0)).is_none());
    assert_eq!(flush.abandoned, 0);
}
