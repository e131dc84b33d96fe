//! Tests of trace headers, telemetry conversion and resources.
use opentelemetry_lambda::conversion::{
    current_time_nanos, extract_trace_context, parse_iso8601_to_nanos, MetricsConverter,
    SpanConverter, TelemetryProcessor,
};
use opentelemetry_lambda::model::{
    kv_string, AnyValue, Float64, KeyValue, Metric, MetricsData, PointValue, Resource, Span,
    TracesData,
};
use opentelemetry_lambda::resource::{
    detect_resource, to_proto_resource, AwsLambdaDetector, DetectedResource, ExtensionDetector,
    LambdaEnvironment, ResourceBuilder, EXTENSION_NAME, SCHEMA_URL, VERSION,
};
use opentelemetry_lambda::semconv;
use opentelemetry_lambda::table::Table;
use opentelemetry_lambda::telemetry::{
    BufferingConfig, ReportMetrics, ReportRecord, RuntimeDoneRecord, StartRecord, TelemetryError,
    TelemetryEvent, TelemetryListener, TelemetrySubscription, TelemetryType, TracingRecord,
};
use opentelemetry_lambda::tracing::{W3CTraceContext, XRayTraceHeader};
use opentelemetry_proto::tonic::trace::v1::span::SpanKind;
use opentelemetry_proto::tonic::trace::v1::status::StatusCode;
use opentelemetry_semantic_conventions::attribute as otel;

const FULL: &str = "Root=1-5759e988-bd862e3fe1be46a994272793;Parent=53995c3f42cd8ad8;Sampled=1";

fn number(x: f64) -> Float64 {
    Float64 { bits: x.to_bits() }
}

fn text(s: &str) -> AnyValue {
    AnyValue::StringValue(s.to_string())
}

fn value<'a>(list: &'a [KeyValue], key: &str) -> Option<&'a AnyValue> {
    list.iter().find(|kv| kv.key == key).map(|kv| &kv.value)
}

fn string_in(resource: &Resource, key: &str) -> Option<String> {
    match value(&resource.attributes, key) {
        Some(AnyValue::StringValue(s)) => Some(s.clone()),
        _ => None,
    }
}

fn detected_string(resource: &DetectedResource, key: &str) -> Option<String> {
    match resource.get(key) {
        Some(AnyValue::StringValue(s)) => Some(s.clone()),
        _ => None,
    }
}

fn detected_int(resource: &DetectedResource, key: &str) -> Option<i64> {
    match resource.get(key) {
        Some(AnyValue::IntValue(n)) => Some(*n),
        _ => None,
    }
}

fn lambda() -> LambdaEnvironment {
    LambdaEnvironment {
        execution_env: Some("AWS_Lambda_nodejs18.x".to_string()),
        ..LambdaEnvironment::empty()
    }
}

fn metrics_of(data: &MetricsData) -> &Vec<Metric> {
    assert_eq!(data.resource_metrics.len(), 1);
    assert_eq!(data.resource_metrics[0].scope_metrics.len(), 1);
    &data.resource_metrics[0].scope_metrics[0].metrics
}

fn metric<'a>(data: &'a MetricsData, name: &str) -> &'a Metric {
    metrics_of(data).iter().find(|m| m.name == name).expect("metric")
}

fn names(data: &MetricsData) -> Vec<&str> {
    metrics_of(data).iter().map(|m| m.name.as_str()).collect()
}

fn span_of(data: &TracesData) -> &Span {
    assert_eq!(data.resource_spans.len(), 1);
    let spans = &data.resource_spans[0].scope_spans[0].spans;
    assert_eq!(spans.len(), 1);
    &spans[0]
}

fn make_start_record(request_id: &str) -> StartRecord {
    StartRecord {
        request_id: request_id.to_string(),
        version: Some("$LATEST".to_string()),
        tracing: None,
    }
}

fn traced_start_record(request_id: &str) -> StartRecord {
    StartRecord {
        request_id: request_id.to_string(),
        version: Some("$LATEST".to_string()),
        tracing: Some(TracingRecord {
            trace_type: Some("X-Amzn-Trace-Id".to_string()),
            value: Some(FULL.to_string()),
            span_id: None,
        }),
    }
}

fn done_record(request_id: &str, status: &str) -> RuntimeDoneRecord {
    RuntimeDoneRecord {
        request_id: request_id.to_string(),
        status: status.to_string(),
        metrics: None,
        tracing: None,
        spans: vec![],
    }
}

fn make_runtime_done_record(request_id: &str) -> RuntimeDoneRecord {
    done_record(request_id, "success")
}

fn make_report_record(request_id: &str) -> ReportRecord {
    ReportRecord {
        request_id: request_id.to_string(),
        status: "success".to_string(),
        metrics: ReportMetrics {
            duration_ms: number(100.5),
            billed_duration_ms: 200,
            memory_size_mb: 128,
            max_memory_used_mb: 64,
            init_duration_ms: None,
            restore_duration_ms: None,
        },
        tracing: None,
    }
}

fn header(root: &str, parent: Option<&str>, sampled: Option<bool>) -> XRayTraceHeader {
    XRayTraceHeader {
        root: root.to_string(),
        parent: parent.map(|p| p.to_string()),
        sampled,
    }
}

fn w3c(sampled: bool) -> W3CTraceContext {
    W3CTraceContext {
        trace_id: "5759e988bd862e3fe1be46a994272793".to_string(),
        span_id: "53995c3f42cd8ad8".to_string(),
        sampled,
    }
}

#[test]
fn test_parse_full_header() {
    let parsed = XRayTraceHeader::parse(FULL).unwrap();

    assert_eq!(parsed.root, "1-5759e988-bd862e3fe1be46a994272793");
    assert_eq!(parsed.parent, Some("53995c3f42cd8ad8".to_string()));
    assert_eq!(parsed.sampled, Some(true));
}

#[test]
fn test_parse_header_unsampled() {
    let header = "Root=1-5759e988-bd862e3fe1be46a994272793;Parent=53995c3f42cd8ad8;Sampled=0";
    let parsed = XRayTraceHeader::parse(header).unwrap();

    assert_eq!(parsed.sampled, Some(false));
}

#[test]
fn test_parse_header_no_parent() {
    let header = "Root=1-5759e988-bd862e3fe1be46a994272793;Sampled=1";
    let parsed = XRayTraceHeader::parse(header).unwrap();

    assert_eq!(parsed.root, "1-5759e988-bd862e3fe1be46a994272793");
    assert!(parsed.parent.is_none());
    assert_eq!(parsed.sampled, Some(true));
}

#[test]
fn test_parse_header_root_only() {
    let header = "Root=1-5759e988-bd862e3fe1be46a994272793";
    let parsed = XRayTraceHeader::parse(header).unwrap();

    assert_eq!(parsed.root, "1-5759e988-bd862e3fe1be46a994272793");
    assert!(parsed.parent.is_none());
    assert!(parsed.sampled.is_none());
}

#[test]
fn test_parse_invalid_header() {
    assert!(XRayTraceHeader::parse("").is_none());
    assert!(XRayTraceHeader::parse("Parent=123").is_none());
    assert!(XRayTraceHeader::parse("invalid").is_none());
}

#[test]
fn parsing_takes_the_last_of_each_component() {
    let parsed =
        XRayTraceHeader::parse(" Root=a ;Root=b;Sampled=1;Self=x;Sampled=maybe; Parent=p=q")
            .unwrap();
    assert_eq!(parsed, header("b", Some("p=q"), None));
}

#[test]
fn parsing_brings_back_the_header() {
    for h in [
        header("1-a-b", Some("p"), Some(true)),
        header("1-a-b", Some("p"), Some(false)),
        header("1-a-b", None, Some(true)),
        header("", Some(""), None),
    ] {
        assert_eq!(XRayTraceHeader::parse(&h.to_header_string()), Some(h));
    }
}

#[test]
fn test_to_w3c() {
    let header = header(
        "1-5759e988-bd862e3fe1be46a994272793",
        Some("53995c3f42cd8ad8"),
        Some(true),
    );

    let w3c = header.to_w3c().unwrap();

    // trace_id = timestamp (5759e988) + random (bd862e3fe1be46a994272793) = 32 chars
    assert_eq!(w3c.trace_id, "5759e988bd862e3fe1be46a994272793");
    assert_eq!(w3c.span_id, "53995c3f42cd8ad8");
    assert!(w3c.sampled);
}

#[test]
fn test_to_w3c_no_parent() {
    let header = header("1-5759e988-bd862e3fe1be46a994272793", None, Some(true));

    assert!(header.to_w3c().is_none());
}

#[test]
fn test_to_w3c_invalid_parent() {
    let header = header("1-5759e988-bd862e3fe1be46a994272793", Some("invalid"), Some(true));

    assert!(header.to_w3c().is_none());
}

#[test]
fn test_to_w3c_invalid_root() {
    let header = header("invalid-root", Some("53995c3f42cd8ad8"), Some(true));

    assert!(header.to_w3c().is_none());
}

#[test]
fn roots_are_checked_part_by_part() {
    let id = |root: &str| header(root, None, None).xray_root_to_trace_id();
    assert!(id("1-5759e988-bd862e3fe1be46a994272793").is_some());
    assert!(id("2-5759e988-bd862e3fe1be46a994272793").is_none());
    assert!(id("1-5759e98-bd862e3fe1be46a994272793a").is_none());
    assert!(id("1-5759e98g-bd862e3fe1be46a994272793").is_none());
    assert!(id("1-5759e988-bd862e3fe1be46a99427279g").is_none());
    assert!(id("1-5759e988-bd862e3fe1be46a994272793-x").is_none());
}

#[test]
fn test_w3c_to_traceparent() {
    assert_eq!(
        w3c(true).to_traceparent(),
        "00-5759e988bd862e3fe1be46a994272793-53995c3f42cd8ad8-01"
    );
}

#[test]
fn test_w3c_to_traceparent_unsampled() {
    assert_eq!(
        w3c(false).to_traceparent(),
        "00-5759e988bd862e3fe1be46a994272793-53995c3f42cd8ad8-00"
    );
}

#[test]
fn test_trace_id_bytes() {
    let bytes = w3c(true).trace_id_bytes().unwrap();
    assert_eq!(bytes.len(), 16);
    assert_eq!(bytes[0], 0x57);
    assert_eq!(bytes[1], 0x59);
}

#[test]
fn test_span_id_bytes() {
    let bytes = w3c(true).span_id_bytes().unwrap();
    assert_eq!(bytes.len(), 8);
    assert_eq!(bytes[0], 0x53);
    assert_eq!(bytes[1], 0x99);
}

#[test]
fn id_bytes_bring_back_the_id() {
    assert_eq!(hex::encode(w3c(true).trace_id_bytes().unwrap()), w3c(true).trace_id);
    let mut bad = w3c(true);
    bad.trace_id = "57".to_string();
    bad.span_id = "53995c3f42cd8adg".to_string();
    assert!(bad.trace_id_bytes().is_none());
    assert!(bad.span_id_bytes().is_none());
}

#[test]
fn test_to_header_string() {
    let header = header(
        "1-5759e988-bd862e3fe1be46a994272793",
        Some("53995c3f42cd8ad8"),
        Some(true),
    );

    assert_eq!(
        header.to_header_string(),
        "Root=1-5759e988-bd862e3fe1be46a994272793;Parent=53995c3f42cd8ad8;Sampled=1"
    );
}

#[test]
fn test_display() {
    let header = header(
        "1-5759e988-bd862e3fe1be46a994272793",
        Some("53995c3f42cd8ad8"),
        Some(true),
    );

    let s = header.to_header_string();
    assert!(s.contains("Root="));
    assert!(s.contains("Parent="));
    assert!(s.contains("Sampled=1"));
}

#[test]
fn test_telemetry_subscription_platform() {
    let sub = TelemetrySubscription::platform_events("http://localhost:9999");

    assert_eq!(sub.schema_version, "2022-12-13");
    assert_eq!(sub.types, vec![TelemetryType::Platform]);
    assert_eq!(sub.destination.uri, "http://localhost:9999");
}

#[test]
fn test_telemetry_subscription_all() {
    let sub = TelemetrySubscription::all_events("http://localhost:9999");

    assert_eq!(sub.types.len(), 3);
    assert!(sub.types.contains(&TelemetryType::Platform));
    assert!(sub.types.contains(&TelemetryType::Function));
    assert!(sub.types.contains(&TelemetryType::Extension));
}

#[test]
fn subscription_takes_other_buffering() {
    let buffering =
        BufferingConfig { max_items: None, max_bytes: Some(1), timeout_ms: Some(2) };
    let sub = TelemetrySubscription::all_events("u").with_buffering(buffering);
    assert_eq!(sub.buffering, buffering);
    assert_eq!(sub.destination.protocol, "HTTP");
}

#[test]
fn test_listener_uri() {
    let listener = TelemetryListener::new(9999);

    // In non-Lambda environment (no AWS_LAMBDA_FUNCTION_NAME), uses 127.0.0.1
    assert_eq!(listener.listener_uri(false), "http://127.0.0.1:9999");
    assert_eq!(listener.listener_uri(true), "http://sandbox.localdomain:9999");
}

#[test]
fn test_telemetry_error_display() {
    let err = TelemetryError::Parse("parse error".to_string());
    assert!(err.message().contains("parse error"));
    assert_eq!(err.message(), "Parse error: parse error");
}

#[test]
fn test_buffering_config_default() {
    let config = BufferingConfig::default();

    assert_eq!(config.max_items, Some(1000));
    assert_eq!(config.max_bytes, Some(256 * 1024));
    assert_eq!(config.timeout_ms, Some(25));
}

#[test]
fn test_convert_report_to_metrics() {
    let converter = MetricsConverter::with_defaults();
    let record = make_report_record("test-request-id");
    let time = "2022-10-12T00:00:00.000Z";

    let request = converter.convert_report(&record, time);

    assert_eq!(request.resource_metrics.len(), 1);
    let scope_metrics = &request.resource_metrics[0].scope_metrics;
    assert_eq!(scope_metrics.len(), 1);

    let metrics = &scope_metrics[0].metrics;
    assert_eq!(metrics.len(), 3); // duration, billed_duration, max_memory_used

    let names = names(&request);
    assert!(names.contains(&"faas.invocation.duration"));
    assert!(names.contains(&"aws.lambda.billed_duration"));
    assert!(names.contains(&"aws.lambda.max_memory_used"));

    let point = &metric(&request, "faas.invocation.duration").data_points[0];
    assert_eq!(point.time_unix_nano, 1_665_532_800_000_000_000);
    assert_eq!(point.value, PointValue::AsDouble(number(100.5)));
    let point = &metric(&request, "aws.lambda.billed_duration").data_points[0];
    assert_eq!(point.value, PointValue::AsDoubleOf(200));
}

#[test]
fn test_convert_report_with_init_duration() {
    let converter = MetricsConverter::with_defaults();
    let mut record = make_report_record("test-request-id");
    record.metrics.init_duration_ms = Some(number(500.0));

    let request = converter.convert_report(&record, "2022-10-12T00:00:00.000Z");

    assert_eq!(metrics_of(&request).len(), 4); // includes init_duration
    assert!(names(&request).contains(&"aws.lambda.init_duration"));
    let point = &metric(&request, "aws.lambda.init_duration").data_points[0];
    assert_eq!(point.value, PointValue::AsDouble(number(500.0)));
}

#[test]
fn test_create_invocation_span() {
    let converter = SpanConverter::with_defaults();
    let start = make_start_record("test-request-id");
    let done = make_runtime_done_record("test-request-id");

    let request = converter.create_invocation_span(
        &start,
        "2022-10-12T00:00:00.000Z",
        &done,
        "2022-10-12T00:00:01.000Z",
    );

    let span = span_of(&request);
    assert_eq!(span.name, "lambda.invoke");
    assert!(span.end_time_unix_nano > span.start_time_unix_nano);
    assert_eq!(span.end_time_unix_nano - span.start_time_unix_nano, 1_000_000_000);

    // Verify trace ID is valid (16 bytes, not all zeros)
    assert_eq!(span.trace_id.len(), 16);
    assert_ne!(span.trace_id, vec![0u8; 16]);

    // Verify span ID is valid (8 bytes)
    assert_eq!(span.span_id.len(), 8);
}

#[test]
fn test_create_invocation_span_with_xray() {
    let converter = SpanConverter::with_defaults();
    let start = traced_start_record("test-request-id");
    let done = make_runtime_done_record("test-request-id");

    let request = converter.create_invocation_span(
        &start,
        "2022-10-12T00:00:00.000Z",
        &done,
        "2022-10-12T00:00:01.000Z",
    );

    let span = span_of(&request);

    // Verify trace ID was extracted from X-Ray header
    assert_eq!(span.trace_id.len(), 16);
    assert_ne!(span.trace_id, vec![0u8; 16]); // Not all zeros
    assert_eq!(span.trace_id, hex::decode("5759e988bd862e3fe1be46a994272793").unwrap());

    // Verify parent span ID was extracted
    assert_eq!(span.parent_span_id.len(), 8);
    assert_eq!(span.parent_span_id, hex::decode("53995c3f42cd8ad8").unwrap());
}

#[test]
fn random_ids_differ() {
    let converter = SpanConverter::with_defaults();
    let make = || {
        converter.create_invocation_span(
            &make_start_record("r"),
            "2022-10-12T00:00:00.000Z",
            &make_runtime_done_record("r"),
            "2022-10-12T00:00:01.000Z",
        )
    };
    let (a, b) = (make(), make());
    assert_ne!(span_of(&a).trace_id, span_of(&b).trace_id);
    assert_ne!(span_of(&a).span_id, span_of(&b).span_id);
    assert!(span_of(&a).parent_span_id.is_empty());
}

#[test]
fn trace_context_needs_a_full_header() {
    let (trace, parent) = extract_trace_context(&traced_start_record("r"));
    assert_eq!(trace.unwrap().len(), 16);
    assert_eq!(parent.unwrap().len(), 8);
    assert_eq!(extract_trace_context(&make_start_record("r")), (None, None));
    let mut start = traced_start_record("r");
    start.tracing.as_mut().unwrap().value = Some("nonsense".to_string());
    assert_eq!(extract_trace_context(&start), (None, None));
}

#[test]
fn test_processor_collects_events() {
    let mut processor = TelemetryProcessor::with_defaults();

    let events = vec![
        TelemetryEvent::Start {
            time: "2022-10-12T00:00:00.000Z".to_string(),
            record: make_start_record("request-1"),
        },
        TelemetryEvent::RuntimeDone {
            time: "2022-10-12T00:00:01.000Z".to_string(),
            record: make_runtime_done_record("request-1"),
        },
        TelemetryEvent::Report {
            time: "2022-10-12T00:00:01.100Z".to_string(),
            record: make_report_record("request-1"),
        },
    ];

    let (metrics, traces) = processor.process_events(events);

    assert_eq!(metrics.len(), 1);
    assert_eq!(traces.len(), 1);
    assert_eq!(processor.pending_count(), 0);
}

#[test]
fn test_processor_handles_out_of_order() {
    let mut processor = TelemetryProcessor::with_defaults();

    // Send start first
    let events1 = vec![TelemetryEvent::Start {
        time: "2022-10-12T00:00:00.000Z".to_string(),
        record: make_start_record("request-1"),
    }];

    let (metrics, traces) = processor.process_events(events1);
    assert_eq!(metrics.len(), 0);
    assert_eq!(traces.len(), 0);
    assert_eq!(processor.pending_count(), 1);

    // Send runtime_done
    let events2 = vec![TelemetryEvent::RuntimeDone {
        time: "2022-10-12T00:00:01.000Z".to_string(),
        record: make_runtime_done_record("request-1"),
    }];

    let (metrics, traces) = processor.process_events(events2);
    assert_eq!(metrics.len(), 0);
    assert_eq!(traces.len(), 1);
    assert_eq!(processor.pending_count(), 0);
}

#[test]
fn an_end_without_a_start_gives_no_span() {
    let mut processor = TelemetryProcessor::with_defaults();
    let done = || TelemetryEvent::RuntimeDone {
        time: "2022-10-12T00:00:01.000Z".to_string(),
        record: make_runtime_done_record("request-1"),
    };
    let start = TelemetryEvent::Start {
        time: "2022-10-12T00:00:00.000Z".to_string(),
        record: make_start_record("request-1"),
    };
    let (_, traces) = processor.process_events(vec![done(), start, done(), done()]);
    assert_eq!(traces.len(), 1);
    let start = TelemetryEvent::Start {
        time: "2022-10-12T00:00:00.000Z".to_string(),
        record: make_start_record("request-2"),
    };
    processor.process_events(vec![start]);
    processor.clear_pending();
    assert_eq!(processor.pending_count(), 0);
}

#[test]
fn test_parse_iso8601() {
    let ts = parse_iso8601_to_nanos("2022-10-12T00:00:00.000Z");
    assert!(ts.is_some());
    assert_eq!(ts, Some(1_665_532_800_000_000_000));

    let invalid = parse_iso8601_to_nanos("invalid");
    assert!(invalid.is_none());
}

#[test]
fn timestamps_have_zones_and_fractions() {
    assert_eq!(
        parse_iso8601_to_nanos("1970-01-01T01:00:00.000000001+01:00"),
        Some(1)
    );
    assert!(parse_iso8601_to_nanos("2022-10-12").is_none());
    let before = current_time_nanos();
    assert!(before > 1_665_532_800_000_000_000);
    assert!(current_time_nanos() >= before);
}

#[test]
fn test_kv_string() {
    let kv = kv_string("key", "value");
    assert_eq!(kv.key, "key");

    match kv.value {
        AnyValue::StringValue(s) => assert_eq!(s, "value"),
        _ => panic!("Expected string value"),
    }
}

#[test]
fn test_create_shutdown_metric() {
    let converter = MetricsConverter::with_defaults();
    let request = converter.create_shutdown_metric("spindown");

    let metrics = metrics_of(&request);
    assert_eq!(metrics.len(), 1);

    let metric = &metrics[0];
    assert_eq!(metric.name, "extension.shutdown_count");
    assert_eq!(metric.unit, "{count}");

    assert_eq!(metric.data_points.len(), 1);
    let data_point = &metric.data_points[0];
    match data_point.value {
        PointValue::AsInt(val) => assert_eq!(val, 1),
        _ => panic!("Expected integer value of 1"),
    }
    assert!(value(&data_point.attributes, "shutdown.reason").is_some());
}

#[test]
fn test_shutdown_metric_different_reasons() {
    let converter = MetricsConverter::with_defaults();

    for reason in &["spindown", "timeout", "failure"] {
        let request = converter.create_shutdown_metric(reason);
        let attr = &metrics_of(&request)[0].data_points[0].attributes[0];
        assert_eq!(attr.key, "shutdown.reason");
        assert_eq!(attr.value, text(reason));
    }
}

#[test]
fn test_lambda_detector_outside_lambda() {
    // Without AWS_EXECUTION_ENV, should return empty resource
    let detector = AwsLambdaDetector::new();
    let resource = detector.detect(&LambdaEnvironment::empty());
    assert!(resource.is_empty());
}

#[test]
fn test_lambda_detector_in_lambda() {
    let env = LambdaEnvironment {
        region: Some("us-east-1".to_string()),
        function_name: Some("test-function".to_string()),
        function_version: Some("$LATEST".to_string()),
        memory_size: Some("128".to_string()),
        ..lambda()
    };
    let resource = AwsLambdaDetector::new().detect(&env);

    assert_eq!(detected_string(&resource, semconv::CLOUD_PROVIDER), Some("aws".to_string()));
    assert_eq!(
        detected_string(&resource, semconv::CLOUD_PLATFORM),
        Some("aws_lambda".to_string())
    );
    assert_eq!(
        detected_string(&resource, semconv::CLOUD_REGION),
        Some("us-east-1".to_string())
    );
    assert_eq!(
        detected_string(&resource, semconv::FAAS_NAME),
        Some("test-function".to_string())
    );
    assert_eq!(
        detected_string(&resource, semconv::FAAS_VERSION),
        Some("$LATEST".to_string())
    );
    assert_eq!(detected_int(&resource, semconv::FAAS_MAX_MEMORY), Some(128 * 1024 * 1024));
    assert_eq!(resource.len(), 6);
}

#[test]
fn other_execution_environments_are_not_lambda() {
    let env = LambdaEnvironment {
        execution_env: Some("AWS_ECS_FARGATE".to_string()),
        function_name: Some("f".to_string()),
        ..LambdaEnvironment::empty()
    };
    assert!(AwsLambdaDetector::new().detect(&env).is_empty());
    assert!(env.memory_size_fits());
    let huge = LambdaEnvironment { memory_size: Some(i64::MAX.to_string()), ..lambda() };
    assert!(!huge.memory_size_fits());
    let elsewhere = LambdaEnvironment { execution_env: None, ..huge };
    assert!(elsewhere.memory_size_fits());
    assert!(AwsLambdaDetector::new().detect(&elsewhere).is_empty());
}

#[test]
fn test_extension_detector() {
    let resource = ExtensionDetector::new().detect();

    assert_eq!(
        detected_string(&resource, semconv::SERVICE_NAME),
        Some("opentelemetry-lambda-extension".to_string())
    );
    assert_eq!(
        detected_string(&resource, semconv::TELEMETRY_SDK_NAME),
        Some("opentelemetry-lambda-extension".to_string())
    );
    assert_eq!(
        detected_string(&resource, semconv::TELEMETRY_SDK_LANGUAGE),
        Some("rust".to_string())
    );
    assert!(detected_string(&resource, semconv::TELEMETRY_SDK_VERSION).is_some());
    assert_eq!(
        detected_string(&resource, semconv::TELEMETRY_SDK_VERSION),
        Some(VERSION.to_string())
    );
}

#[test]
fn test_resource_builder_custom_attributes() {
    let resource = ResourceBuilder::new(&LambdaEnvironment::empty())
        .add_string("custom.string", "value")
        .add_int("custom.int", 42)
        .add_bool("custom.bool", true)
        .build();

    assert_eq!(detected_string(&resource, "custom.string"), Some("value".to_string()));
    assert_eq!(detected_int(&resource, "custom.int"), Some(42));
    assert_eq!(resource.get("custom.bool"), Some(&AnyValue::BoolValue(true)));
}

#[test]
fn test_detect_resource() {
    let resource = detect_resource(&LambdaEnvironment::empty());
    // Should at least have extension detector attributes
    assert!(detected_string(&resource, semconv::SERVICE_NAME).is_some());
}

#[test]
fn test_to_proto_resource() {
    let mut attributes = Table::new();
    attributes.insert("test.key".to_string(), text("test.value"));
    let resource = DetectedResource { attributes, schema_url: None };

    let proto = to_proto_resource(&resource);

    assert!(!proto.attributes.is_empty());
    let attr = &proto.attributes[0];
    assert_eq!(attr.key, "test.key");
    match &attr.value {
        AnyValue::StringValue(s) => assert_eq!(s, "test.value"),
        _ => panic!("Expected string value"),
    }
}

#[test]
fn test_service_name_is_extension_not_function() {
    let env = LambdaEnvironment {
        function_name: Some("my-lambda-function".to_string()),
        ..lambda()
    };
    let resource = detect_resource(&env);

    let service_name = detected_string(&resource, semconv::SERVICE_NAME);
    let faas_name = detected_string(&resource, semconv::FAAS_NAME);

    assert_eq!(
        service_name,
        Some("opentelemetry-lambda-extension".to_string()),
        "service.name should be the extension name, not the function name"
    );

    assert_eq!(
        faas_name,
        Some("my-lambda-function".to_string()),
        "faas.name should be the Lambda function name"
    );
}

#[test]
fn test_faas_instance_from_log_stream() {
    let env = LambdaEnvironment {
        log_stream_name: Some("2024/01/01/[$LATEST]abc123".to_string()),
        ..lambda()
    };
    let resource = AwsLambdaDetector::new().detect(&env);

    assert_eq!(
        detected_string(&resource, semconv::FAAS_INSTANCE),
        Some("2024/01/01/[$LATEST]abc123".to_string())
    );
}

#[test]
fn later_detection_replaces_attributes() {
    let env = LambdaEnvironment { function_name: Some("f".to_string()), ..lambda() };
    let resource = ResourceBuilder::new(&LambdaEnvironment::empty())
        .add_string(semconv::FAAS_NAME, "other")
        .detect_lambda_environment(&env)
        .build();
    assert_eq!(detected_string(&resource, semconv::FAAS_NAME), Some("f".to_string()));
}

#[test]
fn test_otel_001_extension_service_name_is_distinct() {
    let env = LambdaEnvironment {
        function_name: Some("my-lambda-function".to_string()),
        ..LambdaEnvironment::empty()
    };
    let resource = ResourceBuilder::new(&env).build_proto();

    let service_name = string_in(&resource, semconv::SERVICE_NAME);

    assert_eq!(
        service_name,
        Some("opentelemetry-lambda-extension".to_string()),
        "Extension service.name must be 'opentelemetry-lambda-extension', not the function name"
    );
}

#[test]
fn test_otel_002_faas_name_matches_function() {
    let env = LambdaEnvironment {
        function_name: Some("my-lambda-function".to_string()),
        ..lambda()
    };
    let resource = ResourceBuilder::new(&env).build_proto();

    let faas_name = string_in(&resource, semconv::FAAS_NAME);

    assert_eq!(
        faas_name,
        Some("my-lambda-function".to_string()),
        "faas.name should be the Lambda function name from AWS_LAMBDA_FUNCTION_NAME"
    );
}

#[test]
fn test_otel_003_function_telemetry_not_modified() {
    let env = LambdaEnvironment {
        function_name: Some("user-function".to_string()),
        ..LambdaEnvironment::empty()
    };
    let extension_resource = ResourceBuilder::new(&env).build_proto();

    // Extension resource should have its own identity
    let ext_service_name = string_in(&extension_resource, semconv::SERVICE_NAME);
    assert_eq!(ext_service_name, Some("opentelemetry-lambda-extension".to_string()));

    let function_service_name = "my-app-service";
    assert_ne!(
        ext_service_name,
        Some(function_service_name.to_string()),
        "Extension and function should have different service.name values"
    );
}

#[test]
fn test_otel_004_resource_merging_preserves_function_attrs() {
    let env = LambdaEnvironment {
        function_name: Some("test-function".to_string()),
        region: Some("us-west-2".to_string()),
        ..lambda()
    };
    let lambda_resource = ResourceBuilder::new(&env).build_proto();

    assert!(string_in(&lambda_resource, semconv::CLOUD_PROVIDER).is_some());
    assert!(string_in(&lambda_resource, semconv::CLOUD_REGION).is_some());
    assert!(string_in(&lambda_resource, semconv::FAAS_NAME).is_some());
}

#[test]
fn test_otel_010_metric_name_faas_invocation_duration() {
    let converter = MetricsConverter::with_defaults();
    let mut record = make_report_record("test-request");
    record.metrics.duration_ms = number(100.0);

    let request = converter.convert_report(&record, "2024-01-01T00:00:00.000Z");

    let metric_names = names(&request);
    assert!(
        metric_names.contains(&"faas.invocation.duration"),
        "Should use 'faas.invocation.duration' (semantic convention), got: {:?}",
        metric_names
    );
}

#[test]
fn test_otel_011_attribute_name_faas_invocation_id() {
    let converter = MetricsConverter::with_defaults();
    let mut record = make_report_record("req-12345");
    record.metrics.duration_ms = number(100.0);

    let request = converter.convert_report(&record, "2024-01-01T00:00:00.000Z");

    let attrs = &metric(&request, "faas.invocation.duration").data_points[0].attributes;
    assert_eq!(value(attrs, "faas.invocation_id"), Some(&text("req-12345")));
}

#[test]
fn test_otel_014_memory_unit_is_bytes() {
    let converter = MetricsConverter::with_defaults();
    let mut record = make_report_record("test-request");
    record.metrics.max_memory_used_mb = 64;

    let request = converter.convert_report(&record, "2024-01-01T00:00:00.000Z");

    let memory_metric = metric(&request, "aws.lambda.max_memory_used");
    assert_eq!(memory_metric.unit, "By", "Memory unit should be 'By' (bytes)");
    assert_eq!(
        memory_metric.data_points[0].value,
        PointValue::AsDoubleOf(64 * 1024 * 1024),
        "Memory value should be in bytes"
    );
}

#[test]
fn test_otel_015_duration_unit_is_milliseconds() {
    let converter = MetricsConverter::with_defaults();
    let mut record = make_report_record("test-request");
    record.metrics.duration_ms = number(150.5);

    let request = converter.convert_report(&record, "2024-01-01T00:00:00.000Z");

    assert_eq!(
        metric(&request, "faas.invocation.duration").unit,
        "ms",
        "Duration unit should be 'ms' (milliseconds)"
    );
}

fn invocation(status: &str) -> TracesData {
    SpanConverter::with_defaults().create_invocation_span(
        &make_start_record("test-request"),
        "2024-01-01T00:00:00.000Z",
        &done_record("test-request", status),
        "2024-01-01T00:00:01.000Z",
    )
}

#[test]
fn test_otel_016_span_kind_is_server() {
    assert_eq!(
        span_of(&invocation("success")).kind,
        SpanKind::Server as i32,
        "Lambda invocation spans should have SpanKind::Server"
    );
}

#[test]
fn test_otel_017_span_status_mapping() {
    assert_eq!(
        span_of(&invocation("success")).status.as_ref().unwrap().code,
        StatusCode::Unset as i32,
        "Success status should map to StatusCode::Unset per OTel spec"
    );
    assert_eq!(
        span_of(&invocation("error")).status.as_ref().unwrap().code,
        StatusCode::Error as i32,
        "Error status should map to StatusCode::Error"
    );
    assert_eq!(
        span_of(&invocation("timeout")).status.as_ref().unwrap().code,
        StatusCode::Error as i32,
        "Timeout status should map to StatusCode::Error"
    );
}

#[test]
fn test_otel_020_shutdown_metric_emitted() {
    let converter = MetricsConverter::with_defaults();
    let request = converter.create_shutdown_metric("spindown");

    let metrics = metrics_of(&request);
    assert_eq!(metrics.len(), 1);

    let metric = &metrics[0];
    assert_eq!(metric.name, "extension.shutdown_count");
    assert_eq!(metric.data_points.len(), 1);
    match metric.data_points[0].value {
        PointValue::AsInt(val) => assert_eq!(val, 1, "Shutdown count should be 1"),
        _ => panic!("Expected integer value"),
    }
}

#[test]
fn test_otel_021_shutdown_metric_has_faas_name() {
    let env = LambdaEnvironment {
        function_name: Some("test-function".to_string()),
        ..lambda()
    };
    let resource = ResourceBuilder::new(&env).build_proto();
    let converter = MetricsConverter::new(resource.clone());
    let request = converter.create_shutdown_metric("spindown");

    let resource_in_request = request.resource_metrics[0].resource.as_ref().unwrap();
    assert_eq!(
        string_in(resource_in_request, semconv::FAAS_NAME),
        Some("test-function".to_string()),
        "Shutdown metric resource should have faas.name"
    );
}

#[test]
fn test_otel_022_shutdown_metric_has_reason_attribute() {
    let converter = MetricsConverter::with_defaults();

    for reason in &["spindown", "timeout", "failure"] {
        let request = converter.create_shutdown_metric(reason);
        let attrs = &metrics_of(&request)[0].data_points[0].attributes;
        assert_eq!(
            value(attrs, "shutdown.reason"),
            Some(&text(reason)),
            "shutdown.reason should be '{}'",
            reason
        );
    }
}

#[test]
fn test_otel_023_shutdown_metric_has_extension_service_name() {
    let env = LambdaEnvironment {
        function_name: Some("test-function".to_string()),
        ..LambdaEnvironment::empty()
    };
    let resource = ResourceBuilder::new(&env).build_proto();
    let converter = MetricsConverter::new(resource);
    let request = converter.create_shutdown_metric("spindown");

    let resource_in_request = request.resource_metrics[0].resource.as_ref().unwrap();
    assert_eq!(
        string_in(resource_in_request, semconv::SERVICE_NAME),
        Some("opentelemetry-lambda-extension".to_string()),
        "Shutdown metric should have service.name = 'opentelemetry-lambda-extension'"
    );
}

#[test]
fn test_otel_030_otlp_request_structure_valid() {
    let resource = ResourceBuilder::new(&LambdaEnvironment::empty()).build_proto();
    let converter = MetricsConverter::new(resource);

    let mut record = make_report_record("test-request");
    record.metrics.duration_ms = number(100.0);

    let request = converter.convert_report(&record, "2024-01-01T00:00:00.000Z");

    assert!(!request.resource_metrics.is_empty(), "Should have resource_metrics");

    let rm = &request.resource_metrics[0];
    assert!(rm.resource.is_some(), "Should have resource");

    assert!(!rm.scope_metrics.is_empty(), "Should have scope_metrics");

    let scope = &rm.scope_metrics[0].scope;
    assert!(!scope.name.is_empty(), "Scope name should not be empty");
    assert!(!scope.version.is_empty(), "Scope version should not be empty");
}

#[test]
fn test_otel_036_trace_id_byte_length() {
    let request = SpanConverter::with_defaults().create_invocation_span(
        &traced_start_record("test-request"),
        "2024-01-01T00:00:00.000Z",
        &make_runtime_done_record("test-request"),
        "2024-01-01T00:00:01.000Z",
    );
    let span = span_of(&request);
    assert_eq!(
        span.trace_id.len(),
        16,
        "Trace ID must be 16 bytes, got {}",
        span.trace_id.len()
    );
}

#[test]
fn test_otel_037_span_id_byte_length() {
    let request = invocation("success");
    let span = span_of(&request);
    assert_eq!(
        span.span_id.len(),
        8,
        "Span ID must be 8 bytes, got {}",
        span.span_id.len()
    );
}

#[test]
fn test_telemetry_sdk_attributes() {
    let resource = ResourceBuilder::new(&LambdaEnvironment::empty()).build_proto();

    assert_eq!(
        string_in(&resource, semconv::TELEMETRY_SDK_NAME),
        Some("opentelemetry-lambda-extension".to_string()),
        "SDK name should be 'opentelemetry-lambda-extension'"
    );
    assert_eq!(
        string_in(&resource, semconv::TELEMETRY_SDK_LANGUAGE),
        Some("rust".to_string()),
        "SDK language should be 'rust'"
    );
    assert!(
        string_in(&resource, semconv::TELEMETRY_SDK_VERSION).is_some(),
        "SDK version should be set"
    );
}

#[test]
fn test_cloud_provider_attributes() {
    let env = LambdaEnvironment { region: Some("eu-west-1".to_string()), ..lambda() };
    let resource = ResourceBuilder::new(&env).build_proto();

    assert_eq!(
        string_in(&resource, semconv::CLOUD_PROVIDER),
        Some("aws".to_string()),
        "cloud.provider should be 'aws'"
    );
    assert_eq!(
        string_in(&resource, semconv::CLOUD_PLATFORM),
        Some("aws_lambda".to_string()),
        "cloud.platform should be 'aws_lambda'"
    );
    assert_eq!(
        string_in(&resource, semconv::CLOUD_REGION),
        Some("eu-west-1".to_string()),
        "cloud.region should match AWS_REGION"
    );
}

#[test]
fn test_faas_max_memory_in_bytes() {
    let env = LambdaEnvironment { memory_size: Some("256".to_string()), ..lambda() };
    let resource = ResourceBuilder::new(&env).build_proto();

    // 256 MB = 256 * 1024 * 1024 bytes = 268435456
    assert_eq!(
        value(&resource.attributes, semconv::FAAS_MAX_MEMORY),
        Some(&AnyValue::IntValue(256 * 1024 * 1024)),
        "faas.max_memory should be in bytes"
    );
}

#[test]
fn test_otel_012_faas_trigger_attribute_on_spans() {
    let request = invocation("success");
    let span = span_of(&request);

    assert_eq!(
        value(&span.attributes, "faas.invocation_id"),
        Some(&text("test-request")),
        "Span should have faas.invocation_id attribute"
    );
}

#[test]
fn test_otel_013_cold_start_indicated_by_init_duration() {
    let converter = MetricsConverter::with_defaults();

    // Cold start report (has init_duration_ms)
    let mut cold_start_record = make_report_record("cold-start-request");
    cold_start_record.metrics.duration_ms = number(500.0);
    cold_start_record.metrics.billed_duration_ms = 600;
    cold_start_record.metrics.init_duration_ms = Some(number(200.0));

    let request = converter.convert_report(&cold_start_record, "2024-01-01T00:00:00.000Z");
    assert!(
        names(&request).contains(&"aws.lambda.init_duration"),
        "Cold start should have aws.lambda.init_duration metric"
    );

    // Warm start report (no init_duration_ms)
    let mut warm_start_record = make_report_record("warm-start-request");
    warm_start_record.metrics.duration_ms = number(100.0);

    let request = converter.convert_report(&warm_start_record, "2024-01-01T00:00:00.000Z");
    assert!(
        !names(&request).contains(&"aws.lambda.init_duration"),
        "Warm start should NOT have aws.lambda.init_duration metric"
    );
}

#[test]
fn test_telemetry_processor_output_structure() {
    let resource = ResourceBuilder::new(&LambdaEnvironment::empty()).build_proto();
    let mut processor = TelemetryProcessor::new(resource);

    let mut report = make_report_record("req-1");
    report.metrics.duration_ms = number(1000.0);
    report.metrics.billed_duration_ms = 1000;
    let events = vec![
        TelemetryEvent::Start {
            time: "2024-01-01T00:00:00.000Z".to_string(),
            record: make_start_record("req-1"),
        },
        TelemetryEvent::RuntimeDone {
            time: "2024-01-01T00:00:01.000Z".to_string(),
            record: make_runtime_done_record("req-1"),
        },
        TelemetryEvent::Report {
            time: "2024-01-01T00:00:01.100Z".to_string(),
            record: report,
        },
    ];

    let (metrics, traces) = processor.process_events(events);

    assert_eq!(metrics.len(), 1, "Should produce 1 metrics request");
    assert_eq!(traces.len(), 1, "Should produce 1 traces request");

    let metrics_req = &metrics[0];
    assert!(!metrics_req.resource_metrics.is_empty());
    assert!(metrics_req.resource_metrics[0].resource.is_some());

    let traces_req = &traces[0];
    assert!(!traces_req.resource_spans.is_empty());
    assert!(traces_req.resource_spans[0].resource.is_some());
}

#[test]
fn names_follow_the_semantic_conventions() {
    for (ours, theirs) in [
        (semconv::AWS_LOG_GROUP_NAMES, otel::AWS_LOG_GROUP_NAMES),
        (semconv::AWS_LOG_STREAM_NAMES, otel::AWS_LOG_STREAM_NAMES),
        (semconv::CLIENT_ADDRESS, otel::CLIENT_ADDRESS),
        (semconv::CLOUD_ACCOUNT_ID, otel::CLOUD_ACCOUNT_ID),
        (semconv::CLOUD_PLATFORM, otel::CLOUD_PLATFORM),
        (semconv::CLOUD_PROVIDER, otel::CLOUD_PROVIDER),
        (semconv::CLOUD_REGION, otel::CLOUD_REGION),
        (semconv::ERROR_MESSAGE, otel::ERROR_MESSAGE),
        (semconv::FAAS_COLDSTART, otel::FAAS_COLDSTART),
        (semconv::FAAS_INSTANCE, otel::FAAS_INSTANCE),
        (semconv::FAAS_INVOCATION_ID, otel::FAAS_INVOCATION_ID),
        (semconv::FAAS_MAX_MEMORY, otel::FAAS_MAX_MEMORY),
        (semconv::FAAS_NAME, otel::FAAS_NAME),
        (semconv::FAAS_TRIGGER, otel::FAAS_TRIGGER),
        (semconv::FAAS_VERSION, otel::FAAS_VERSION),
        (semconv::HTTP_REQUEST_METHOD, otel::HTTP_REQUEST_METHOD),
        (semconv::HTTP_ROUTE, otel::HTTP_ROUTE),
        (semconv::MESSAGING_BATCH_MESSAGE_COUNT, otel::MESSAGING_BATCH_MESSAGE_COUNT),
        (semconv::MESSAGING_DESTINATION_NAME, otel::MESSAGING_DESTINATION_NAME),
        (semconv::MESSAGING_MESSAGE_ID, otel::MESSAGING_MESSAGE_ID),
        (semconv::MESSAGING_OPERATION_TYPE, otel::MESSAGING_OPERATION_TYPE),
        (semconv::MESSAGING_SYSTEM, otel::MESSAGING_SYSTEM),
        (semconv::NETWORK_PROTOCOL_VERSION, otel::NETWORK_PROTOCOL_VERSION),
        (semconv::OTEL_STATUS_CODE, otel::OTEL_STATUS_CODE),
        (semconv::SERVER_ADDRESS, otel::SERVER_ADDRESS),
        (semconv::SERVICE_NAME, otel::SERVICE_NAME),
        (semconv::TELEMETRY_SDK_LANGUAGE, otel::TELEMETRY_SDK_LANGUAGE),
        (semconv::TELEMETRY_SDK_NAME, otel::TELEMETRY_SDK_NAME),
        (semconv::TELEMETRY_SDK_VERSION, otel::TELEMETRY_SDK_VERSION),
        (semconv::URL_PATH, otel::URL_PATH),
        (semconv::URL_QUERY, otel::URL_QUERY),
        (semconv::URL_SCHEME, otel::URL_SCHEME),
        (semconv::USER_AGENT_ORIGINAL, otel::USER_AGENT_ORIGINAL),
    ] {
        assert_eq!(ours, theirs);
    }
    assert_eq!(SCHEMA_URL, opentelemetry_semantic_conventions::SCHEMA_URL);
    assert_eq!(EXTENSION_NAME, "opentelemetry-lambda-extension");
}
