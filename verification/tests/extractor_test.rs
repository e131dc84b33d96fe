//! Tests of the extractors on the events that Lambda sends.
use aws_lambda_events::apigw::ApiGatewayV2httpRequest;
use opentelemetry::trace::TraceContextExt;
use opentelemetry_lambda::extractor::{
    choose_context, lookup_str, LinkContext, Propagated, TraceContextExtractor,
};
use opentelemetry_lambda::extractors::http::{
    convert_xray_to_traceparent, extract_http_version, parse_xray_trace_id,
    ApiGatewayV1Extractor, ApiGatewayV2Extractor, HttpEventExtractor, HttpRequestV1,
    HttpRequestV2, XRayEnvExtractor,
};
use opentelemetry_lambda::extractors::lambda_http::{
    AlbRequest, LambdaHttpExtractor, LambdaRequest, WebSocketRequest,
};
use opentelemetry::propagation::Extractor;
use opentelemetry_lambda::extractor::{lookup_any_case_str, names_of, HeaderMapExtractor};
use opentelemetry_lambda::extractors::sns::{
    extract_link_from_record, link_of_record, SnsEvent, SnsEventExtractor,
    SnsMessageAttributeExtractor, SnsRecord,
};
use opentelemetry_lambda::extractors::sqs::{
    convert_xray_trace_id, hex_to_bytes, parse_xray_trace_header, SqsEvent, SqsEventExtractor,
    SqsMessage,
};
use opentelemetry_lambda::model::{AnyValue, KeyValue};
use opentelemetry_lambda::tracing::XRayTraceHeader;
use opentelemetry_sdk::propagation::TraceContextPropagator;

/// API Gateway HTTP API v2 sample event
const API_GATEWAY_HTTP_API_EVENT: &str = r#"{
  "version": "2.0",
  "routeKey": "$default",
  "rawPath": "/path/to/resource",
  "rawQueryString": "parameter1=value1&parameter1=value2&parameter2=value",
  "cookies": [
    "cookie1",
    "cookie2"
  ],
  "headers": {
    "Header1": "value1",
    "Header2": "value1,value2"
  },
  "queryStringParameters": {
    "parameter1": "value1,value2",
    "parameter2": "value"
  },
  "requestContext": {
    "accountId": "123456789012",
    "apiId": "api-id",
    "domainName": "id.execute-api.us-east-1.amazonaws.com",
    "domainPrefix": "id",
    "http": {
      "method": "POST",
      "path": "/path/to/resource",
      "protocol": "HTTP/1.1",
      "sourceIp": "192.168.0.1",
      "userAgent": "agent"
    },
    "requestId": "id",
    "routeKey": "$default",
    "stage": "$default",
    "time": "12/Mar/2020:19:03:58 +0000",
    "timeEpoch": 1583348638390
  },
  "body": "eyJ0ZXN0IjoiYm9keSJ9",
  "pathParameters": {
    "parameter1": "value1"
  },
  "isBase64Encoded": true,
  "stageVariables": {
    "stageVariable1": "value1",
    "stageVariable2": "value2"
  }
}"#;

/// API Gateway HTTP API v2 event with traceparent header
const API_GATEWAY_HTTP_API_WITH_TRACE: &str = r#"{
  "version": "2.0",
  "routeKey": "GET /users/{id}",
  "rawPath": "/users/123",
  "rawQueryString": "",
  "headers": {
    "traceparent": "00-4bf92f3577b34da6a3ce929d0e0e4736-00f067aa0ba902b7-01",
    "content-type": "application/json",
    "user-agent": "Mozilla/5.0"
  },
  "requestContext": {
    "accountId": "123456789012",
    "apiId": "api-id",
    "domainName": "api.example.com",
    "http": {
      "method": "GET",
      "path": "/users/123",
      "protocol": "HTTP/1.1",
      "sourceIp": "203.0.113.42",
      "userAgent": "Mozilla/5.0"
    },
    "requestId": "req-123",
    "routeKey": "GET /users/{id}",
    "stage": "prod"
  },
  "body": null,
  "isBase64Encoded": false
}"#;

/// SQS sample event
const SQS_EVENT: &str = r#"{
  "Records": [
    {
      "messageId": "19dd0b57-b21e-4ac1-bd88-01bbb068cb78",
      "receiptHandle": "MessageReceiptHandle",
      "body": "Hello from SQS!",
      "attributes": {
        "ApproximateReceiveCount": "1",
        "SentTimestamp": "1523232000000",
        "SenderId": "123456789012",
        "ApproximateFirstReceiveTimestamp": "1523232000001"
      },
      "messageAttributes": {},
      "md5OfBody": "098f6bcd4621d373cade4e832627b4f6",
      "eventSource": "aws:sqs",
      "eventSourceARN": "arn:aws:sqs:us-east-1:123456789012:MyQueue",
      "awsRegion": "us-east-1"
    }
  ]
}"#;

/// SQS event with X-Ray trace header
const SQS_EVENT_WITH_TRACE: &str = r#"{
  "Records": [
    {
      "messageId": "msg-001",
      "receiptHandle": "handle-001",
      "body": "{\"orderId\": 12345}",
      "attributes": {
        "ApproximateReceiveCount": "1",
        "SentTimestamp": "1700000000000",
        "SenderId": "123456789012",
        "ApproximateFirstReceiveTimestamp": "1700000000001",
        "AWSTraceHeader": "Root=1-5759e988-bd862e3fe1be46a994272793;Parent=53995c3f42cd8ad8;Sampled=1"
      },
      "messageAttributes": {},
      "eventSource": "aws:sqs",
      "eventSourceARN": "arn:aws:sqs:eu-west-1:123456789012:order-processing-queue",
      "awsRegion": "eu-west-1"
    },
    {
      "messageId": "msg-002",
      "receiptHandle": "handle-002",
      "body": "{\"orderId\": 12346}",
      "attributes": {
        "ApproximateReceiveCount": "1",
        "SentTimestamp": "1700000000100",
        "SenderId": "123456789012",
        "ApproximateFirstReceiveTimestamp": "1700000000101",
        "AWSTraceHeader": "Root=1-67890abc-def0123456789abcdef01234;Parent=1234567890abcdef;Sampled=0"
      },
      "messageAttributes": {},
      "eventSource": "aws:sqs",
      "eventSourceARN": "arn:aws:sqs:eu-west-1:123456789012:order-processing-queue",
      "awsRegion": "eu-west-1"
    }
  ]
}"#;

const XRAY: &str = "Root=1-5759e988-bd862e3fe1be46a994272793;Parent=53995c3f42cd8ad8;Sampled=1";

fn text(s: &str) -> AnyValue {
    AnyValue::StringValue(s.to_string())
}

fn value<'a>(list: &'a [KeyValue], key: &str) -> Option<&'a AnyValue> {
    list.iter().find(|kv| kv.key == key).map(|kv| &kv.value)
}

fn read_v2(json: &str) -> (ApiGatewayV2httpRequest, HttpRequestV2) {
    let event: ApiGatewayV2httpRequest =
        serde_json::from_str(json).expect("Failed to deserialize");
    let request = v2(&event);
    (event, request)
}

fn headers(map: &http::HeaderMap) -> Vec<(String, String)> {
    map.keys()
        .filter_map(|k| {
            let v = map.get(k)?.to_str().ok()?;
            Some((k.as_str().to_string(), v.to_string()))
        })
        .collect()
}

fn v2(event: &ApiGatewayV2httpRequest) -> HttpRequestV2 {
    HttpRequestV2 {
        method: event.request_context.http.method.as_str().to_string(),
        route_key: event.route_key.clone(),
        raw_path: event.raw_path.clone(),
        raw_query_string: event.raw_query_string.clone(),
        headers: headers(&event.headers),
        source_ip: event.request_context.http.source_ip.clone(),
        protocol: event.request_context.http.protocol.clone(),
    }
}

fn read_sqs(json: &str) -> (aws_lambda_events::sqs::SqsEvent, SqsEvent) {
    let event: aws_lambda_events::sqs::SqsEvent =
        serde_json::from_str(json).expect("Failed to deserialize");
    let records = event
        .records
        .iter()
        .map(|m| SqsMessage {
            message_id: m.message_id.clone(),
            event_source_arn: m.event_source_arn.clone(),
            attributes: m.attributes.iter().map(|(k, v)| (k.clone(), v.clone())).collect(),
        })
        .collect();
    (event, SqsEvent { records })
}

fn message(header: Option<&str>) -> SqsMessage {
    SqsMessage {
        message_id: Some("msg-123".to_string()),
        event_source_arn: Some("arn:aws:sqs:us-east-1:123456789:my-queue".to_string()),
        attributes: header
            .map(|h| ("AWSTraceHeader".to_string(), h.to_string()))
            .into_iter()
            .collect(),
    }
}

fn create_test_v2_event() -> HttpRequestV2 {
    HttpRequestV2 {
        method: "GET".to_string(),
        route_key: Some("GET /users/{id}".to_string()),
        raw_path: Some("/users/123".to_string()),
        raw_query_string: Some("foo=bar".to_string()),
        headers: vec![("content-type".to_string(), "application/json".to_string())],
        source_ip: Some("192.168.1.1".to_string()),
        protocol: None,
    }
}

fn create_test_sqs_event() -> SqsEvent {
    SqsEvent { records: vec![message(Some(XRAY))] }
}

fn create_test_sns_event(header: Option<&str>) -> SnsEvent {
    SnsEvent {
        records: vec![SnsRecord {
            topic_arn: "arn:aws:sns:us-east-1:123456789:my-topic".to_string(),
            message_id: "msg-123".to_string(),
            message_attributes: header
                .map(|h| ("AWSTraceHeader".to_string(), h.to_string()))
                .into_iter()
                .collect(),
        }],
    }
}

#[test]
fn http_test_trigger_type() {
    let extractor = ApiGatewayV2Extractor::new();
    assert_eq!(extractor.trigger_type(), "http");
}

#[test]
fn test_span_name_from_route_v2() {
    let extractor = ApiGatewayV2Extractor::new();
    let event = create_test_v2_event();
    let name = extractor.span_name(&event, "");
    assert_eq!(name, "GET /users/{id}");
}

#[test]
fn test_span_name_fallback_to_path() {
    let extractor = ApiGatewayV2Extractor::new();
    let mut event = create_test_v2_event();
    event.route_key = None;
    let name = extractor.span_name(&event, "");
    assert_eq!(name, "GET /users/123");
}

#[test]
fn test_extract_no_trace_context() {
    let extractor = ApiGatewayV2Extractor::new();
    let event = create_test_v2_event();
    let ctx = extractor.extract_context(&event, None);
    assert!(!ctx.span().span_context().is_valid());
}

#[test]
fn test_extract_traceparent_header() {
    opentelemetry::global::set_text_map_propagator(TraceContextPropagator::new());
    let extractor = ApiGatewayV2Extractor::new();
    let mut event = create_test_v2_event();
    event.headers.push((
        "traceparent".to_string(),
        "00-4bf92f3577b34da6a3ce929d0e0e4736-00f067aa0ba902b7-01".to_string(),
    ));
    let ctx = extractor.extract_context(&event, None);
    assert!(ctx.span().span_context().is_valid());
    assert_eq!(
        ctx.span().span_context().trace_id().to_string(),
        "4bf92f3577b34da6a3ce929d0e0e4736"
    );
}

#[test]
fn test_extract_traceparent_case_insensitive() {
    opentelemetry::global::set_text_map_propagator(TraceContextPropagator::new());
    let extractor = ApiGatewayV2Extractor::new();
    let mut map = http::HeaderMap::new();
    map.insert(
        http::HeaderName::from_bytes(b"Traceparent").unwrap(),
        http::HeaderValue::from_static(
            "00-4bf92f3577b34da6a3ce929d0e0e4736-00f067aa0ba902b7-01",
        ),
    );
    let mut event = create_test_v2_event();
    event.headers.extend(headers(&map));
    let ctx = extractor.extract_context(&event, None);
    assert!(ctx.span().span_context().is_valid());
}

#[test]
fn test_extract_invalid_traceparent() {
    let extractor = ApiGatewayV2Extractor::new();
    let mut event = create_test_v2_event();
    event.headers.push(("traceparent".to_string(), "invalid".to_string()));
    let ctx = extractor.extract_context(&event, None);
    assert!(!ctx.span().span_context().is_valid());
}

#[test]
fn invalid_traceparent_falls_back_to_the_environment() {
    opentelemetry::global::set_text_map_propagator(TraceContextPropagator::new());
    let extractor = ApiGatewayV2Extractor::new();
    let mut event = create_test_v2_event();
    event.headers.push(("traceparent".to_string(), "invalid".to_string()));
    let ctx = extractor.extract_context(&event, Some(XRAY));
    assert_eq!(
        ctx.span().span_context().trace_id().to_string(),
        "5759e988bd862e3fe1be46a994272793"
    );
    assert_eq!(ctx.span().span_context().span_id().to_string(), "53995c3f42cd8ad8");
    let ctx = extractor.extract_context(&event, Some("Root=nonsense"));
    assert!(!ctx.span().span_context().is_valid());
}

#[test]
fn headers_come_before_the_environment() {
    opentelemetry::global::set_text_map_propagator(TraceContextPropagator::new());
    let (_, event) = read_v2(API_GATEWAY_HTTP_API_WITH_TRACE);
    let ctx = ApiGatewayV2Extractor::new().extract_context(&event, Some(XRAY));
    assert_eq!(ctx.span().span_context().span_id().to_string(), "00f067aa0ba902b7");
}

#[test]
fn the_current_context_is_the_last_resort() {
    let invalid = || Propagated { context: opentelemetry::Context::new(), valid: false };
    let marked = opentelemetry::Context::new().with_value(7u8);
    let c = choose_context(invalid(), Some(invalid()), marked.clone());
    assert_eq!(c.get::<u8>(), Some(&7));
    let c = choose_context(
        invalid(),
        Some(Propagated { context: marked.clone(), valid: true }),
        opentelemetry::Context::new(),
    );
    assert_eq!(c.get::<u8>(), Some(&7));
    let c = choose_context(
        Propagated { context: marked, valid: true },
        None,
        opentelemetry::Context::new(),
    );
    assert_eq!(c.get::<u8>(), Some(&7));
}

#[test]
fn test_parse_xray_trace_id() {
    let result = parse_xray_trace_id("1-5759e988-bd862e3fe1be46a994272793");
    assert!(result.is_some());
    assert_eq!(result.unwrap(), "5759e988bd862e3fe1be46a994272793");
}

#[test]
fn test_parse_xray_trace_id_invalid() {
    assert!(parse_xray_trace_id("invalid").is_none());
    assert!(parse_xray_trace_id("1-abc").is_none());
}

#[test]
fn trace_id_needs_version_one_and_thirty_two_digits() {
    assert!(parse_xray_trace_id("2-5759e988-bd862e3fe1be46a994272793").is_none());
    assert!(parse_xray_trace_id("1-5759e988-bd862e3fe1be46a9942727").is_none());
    assert!(parse_xray_trace_id("1-5759e988-bd862e3f-e1be46a994272793").is_none());
    // The digits of both parts count together, in either case.
    let odd = format!("1-{}-{}", "A".repeat(2), "f".repeat(30));
    assert_eq!(parse_xray_trace_id(&odd).unwrap().len(), 32);
    // Nothing but hexadecimal digits is a trace ID.
    let letters = format!("1-{}-{}", "z".repeat(8), "z".repeat(24));
    assert!(parse_xray_trace_id(&letters).is_none());
    assert!(convert_xray_trace_id(&letters).is_none());
    let wide = format!("1-{}-{}", "\u{e9}".repeat(8), "\u{e9}".repeat(8));
    assert!(parse_xray_trace_id(&wide).is_none());
}

#[test]
fn test_convert_xray_to_traceparent_sampled() {
    let xray = "Root=1-5759e988-bd862e3fe1be46a994272793;Parent=53995c3f42cd8ad8;Sampled=1";
    let result = convert_xray_to_traceparent(xray);
    assert!(result.is_some());
    assert_eq!(result.unwrap(), "00-5759e988bd862e3fe1be46a994272793-53995c3f42cd8ad8-01");
}

#[test]
fn test_convert_xray_to_traceparent_unsampled() {
    let xray = "Root=1-5759e988-bd862e3fe1be46a994272793;Parent=53995c3f42cd8ad8;Sampled=0";
    let result = convert_xray_to_traceparent(xray);
    assert!(result.is_some());
    assert_eq!(result.unwrap(), "00-5759e988bd862e3fe1be46a994272793-53995c3f42cd8ad8-00");
}

#[test]
fn test_convert_xray_to_traceparent_missing_parent() {
    let xray = "Root=1-5759e988-bd862e3fe1be46a994272793;Sampled=1";
    assert!(convert_xray_to_traceparent(xray).is_none());
}

#[test]
fn test_convert_xray_to_traceparent_invalid_parent() {
    let xray = "Root=1-5759e988-bd862e3fe1be46a994272793;Parent=tooshort;Sampled=1";
    assert!(convert_xray_to_traceparent(xray).is_none());
}

#[test]
fn the_last_root_counts_even_where_it_names_no_trace() {
    let twice = format!("{};Root=bad", XRAY);
    assert!(convert_xray_to_traceparent(&twice).is_none());
    assert!(parse_xray_trace_header(&twice).is_none());
    let sticky = format!("{};Sampled=0", XRAY);
    assert!(convert_xray_to_traceparent(&sticky).unwrap().ends_with("-01"));
    // Only the link reader drops white space around the parts.
    let spaced = XRAY.replace(';', "; ");
    assert!(convert_xray_to_traceparent(&spaced).is_none());
    assert!(parse_xray_trace_header(&spaced).is_some());
}

#[test]
fn test_xray_env_extractor_valid() {
    let xray = "Root=1-5759e988-bd862e3fe1be46a994272793;Parent=53995c3f42cd8ad8;Sampled=1";
    let extractor = XRayEnvExtractor::new(xray);
    let traceparent = extractor.get("traceparent");
    assert!(traceparent.is_some());
    assert_eq!(
        traceparent.unwrap(),
        "00-5759e988bd862e3fe1be46a994272793-53995c3f42cd8ad8-01"
    );
}

#[test]
fn test_xray_env_extractor_case_insensitive() {
    let xray = "Root=1-5759e988-bd862e3fe1be46a994272793;Parent=53995c3f42cd8ad8;Sampled=1";
    let extractor = XRayEnvExtractor::new(xray);
    assert!(extractor.get("Traceparent").is_some());
    assert!(extractor.get("TRACEPARENT").is_some());
}

#[test]
fn xray_env_extractor_has_one_key_or_none() {
    let extractor = XRayEnvExtractor::new(XRAY);
    assert_eq!(extractor.keys(), vec!["traceparent"]);
    assert!(extractor.get("tracestate").is_none());
    assert_eq!(extractor.carrier().len(), 1);
    let extractor = XRayEnvExtractor::new("Root=bad");
    assert!(extractor.keys().is_empty());
    assert!(extractor.get("traceparent").is_none());
    assert!(extractor.carrier().is_empty());
}

#[test]
fn test_extract_http_version_1_1() {
    assert_eq!(extract_http_version("HTTP/1.1"), "1.1");
}

#[test]
fn test_extract_http_version_2_0() {
    assert_eq!(extract_http_version("HTTP/2.0"), "2");
}

#[test]
fn test_extract_http_version_2() {
    assert_eq!(extract_http_version("HTTP/2"), "2");
}

#[test]
fn test_extract_http_version_fallback() {
    assert_eq!(extract_http_version("unknown"), "unknown");
}

#[test]
fn http_version_drops_every_trailing_zero() {
    assert_eq!(extract_http_version("HTTP/3.0.0"), "3");
    assert_eq!(extract_http_version("HTTP/.0"), "");
    assert_eq!(extract_http_version("HTTP/10"), "10");
}

#[test]
fn http_attributes_v2() {
    let (_, event) = read_v2(API_GATEWAY_HTTP_API_WITH_TRACE);
    let list = ApiGatewayV2Extractor::new().record_attributes(&event);
    assert_eq!(value(&list, "http.request.method"), Some(&text("GET")));
    assert_eq!(value(&list, "url.path"), Some(&text("/users/123")));
    assert_eq!(value(&list, "http.route"), Some(&text("/users/{id}")));
    assert_eq!(value(&list, "url.scheme"), Some(&text("https")));
    assert_eq!(value(&list, "url.query"), None);
    assert_eq!(value(&list, "user_agent.original"), Some(&text("Mozilla/5.0")));
    assert_eq!(value(&list, "client.address"), Some(&text("203.0.113.42")));
    assert_eq!(value(&list, "server.address"), None);
    assert_eq!(value(&list, "network.protocol.version"), Some(&text("1.1")));
    let (_, event) = read_v2(API_GATEWAY_HTTP_API_EVENT);
    let list = HttpEventExtractor::new().record_attributes(&event);
    assert_eq!(value(&list, "http.route"), Some(&text("$default")));
    assert_eq!(
        value(&list, "url.query"),
        Some(&text("parameter1=value1&parameter1=value2&parameter2=value"))
    );
}

#[test]
fn http_attributes_and_name_v1() {
    let mut event = HttpRequestV1 {
        method: "PUT".to_string(),
        resource: Some("/users/{id}".to_string()),
        path: Some("/users/7".to_string()),
        headers: vec![
            ("host".to_string(), "api.example.com".to_string()),
            ("user-agent".to_string(), "curl".to_string()),
        ],
        source_ip: Some("10.0.0.1".to_string()),
        protocol: Some("HTTP/2.0".to_string()),
    };
    let extractor = ApiGatewayV1Extractor::new();
    assert_eq!(extractor.trigger_type(), "http");
    assert!(extractor.extract_links(&event).is_empty());
    assert_eq!(extractor.span_name(&event, "f"), "PUT /users/{id}");
    let list = extractor.record_attributes(&event);
    let keys: Vec<&str> = list.iter().map(|kv| kv.key.as_str()).collect();
    assert_eq!(
        keys,
        vec![
            "http.request.method",
            "url.path",
            "http.route",
            "url.scheme",
            "user_agent.original",
            "client.address",
            "server.address",
            "network.protocol.version",
        ]
    );
    assert_eq!(list[7].value, text("2"));
    event.resource = None;
    assert_eq!(extractor.span_name(&event, "f"), "PUT /users/7");
    event.path = None;
    assert_eq!(extractor.span_name(&event, "f"), "PUT f");
}

#[test]
fn lambda_http_names_and_attributes() {
    let extractor = LambdaHttpExtractor::new();
    assert_eq!(extractor.trigger_type(), "http");
    let v2 = LambdaRequest::ApiGatewayV2(create_test_v2_event());
    assert_eq!(extractor.span_name(&v2, "f"), "GET /users/{id}");
    assert_eq!(value(&extractor.record_attributes(&v2), "url.query"), Some(&text("foo=bar")));
    let mut alb = AlbRequest { method: "GET".to_string(), path: None, headers: Vec::new() };
    assert_eq!(extractor.span_name(&LambdaRequest::Alb(alb.clone()), "f"), "GET /");
    alb.path = Some("/a".to_string());
    alb.headers.push(("host".to_string(), "h".to_string()));
    let alb = LambdaRequest::Alb(alb);
    assert_eq!(extractor.span_name(&alb, "f"), "GET /a");
    assert_eq!(value(&extractor.record_attributes(&alb), "server.address"), Some(&text("h")));
    let socket =
        LambdaRequest::WebSocket(WebSocketRequest { route_key: None, headers: Vec::new() });
    assert_eq!(extractor.span_name(&socket, "f"), "WebSocket $default");
    let list = extractor.record_attributes(&socket);
    assert_eq!(list.len(), 1);
    assert_eq!(value(&list, "url.scheme"), Some(&text("wss")));
    assert_eq!(extractor.span_name(&LambdaRequest::Other, "f"), "f");
    assert!(extractor.record_attributes(&LambdaRequest::Other).is_empty());
    assert!(extractor.extract_links(&LambdaRequest::Other).is_empty());
}

#[test]
fn lambda_http_reads_the_headers_of_every_kind() {
    opentelemetry::global::set_text_map_propagator(TraceContextPropagator::new());
    let carried = vec![(
        "traceparent".to_string(),
        "00-4bf92f3577b34da6a3ce929d0e0e4736-00f067aa0ba902b7-01".to_string(),
    )];
    let extractor = LambdaHttpExtractor::new();
    let mut v2 = create_test_v2_event();
    v2.headers = carried.clone();
    let requests = vec![
        LambdaRequest::ApiGatewayV2(v2),
        LambdaRequest::Alb(AlbRequest {
            method: "GET".to_string(),
            path: None,
            headers: carried.clone(),
        }),
        LambdaRequest::WebSocket(WebSocketRequest { route_key: None, headers: carried }),
    ];
    for request in &requests {
        let ctx = extractor.extract_context(request, None);
        assert_eq!(ctx.span().span_context().span_id().to_string(), "00f067aa0ba902b7");
    }
    let ctx = extractor.extract_context(&LambdaRequest::Other, Some(XRAY));
    assert!(!ctx.span().span_context().is_valid());
}

#[test]
fn sqs_test_trigger_type() {
    let extractor = SqsEventExtractor::new();
    assert_eq!(extractor.trigger_type(), "pubsub");
}

#[test]
fn test_span_name_includes_queue() {
    let extractor = SqsEventExtractor::new();
    let event = create_test_sqs_event();
    let name = extractor.span_name(&event, "");
    assert_eq!(name, "my-queue process");
}

#[test]
fn test_queue_name_from_arn() {
    assert_eq!(
        SqsEventExtractor::queue_name_from_arn("arn:aws:sqs:us-east-1:123456789:my-queue"),
        Some("my-queue")
    );
    assert_eq!(
        SqsEventExtractor::queue_name_from_arn(
            "arn:aws:sqs:eu-west-1:987654321:another-queue.fifo"
        ),
        Some("another-queue.fifo")
    );
    assert_eq!(SqsEventExtractor::queue_name_from_arn(""), Some(""));
}

#[test]
fn test_extract_links_single_message() {
    let extractor = SqsEventExtractor::new();
    let event = create_test_sqs_event();
    let links = extractor.extract_links(&event);
    assert_eq!(links.len(), 1);
    let link = &links[0];
    assert!(link.is_valid());
    assert_eq!(link.trace_id_hex(), "5759e988bd862e3fe1be46a994272793");
    assert_eq!(link.span_id_hex(), "53995c3f42cd8ad8");
    assert!(link.is_sampled());
}

#[test]
fn test_extract_links_multiple_messages() {
    let extractor = SqsEventExtractor::new();
    let event = SqsEvent {
        records: vec![
            message(Some(
                "Root=1-5759e988-bd862e3fe1be46a994272793;Parent=53995c3f42cd8ad8;Sampled=1",
            )),
            message(Some(
                "Root=1-67890abc-def0123456789abcdef01234;Parent=1234567890abcdef;Sampled=0",
            )),
        ],
    };
    let links = extractor.extract_links(&event);
    assert_eq!(links.len(), 2);
    assert!(links[0].is_sampled());
    assert!(!links[1].is_sampled());
}

#[test]
fn sqs_test_extract_links_no_trace_header() {
    let extractor = SqsEventExtractor::new();
    let event = SqsEvent { records: vec![message(None)] };
    let links = extractor.extract_links(&event);
    assert!(links.is_empty());
}

#[test]
fn messages_without_a_good_header_give_no_link() {
    let event = SqsEvent {
        records: vec![message(Some("nonsense")), message(Some(XRAY)), message(None)],
    };
    assert_eq!(SqsEventExtractor::new().extract_links(&event).len(), 1);
    let ctx = SqsEventExtractor::new().extract_context(&event, Some(XRAY));
    assert!(!ctx.span().span_context().is_valid());
}

#[test]
fn sqs_attributes() {
    let list = SqsEventExtractor::new().record_attributes(&create_test_sqs_event());
    assert_eq!(value(&list, "messaging.system"), Some(&text("aws_sqs")));
    assert_eq!(value(&list, "messaging.operation.type"), Some(&text("process")));
    assert_eq!(value(&list, "messaging.destination.name"), Some(&text("my-queue")));
    assert_eq!(value(&list, "messaging.batch.message_count"), Some(&AnyValue::IntValue(1)));
    assert_eq!(value(&list, "messaging.message.id"), Some(&text("msg-123")));
    let (_, two) = read_sqs(SQS_EVENT_WITH_TRACE);
    let list = SqsEventExtractor::new().record_attributes(&two);
    assert_eq!(value(&list, "messaging.batch.message_count"), Some(&AnyValue::IntValue(2)));
    assert_eq!(value(&list, "messaging.message.id"), None);
    let none = SqsEvent { records: Vec::new() };
    assert_eq!(SqsEventExtractor::new().record_attributes(&none).len(), 3);
    assert_eq!(SqsEventExtractor::new().span_name(&none, "f"), "f process");
}

#[test]
fn sqs_test_parse_xray_trace_header() {
    let header = "Root=1-5759e988-bd862e3fe1be46a994272793;Parent=53995c3f42cd8ad8;Sampled=1";
    let ctx = parse_xray_trace_header(header).unwrap();
    assert!(ctx.is_valid());
    assert_eq!(ctx.trace_id_hex(), "5759e988bd862e3fe1be46a994272793");
    assert_eq!(ctx.span_id_hex(), "53995c3f42cd8ad8");
    assert!(ctx.is_sampled());
    assert!(ctx.is_remote());
}

#[test]
fn test_parse_xray_trace_header_unsampled() {
    let header = "Root=1-5759e988-bd862e3fe1be46a994272793;Parent=53995c3f42cd8ad8;Sampled=0";
    let ctx = parse_xray_trace_header(header).unwrap();
    assert!(!ctx.is_sampled());
}

#[test]
fn test_parse_xray_trace_header_invalid() {
    assert!(parse_xray_trace_header("invalid").is_none());
    assert!(parse_xray_trace_header("Root=invalid;Parent=abc").is_none());
    assert!(parse_xray_trace_header("Root=1-abc-def").is_none());
}

#[test]
fn test_convert_xray_trace_id() {
    assert_eq!(
        convert_xray_trace_id("1-5759e988-bd862e3fe1be46a994272793"),
        Some("5759e988bd862e3fe1be46a994272793".to_string())
    );
}

#[test]
fn test_hex_to_bytes() {
    let bytes: [u8; 4] = hex_to_bytes("deadbeef").unwrap();
    assert_eq!(bytes, [0xde, 0xad, 0xbe, 0xef]);
}

#[test]
fn test_hex_to_bytes_invalid() {
    assert!(hex_to_bytes::<4>("deadbee").is_none()); // too short
    assert!(hex_to_bytes::<4>("deadbeefx").is_none()); // too long
    assert!(hex_to_bytes::<4>("deadbeeg").is_none()); // invalid char
}

#[test]
fn hex_to_bytes_takes_either_case() {
    assert_eq!(hex_to_bytes::<3>("AbCdEf"), Some([0xab, 0xcd, 0xef]));
    assert_eq!(hex_to_bytes::<0>(""), Some([]));
    assert!(hex_to_bytes::<1>("\u{e9}").is_none());
}

#[test]
fn sns_test_trigger_type() {
    let extractor = SnsEventExtractor::new();
    assert_eq!(extractor.trigger_type(), "pubsub");
}

#[test]
fn test_topic_name_from_arn() {
    assert_eq!(
        SnsEventExtractor::topic_name_from_arn("arn:aws:sns:us-east-1:123456789:my-topic"),
        Some("my-topic")
    );
}

#[test]
fn test_extract_links_with_trace_header() {
    let extractor = SnsEventExtractor::new();
    let event = create_test_sns_event(Some(
        "Root=1-5759e988-bd862e3fe1be46a994272793;Parent=53995c3f42cd8ad8;Sampled=1",
    ));
    let links = extractor.extract_links(&event);
    assert_eq!(links.len(), 1);
    let link = &links[0];
    assert!(link.is_valid());
    assert_eq!(link.trace_id_hex(), "5759e988bd862e3fe1be46a994272793");
    assert_eq!(link.span_id_hex(), "53995c3f42cd8ad8");
    assert!(link.is_sampled());
}

#[test]
fn sns_test_extract_links_no_trace_header() {
    let extractor = SnsEventExtractor::new();
    let event = create_test_sns_event(None);
    let links = extractor.extract_links(&event);
    assert!(links.is_empty());
}

#[test]
fn sns_test_parse_xray_trace_header() {
    let header = "Root=1-5759e988-bd862e3fe1be46a994272793;Parent=53995c3f42cd8ad8;Sampled=1";
    let ctx = parse_xray_trace_header(header).unwrap();
    assert!(ctx.is_valid());
    assert_eq!(ctx.trace_id_hex(), "5759e988bd862e3fe1be46a994272793");
    assert_eq!(ctx.span_id_hex(), "53995c3f42cd8ad8");
    assert!(ctx.is_sampled());
}

#[test]
fn sns_prefers_what_was_propagated() {
    let event = create_test_sns_event(Some(XRAY));
    let mut propagated = LinkContext {
        trace_id: [1; 16],
        span_id: [2; 8],
        flags: 1,
        remote: true,
        trace_state: "a=b".to_string(),
    };
    let link = link_of_record(&event.records[0], propagated.clone());
    assert_eq!(link, Some(propagated.clone()));
    // A trace without a span is not valid.
    propagated.span_id = [0; 8];
    let link = link_of_record(&event.records[0], propagated.clone()).unwrap();
    assert_eq!(link.span_id_hex(), "53995c3f42cd8ad8");
    assert!(link_of_record(&create_test_sns_event(Some("")).records[0], propagated).is_none());
    assert!(SnsEventExtractor::new().extract_links(&create_test_sns_event(Some(""))).is_empty());
}

#[test]
fn sns_links_what_the_propagator_finds() {
    opentelemetry::global::set_text_map_propagator(TraceContextPropagator::new());
    let mut event = create_test_sns_event(Some(XRAY));
    let traceparent = "00-4bf92f3577b34da6a3ce929d0e0e4736-00f067aa0ba902b7-01".to_string();
    event.records[0].message_attributes.push(("traceparent".to_string(), traceparent.clone()));
    event.records[0].message_attributes.push(("tracestate".to_string(), "a=b".to_string()));
    let link = extract_link_from_record(&event.records[0]).unwrap();
    assert_eq!(link.trace_id_hex(), "4bf92f3577b34da6a3ce929d0e0e4736");
    assert_eq!(link.span_id_hex(), "00f067aa0ba902b7");
    assert!(link.is_sampled());
    assert!(link.is_remote());
    assert_eq!(link.trace_state, "a=b");
    assert_eq!(SnsEventExtractor::new().extract_links(&event), vec![link]);
    // Names are exact: another case is another attribute.
    event.records[0].message_attributes[1].0 = "TraceParent".to_string();
    let link = extract_link_from_record(&event.records[0]).unwrap();
    assert_eq!(link.span_id_hex(), "53995c3f42cd8ad8");
}

#[test]
fn message_attributes_are_read_by_exact_name() {
    let attributes = vec![
        ("a".to_string(), "1".to_string()),
        ("B".to_string(), "2".to_string()),
    ];
    assert_eq!(names_of(&attributes), vec!["a", "B"]);
    let reader = SnsMessageAttributeExtractor { attributes: &attributes };
    assert_eq!(reader.get("a"), Some("1"));
    assert_eq!(reader.get("b"), None);
    assert_eq!(reader.keys(), vec!["a", "B"]);
}

#[test]
fn headers_are_read_without_regard_to_case() {
    let headers = vec![
        ("Trace-Id".to_string(), "1".to_string()),
        ("trace-id".to_string(), "2".to_string()),
    ];
    assert_eq!(lookup_any_case_str(&headers, "TRACE-ID"), Some("1"));
    let reader = HeaderMapExtractor { headers: &headers };
    assert_eq!(reader.get("trace-id"), Some("1"));
    assert_eq!(reader.get("trace"), None);
    assert_eq!(reader.keys(), vec!["Trace-Id", "trace-id"]);
}

#[test]
fn sns_attributes_and_name() {
    let event = create_test_sns_event(None);
    let extractor = SnsEventExtractor::new();
    assert_eq!(extractor.span_name(&event, "f"), "my-topic process");
    let list = extractor.record_attributes(&event);
    assert_eq!(value(&list, "messaging.system"), Some(&text("aws_sns")));
    assert_eq!(value(&list, "messaging.destination.name"), Some(&text("my-topic")));
    assert_eq!(value(&list, "messaging.message.id"), Some(&text("msg-123")));
    assert_eq!(value(&list, "messaging.batch.message_count"), Some(&AnyValue::IntValue(1)));
    let none = SnsEvent { records: Vec::new() };
    assert_eq!(extractor.span_name(&none, "f"), "f process");
    assert_eq!(extractor.record_attributes(&none).len(), 3);
    let ctx = extractor.extract_context(&event, Some(XRAY));
    assert!(!ctx.span().span_context().is_valid());
}

#[test]
fn sample_events_test_deserialize_sample_event() {
    let (event, request) = read_v2(API_GATEWAY_HTTP_API_EVENT);
    assert_eq!(event.raw_path, Some("/path/to/resource".to_string()));
    assert_eq!(event.request_context.http.method.as_str(), "POST");
    assert_eq!(request.raw_path, Some("/path/to/resource".to_string()));
    assert_eq!(request.method, "POST");

    let (event, messages) = read_sqs(SQS_EVENT);
    assert_eq!(event.records.len(), 1);
    assert_eq!(
        event.records[0].message_id,
        Some("19dd0b57-b21e-4ac1-bd88-01bbb068cb78".to_string())
    );
    assert_eq!(event.records[0].body, Some("Hello from SQS!".to_string()));
    assert_eq!(messages.records.len(), 1);
    assert_eq!(
        messages.records[0].message_id,
        Some("19dd0b57-b21e-4ac1-bd88-01bbb068cb78".to_string())
    );
}

#[test]
fn sample_events_test_span_name_from_sample_event() {
    let (_, event) = read_v2(API_GATEWAY_HTTP_API_EVENT);
    // The route_key is "$default" so it should use the raw path
    assert_eq!(ApiGatewayV2Extractor::new().span_name(&event, ""), "POST /path/to/resource");

    let (_, event) = read_sqs(SQS_EVENT);
    assert_eq!(SqsEventExtractor::new().span_name(&event, ""), "MyQueue process");
}

#[test]
fn sample_events_test_trigger_type() {
    assert_eq!(ApiGatewayV2Extractor::new().trigger_type(), "http");
    assert_eq!(SqsEventExtractor::new().trigger_type(), "pubsub");
}

#[test]
fn test_trigger_type() {
    let extractor = SqsEventExtractor::new();
    assert_eq!(extractor.trigger_type(), "pubsub");
}

#[test]
fn test_extract_context_no_traceparent() {
    let (_, event) = read_v2(API_GATEWAY_HTTP_API_EVENT);
    let ctx = ApiGatewayV2Extractor::new().extract_context(&event, None);
    assert!(!ctx.span().span_context().is_valid());
}

#[test]
fn test_extract_context_with_traceparent() {
    opentelemetry::global::set_text_map_propagator(TraceContextPropagator::new());
    let (_, event) = read_v2(API_GATEWAY_HTTP_API_WITH_TRACE);
    let ctx = ApiGatewayV2Extractor::new().extract_context(&event, None);
    assert!(ctx.span().span_context().is_valid());
    assert_eq!(
        ctx.span().span_context().trace_id().to_string(),
        "4bf92f3577b34da6a3ce929d0e0e4736"
    );
    assert_eq!(ctx.span().span_context().span_id().to_string(), "00f067aa0ba902b7");
    assert!(ctx.span().span_context().is_sampled());
}

#[test]
fn test_span_name_with_route_pattern() {
    let (_, event) = read_v2(API_GATEWAY_HTTP_API_WITH_TRACE);
    assert_eq!(ApiGatewayV2Extractor::new().span_name(&event, ""), "GET /users/{id}");
}

#[test]
fn sample_events_test_extract_links_no_trace_header() {
    let (_, event) = read_sqs(SQS_EVENT);
    assert!(SqsEventExtractor::new().extract_links(&event).is_empty());
}

#[test]
fn test_extract_links_with_trace_headers() {
    let (_, event) = read_sqs(SQS_EVENT_WITH_TRACE);
    let links = SqsEventExtractor::new().extract_links(&event);
    assert_eq!(links.len(), 2);

    let link1 = &links[0];
    assert!(link1.is_valid());
    assert_eq!(link1.trace_id_hex(), "5759e988bd862e3fe1be46a994272793");
    assert_eq!(link1.span_id_hex(), "53995c3f42cd8ad8");
    assert!(link1.is_sampled());

    let link2 = &links[1];
    assert!(link2.is_valid());
    assert_eq!(link2.trace_id_hex(), "67890abcdef0123456789abcdef01234");
    assert_eq!(link2.span_id_hex(), "1234567890abcdef");
    assert!(!link2.is_sampled());
}

#[test]
fn test_span_name_with_fifo_queue() {
    let (_, event) = read_sqs(SQS_EVENT_WITH_TRACE);
    assert_eq!(
        SqsEventExtractor::new().span_name(&event, ""),
        "order-processing-queue process"
    );
}

#[test]
fn test_sqs_batch_message_count() {
    let (event, messages) = read_sqs(SQS_EVENT_WITH_TRACE);
    assert_eq!(event.records.len(), 2);
    assert_eq!(messages.records.len(), 2);
}

#[test]
fn readers_of_a_header_agree() {
    let header = XRayTraceHeader::parse(XRAY).unwrap();
    assert_eq!(header.to_header_string(), XRAY);
    let w3c = header.to_w3c().unwrap();
    assert_eq!(convert_xray_to_traceparent(XRAY), Some(w3c.to_traceparent()));
    let link = parse_xray_trace_header(XRAY).unwrap();
    assert_eq!(Some(link.trace_id), w3c.trace_id_bytes());
    assert_eq!(Some(link.span_id), w3c.span_id_bytes());
    assert_eq!(link.is_sampled(), w3c.sampled);
}

#[test]
fn the_first_entry_of_a_name_counts() {
    let list = vec![
        ("a".to_string(), "1".to_string()),
        ("b".to_string(), "2".to_string()),
        ("a".to_string(), "3".to_string()),
    ];
    assert_eq!(lookup_str(&list, "a"), Some("1"));
    assert_eq!(lookup_str(&list, "b"), Some("2"));
    assert_eq!(lookup_str(&list, "A"), None);
}
