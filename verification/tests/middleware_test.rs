//! Tests of the tracing middleware's decisions.
use opentelemetry_lambda::cold_start::check_cold_start;
use opentelemetry_lambda::extractor::TraceContextExtractor;
use opentelemetry_lambda::extractors::http::ApiGatewayV2Extractor;
use opentelemetry_lambda::extractors::sqs::{SqsEvent, SqsEventExtractor, SqsMessage};
use opentelemetry_lambda::future::{OtelTracingFuture, Phase, Step};
use opentelemetry_lambda::invocation::{
    invocation_span, lambda_context_attributes, outcome_attributes, LambdaContext,
};
use opentelemetry_lambda::layer::{OtelTracingLayer, OtelTracingLayerBuilder};
use opentelemetry_lambda::model::{AnyValue, KeyValue};
use opentelemetry_lambda::time::Duration;
use opentelemetry_sdk::logs::SdkLoggerProvider;
use opentelemetry_sdk::trace::SdkTracerProvider;
use std::sync::Arc;

fn text(s: &str) -> AnyValue {
    AnyValue::StringValue(s.to_string())
}

fn value<'a>(list: &'a [KeyValue], key: &str) -> Option<&'a AnyValue> {
    list.iter().find(|kv| kv.key == key).map(|kv| &kv.value)
}

fn context() -> LambdaContext {
    LambdaContext {
        request_id: "req-1".to_string(),
        invoked_function_arn: "arn:aws:lambda:eu-west-1:123456789012:function:f".to_string(),
        function_name: "f".to_string(),
        version: "$LATEST".to_string(),
        memory: 128,
    }
}

#[test]
fn test_cold_start_first_invocation() {
    let mut flag = true;
    // First call should return true
    assert!(check_cold_start(&mut flag, None));
    // Second call should return false
    assert!(!check_cold_start(&mut flag, None));
    // Third call should also return false
    assert!(!check_cold_start(&mut flag, None));
}

#[test]
fn test_provisioned_concurrency_not_cold_start() {
    let mut flag = true;
    // Should return false even on first call
    assert!(!check_cold_start(&mut flag, Some("provisioned-concurrency")));
    // The flag is cleared all the same.
    assert!(!check_cold_start(&mut flag, None));
}

#[test]
fn test_other_initialization_type_is_cold_start() {
    let mut flag = true;
    // Should still be a cold start
    assert!(check_cold_start(&mut flag, Some("on-demand")));
}

#[test]
fn layer_defaults() {
    let layer = OtelTracingLayer::new(ApiGatewayV2Extractor::new());
    assert!(layer.tracer_provider.is_none());
    assert!(layer.logger_provider.is_none());
    assert!(layer.flush_on_end);
    assert_eq!(layer.flush_timeout, Duration::from_secs(5));
    let built = OtelTracingLayer::builder(ApiGatewayV2Extractor::new()).build();
    assert!(built.flush_on_end);
    assert_eq!(built.flush_timeout, Duration::from_secs(5));
}

#[test]
fn layer_builder_sets_each_setting() {
    let tracer = Arc::new(SdkTracerProvider::builder().build());
    let logger = Arc::new(SdkLoggerProvider::builder().build());
    let layer = OtelTracingLayerBuilder::new(ApiGatewayV2Extractor::new())
        .tracer_provider(tracer.clone())
        .logger_provider(logger.clone())
        .flush_on_end(false)
        .flush_timeout(Duration::from_millis(100))
        .build();
    assert!(Arc::ptr_eq(layer.tracer_provider.as_ref().unwrap(), &tracer));
    assert!(Arc::ptr_eq(layer.logger_provider.as_ref().unwrap(), &logger));
    assert!(!layer.flush_on_end);
    assert_eq!(layer.flush_timeout, Duration::from_millis(100));
}

#[test]
fn result_waits_for_the_flush() {
    let tracer = Arc::new(SdkTracerProvider::builder().build());
    let layer = OtelTracingLayer::builder(ApiGatewayV2Extractor::new())
        .tracer_provider(tracer)
        .build();
    let mut f = OtelTracingFuture::new(&layer);
    assert_eq!(f.after_handler(None), Step::Wait);
    assert_eq!(f.after_handler(Some(7)), Step::Flush);
    assert_eq!(f.phase, Phase::Flushing);
    assert_eq!(f.after_flush(false), Step::Wait);
    assert_eq!(f.after_flush(true), Step::Return(7));
    assert_eq!(f.phase, Phase::Finished);
}

#[test]
fn a_logger_provider_alone_is_flushed() {
    let logger = Arc::new(SdkLoggerProvider::builder().build());
    let layer = OtelTracingLayer::builder(ApiGatewayV2Extractor::new())
        .logger_provider(logger)
        .build();
    assert!(OtelTracingFuture::<u8>::new(&layer).flushes);
}

#[test]
fn nothing_to_flush_returns_at_once() {
    let layer = OtelTracingLayer::new(ApiGatewayV2Extractor::new());
    let mut f = OtelTracingFuture::new(&layer);
    assert_eq!(f.after_handler(Some("done")), Step::Return("done"));
    assert_eq!(f.phase, Phase::Finished);
    let tracer = Arc::new(SdkTracerProvider::builder().build());
    let layer = OtelTracingLayer::builder(ApiGatewayV2Extractor::new())
        .tracer_provider(tracer)
        .flush_on_end(false)
        .build();
    assert_eq!(OtelTracingFuture::new(&layer).after_handler(Some(1)), Step::Return(1));
}

#[test]
fn context_attributes_of_an_invocation() {
    let list = lambda_context_attributes(&context(), Some("eu-west-1"));
    let keys: Vec<&str> = list.iter().map(|kv| kv.key.as_str()).collect();
    assert_eq!(
        keys,
        vec![
            "cloud.provider",
            "faas.name",
            "faas.version",
            "faas.max_memory",
            "cloud.region",
            "aws.lambda.invoked_arn",
            "cloud.account.id",
        ]
    );
    assert_eq!(value(&list, "cloud.provider"), Some(&text("aws")));
    assert_eq!(value(&list, "faas.max_memory"), Some(&AnyValue::IntValue(134_217_728)));
    assert_eq!(value(&list, "cloud.account.id"), Some(&text("123456789012")));
    let mut ctx = context();
    ctx.invoked_function_arn = "arn:aws:lambda:eu-west-1".to_string();
    ctx.memory = i32::MAX;
    let list = lambda_context_attributes(&ctx, None);
    assert_eq!(value(&list, "cloud.region"), None);
    assert_eq!(value(&list, "cloud.account.id"), None);
    assert_eq!(
        value(&list, "faas.max_memory"),
        Some(&AnyValue::IntValue(i32::MAX as i64 * 1_048_576))
    );
}

#[test]
fn span_of_an_invocation() {
    let event = SqsEvent {
        records: vec![SqsMessage {
            message_id: None,
            event_source_arn: Some("arn:aws:sqs:us-east-1:123456789012:my-queue".to_string()),
            attributes: vec![(
                "AWSTraceHeader".to_string(),
                "Root=1-5759e988-bd862e3fe1be46a994272793;Parent=53995c3f42cd8ad8;Sampled=1"
                    .to_string(),
            )],
        }],
    };
    let span = invocation_span(&SqsEventExtractor::new(), &event, &context(), None, true);
    assert_eq!(span.name, "my-queue process");
    assert_eq!(span.trigger, "pubsub");
    assert_eq!(span.invocation_id, "req-1");
    assert!(span.coldstart);
    assert_eq!(span.links.len(), 1);
    assert_eq!(value(&span.event_attributes, "messaging.system"), Some(&text("aws_sqs")));
    assert_eq!(value(&span.context_attributes, "faas.name"), Some(&text("f")));
}

#[test]
fn outcome_of_a_handler() {
    let list = outcome_attributes(None);
    assert_eq!(list.len(), 1);
    assert_eq!(value(&list, "otel.status_code"), Some(&text("OK")));
    let list = outcome_attributes(Some("Handler error"));
    assert_eq!(value(&list, "otel.status_code"), Some(&text("ERROR")));
    assert_eq!(value(&list, "error.message"), Some(&text("Handler error")));
}

/// An extractor of one's own.
#[derive(Clone)]
struct TimerExtractor;

impl TraceContextExtractor<u32> for TimerExtractor {
    fn extract_context(&self, _payload: &u32, _xray: Option<&str>) -> opentelemetry::Context {
        opentelemetry::Context::current()
    }

    fn trigger_type(&self) -> &'static str {
        "timer"
    }

    fn span_name(&self, payload: &u32, function_name: &str) -> String {
        format!("{} {}", function_name, payload)
    }

    fn record_attributes(&self, _payload: &u32) -> Vec<KeyValue> {
        Vec::new()
    }
}

#[test]
fn other_events_have_extractors_of_their_own() {
    let span = invocation_span(&TimerExtractor, &7u32, &context(), None, false);
    assert_eq!(span.name, "f 7");
    assert_eq!(span.trigger, "timer");
    assert!(!span.coldstart);
    assert!(span.links.is_empty());
}

#[test]
fn layers_and_extractors_have_copies_and_defaults() {
    let tracer = Arc::new(SdkTracerProvider::builder().build());
    let layer = OtelTracingLayer::builder(ApiGatewayV2Extractor::default())
        .tracer_provider(tracer.clone())
        .flush_timeout(Duration::from_millis(7))
        .build();
    let copy = layer.clone();
    assert!(Arc::ptr_eq(copy.tracer_provider.as_ref().unwrap(), &tracer));
    assert_eq!(copy.flush_timeout, Duration::from_millis(7));
    assert_eq!(copy.flush_on_end, layer.flush_on_end);
}
