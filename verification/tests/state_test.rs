//! Tests of the queues, the completion tracker and the invocation contexts.
use opentelemetry_lambda::aggregator::{BatchedSignal, SignalAggregator};
use opentelemetry_lambda::completion::{
    CompletionOutcome, CompletionSource, CompletionTracker, RECENTLY_COMPLETED_CAPACITY,
};
use opentelemetry_lambda::config::{CorrelationConfig, FlushConfig};
use opentelemetry_lambda::context::{
    InvocationContextManager, ParentWait, PlatformEvent, PlatformEventType, SpanContext,
};
use opentelemetry_lambda::otlp::{
    ExportLogsServiceRequest, ExportMetricsServiceRequest, ExportTraceServiceRequest,
};
use opentelemetry_lambda::receiver::Signal;
use opentelemetry_lambda::time::{Clock, Duration, Moment};
use opentelemetry_proto::tonic::collector::trace::v1::ExportTraceServiceRequest as WireTraces;
use opentelemetry_proto::tonic::trace::v1::{ResourceSpans, ScopeSpans, Span};
use prost::Message;

fn at(ms: u64) -> Moment {
    Moment { nanos: ms as u128 * 1_000_000 }
}

fn make_trace_request(span_name: &str) -> ExportTraceServiceRequest {
    ExportTraceServiceRequest {
        resource_spans: vec![ResourceSpans {
            scope_spans: vec![ScopeSpans {
                spans: vec![Span {
                    name: span_name.to_string(),
                    trace_id: vec![1; 16],
                    span_id: vec![1; 8],
                    ..Default::default()
                }],
                ..Default::default()
            }],
            ..Default::default()
        }],
    }
}

fn no_metrics() -> ExportMetricsServiceRequest {
    ExportMetricsServiceRequest { resource_metrics: Vec::new() }
}

fn no_logs() -> ExportLogsServiceRequest {
    ExportLogsServiceRequest { resource_logs: Vec::new() }
}

fn spans_in(batch: BatchedSignal) -> usize {
    match batch {
        BatchedSignal::Traces(req) => req.resource_spans.len(),
        _ => panic!("Expected traces"),
    }
}

#[test]
fn test_add_and_get_traces() {
    let mut aggregator = SignalAggregator::with_defaults();

    let signal = Signal::Traces(make_trace_request("test-span"));
    aggregator.add(signal);

    let batch = aggregator.get_trace_batch();
    assert!(batch.is_some());

    match batch.unwrap() {
        BatchedSignal::Traces(req) => {
            assert_eq!(req.resource_spans.len(), 1);
            assert_eq!(req.resource_spans[0].scope_spans[0].spans[0].name, "test-span");
        }
        _ => panic!("Expected traces batch"),
    }
}

#[test]
fn test_merge_multiple_requests() {
    let mut aggregator = SignalAggregator::with_defaults();

    for i in 0..3 {
        let signal = Signal::Traces(make_trace_request(&format!("span-{}", i)));
        aggregator.add(signal);
    }

    let batch = aggregator.get_trace_batch();
    assert!(batch.is_some());

    match batch.unwrap() {
        BatchedSignal::Traces(req) => {
            assert_eq!(req.resource_spans.len(), 3);
        }
        _ => panic!("Expected traces batch"),
    }
}

#[test]
fn test_empty_queue_returns_none() {
    let mut aggregator = SignalAggregator::with_defaults();

    assert!(aggregator.get_trace_batch().is_none());
    assert!(aggregator.get_metrics_batch().is_none());
    assert!(aggregator.get_logs_batch().is_none());
}

#[test]
fn test_pending_count_and_bytes() {
    let mut aggregator = SignalAggregator::with_defaults();

    assert_eq!(aggregator.pending_count(), 0);
    assert_eq!(aggregator.pending_bytes(), 0);

    aggregator.add(Signal::Traces(make_trace_request("span-1")));
    aggregator.add(Signal::Traces(make_trace_request("span-2")));

    assert_eq!(aggregator.pending_count(), 2);
    assert!(aggregator.pending_bytes() > 0);

    let _ = aggregator.get_trace_batch();
    assert_eq!(aggregator.pending_count(), 0);
    assert_eq!(aggregator.pending_bytes(), 0);
}

#[test]
fn test_batch_size_limit() {
    let config = FlushConfig { max_batch_entries: 2, ..Default::default() };
    let mut aggregator = SignalAggregator::new(config);

    for i in 0..5 {
        aggregator.add(Signal::Traces(make_trace_request(&format!("span-{}", i))));
    }

    assert_eq!(spans_in(aggregator.get_trace_batch().unwrap()), 2);
    assert_eq!(spans_in(aggregator.get_trace_batch().unwrap()), 2);
    assert_eq!(spans_in(aggregator.get_trace_batch().unwrap()), 1);

    assert!(aggregator.get_trace_batch().is_none());
}

#[test]
fn test_get_all_batches() {
    let mut aggregator = SignalAggregator::with_defaults();

    aggregator.add(Signal::Traces(make_trace_request("span")));
    aggregator.add(Signal::Metrics(no_metrics()));
    aggregator.add(Signal::Logs(no_logs()));

    let batches = aggregator.get_all_batches();
    assert_eq!(batches.len(), 3);
    assert!(aggregator.is_empty());
}

#[test]
fn test_large_backlog_drains_in_bounded_batches() {
    let config = FlushConfig { max_batch_entries: 10, ..Default::default() };
    let mut aggregator = SignalAggregator::new(config);

    for i in 0..35 {
        aggregator.add(Signal::Traces(make_trace_request(&format!("span-{}", i))));
    }

    let batches = aggregator.get_all_batches();
    assert_eq!(batches.len(), 4, "35 spans at 10 per batch is 4 batches");
    assert!(aggregator.is_empty());
}

#[test]
fn test_batched_signal_size_and_type() {
    let req = make_trace_request("test");
    let batch = BatchedSignal::Traces(req);
    assert!(batch.size_bytes() > 0);
    assert_eq!(batch.signal_type(), "traces");
}

#[test]
fn size_is_that_of_the_wire_format() {
    let req = make_trace_request("test");
    let wire = WireTraces { resource_spans: req.resource_spans.clone() };
    assert_eq!(BatchedSignal::Traces(req).size_bytes(), wire.encoded_len());
    assert_eq!(BatchedSignal::Metrics(no_metrics()).size_bytes(), 0);
    assert_eq!(BatchedSignal::Metrics(no_metrics()).signal_type(), "metrics");
    assert_eq!(BatchedSignal::Logs(no_logs()).signal_type(), "logs");
}

#[test]
fn test_queue_never_exceeds_byte_budget() {
    let budget = 4 * 1024;
    let config = FlushConfig { max_queue_bytes: budget, ..Default::default() };
    let mut aggregator = SignalAggregator::new(config);

    for i in 0..500 {
        aggregator.add(Signal::Traces(make_trace_request(&format!(
            "a-reasonably-long-span-name-{}",
            i
        ))));
        assert!(
            aggregator.pending_bytes() <= budget,
            "Buffered bytes must never exceed the configured budget"
        );
    }

    assert!(
        aggregator.dropped_count() > 0,
        "Exceeding the budget must drop and count the oldest signals"
    );
    assert_eq!(aggregator.dropped_count() as usize + aggregator.pending_count(), 500);
}

#[test]
fn test_queue_entry_budget_is_shared_across_signal_types() {
    let config = FlushConfig { max_queue_entries: 10, ..Default::default() };
    let mut aggregator = SignalAggregator::new(config);

    for i in 0..8 {
        aggregator.add(Signal::Traces(make_trace_request(&format!("span-{}", i))));
    }
    for _ in 0..8 {
        aggregator.add(Signal::Metrics(no_metrics()));
    }

    assert!(
        aggregator.pending_count() <= 10,
        "The entry budget applies to all signal types together"
    );
    assert!(aggregator.dropped_count() > 0);
}

#[test]
fn test_oversized_signal_is_rejected() {
    let config = FlushConfig { max_queue_bytes: 64, ..Default::default() };
    let mut aggregator = SignalAggregator::new(config);

    aggregator.add(Signal::Traces(make_trace_request(
        "a-span-name-large-enough-to-exceed-a-sixty-four-byte-budget-on-its-own",
    )));

    assert!(aggregator.is_empty());
    assert_eq!(aggregator.dropped_count(), 1);
}

#[test]
fn a_budget_of_no_entries_drops_every_signal() {
    let config = FlushConfig { max_queue_entries: 0, ..Default::default() };
    let mut aggregator = SignalAggregator::new(config);
    aggregator.add(Signal::Traces(make_trace_request("span")));
    aggregator.add(Signal::Metrics(no_metrics()));
    assert_eq!(aggregator.pending_count(), 0);
    assert_eq!(aggregator.dropped_count(), 2);
}

#[test]
fn test_eviction_prefers_pushed_signal_type() {
    let config = FlushConfig { max_queue_entries: 5, ..Default::default() };
    let mut aggregator = SignalAggregator::new(config);

    aggregator.add(Signal::Metrics(no_metrics()));
    for i in 0..20 {
        aggregator.add(Signal::Traces(make_trace_request(&format!("span-{}", i))));
    }

    assert!(
        aggregator.get_metrics_batch().is_some(),
        "Metrics entry should survive trace-queue eviction pressure"
    );
}

#[test]
fn the_oldest_leave_first_and_the_order_is_kept() {
    let config = FlushConfig { max_queue_entries: 3, ..Default::default() };
    let mut aggregator = SignalAggregator::new(config);
    for i in 0..5 {
        aggregator.add(Signal::Traces(make_trace_request(&format!("span-{}", i))));
    }
    assert_eq!(aggregator.dropped_count(), 2);
    match aggregator.get_trace_batch().unwrap() {
        BatchedSignal::Traces(req) => {
            let names: Vec<&str> = req
                .resource_spans
                .iter()
                .map(|r| r.scope_spans[0].spans[0].name.as_str())
                .collect();
            assert_eq!(names, vec!["span-2", "span-3", "span-4"]);
        }
        _ => panic!("Expected traces"),
    }
}

#[test]
fn a_batch_stops_at_the_byte_limit() {
    let one = BatchedSignal::Traces(make_trace_request("span")).size_bytes();
    let config = FlushConfig { max_batch_bytes: 2 * one, ..Default::default() };
    let mut aggregator = SignalAggregator::new(config);
    for _ in 0..5 {
        aggregator.add(Signal::Traces(make_trace_request("span")));
    }
    let sizes: Vec<usize> = aggregator.get_all_batches().into_iter().map(spans_in).collect();
    assert_eq!(sizes.iter().sum::<usize>(), 5);
    assert!(sizes.iter().all(|n| *n <= 2));
}

fn tracker_at(request_id: &str, deadline_ms: u64) -> CompletionTracker {
    let mut tracker = CompletionTracker::new();
    tracker.begin(request_id, at(deadline_ms));
    tracker
}

/// What a wait that begins now comes to, polled at the given times.
fn wait(tracker: &mut CompletionTracker, polls: &[u64]) -> Option<CompletionOutcome> {
    let (generation, _) = match tracker.start_wait() {
        Some(w) => w,
        None => return Some(CompletionOutcome::DeadlineExpired),
    };
    for ms in polls {
        if let Some(outcome) = tracker.poll_completion(generation, at(*ms)) {
            return Some(outcome);
        }
    }
    None
}

#[test]
fn completes_when_signal_arrives_during_wait() {
    let mut tracker = tracker_at("req-1", 5_000);
    let (generation, deadline) = tracker.start_wait().unwrap();
    assert_eq!(deadline, at(5_000));
    assert_eq!(tracker.poll_completion(generation, at(0)), None);

    tracker.complete_at(Some("req-1"), CompletionSource::Wrapper, at(20));

    assert_eq!(
        tracker.poll_completion(generation, at(20)),
        Some(CompletionOutcome::Completed(CompletionSource::Wrapper))
    );
    assert!(tracker.should_hold());
}

#[test]
fn signal_before_begin_completes_immediately() {
    let mut tracker = CompletionTracker::new();

    tracker.complete_at(Some("req-early"), CompletionSource::Wrapper, at(0));
    tracker.begin("req-early", at(5_000));

    assert_eq!(
        wait(&mut tracker, &[0]),
        Some(CompletionOutcome::Completed(CompletionSource::Wrapper))
    );
}

#[test]
fn completion_without_request_id_completes_current() {
    let mut tracker = tracker_at("req-2", 5_000);

    tracker.complete(None, CompletionSource::Wrapper);

    assert_eq!(
        wait(&mut tracker, &[0]),
        Some(CompletionOutcome::Completed(CompletionSource::Wrapper))
    );
}

#[test]
fn unknown_request_id_does_not_complete_current() {
    let mut tracker = tracker_at("req-3", 50);

    tracker.complete_at(Some("req-other"), CompletionSource::Wrapper, at(0));

    assert_eq!(wait(&mut tracker, &[0, 49, 50]), Some(CompletionOutcome::DeadlineExpired));
}

#[test]
fn duplicate_signals_are_idempotent_first_source_wins() {
    let mut tracker = tracker_at("req-4", 5_000);

    tracker.complete_at(Some("req-4"), CompletionSource::RuntimeDone, at(1));
    tracker.complete_at(Some("req-4"), CompletionSource::Wrapper, at(2));

    assert_eq!(
        wait(&mut tracker, &[3]),
        Some(CompletionOutcome::Completed(CompletionSource::RuntimeDone))
    );
}

#[test]
fn deadline_expiry_disables_holding() {
    let mut tracker = tracker_at("req-5", 20);

    assert_eq!(wait(&mut tracker, &[0]), None);
    assert_eq!(wait(&mut tracker, &[20]), Some(CompletionOutcome::DeadlineExpired));
    assert!(!tracker.should_hold(), "Holding must be disabled after a hold timeout");
}

#[test]
fn timely_signal_restores_holding() {
    let mut tracker = tracker_at("req-6", 20);
    assert_eq!(wait(&mut tracker, &[20]), Some(CompletionOutcome::DeadlineExpired));
    assert!(!tracker.should_hold());

    // A signal within the next invocation's window restores health,
    // even though the handler was not holding at the time.
    tracker.begin("req-7", at(5_000));
    tracker.complete_at(Some("req-7"), CompletionSource::RuntimeDone, at(30));
    assert!(tracker.should_hold());
}

#[test]
fn late_signal_does_not_restore_holding() {
    let mut tracker = tracker_at("req-8", 20);
    assert_eq!(wait(&mut tracker, &[20]), Some(CompletionOutcome::DeadlineExpired));

    // The signal arrives after req-8's window has already expired.
    tracker.complete_at(Some("req-8"), CompletionSource::RuntimeDone, at(21));
    assert!(
        !tracker.should_hold(),
        "A signal after its invocation's window must not restore holding"
    );
}

#[test]
fn a_wait_that_sees_a_late_signal_does_not_restore_holding() {
    let mut tracker = tracker_at("r", 20);
    assert_eq!(wait(&mut tracker, &[20]), Some(CompletionOutcome::DeadlineExpired));
    tracker.complete_at(Some("r"), CompletionSource::RuntimeDone, at(21));
    assert_eq!(
        wait(&mut tracker, &[22]),
        Some(CompletionOutcome::Completed(CompletionSource::RuntimeDone))
    );
    assert!(!tracker.should_hold());
    // Nor does the same signal count as timely for a second delivery.
    tracker.begin("r", at(100));
    assert!(wait(&mut tracker, &[23]).is_some());
    assert!(!tracker.should_hold());
    // A signal ahead of its invocation is in time.
    tracker.complete_at(Some("next"), CompletionSource::Wrapper, at(24));
    tracker.begin("next", at(100));
    assert!(wait(&mut tracker, &[25]).is_some());
    assert!(tracker.should_hold());
}

#[test]
fn a_completed_invocation_stays_complete_for_its_wait() {
    let mut tracker = tracker_at("req-a", 100);
    let (generation, _) = tracker.start_wait().unwrap();
    tracker.complete_at(Some("req-a"), CompletionSource::Wrapper, at(1));
    tracker.begin("req-b", at(200));
    assert_eq!(
        tracker.poll_completion(generation, at(2)),
        Some(CompletionOutcome::Completed(CompletionSource::Wrapper))
    );
    let (generation, _) = tracker.start_wait().unwrap();
    assert_eq!(tracker.poll_completion(generation, at(2)), None);
}

#[test]
fn completions_are_kept_for_every_wait() {
    let done = Some(CompletionOutcome::Completed(CompletionSource::Wrapper));
    let expired = Some(CompletionOutcome::DeadlineExpired);
    let mut tracker = tracker_at("req-a", 100);
    let (first, deadline) = tracker.start_wait().unwrap();
    assert_eq!(tracker.hold_until(), Some(deadline));
    let (again, _) = tracker.start_wait().unwrap();
    assert_eq!(first, again);
    tracker.complete_at(Some("req-a"), CompletionSource::Wrapper, at(1));
    tracker.begin("req-b", at(200));
    let (second, _) = tracker.start_wait().unwrap();
    tracker.complete_at(Some("req-b"), CompletionSource::Wrapper, at(2));
    tracker.begin("req-c", at(300));
    tracker.begin("req-d", at(400));
    assert_eq!(tracker.poll_completion(first, at(500)), done);
    assert_eq!(tracker.poll_completion(second, at(500)), done);
    assert_eq!(tracker.poll_completion(again, at(500)), done);
    // Nobody waits any more.
    assert_eq!(tracker.poll_completion(first, at(500)), expired);
    assert_eq!(tracker.poll_completion(second, at(500)), expired);
    assert!(tracker.should_hold());
}

#[test]
fn wait_without_begin_returns_expired() {
    let mut tracker = CompletionTracker::new();
    assert_eq!(wait(&mut tracker, &[0]), Some(CompletionOutcome::DeadlineExpired));
    assert!(tracker.should_hold());
}

#[test]
fn recently_completed_is_bounded() {
    let mut tracker = CompletionTracker::new();
    for i in 0..(RECENTLY_COMPLETED_CAPACITY + 10) {
        tracker.complete(Some(&format!("req-{i}")), CompletionSource::Wrapper);
    }
    assert_eq!(tracker.recently_completed_len(), RECENTLY_COMPLETED_CAPACITY);
}

#[test]
fn the_oldest_early_signals_are_forgotten() {
    let mut tracker = CompletionTracker::default();
    for i in 0..(RECENTLY_COMPLETED_CAPACITY + 1) {
        tracker.complete_at(Some(&format!("req-{i}")), CompletionSource::Wrapper, at(0));
    }
    tracker.begin("req-0", at(100));
    assert_eq!(wait(&mut tracker, &[0]), None);
    tracker.begin("req-1", at(100));
    assert_eq!(
        wait(&mut tracker, &[0]),
        Some(CompletionOutcome::Completed(CompletionSource::Wrapper))
    );
}

#[test]
fn a_wait_for_a_replaced_invocation_is_over() {
    let mut tracker = tracker_at("req-a", 100);
    let (generation, _) = tracker.start_wait().unwrap();
    tracker.begin("req-b", at(200));
    assert_eq!(
        tracker.poll_completion(generation, at(0)),
        Some(CompletionOutcome::DeadlineExpired)
    );
    assert!(tracker.should_hold());
}

fn test_config() -> CorrelationConfig {
    CorrelationConfig {
        max_correlation_delay: Duration::from_millis(100),
        max_buffered_events_per_invocation: 10,
        max_total_buffered_events: 100,
        max_invocation_lifetime: Duration::from_secs(60),
        emit_orphaned_spans: true,
    }
}

fn span_context(trace_id: &str, span_id: &str) -> SpanContext {
    SpanContext {
        trace_id: trace_id.to_string(),
        span_id: span_id.to_string(),
        trace_flags: 1,
        trace_state: None,
    }
}

fn start_event(request_id: &str, data: &str) -> PlatformEvent {
    PlatformEvent {
        event_type: PlatformEventType::Start,
        timestamp_nanos: 0,
        request_id: request_id.to_string(),
        data: data.to_string(),
    }
}

#[test]
fn test_register_and_get_parent_span() {
    let mut manager = InvocationContextManager::new(test_config());

    manager.register_invocation("req-123".to_string());

    assert!(manager.get_parent_span("req-123").is_none());

    let span_ctx = span_context("0102030405060708090a0b0c0d0e0f10", "0102030405060708");

    manager.set_parent_span("req-123", span_ctx.clone());

    let retrieved = manager.get_parent_span("req-123");
    assert_eq!(retrieved, Some(span_ctx));
}

#[test]
fn test_wait_for_parent_span_immediate() {
    let mut manager = InvocationContextManager::new(test_config());

    manager.register_invocation("req-456".to_string());

    let span_ctx = span_context("trace-id", "span-id");

    manager.set_parent_span("req-456", span_ctx.clone());

    match manager.poll_parent_span("req-456", at(0), at(0)) {
        ParentWait::Over(found) => assert_eq!(found, Some(span_ctx)),
        ParentWait::Pending => panic!("The parent is known"),
    }
}

#[test]
fn test_wait_for_parent_span_delayed() {
    let mut manager = InvocationContextManager::new(test_config());

    manager.register_invocation("req-789".to_string());
    assert!(matches!(
        manager.poll_parent_span("req-789", at(0), at(0)),
        ParentWait::Pending
    ));

    manager.set_parent_span("req-789", span_context("delayed-trace", "delayed-span"));

    match manager.poll_parent_span("req-789", at(0), at(20)) {
        ParentWait::Over(result) => {
            assert!(result.is_some());
            assert_eq!(result.unwrap().trace_id, "delayed-trace");
        }
        ParentWait::Pending => panic!("The parent is known"),
    }
}

#[test]
fn departures_are_on_the_clock_of_the_wait() {
    let clock = Clock::start();
    let mut manager = InvocationContextManager::with_clock(test_config(), clock);
    manager.register_invocation("r".to_string());
    let since = clock.now();
    manager.set_parent_span("r", span_context("t", "s"));
    manager.remove_invocation("r");
    match manager.poll_parent_span("r", since, clock.now()) {
        ParentWait::Over(found) => assert_eq!(found, Some(span_context("t", "s"))),
        ParentWait::Pending => panic!("The parent was known"),
    }
}

#[test]
fn a_removed_invocation_leaves_its_parent_to_those_who_wait() {
    let mut manager = InvocationContextManager::new(test_config());
    manager.register_invocation_at("r".to_string(), at(0));
    manager.register_invocation_at("other".to_string(), at(0));
    manager.set_parent_span("r", span_context("t", "s"));
    manager.set_parent_span("other", span_context("t2", "s2"));
    manager.remove_invocation_at("r", at(5));
    manager.remove_invocation_at("other", at(6));
    match manager.poll_parent_span("r", at(1), at(7)) {
        ParentWait::Over(found) => assert_eq!(found, Some(span_context("t", "s"))),
        ParentWait::Pending => panic!("The parent was known"),
    }
    // So does one that outlived its time.
    manager.register_invocation_at("stale".to_string(), at(0));
    manager.set_parent_span("stale", span_context("t3", "s3"));
    manager.cleanup_stale_contexts_at(at(60_001));
    match manager.poll_parent_span("stale", at(60_000), at(60_002)) {
        ParentWait::Over(found) => assert_eq!(found, Some(span_context("t3", "s3"))),
        ParentWait::Pending => panic!("The parent was known"),
    }
    // Whoever comes later finds no such invocation.
    assert!(matches!(manager.poll_parent_span("r", at(6), at(7)), ParentWait::Over(None)));
    assert!(manager.get_parent_span("r").is_none());
}

#[test]
fn test_wait_for_parent_span_timeout() {
    let mut config = test_config();
    config.max_correlation_delay = Duration::from_millis(10);

    let mut manager = InvocationContextManager::new(config);
    manager.register_invocation("req-timeout".to_string());

    assert!(matches!(
        manager.poll_parent_span("req-timeout", at(0), at(9)),
        ParentWait::Pending
    ));
    assert!(matches!(
        manager.poll_parent_span("req-timeout", at(0), at(10)),
        ParentWait::Over(None)
    ));
    assert!(matches!(
        manager.poll_parent_span("req-unknown", at(0), at(0)),
        ParentWait::Over(None)
    ));
}

#[test]
fn test_platform_events() {
    let mut manager = InvocationContextManager::new(test_config());

    let event = start_event("req-events", "{\"requestId\":\"req-events\"}");

    manager.add_platform_event(event.clone());

    let events = manager.take_platform_events("req-events");
    assert_eq!(events.len(), 1);
    assert_eq!(events[0].request_id, "req-events");

    let events_again = manager.take_platform_events("req-events");
    assert!(events_again.is_empty());
}

#[test]
fn test_remove_invocation() {
    let mut manager = InvocationContextManager::new(test_config());

    manager.register_invocation("req-remove".to_string());
    assert_eq!(manager.active_count(), 1);

    manager.remove_invocation("req-remove");
    assert_eq!(manager.active_count(), 0);
}

#[test]
fn test_cleanup_stale_contexts() {
    let mut config = test_config();
    config.max_invocation_lifetime = Duration::from_millis(10);

    let mut manager = InvocationContextManager::new(config);

    manager.register_invocation_at("req-stale".to_string(), at(0));
    assert_eq!(manager.active_count(), 1);

    manager.cleanup_stale_contexts_at(at(20));
    assert_eq!(manager.active_count(), 0);
}

#[test]
fn cleanup_keeps_the_fresh() {
    let mut config = test_config();
    config.max_invocation_lifetime = Duration::from_millis(10);
    let mut manager = InvocationContextManager::new(config);
    manager.register_invocation_at("old".to_string(), at(0));
    manager.register_invocation_at("new".to_string(), at(15));
    manager.set_parent_span("new", span_context("t", "s"));
    manager.cleanup_stale_contexts_at(at(20));
    assert_eq!(manager.active_count(), 1);
    assert_eq!(manager.get_parent_span("new"), Some(span_context("t", "s")));
}

#[test]
fn test_event_buffer_limit() {
    let mut config = test_config();
    config.max_buffered_events_per_invocation = 2;

    let mut manager = InvocationContextManager::new(config);
    manager.register_invocation("req-limit".to_string());

    for i in 0..5 {
        manager.add_platform_event(start_event("req-limit", &format!("{{\"index\":{}}}", i)));
    }

    let events = manager.take_platform_events("req-limit");
    assert_eq!(events.len(), 2);
}

#[test]
fn orphans_are_emitted_as_configured() {
    assert!(InvocationContextManager::with_defaults().emit_orphaned_spans());
    let mut config = test_config();
    config.emit_orphaned_spans = false;
    assert!(!InvocationContextManager::new(config).emit_orphaned_spans());
}
