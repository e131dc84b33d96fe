//! Tests of the flush strategies.
use opentelemetry_lambda::config::{
    CompletionWait, ExporterConfig, FlushConfig, FlushStrategy,
};
use opentelemetry_lambda::exporter::OtlpExporter;
use opentelemetry_lambda::flush::{FlushManager, FlushReason, HISTORY_SIZE};
use opentelemetry_lambda::time::{low_bits, whole_millis, Clock, Duration, Moment};

fn config(
    strategy: FlushStrategy,
    interval: Duration,
    max_batch_entries: usize,
    max_batch_bytes: usize,
) -> FlushConfig {
    FlushConfig {
        strategy,
        interval,
        max_batch_bytes,
        max_batch_entries,
        ..Default::default()
    }
}

fn test_config() -> FlushConfig {
    config(FlushStrategy::Default, Duration::from_millis(100), 10, 1024)
}

fn at(ms: u64) -> Moment {
    Moment { nanos: ms as u128 * 1_000_000 }
}

#[test]
fn flush_test_shutdown_always_flushes() {
    let manager = FlushManager::new(test_config());

    let reason = manager.should_flush(None, 1, true);
    assert_eq!(reason, Some(FlushReason::Shutdown));

    let reason = manager.should_flush(None, 0, true);
    assert_eq!(reason, Some(FlushReason::Shutdown));
}

#[test]
fn flush_test_buffer_full_triggers_flush() {
    let mut config = test_config();
    config.max_batch_entries = 5;

    let manager = FlushManager::new(config);

    let reason = manager.should_flush(None, 5, false);
    assert_eq!(reason, Some(FlushReason::BufferFull));

    let reason = manager.should_flush(None, 3, false);
    assert_ne!(reason, Some(FlushReason::BufferFull));
}

#[test]
fn test_empty_buffer_no_flush() {
    let manager = FlushManager::new(test_config());

    let reason = manager.should_flush(None, 0, false);
    assert!(reason.is_none());
}

#[test]
fn test_continuous_strategy() {
    let mut config = test_config();
    config.strategy = FlushStrategy::Continuous;
    config.interval = Duration::from_millis(10);

    let mut manager = FlushManager::new(config);

    let reason = manager.should_flush_at(None, 1, false, at(0), 0);
    assert_eq!(reason, Some(FlushReason::Continuous));

    manager.record_flush_at(at(0));

    let reason = manager.should_flush_at(None, 1, false, at(1), 1);
    assert!(reason.is_none());

    let reason = manager.should_flush_at(None, 1, false, at(15), 15);
    assert_eq!(reason, Some(FlushReason::Continuous));
}

#[test]
fn test_end_strategy() {
    let mut config = test_config();
    config.strategy = FlushStrategy::End;

    let manager = FlushManager::new(config);

    let reason = manager.should_flush(None, 1, false);
    assert!(reason.is_none());

    let reason = manager.should_flush_on_invocation_end(1);
    assert_eq!(reason, Some(FlushReason::InvocationEnd));
}

#[test]
fn flush_test_infrequent_pattern_detection() {
    let mut manager = FlushManager::new(test_config());

    assert!(manager.is_infrequent_pattern());

    manager.record_invocation();
    assert!(manager.is_infrequent_pattern());
}

#[test]
fn flush_test_frequent_pattern_detection() {
    let mut manager = FlushManager::new(test_config());

    for _ in 0..5 {
        manager.record_invocation();
    }

    let avg = manager.average_invocation_interval();
    assert!(avg.is_some());
    assert!(!manager.is_infrequent_pattern());
}

#[test]
fn test_timeout_escalation() {
    let mut config = test_config();
    config.strategy = FlushStrategy::End;

    let mut manager = FlushManager::new(config);

    for _ in 0..HISTORY_SIZE {
        manager.record_flush_timeout();
    }

    let reason = manager.should_flush(None, 1, false);
    assert_eq!(reason, Some(FlushReason::Continuous));
}

#[test]
fn test_record_flush_resets_timeout_count() {
    let mut manager = FlushManager::new(test_config());

    manager.record_flush_timeout();
    manager.record_flush_timeout();
    assert_eq!(manager.consecutive_timeout_count(), 2);

    manager.record_flush();
    assert_eq!(manager.consecutive_timeout_count(), 0);
}

#[test]
fn flush_test_time_until_next_flush() {
    let mut config = test_config();
    config.interval = Duration::from_millis(100);

    let mut manager = FlushManager::new(config);

    assert_eq!(manager.time_until_next_flush(), Duration::zero());

    manager.record_flush();

    let remaining = manager.time_until_next_flush();
    assert!(remaining <= Duration::from_millis(100));
    assert!(remaining > Duration::zero());
}

#[test]
fn test_invocation_history_limit() {
    let mut manager = FlushManager::new(test_config());

    for _ in 0..30 {
        manager.record_invocation();
    }

    assert_eq!(manager.invocation_history_len(), HISTORY_SIZE);
}

#[test]
fn test_end_strategy_flushes_on_invocation_end() {
    let config = config(FlushStrategy::End, Duration::from_millis(100), 100, 1024);

    let manager = FlushManager::new(config);

    let reason = manager.should_flush(None, 5, false);
    assert!(reason.is_none(), "End strategy should not flush mid-invocation");

    let reason = manager.should_flush_on_invocation_end(5);
    assert_eq!(
        reason,
        Some(FlushReason::InvocationEnd),
        "End strategy should flush at invocation end"
    );
}

#[test]
fn test_default_strategy_with_infrequent_pattern_flushes_on_end() {
    let config = config(FlushStrategy::Default, Duration::from_millis(100), 100, 1024);

    let manager = FlushManager::new(config);

    assert!(
        manager.is_infrequent_pattern(),
        "Empty history should be considered infrequent"
    );

    let reason = manager.should_flush_on_invocation_end(5);
    assert_eq!(
        reason,
        Some(FlushReason::InvocationEnd),
        "Default strategy with infrequent pattern should flush at invocation end"
    );
}

#[test]
fn test_continuous_strategy_periodic_flush() {
    let config = config(FlushStrategy::Continuous, Duration::from_millis(10), 100, 1024);

    let mut manager = FlushManager::new(config);

    let reason = manager.should_flush_at(None, 1, false, at(0), 0);
    assert_eq!(
        reason,
        Some(FlushReason::Continuous),
        "Continuous strategy should flush when interval elapsed"
    );

    manager.record_flush_at(at(0));

    let reason = manager.should_flush_at(None, 1, false, at(0), 0);
    assert!(reason.is_none(), "Should not flush immediately after recording flush");

    let reason = manager.should_flush_at(None, 1, false, at(15), 15);
    assert_eq!(
        reason,
        Some(FlushReason::Continuous),
        "Should flush after interval elapsed"
    );
}

#[test]
fn test_periodic_strategy_flush() {
    let config = config(FlushStrategy::Periodic, Duration::from_millis(10), 100, 1024);

    let mut manager = FlushManager::new(config);

    let reason = manager.should_flush_at(None, 1, false, at(0), 0);
    assert_eq!(
        reason,
        Some(FlushReason::Periodic),
        "Periodic strategy should flush when interval elapsed"
    );

    manager.record_flush_at(at(0));

    let reason = manager.should_flush_at(None, 1, false, at(15), 15);
    assert_eq!(
        reason,
        Some(FlushReason::Periodic),
        "Periodic strategy should flush after interval"
    );
}

#[test]
fn test_no_export_after_next_architecture() {
    let config = config(FlushStrategy::End, Duration::from_millis(100), 100, 1024);

    let manager = FlushManager::new(config);

    let reason = manager.should_flush(None, 10, false);
    assert!(
        reason.is_none(),
        "End strategy should not flush during invocation (after /next returns)"
    );

    let reason = manager.should_flush_on_invocation_end(10);
    assert_eq!(
        reason,
        Some(FlushReason::InvocationEnd),
        "Flush decision should be made at invocation end, before calling /next"
    );
}

#[test]
fn adaptive_export_test_test_shutdown_always_flushes() {
    let config = config(FlushStrategy::End, Duration::from_secs(60), 100, 1024);

    let manager = FlushManager::new(config);

    let reason = manager.should_flush(None, 0, true);
    assert_eq!(reason, Some(FlushReason::Shutdown), "Shutdown should always trigger flush");

    let reason = manager.should_flush(None, 10, true);
    assert_eq!(
        reason,
        Some(FlushReason::Shutdown),
        "Shutdown should take priority over other reasons"
    );
}

#[test]
fn adaptive_export_test_test_buffer_full_triggers_flush() {
    let config = config(FlushStrategy::End, Duration::from_secs(60), 10, 1024);

    let manager = FlushManager::new(config);

    let reason = manager.should_flush(None, 5, false);
    assert!(reason.is_none(), "Should not flush when buffer is not full");

    let reason = manager.should_flush(None, 10, false);
    assert_eq!(
        reason,
        Some(FlushReason::BufferFull),
        "Should flush when buffer reaches limit"
    );

    let reason = manager.should_flush(None, 15, false);
    assert_eq!(
        reason,
        Some(FlushReason::BufferFull),
        "Should flush when buffer exceeds limit"
    );
}

#[test]
fn test_deadline_approaching_triggers_flush() {
    let config = config(FlushStrategy::End, Duration::from_secs(60), 100, 1024);

    let manager = FlushManager::new(config);

    // Calculate deadline 200ms from now (within 500ms buffer)
    let now_ms = std::time::SystemTime::now()
        .duration_since(std::time::UNIX_EPOCH)
        .unwrap()
        .as_millis() as i64;
    let approaching_deadline = now_ms + 200;

    let reason = manager.should_flush(Some(approaching_deadline), 1, false);
    assert_eq!(
        reason,
        Some(FlushReason::Deadline),
        "Should flush when deadline is approaching"
    );

    // Deadline far in future, no flush
    let distant_deadline = now_ms + 60000;
    let reason = manager.should_flush(Some(distant_deadline), 1, false);
    assert!(reason.is_none(), "Should not flush when deadline is far away");
}

#[test]
fn adaptive_export_test_test_infrequent_pattern_detection() {
    let config = FlushConfig::default();
    let manager = FlushManager::new(config);

    assert!(manager.is_infrequent_pattern(), "Empty history should be infrequent");

    let mut manager = FlushManager::new(FlushConfig::default());
    manager.record_invocation();
    assert!(manager.is_infrequent_pattern(), "Single invocation should be infrequent");
}

#[test]
fn adaptive_export_test_test_frequent_pattern_detection() {
    let config = FlushConfig::default();
    let mut manager = FlushManager::new(config);

    for _ in 0..5 {
        manager.record_invocation();
    }

    let avg = manager.average_invocation_interval();
    assert!(avg.is_some(), "Should have calculated average interval");
    assert!(
        avg.unwrap() < Duration::from_secs(120),
        "Average interval should be under 120s"
    );

    assert!(
        !manager.is_infrequent_pattern(),
        "Quick successive invocations should be frequent pattern"
    );
}

#[test]
fn test_default_strategy_adapts_to_pattern() {
    let config = config(FlushStrategy::Default, Duration::from_millis(10), 100, 1024);

    let mut manager = FlushManager::new(config);

    // Initially infrequent - should flush at invocation end
    assert!(manager.is_infrequent_pattern());
    let reason = manager.should_flush_on_invocation_end(1);
    assert_eq!(reason, Some(FlushReason::InvocationEnd));

    // After many quick invocations, should become frequent
    for i in 0..5 {
        manager.record_invocation_at(at(i));
    }
    assert!(!manager.is_infrequent_pattern());

    // With frequent pattern, should_flush_on_invocation_end returns None
    let reason = manager.should_flush_on_invocation_end(1);
    assert!(reason.is_none(), "Frequent pattern should not flush at invocation end");

    // But should_flush will trigger Continuous behaviour after interval
    let reason = manager.should_flush_at(None, 1, false, at(20), 20);
    assert_eq!(
        reason,
        Some(FlushReason::Continuous),
        "Default with frequent pattern should use Continuous"
    );
}

#[test]
fn test_timeout_escalation_to_continuous() {
    let config = config(FlushStrategy::End, Duration::from_millis(10), 100, 1024);

    let mut manager = FlushManager::new(config);

    let reason = manager.should_flush(None, 1, false);
    assert!(reason.is_none(), "End strategy should not flush mid-invocation");

    for i in 0..20 {
        manager.record_flush_timeout();
        assert_eq!(
            manager.consecutive_timeout_count(),
            i + 1,
            "Timeout count should increment"
        );
    }

    let reason = manager.should_flush(None, 1, false);
    assert_eq!(
        reason,
        Some(FlushReason::Continuous),
        "After 20 timeouts, should escalate to Continuous"
    );
}

#[test]
fn test_successful_flush_resets_timeout_count() {
    let config = FlushConfig::default();
    let mut manager = FlushManager::new(config);

    manager.record_flush_timeout();
    manager.record_flush_timeout();
    manager.record_flush_timeout();
    assert_eq!(manager.consecutive_timeout_count(), 3);

    manager.record_flush();
    assert_eq!(
        manager.consecutive_timeout_count(),
        0,
        "Successful flush should reset timeout count"
    );
}

#[test]
fn test_no_inflight_export_during_freeze() {
    let config = config(FlushStrategy::End, Duration::from_secs(60), 100, 1024);

    let manager = FlushManager::new(config);

    let reason = manager.should_flush_on_invocation_end(10);
    assert_eq!(
        reason,
        Some(FlushReason::InvocationEnd),
        "Flush must complete before signalling readiness"
    );

    let reason = manager.should_flush(None, 10, false);
    assert!(
        reason.is_none(),
        "No flush should occur during invocation when freeze might happen"
    );
}

#[test]
fn test_connection_reuse_within_invocation() {
    let config = ExporterConfig {
        endpoint: Some("http://localhost:4318".to_string()),
        timeout: Duration::from_secs(2),
        ..Default::default()
    };

    let exporter = OtlpExporter::new(config);

    assert!(exporter.has_endpoint(), "Exporter should be configured with endpoint");
}

#[test]
fn test_stale_connection_retry_logic() {
    let config = FlushConfig::default();
    let mut manager = FlushManager::new(config);

    manager.record_flush_timeout();
    assert_eq!(manager.consecutive_timeout_count(), 1);

    manager.record_flush_timeout();
    assert_eq!(manager.consecutive_timeout_count(), 2);

    manager.record_flush();
    assert_eq!(
        manager.consecutive_timeout_count(),
        0,
        "Successful flush should reset timeout count after stale connection recovery"
    );
}

#[test]
fn test_export_timeout_reasonable() {
    let default_config = ExporterConfig::default();

    assert!(
        default_config.timeout >= Duration::from_millis(100),
        "Timeout should be at least 100ms to allow for network latency"
    );
    assert!(
        default_config.timeout <= Duration::from_secs(5),
        "Timeout should not exceed 5s to avoid blocking indefinitely"
    );

    assert_eq!(
        default_config.timeout,
        Duration::from_millis(500),
        "Default timeout should be 500ms"
    );

    let custom_config = ExporterConfig {
        timeout: Duration::from_secs(2),
        ..Default::default()
    };
    assert_eq!(custom_config.timeout, Duration::from_secs(2));
}

#[test]
fn test_invocation_history_bounded() {
    let config = FlushConfig::default();
    let mut manager = FlushManager::new(config);

    for _ in 0..30 {
        manager.record_invocation();
    }

    assert_eq!(
        manager.invocation_history_len(),
        20,
        "History should be bounded to 20 entries"
    );
}

#[test]
fn adaptive_export_test_test_time_until_next_flush() {
    let config = config(FlushStrategy::Continuous, Duration::from_millis(100), 100, 1024);

    let mut manager = FlushManager::new(config);

    assert_eq!(
        manager.time_until_next_flush(),
        Duration::zero(),
        "Should be zero before first flush"
    );

    manager.record_flush_at(at(0));
    let remaining = manager.time_until_next_flush_at(at(1));
    assert!(remaining <= Duration::from_millis(100), "Should be at most interval");
    assert!(remaining > Duration::from_millis(50), "Should be close to interval");
    assert_eq!(remaining, Duration::from_millis(99));

    assert_eq!(manager.time_until_next_flush_at(at(110)), Duration::zero());
}

#[test]
fn the_average_decides_at_two_minutes() {
    let mut manager = FlushManager::new(test_config());
    manager.record_invocation_at(at(0));
    manager.record_invocation_at(at(240_000));
    manager.record_invocation_at(at(240_000));
    assert_eq!(manager.average_invocation_interval(), Some(Duration::from_secs(120)));
    assert!(!manager.is_infrequent_pattern());
    let mut manager = FlushManager::new(test_config());
    manager.record_invocation_at(at(0));
    manager.record_invocation_at(at(240_002));
    manager.record_invocation_at(at(240_002));
    assert!(manager.is_infrequent_pattern());
}

#[test]
fn the_oldest_invocations_are_forgotten() {
    let mut manager = FlushManager::new(test_config());
    manager.record_invocation_at(at(0));
    for i in 0..20u64 {
        manager.record_invocation_at(at(10_000_000 + i * 1000));
    }
    assert_eq!(manager.invocation_history_len(), 20);
    assert_eq!(manager.average_invocation_interval(), Some(Duration::from_secs(1)));
}

#[test]
fn the_deadline_counts_half_a_second_ahead() {
    let manager =
        FlushManager::new(config(FlushStrategy::End, Duration::from_secs(60), 100, 1024));
    let at_ms = |deadline: i64| manager.should_flush_at(Some(deadline), 1, false, at(0), 1_000);
    assert_eq!(at_ms(1_499), Some(FlushReason::Deadline));
    assert_eq!(at_ms(1_501), None);
    assert_eq!(at_ms(0), Some(FlushReason::Deadline));
    assert_eq!(at_ms(i64::MIN), Some(FlushReason::Deadline));
    assert_eq!(at_ms(i64::MAX), None);
}

#[test]
fn shutdown_and_deadline_come_before_the_buffer() {
    let manager =
        FlushManager::new(config(FlushStrategy::Continuous, Duration::from_secs(60), 1, 1024));
    let reason = manager.should_flush_at(Some(0), 5, true, at(0), 1_000);
    assert_eq!(reason, Some(FlushReason::Shutdown));
    let reason = manager.should_flush_at(Some(0), 5, false, at(0), 1_000);
    assert_eq!(reason, Some(FlushReason::Deadline));
    let reason = manager.should_flush_at(None, 5, false, at(0), 1_000);
    assert_eq!(reason, Some(FlushReason::BufferFull));
}

#[test]
fn end_of_invocation_by_strategy() {
    for (strategy, expected) in [
        (FlushStrategy::End, Some(FlushReason::InvocationEnd)),
        (FlushStrategy::Default, Some(FlushReason::InvocationEnd)),
        (FlushStrategy::Periodic, None),
        (FlushStrategy::Continuous, None),
    ] {
        let manager =
            FlushManager::new(config(strategy, Duration::from_secs(60), 100, 1024));
        assert_eq!(manager.should_flush_on_invocation_end(1), expected);
        assert_eq!(manager.should_flush_on_invocation_end(0), None);
        assert_eq!(manager.strategy(), strategy);
        assert_eq!(manager.interval(), Duration::from_secs(60));
    }
}

#[test]
fn defaults_of_a_manager() {
    let manager = FlushManager::with_defaults();
    assert_eq!(manager.strategy(), FlushStrategy::Default);
    assert_eq!(FlushConfig::default().completion_wait, CompletionWait::default());
}

#[test]
fn milliseconds_are_whole_and_wrap() {
    assert_eq!(whole_millis(0), 0);
    assert_eq!(whole_millis(999_999), 0);
    assert_eq!(whole_millis(1_700_000_000_123_456_789), 1_700_000_000_123);
    let wraps: u128 = (u64::MAX as u128 + 1) * 1_000_000;
    assert_eq!(whole_millis(wraps - 1), u64::MAX);
    assert_eq!(whole_millis(wraps + 5_000_000), 5);
}

#[test]
fn low_bits_are_kept() {
    assert_eq!(low_bits(7), 7);
    assert_eq!(low_bits(u64::MAX as u128), u64::MAX);
    assert_eq!(low_bits(u64::MAX as u128 + 1), 0);
    assert_eq!(low_bits(u128::MAX), u64::MAX);
}

#[test]
fn a_clock_counts_from_its_start() {
    let clock = Clock::start();
    let first = clock.now();
    let second = clock.now();
    assert!(second.nanos >= first.nanos);
    assert!(first.nanos < 20_000_000_000);
}
