//! Extension lifecycle and telemetry processing.
//!
//! What the extension does when an invocation begins, when it ends, when telemetry
//! arrives and when the environment shuts down. The program waits, sends and
//! receives; it asks this module what to do next and tells it what happened.
use crate::aggregator::{BatchedSignal, SignalAggregator};
use crate::aggregator;
use crate::completion::{CompletionOutcome, CompletionSource, CompletionTracker};
use crate::completion;
use crate::config::{CompletionWait, ExporterConfig, FlushConfig, FlushStrategy};
use crate::conversion::{MetricsConverter, TelemetryProcessor};
use crate::conversion;
use crate::exporter::{ExportResult, OtlpExporter};
use crate::flush::FlushManager;
use crate::flush;
use crate::model::{
    Metric, MetricsData, PointValue, Resource, TracesData, ValueView,
};
use crate::otlp::{ExportMetricsServiceRequest, ExportTraceServiceRequest};
use crate::otlp;
use crate::receiver::Signal;
use crate::telemetry::{
    ReportMetrics, ReportRecord, RuntimeDoneRecord, RuntimeMetrics, SpanRecord, StartRecord,
    TelemetryEvent, TracingRecord,
};
use crate::text;
use crate::time;
use crate::time::{epoch_millis, Clock, Duration, Moment};
use std::collections::VecDeque;
use vstd::prelude::*;
use vstd::string::*;

verus! {

/// Safety margin subtracted from the invocation deadline when holding `/next`, in
/// milliseconds: it leaves room for the flush itself before the function times out.
pub const HOLD_DEADLINE_MARGIN_MS: u64 = 1000;

/// Budget granted to each flush in the invocation path, in milliseconds. It is the
/// margin that the hold reserves.
pub const INVOKE_FLUSH_BUDGET_MS: u64 = 1000;

/// Grace period after a completion signal, in milliseconds, for signals already
/// accepted by the receiver to reach the aggregator.
pub const COMPLETION_SETTLE_DELAY_MS: u64 = 20;

/// Safety margin subtracted from the SHUTDOWN deadline, in milliseconds.
pub const SHUTDOWN_DEADLINE_MARGIN_MS: u64 = 200;

/// The shortest time between two looks at the periodic flush, in milliseconds.
pub const MIN_PERIODIC_TICK_MS: u64 = 10;

/// The longest wait for telemetry that is being processed at shutdown, in
/// milliseconds.
pub const MAX_PROCESSING_WAIT_MS: u64 = 500;

/// The time until a deadline in milliseconds since the epoch, less a margin in
/// milliseconds; in nanoseconds.
pub open spec fn time_before(deadline_ms: u64, margin_ms: u64, now_ms: u64) -> nat {
    time::minus(
        time::minus(deadline_ms as nat, now_ms as nat) * 1_000_000,
        (margin_ms * 1_000_000) as nat,
    )
}

/// How long `/next` may be held for an invocation, in nanoseconds; nothing where
/// holding is disabled or there is no usable time before the deadline.
pub open spec fn hold_time(deadline_ms: u64, wait: CompletionWait, now_ms: u64) -> Option<nat> {
    let remaining = time_before(deadline_ms, HOLD_DEADLINE_MARGIN_MS, now_ms);
    if remaining == 0 {
        None
    } else {
        match wait {
            CompletionWait::Off => None,
            CompletionWait::Auto => Some(remaining),
            CompletionWait::Cap(cap) => Some(time::least(remaining, cap@)),
        }
    }
}

/// The point a span of time after another, or the last one that can be held.
pub open spec fn point_after(now: Moment, span: nat) -> nat {
    time::least(now@ + span, u128::MAX as nat)
}

/// Computes the time until which `/next` may be held for the invocation with the
/// given deadline in milliseconds since the epoch.
///
/// Returns `None` when holding is disabled by configuration or there is no usable
/// window before the deadline.
pub fn hold_deadline(deadline_ms: u64, wait: CompletionWait, now: Moment, now_ms: u64) -> (r:
    Option<Moment>)
    ensures
        match r {
            Some(m) => hold_time(deadline_ms, wait, now_ms) is Some && m@ == point_after(
                now,
                hold_time(deadline_ms, wait, now_ms)->0,
            ),
            None => hold_time(deadline_ms, wait, now_ms) is None,
        },
{
    let cap: Option<Duration> = match wait {
        CompletionWait::Off => {
            return None;
        },
        CompletionWait::Auto => None,
        CompletionWait::Cap(cap) => Some(cap),
    };
    let remaining = remaining_before(deadline_ms, HOLD_DEADLINE_MARGIN_MS, now_ms);
    if remaining.is_zero() {
        return None;
    }
    let hold = match cap {
        Some(cap) => remaining.shorter(cap),
        None => remaining,
    };
    Some(now.after(hold))
}

/// The time until a deadline, less a margin.
fn remaining_before(deadline_ms: u64, margin_ms: u64, now_ms: u64) -> (d: Duration)
    ensures
        d@ == time_before(deadline_ms, margin_ms, now_ms),
{
    let left: u64 = if deadline_ms >= now_ms {
        deadline_ms - now_ms
    } else {
        0
    };
    Duration::from_millis(left).saturating_sub(Duration::from_millis(margin_ms))
}

/// Converts the deadline of a SHUTDOWN event, in milliseconds since the epoch, into
/// the time by which all shutdown work must finish.
pub fn shutdown_deadline(deadline_ms: u64, now: Moment, now_ms: u64) -> (m: Moment)
    ensures
        m@ == point_after(now, time_before(deadline_ms, SHUTDOWN_DEADLINE_MARGIN_MS, now_ms)),
{
    now.after(remaining_before(deadline_ms, SHUTDOWN_DEADLINE_MARGIN_MS, now_ms))
}

/// A trace that the platform tells of.
#[derive(Debug, Clone)]
pub struct TraceContext {
    /// The kind of tracing.
    pub trace_type: String,
    /// The trace header.
    pub value: String,
}

/// How an invocation ended.
#[derive(Debug, Clone, Copy, PartialEq, Eq, Structural)]
pub enum InvocationStatus {
    /// It succeeded.
    Success,
    /// The function reported an error.
    Error,
    /// The runtime failed.
    Failure,
    /// It took too long.
    Timeout,
}

impl InvocationStatus {
    /// The status as the Telemetry API writes it.
    pub open spec fn name(self) -> Seq<char> {
        match self {
            InvocationStatus::Success => "success"@,
            InvocationStatus::Error => "error"@,
            InvocationStatus::Failure => "failure"@,
            InvocationStatus::Timeout => "timeout"@,
        }
    }

    /// Writes the status as the Telemetry API does.
    pub fn text(self) -> (s: String)
        ensures
            s@ == self.name(),
    {
        match self {
            InvocationStatus::Success => "success".to_owned(),
            InvocationStatus::Error => "error".to_owned(),
            InvocationStatus::Failure => "failure".to_owned(),
            InvocationStatus::Timeout => "timeout".to_owned(),
        }
    }
}

/// What a telemetry event tells.
#[derive(Debug, Clone)]
pub enum LambdaTelemetryRecord {
    /// An invocation began.
    PlatformStart {
        /// Request ID of the invocation.
        request_id: String,
        /// Version of the function.
        version: Option<String>,
        /// The trace of the invocation.
        tracing: Option<TraceContext>,
    },
    /// The runtime finished an invocation.
    PlatformRuntimeDone {
        /// Request ID of the invocation.
        request_id: String,
        /// How it ended, as the Telemetry API writes it.
        status: String,
        /// What was measured.
        metrics: Option<RuntimeMetrics>,
        /// The spans of the platform.
        spans: Vec<SpanRecord>,
        /// The trace of the invocation.
        tracing: Option<TraceContext>,
    },
    /// The report of an invocation.
    PlatformReport {
        /// Request ID of the invocation.
        request_id: String,
        /// How it ended, as the Telemetry API writes it.
        status: String,
        /// What was measured.
        metrics: ReportMetrics,
        /// The trace of the invocation.
        tracing: Option<TraceContext>,
    },
    /// Any other event.
    Other,
}

/// A telemetry event, as the Telemetry API delivers it.
#[derive(Debug, Clone)]
pub struct LambdaTelemetry {
    /// Event time in RFC 3339 format.
    pub time: String,
    /// Event record.
    pub record: LambdaTelemetryRecord,
}

/// The tracing record of a trace.
pub open spec fn tracing_record(t: Option<TraceContext>) -> Option<TracingRecord> {
    match t {
        Some(t) => Some(
            TracingRecord {
                span_id: None,
                trace_type: Some(t.trace_type),
                value: Some(t.value),
            },
        ),
        None => None,
    }
}

/// The event that a delivered one stands for; nothing for those that are not
/// converted.
pub open spec fn converted(e: LambdaTelemetry) -> Option<TelemetryEvent> {
    match e.record {
        LambdaTelemetryRecord::PlatformStart { request_id, version, tracing } => Some(
            TelemetryEvent::Start {
                time: e.time,
                record: StartRecord { request_id, version, tracing: tracing_record(tracing) },
            },
        ),
        LambdaTelemetryRecord::PlatformRuntimeDone {
            request_id,
            status,
            metrics,
            spans,
            tracing,
        } => Some(
            TelemetryEvent::RuntimeDone {
                time: e.time,
                record: RuntimeDoneRecord {
                    request_id,
                    status,
                    metrics,
                    tracing: tracing_record(tracing),
                    spans,
                },
            },
        ),
        LambdaTelemetryRecord::PlatformReport { request_id, status, metrics, tracing } => Some(
            TelemetryEvent::Report {
                time: e.time,
                record: ReportRecord {
                    request_id,
                    status,
                    metrics,
                    tracing: tracing_record(tracing),
                },
            },
        ),
        LambdaTelemetryRecord::Other => None,
    }
}

/// The events that delivered ones stand for, in their order.
pub open spec fn converted_all(events: Seq<LambdaTelemetry>) -> Seq<TelemetryEvent>
    decreases events.len(),
{
    if events.len() == 0 {
        Seq::empty()
    } else {
        let before = converted_all(events.drop_last());
        match converted(events.last()) {
            Some(e) => before.push(e),
            None => before,
        }
    }
}

/// The request IDs of the invocations that the runtime finished, in their order.
pub open spec fn runtime_done_ids(events: Seq<LambdaTelemetry>) -> Seq<Seq<char>>
    decreases events.len(),
{
    if events.len() == 0 {
        Seq::empty()
    } else {
        let before = runtime_done_ids(events.drop_last());
        match events.last().record {
            LambdaTelemetryRecord::PlatformRuntimeDone { request_id, .. } => before.push(
                request_id@,
            ),
            _ => before,
        }
    }
}

/// A list of strings, each as its characters.
pub open spec fn string_views(v: Seq<String>) -> Seq<Seq<char>> {
    v.map_values(|s: String| s@)
}

/// Makes the tracing record of a trace.
fn convert_tracing(t: Option<TraceContext>) -> (r: Option<TracingRecord>)
    ensures
        r == tracing_record(t),
{
    match t {
        Some(t) => Some(
            TracingRecord {
                span_id: None,
                trace_type: Some(t.trace_type),
                value: Some(t.value),
            },
        ),
        None => None,
    }
}

/// Converts one telemetry event; nothing where it is of no interest.
pub fn convert_telemetry_event(event: LambdaTelemetry) -> (r: Option<TelemetryEvent>)
    ensures
        r == converted(event),
{
    let time = event.time;
    match event.record {
        LambdaTelemetryRecord::PlatformStart { request_id, version, tracing } => Some(
            TelemetryEvent::Start {
                time,
                record: StartRecord { request_id, version, tracing: convert_tracing(tracing) },
            },
        ),
        LambdaTelemetryRecord::PlatformRuntimeDone {
            request_id,
            status,
            metrics,
            spans,
            tracing,
        } => Some(
            TelemetryEvent::RuntimeDone {
                time,
                record: RuntimeDoneRecord {
                    request_id,
                    status,
                    metrics,
                    tracing: convert_tracing(tracing),
                    spans,
                },
            },
        ),
        LambdaTelemetryRecord::PlatformReport { request_id, status, metrics, tracing } => Some(
            TelemetryEvent::Report {
                time,
                record: ReportRecord {
                    request_id,
                    status,
                    metrics,
                    tracing: convert_tracing(tracing),
                },
            },
        ),
        LambdaTelemetryRecord::Other => None,
    }
}

/// Converts telemetry events to the internal format; those of no interest are left
/// out.
pub fn convert_telemetry_events(events: Vec<LambdaTelemetry>) -> (r: Vec<TelemetryEvent>)
    ensures
        r@ == converted_all(events@),
{
    let mut out: Vec<TelemetryEvent> = Vec::new();
    let ghost all = events@;
    assert(all.take(0) =~= Seq::<LambdaTelemetry>::empty());
    for event in it: events
        invariant
            it.seq() == all,
            out@ == converted_all(all.take(it.index() as int)),
    {
        proof {
            let i = it.index() as int;
            assert(all.take(i + 1).drop_last() =~= all.take(i));
            assert(all.take(i + 1).last() == event);
        }
        if let Some(e) = convert_telemetry_event(event) {
            out.push(e);
        }
    }
    assert(all.take(all.len() as int) =~= all);
    out
}

/// Collects the request IDs of the invocations that the runtime finished.
pub fn collect_runtime_done_ids(events: &Vec<LambdaTelemetry>) -> (ids: Vec<String>)
    ensures
        string_views(ids@) == runtime_done_ids(events@),
{
    let mut ids: Vec<String> = Vec::new();
    let ghost all = events@;
    let mut i: usize = 0;
    proof {
        assert(all.take(0) =~= Seq::<LambdaTelemetry>::empty());
        assert(string_views(ids@) =~= Seq::<Seq<char>>::empty());
    }
    while i < events.len()
        invariant
            i <= events.len(),
            all == events@,
            string_views(ids@) == runtime_done_ids(all.take(i as int)),
        decreases events.len() - i,
    {
        let ghost before = string_views(ids@);
        proof {
            assert(all.take(i + 1).drop_last() =~= all.take(i as int));
            assert(all.take(i + 1).last() == all[i as int]);
        }
        match &events[i].record {
            LambdaTelemetryRecord::PlatformRuntimeDone { request_id, .. } => {
                ids.push(request_id.clone());
                assert(string_views(ids@) =~= before.push(request_id@));
            },
            _ => {},
        }
        i = i + 1;
    }
    assert(all.take(i as int) =~= all);
    ids
}

/// Whether the pending signals are flushed after an invocation: the strategy asks
/// for it at the end, or a flush is due anyway.
pub open spec fn flush_after_invocation(
    f: flush::FlushState,
    pending: nat,
    now: Moment,
    now_ms: u64,
) -> bool {
    pending > 0 && (f.end_reason(pending) is Some || f.reason(None, pending, false, now, now_ms)
        is Some)
}

/// The time until the periodic flush is looked at again, in nanoseconds; nothing
/// where the effective strategy never flushes in the midst of an invocation. It is
/// never zero, so that a completion signal is seen first.
pub open spec fn periodic_tick(f: flush::FlushState, now: Moment) -> Option<nat> {
    match f.strategy() {
        FlushStrategy::Periodic | FlushStrategy::Continuous => Some(
            time::greatest(f.time_left(now), (MIN_PERIODIC_TICK_MS * 1_000_000) as nat),
        ),
        FlushStrategy::Default | FlushStrategy::End => None,
    }
}

/// What to do when an invocation has begun.
#[derive(Debug, Clone, Copy, PartialEq, Eq, Structural)]
pub enum InvokeAction {
    /// Hold `/next` until completion is signalled or the time has come; the number
    /// is that of the wait.
    Hold(u64, Moment),
    /// Flush what is pending, if that is due, and go on.
    Flush,
}

/// What to do next while `/next` is held.
#[derive(Debug, Clone, Copy, PartialEq, Eq, Structural)]
pub enum HoldStep {
    /// Flush all signals before the given time, and look again.
    FlushBefore(Moment),
    /// Wait for a completion signal until the given time, but look again after the
    /// given span where there is one.
    Wait(Moment, Option<Duration>),
    /// Wait for the given time, and then flush what is pending.
    Release(Duration),
}

/// The times of a shutdown.
#[derive(Debug, Clone, Copy, PartialEq, Eq, Structural)]
pub struct ShutdownPlan {
    /// The time by which all work must finish.
    pub deadline: Moment,
    /// How long to wait for telemetry that is being processed.
    pub processing_wait: Duration,
}

/// What telemetry events have come to.
#[derive(Debug)]
pub struct TelemetryOutcome {
    /// The metrics to be queued.
    pub metrics: Vec<MetricsData>,
    /// The spans of the invocations that ended, to be queued.
    pub traces: Vec<TracesData>,
    /// The request IDs of the invocations to be completed once they are queued.
    pub completed: Vec<String>,
}

/// Shared state for extension services.
#[derive(Debug)]
pub struct ExtensionState {
    /// The signals that wait to be exported.
    pub aggregator: SignalAggregator,
    /// The exporter.
    pub exporter: OtlpExporter,
    /// Decides when to flush.
    pub flush_manager: FlushManager,
    /// Converts platform events.
    pub telemetry_processor: TelemetryProcessor,
    /// Makes the metric of a shutdown.
    pub metrics_converter: MetricsConverter,
    /// Tracks the invocation in flight.
    pub completion: CompletionTracker,
    /// How long to hold `/next`.
    pub completion_wait: CompletionWait,
    /// The clock of all points in time.
    pub clock: Clock,
    /// Whether the end of the shutdown was signalled.
    pub shutdown_signalled: bool,
}

impl ExtensionState {
    /// Every part is well-formed, and all points in time are on one clock.
    pub open spec fn wf(&self) -> bool {
        &&& self.aggregator.wf()
        &&& self.exporter.config.headers.wf()
        &&& self.flush_manager.wf()
        &&& self.telemetry_processor.wf()
        &&& self.completion@.wf()
        &&& self.flush_manager.clock() == self.clock
        &&& self.completion.clock() == self.clock
    }

    /// Creates new extension state with the given configuration and resource.
    pub fn new(exporter: ExporterConfig, flush: FlushConfig, resource: Resource) -> (s: Self)
        requires
            exporter.headers.wf(),
        ensures
            s.wf(),
            s.aggregator@ == (aggregator::AggregatorState {
                config: flush,
                traces: Seq::empty(),
                metrics: Seq::empty(),
                logs: Seq::empty(),
                dropped: 0,
            }),
            s.exporter.config == exporter,
            s.flush_manager@ == (flush::FlushState {
                config: flush,
                history: Seq::empty(),
                last_flush: None,
                timeouts: 0,
            }),
            s.telemetry_processor.resource() == resource@,
            s.telemetry_processor.pending() == Map::<Seq<char>, (StartRecord, String)>::empty(),
            s.metrics_converter.resource@ == resource@,
            s.completion@ == (completion::TrackerState {
                current: None,
                generation: 0,
                kept: Seq::empty(),
                recent: Seq::empty(),
                hold_timeouts: 0,
            }),
            s.completion_wait == flush.completion_wait,
            !s.shutdown_signalled,
            s.clock.may_be_started(),
    {
        let clock = Clock::start();
        ExtensionState {
            aggregator: SignalAggregator::new(flush),
            exporter: OtlpExporter::new(exporter),
            flush_manager: FlushManager::with_clock(flush, clock),
            telemetry_processor: TelemetryProcessor::new(resource.copy()),
            metrics_converter: MetricsConverter::new(resource),
            completion: CompletionTracker::with_clock(clock),
            completion_wait: flush.completion_wait,
            clock,
            shutdown_signalled: false,
        }
    }

    /// Reads the clock of all points in time.
    pub fn now(&self) -> (now: Moment)
        ensures
            self.clock.may_show(now),
    {
        self.clock.now()
    }

    /// Signals that shutdown processing is complete. Only the first call tells so.
    pub fn signal_shutdown_complete(&mut self) -> (first: bool)
        ensures
            first == !old(self).shutdown_signalled,
            *final(self) == (ExtensionState { shutdown_signalled: true, ..*old(self) }),
    {
        let first = !self.shutdown_signalled;
        self.shutdown_signalled = true;
        first
    }

    /// Takes all pending signals for a flush.
    pub fn take_batches(&mut self) -> (batches: Vec<BatchedSignal>)
        requires
            old(self).wf(),
        ensures
            final(self).wf(),
            aggregator::batch_views(batches@) == old(self).aggregator@.all_batches(),
            final(self).aggregator@ == old(self).aggregator@.drained(),
            *final(self) == (ExtensionState {
                aggregator: final(self).aggregator,
                ..*old(self)
            }),
    {
        self.aggregator.get_all_batches()
    }

    /// Records how the export of a batch ended: a success resets the count of
    /// failures, and anything else adds to it.
    pub fn record_export(&mut self, result: ExportResult)
        requires
            old(self).wf(),
        ensures
            final(self).wf(),
            result == ExportResult::Success ==> {
                &&& final(self).flush_manager@.timeouts == 0
                &&& final(self).flush_manager@.last_flush is Some
                &&& old(self).clock.may_show(final(self).flush_manager@.last_flush->0)
            },
            result != ExportResult::Success ==> final(self).flush_manager@ == (flush::FlushState {
                timeouts: time::least(
                    old(self).flush_manager@.timeouts + 1,
                    usize::MAX as nat,
                ),
                ..old(self).flush_manager@
            }),
            final(self).flush_manager@.config == old(self).flush_manager@.config,
            final(self).flush_manager@.history == old(self).flush_manager@.history,
            *final(self) == (ExtensionState {
                flush_manager: final(self).flush_manager,
                ..*old(self)
            }),
    {
        match result {
            ExportResult::Success => {
                self.flush_manager.record_flush();
            },
            ExportResult::Fallback | ExportResult::Skipped => {
                self.flush_manager.record_flush_timeout();
            },
        }
    }

    /// The time by which a flush in the invocation path must end.
    pub fn flush_budget(now: Moment) -> (m: Moment)
        ensures
            m@ == point_after(now, (INVOKE_FLUSH_BUDGET_MS * 1_000_000) as nat),
    {
        now.after(Duration::from_millis(INVOKE_FLUSH_BUDGET_MS))
    }

    /// Returns the time until the next periodic flush is looked at, or `None` when
    /// the effective strategy never flushes mid-invocation.
    pub fn time_until_periodic_flush(&self, now: Moment) -> (r: Option<Duration>)
        ensures
            match r {
                Some(d) => periodic_tick(self.flush_manager@, now) == Some(d@),
                None => periodic_tick(self.flush_manager@, now) is None,
            },
    {
        let left = self.flush_manager.time_until_next_flush_at(now).longer(
            Duration::from_millis(MIN_PERIODIC_TICK_MS),
        );
        match self.flush_manager.effective_strategy() {
            FlushStrategy::Periodic | FlushStrategy::Continuous => Some(left),
            FlushStrategy::Default | FlushStrategy::End => None,
        }
    }

    /// Whether pending signals are flushed in the post-invocation window.
    pub fn post_invoke_flush(&self) -> (r: bool)
        requires
            self.wf(),
        ensures
            exists|now: Moment, now_ms: u64|
                {
                    &&& self.clock.may_show(now)
                    &&& time::may_be_epoch_millis(now_ms)
                    &&& r == #[trigger] flush_after_invocation(
                        self.flush_manager@,
                        self.aggregator@.entries(),
                        now,
                        now_ms,
                    )
                },
    {
        let now = self.clock.now();
        let now_ms: u64 = epoch_millis();
        self.post_invoke_flush_at(now, now_ms)
    }

    /// Whether pending signals are flushed in the post-invocation window at the
    /// given time, which is `now_ms` in milliseconds since the epoch.
    pub fn post_invoke_flush_at(&self, now: Moment, now_ms: u64) -> (r: bool)
        requires
            self.wf(),
        ensures
            r == flush_after_invocation(
                self.flush_manager@,
                self.aggregator@.entries(),
                now,
                now_ms,
            ),
    {
        let pending: usize = self.aggregator.pending_count();
        if pending == 0 {
            return false;
        }
        self.flush_manager.should_flush_on_invocation_end(pending).is_some()
            || self.flush_manager.should_flush_at(None, pending, false, now, now_ms).is_some()
    }

    /// Handles an INVOKE lifecycle event: tells what to do now.
    pub fn handle_invoke(&mut self, request_id: &str, deadline_ms: u64) -> (action: InvokeAction)
        requires
            old(self).wf(),
        ensures
            final(self).wf(),
            exists|now: Moment, now_ms: u64|
                {
                    &&& old(self).clock.may_show(now)
                    &&& time::may_be_epoch_millis(now_ms)
                    &&& #[trigger] invoked(
                        *old(self),
                        *final(self),
                        request_id@,
                        deadline_ms,
                        now,
                        now_ms,
                        action,
                    )
                },
    {
        let now = self.clock.now();
        let now_ms: u64 = epoch_millis();
        self.handle_invoke_at(request_id, deadline_ms, now, now_ms)
    }

    /// Handles an INVOKE lifecycle event at the given time, which is `now_ms` in
    /// milliseconds since the epoch.
    ///
    /// The hold deadline is registered with the completion tracker even when holding
    /// is skipped, so signals arriving later are judged against the window they
    /// should have arrived in. When holding is enabled and healthy, `/next` is held
    /// until completion; otherwise any backlog from previous invocations is flushed
    /// at once, while the environment is known to be thawed.
    pub fn handle_invoke_at(
        &mut self,
        request_id: &str,
        deadline_ms: u64,
        now: Moment,
        now_ms: u64,
    ) -> (action: InvokeAction)
        requires
            old(self).wf(),
        ensures
            final(self).wf(),
            invoked(*old(self), *final(self), request_id@, deadline_ms, now, now_ms, action),
    {
        self.flush_manager.record_invocation_at(now);
        let deadline = hold_deadline(deadline_ms, self.completion_wait, now, now_ms);
        let until = match deadline {
            Some(m) => m,
            None => now,
        };
        self.completion.begin(request_id, until);
        if deadline.is_some() && self.completion.should_hold() {
            match self.completion.start_wait() {
                Some((generation, _)) => InvokeAction::Hold(generation, until),
                None => InvokeAction::Flush,
            }
        } else {
            InvokeAction::Flush
        }
    }

    /// What to do next while `/next` is held, for the wait with the given number.
    /// `ticked` tells that the span of the last [`HoldStep::Wait`] has passed.
    ///
    /// While holding, periodic flush strategies still fire, so that long-running
    /// invocations export as they go. A completion comes first.
    pub fn hold_step(&mut self, generation: u64, ticked: bool, now: Moment, now_ms: u64) -> (step:
        HoldStep)
        requires
            old(self).wf(),
        ensures
            final(self).wf(),
            held(*old(self), generation, ticked, now, now_ms, step),
            final(self).completion@ == old(self).completion@.after_wait(generation, now),
            *final(self) == (ExtensionState { completion: final(self).completion, ..*old(self) }),
    {
        match self.completion.poll_completion(generation, now) {
            Some(CompletionOutcome::Completed(_)) => HoldStep::Release(
                Duration::from_millis(COMPLETION_SETTLE_DELAY_MS),
            ),
            Some(CompletionOutcome::DeadlineExpired) => HoldStep::Release(Duration::zero()),
            None => {
                if ticked {
                    let pending: usize = self.aggregator.pending_count();
                    if self.flush_manager.should_flush_at(
                        None,
                        pending,
                        false,
                        now,
                        now_ms,
                    ).is_some() {
                        return HoldStep::FlushBefore(Self::flush_budget(now));
                    }
                }
                let until = match self.completion.hold_until() {
                    Some(until) => until,
                    None => now,
                };
                HoldStep::Wait(until, self.time_until_periodic_flush(now))
            },
        }
    }

    /// Plans a shutdown whose event carries the given deadline, in milliseconds since
    /// the epoch.
    ///
    /// All work is budgeted against the deadline. Waiting for telemetry that is being
    /// processed is capped at a quarter of the budget.
    pub fn plan_shutdown(deadline_ms: u64, now: Moment, now_ms: u64) -> (plan: ShutdownPlan)
        ensures
            plan.deadline@ == point_after(
                now,
                time_before(deadline_ms, SHUTDOWN_DEADLINE_MARGIN_MS, now_ms),
            ),
            plan.processing_wait@ == time::least(
                time::minus(plan.deadline@, now@) / 4,
                (MAX_PROCESSING_WAIT_MS * 1_000_000) as nat,
            ),
    {
        let deadline = shutdown_deadline(deadline_ms, now, now_ms);
        let processing_wait = deadline.since(now).divided_by(4).shorter(
            Duration::from_millis(MAX_PROCESSING_WAIT_MS),
        );
        ShutdownPlan { deadline, processing_wait }
    }

    /// Queues the metric of a shutdown, and begins the final flush, which ends by the
    /// deadline. `to_metrics` makes the request out of the metric.
    pub fn begin_final_flush<F: FnOnce(MetricsData) -> ExportMetricsServiceRequest>(
        &mut self,
        reason: &str,
        deadline: Moment,
        to_metrics: F,
    ) -> (flush: FinalFlush)
        requires
            old(self).wf(),
            forall|m: MetricsData| #[trigger] to_metrics.requires((m,)),
        ensures
            final(self).wf(),
            flush.waiting() == Seq::<BatchedSignal>::empty(),
            flush.exported == 0,
            flush.abandoned == 0,
            flush.deadline == deadline,
            !flush.done,
            exists|m: MetricsData, request: ExportMetricsServiceRequest|
                {
                    &&& is_shutdown_metric(m, old(self).metrics_converter, reason@)
                    &&& #[trigger] to_metrics.ensures((m,), request)
                    &&& final(self).aggregator@ == old(self).aggregator@.add(
                        otlp::Entries::Metrics(request.resource_metrics@),
                    )
                },
            *final(self) == (ExtensionState { aggregator: final(self).aggregator, ..*old(self) }),
    {
        let metric = self.shutdown_metric(reason);
        let ghost m = metric;
        let request = to_metrics(metric);
        assert(to_metrics.ensures((m,), request));
        self.aggregator.add(Signal::Metrics(request));
        FinalFlush::new(deadline)
    }

    /// The metric of a shutdown, to be queued before the final flush.
    pub fn shutdown_metric(&self, reason: &str) -> (m: MetricsData)
        ensures
            is_shutdown_metric(m, self.metrics_converter, reason@),
    {
        self.metrics_converter.create_shutdown_metric(reason)
    }

    /// Processes a batch of Telemetry API events into the aggregator, then signals
    /// completion for the invocations that the runtime finished. `to_metrics` and
    /// `to_traces` make requests out of what the events have come to.
    ///
    /// Completion is signalled only after the metrics and the spans are in the
    /// aggregator, so that the post-invocation flush picks them up.
    pub fn process_telemetry<
        F: Fn(MetricsData) -> ExportMetricsServiceRequest,
        G: Fn(TracesData) -> ExportTraceServiceRequest,
    >(&mut self, events: Vec<LambdaTelemetry>, to_metrics: F, to_traces: G)
        requires
            old(self).wf(),
            conversion::all_memory_fits(converted_all(events@)),
            forall|m: MetricsData| #[trigger] to_metrics.requires((m,)),
            forall|t: TracesData| #[trigger] to_traces.requires((t,)),
        ensures
            final(self).wf(),
            exists|
                metrics: Seq<MetricsData>,
                traces: Seq<TracesData>,
                signals: Seq<Signal>,
                at: Seq<Moment>,
            |
                {
                    &&& #[trigger] are_signals_of(signals, metrics, traces, to_metrics, to_traces)
                    &&& #[trigger] processed(
                        *old(self),
                        *final(self),
                        events@,
                        metrics,
                        traces,
                        signal_views(signals),
                        at,
                    )
                },
    {
        let ghost all = events@;
        let ghost before = *self;
        let outcome = self.convert_telemetry(events);
        let ghost metrics = outcome.metrics@;
        let ghost traces = outcome.traces@;
        let mut signals: Vec<Signal> = Vec::new();
        for metric in it: outcome.metrics
            invariant
                it.seq() == metrics,
                forall|m: MetricsData| #[trigger] to_metrics.requires((m,)),
                signals@.len() == it.index(),
                forall|i: int|
                    0 <= i < it.index() ==> #[trigger] signals@[i] is Metrics
                        && to_metrics.ensures((metrics[i],), signals@[i]->Metrics_0),
        {
            proof {
                assert(metrics[it.index() as int] == metric);
            }
            signals.push(Signal::Metrics(to_metrics(metric)));
        }
        let ghost first = signals@;
        for trace in it: outcome.traces
            invariant
                it.seq() == traces,
                forall|t: TracesData| #[trigger] to_traces.requires((t,)),
                signals@.len() == first.len() + it.index(),
                forall|i: int| 0 <= i < first.len() ==> #[trigger] signals@[i] == first[i],
                forall|i: int|
                    first.len() <= i < first.len() + it.index() ==> #[trigger] signals@[i] is Traces
                        && to_traces.ensures(
                        (traces[i - first.len()],),
                        signals@[i]->Traces_0,
                    ),
        {
            proof {
                assert(traces[it.index() as int] == trace);
            }
            signals.push(Signal::Traces(to_traces(trace)));
        }
        let ghost made = signals@;
        assert(are_signals_of(made, metrics, traces, to_metrics, to_traces));
        let ghost converted = *self;
        self.queue_telemetry(signals, &outcome.completed);
        proof {
            let at = choose|at: Seq<Moment>|
                {
                    &&& at.len() == runtime_done_ids(all).len()
                    &&& forall|i: int|
                        0 <= i < at.len() ==> converted.clock.may_show(#[trigger] at[i])
                    &&& self.completion@ == #[trigger] completed_all(
                        converted.completion@,
                        runtime_done_ids(all),
                        at,
                    )
                };
            assert(processed(before, *self, all, metrics, traces, signal_views(made), at));
        }
    }

    /// Queues signals, and then signals that the runtime finished the invocations with
    /// the given request IDs.
    pub fn queue_telemetry(&mut self, signals: Vec<Signal>, completed: &Vec<String>)
        requires
            old(self).wf(),
        ensures
            final(self).wf(),
            final(self).aggregator@ == aggregator::added_all(
                old(self).aggregator@,
                signal_views(signals@),
            ),
            exists|at: Seq<Moment>|
                {
                    &&& at.len() == completed@.len()
                    &&& forall|i: int|
                        0 <= i < at.len() ==> old(self).clock.may_show(#[trigger] at[i])
                    &&& final(self).completion@ == #[trigger] completed_all(
                        old(self).completion@,
                        string_views(completed@),
                        at,
                    )
                },
            *final(self) == (ExtensionState {
                aggregator: final(self).aggregator,
                completion: final(self).completion,
                ..*old(self)
            }),
    {
        let ghost views = signal_views(signals@);
        let ghost all = signals@;
        assert(views.take(0) =~= Seq::<otlp::Entries>::empty());
        for signal in it: signals
            invariant
                it.seq() == all,
                views == signal_views(all),
                self.wf(),
                self.aggregator@ == aggregator::added_all(
                    old(self).aggregator@,
                    views.take(it.index() as int),
                ),
                *self == (ExtensionState { aggregator: self.aggregator, ..*old(self) }),
        {
            proof {
                let i = it.index() as int;
                assert(all[i] == signal);
                assert(views.take(i + 1).drop_last() =~= views.take(i));
                assert(views.take(i + 1).last() == signal@);
            }
            self.aggregator.add(signal);
        }
        assert(views.take(all.len() as int) =~= views);
        self.complete_runtime_done(completed);
    }

    /// Converts a batch of Telemetry API events to the metrics of their reports and to
    /// the spans of the invocations that ended. Neither is queued yet.
    pub fn convert_telemetry(&mut self, events: Vec<LambdaTelemetry>) -> (r: TelemetryOutcome)
        requires
            old(self).wf(),
            conversion::all_memory_fits(converted_all(events@)),
        ensures
            final(self).wf(),
            conversion::are_metrics_of(
                r.metrics@,
                old(self).telemetry_processor.resource(),
                conversion::reports(converted_all(events@)),
            ),
            conversion::are_traces_of(
                r.traces@,
                old(self).telemetry_processor.resource(),
                conversion::invocations(
                    old(self).telemetry_processor.pending(),
                    converted_all(events@),
                ),
            ),
            string_views(r.completed@) == runtime_done_ids(events@),
            final(self).telemetry_processor.resource() == old(self).telemetry_processor.resource(),
            final(self).telemetry_processor.pending() == conversion::pending_after(
                old(self).telemetry_processor.pending(),
                converted_all(events@),
            ),
            *final(self) == (ExtensionState {
                telemetry_processor: final(self).telemetry_processor,
                ..*old(self)
            }),
    {
        let completed = collect_runtime_done_ids(&events);
        let internal_events = convert_telemetry_events(events);
        let (metrics, traces) = self.telemetry_processor.process_events(internal_events);
        TelemetryOutcome { metrics, traces, completed }
    }

    /// Signals that the runtime finished the invocations with the given request IDs.
    pub fn complete_runtime_done(&mut self, ids: &Vec<String>)
        requires
            old(self).wf(),
        ensures
            final(self).wf(),
            exists|at: Seq<Moment>|
                {
                    &&& at.len() == ids@.len()
                    &&& forall|i: int| 0 <= i < at.len() ==> old(self).clock.may_show(#[trigger] at[i])
                    &&& final(self).completion@ == #[trigger] completed_all(
                        old(self).completion@,
                        string_views(ids@),
                        at,
                    )
                },
            *final(self) == (ExtensionState { completion: final(self).completion, ..*old(self) }),
    {
        let ghost mut at: Seq<Moment> = Seq::empty();
        let ghost views = string_views(ids@);
        let mut i: usize = 0;
        assert(views.take(0) =~= Seq::<Seq<char>>::empty());
        while i < ids.len()
            invariant
                i <= ids.len(),
                views == string_views(ids@),
                self.wf(),
                at.len() == i,
                forall|j: int| 0 <= j < at.len() ==> old(self).clock.may_show(#[trigger] at[j]),
                self.completion@ == completed_all(old(self).completion@, views.take(i as int), at),
                *self == (ExtensionState { completion: self.completion, ..*old(self) }),
            decreases ids.len() - i,
        {
            let now = self.clock.now();
            self.completion.complete_at(
                Some(ids[i].as_str()),
                CompletionSource::RuntimeDone,
                now,
            );
            proof {
                let longer = at.push(now);
                assert(longer.drop_last() =~= at);
                assert(views.take(i + 1).drop_last() =~= views.take(i as int));
                assert(views.take(i + 1).last() == ids@[i as int]@);
                at = longer;
            }
            i = i + 1;
        }
        assert(views.take(i as int) =~= views);
    }

    /// Records that a handler wrapper called `POST /invocation/complete`, and tells
    /// the status to answer.
    pub fn invocation_complete(&mut self, request_id: Option<&str>) -> (status: u16)
        requires
            old(self).wf(),
        ensures
            final(self).wf(),
            status == 202,
            exists|now: Moment|
                old(self).clock.may_show(now) && final(self).completion@
                    == #[trigger] old(self).completion@.complete(
                    text::opt_str_view(request_id),
                    CompletionSource::Wrapper,
                    now,
                ),
            *final(self) == (ExtensionState { completion: final(self).completion, ..*old(self) }),
    {
        self.completion.complete(request_id, CompletionSource::Wrapper);
        202
    }
}

/// What the signals hold.
pub open spec fn signal_views(signals: Seq<Signal>) -> Seq<otlp::Entries> {
    signals.map_values(|s: Signal| s@)
}

/// Whether this is the metric of a shutdown for the given reason.
pub open spec fn is_shutdown_metric(
    m: MetricsData,
    converter: MetricsConverter,
    reason: Seq<char>,
) -> bool {
    exists|n: u64|
        time::may_be_epoch_nanos(n) && m.holds(
            conversion::extension_metrics(
                converter.resource@,
                seq![#[trigger] conversion::shutdown_metric(reason, n)],
            ),
        )
}

/// Whether these are the signals that are made of metrics and of spans: one for each,
/// the metrics first.
pub open spec fn are_signals_of<
    F: Fn(MetricsData) -> ExportMetricsServiceRequest,
    G: Fn(TracesData) -> ExportTraceServiceRequest,
>(
    signals: Seq<Signal>,
    metrics: Seq<MetricsData>,
    traces: Seq<TracesData>,
    to_metrics: F,
    to_traces: G,
) -> bool {
    &&& signals.len() == metrics.len() + traces.len()
    &&& forall|i: int|
        0 <= i < metrics.len() ==> #[trigger] signals[i] is Metrics && to_metrics.ensures(
            (metrics[i],),
            signals[i]->Metrics_0,
        )
    &&& forall|i: int|
        metrics.len() <= i < signals.len() ==> #[trigger] signals[i] is Traces
            && to_traces.ensures((traces[i - metrics.len()],), signals[i]->Traces_0)
}

/// Whether this is how telemetry is processed, where the events have come to these
/// metrics and spans, these to the given signals, and the clock showed the given times:
/// every signal is queued, and every invocation that the runtime finished is complete.
pub open spec fn processed(
    before: ExtensionState,
    after: ExtensionState,
    events: Seq<LambdaTelemetry>,
    metrics: Seq<MetricsData>,
    traces: Seq<TracesData>,
    signals: Seq<otlp::Entries>,
    at: Seq<Moment>,
) -> bool {
    let resource = before.telemetry_processor.resource();
    let pending = before.telemetry_processor.pending();
    let converted = converted_all(events);
    &&& conversion::are_metrics_of(metrics, resource, conversion::reports(converted))
    &&& conversion::are_traces_of(traces, resource, conversion::invocations(pending, converted))
    &&& after.aggregator@ == aggregator::added_all(before.aggregator@, signals)
    &&& at.len() == runtime_done_ids(events).len()
    &&& forall|i: int| 0 <= i < at.len() ==> before.clock.may_show(#[trigger] at[i])
    &&& after.completion@ == completed_all(before.completion@, runtime_done_ids(events), at)
    &&& after.telemetry_processor.resource() == resource
    &&& after.telemetry_processor.pending() == conversion::pending_after(pending, converted)
    &&& after == (ExtensionState {
        aggregator: after.aggregator,
        completion: after.completion,
        telemetry_processor: after.telemetry_processor,
        ..before
    })
}

/// The tracker after the runtime finished the invocations with the given request
/// IDs, at the given times.
pub open spec fn completed_all(
    s: completion::TrackerState,
    ids: Seq<Seq<char>>,
    at: Seq<Moment>,
) -> completion::TrackerState
    decreases ids.len(),
{
    if ids.len() == 0 {
        s
    } else {
        completed_all(s, ids.drop_last(), at.drop_last()).complete(
            Some(ids.last()),
            CompletionSource::RuntimeDone,
            at.last(),
        )
    }
}

/// Whether this is how an INVOKE event is handled: the invocation is recorded and
/// tracked, and `/next` is held where that is enabled and healthy.
pub open spec fn invoked(
    before: ExtensionState,
    after: ExtensionState,
    request_id: Seq<char>,
    deadline_ms: u64,
    now: Moment,
    now_ms: u64,
    action: InvokeAction,
) -> bool {
    let hold = hold_time(deadline_ms, before.completion_wait, now_ms);
    let until = after.completion@.current->0.hold_deadline;
    &&& after.flush_manager@ == (flush::FlushState {
        history: flush::last_entries(
            before.flush_manager@.history.push(now),
            flush::HISTORY_SIZE as nat,
        ),
        ..before.flush_manager@
    })
    &&& after.completion@ == (if action is Hold {
        before.completion@.begin(request_id, until).waited_for()
    } else {
        before.completion@.begin(request_id, until)
    })
    &&& until@ == (match hold {
        Some(span) => point_after(now, span),
        None => now@,
    })
    &&& action == (if hold is Some && before.completion@.should_hold() {
        InvokeAction::Hold(after.completion@.generation, until)
    } else {
        InvokeAction::Flush
    })
    &&& after == (ExtensionState {
        flush_manager: after.flush_manager,
        completion: after.completion,
        ..before
    })
}

/// Whether this is the next step of a hold.
pub open spec fn held(
    s: ExtensionState,
    generation: u64,
    ticked: bool,
    now: Moment,
    now_ms: u64,
    step: HoldStep,
) -> bool {
    match s.completion@.wait_outcome(generation, now) {
        Some(CompletionOutcome::Completed(_)) => step is Release && step->Release_0@
            == COMPLETION_SETTLE_DELAY_MS * 1_000_000,
        Some(CompletionOutcome::DeadlineExpired) => step is Release && step->Release_0@ == 0,
        None => if ticked && s.flush_manager@.reason(
            None,
            s.aggregator@.entries(),
            false,
            now,
            now_ms,
        ) is Some {
            step is FlushBefore && step->FlushBefore_0@ == point_after(
                now,
                (INVOKE_FLUSH_BUDGET_MS * 1_000_000) as nat,
            )
        } else {
            &&& step is Wait
            &&& step->Wait_0 == s.completion@.current->0.hold_deadline
            &&& match step->Wait_1 {
                Some(d) => periodic_tick(s.flush_manager@, now) == Some(d@),
                None => periodic_tick(s.flush_manager@, now) is None,
            }
        },
    }
}

/// The final flush of a shutdown: drains all signals in batches, until none are
/// left or the deadline has come.
#[derive(Debug)]
pub struct FinalFlush {
    /// The batches that wait to be handed out.
    pub batches: VecDeque<BatchedSignal>,
    /// The number of batches that were handed out.
    pub exported: usize,
    /// The number of batches that the deadline cut off.
    pub abandoned: usize,
    /// The time by which the flush must end.
    pub deadline: Moment,
    /// Whether the flush is over.
    pub done: bool,
}

impl FinalFlush {
    /// The batches that wait to be handed out.
    pub open spec fn waiting(&self) -> Seq<aggregator::BatchedSignal> {
        self.batches@
    }

    /// Begins a final flush.
    pub fn new(deadline: Moment) -> (f: Self)
        ensures
            f.waiting() == Seq::<BatchedSignal>::empty(),
            f.exported == 0,
            f.abandoned == 0,
            f.deadline == deadline,
            !f.done,
    {
        let f = FinalFlush {
            batches: VecDeque::new(),
            exported: 0,
            abandoned: 0,
            deadline,
            done: false,
        };
        assert(f.waiting() =~= Seq::<BatchedSignal>::empty());
        f
    }

    /// The next batch to export at `now`; nothing once all signals are drained or the
    /// deadline has come. What the deadline cuts off is counted.
    pub fn next_batch(&mut self, aggregator: &mut SignalAggregator, now: Moment) -> (r: Option<
        BatchedSignal,
    >)
        requires
            old(aggregator).wf(),
        ensures
            final(aggregator).wf(),
            final(self).deadline == old(self).deadline,
            ({
                let refill = !old(self).done && old(self).waiting().len() == 0;
                let queue = if refill {
                    old(aggregator)@.all_batches()
                } else {
                    aggregator::batch_views(old(self).waiting())
                };
                &&& final(aggregator)@ == (if refill {
                    old(aggregator)@.drained()
                } else {
                    old(aggregator)@
                })
                &&& if old(self).done || queue.len() == 0 {
                    &&& r is None
                    &&& final(self).done
                    &&& final(self).exported == old(self).exported
                    &&& final(self).abandoned == old(self).abandoned
                } else if now@ >= old(self).deadline@ {
                    &&& r is None
                    &&& final(self).done
                    &&& final(self).exported == old(self).exported
                    &&& final(self).abandoned == time::least(
                        old(self).abandoned as nat + queue.len(),
                        usize::MAX as nat,
                    )
                    &&& final(self).waiting() == Seq::<BatchedSignal>::empty()
                } else {
                    &&& r is Some
                    &&& r->0@ == queue[0]
                    &&& aggregator::batch_views(final(self).waiting()) == queue.skip(1)
                    &&& !final(self).done
                    &&& final(self).exported == time::least(
                        old(self).exported as nat + 1,
                        usize::MAX as nat,
                    )
                    &&& final(self).abandoned == old(self).abandoned
                }
            }),
    {
        if self.done {
            return None;
        }
        if self.batches.len() == 0 {
            let refill = aggregator.get_all_batches();
            let ghost all = refill@;
            for batch in it: refill
                invariant
                    it.seq() == all,
                    self.batches@ == all.take(it.index() as int),
                    *self == (FinalFlush { batches: self.batches, ..*old(self) }),
            {
                self.batches.push_back(batch);
                assert(all.take(it.index() + 1) =~= all.take(it.index() as int).push(batch));
            }
            proof {
                assert(self.waiting() =~= all);
            }
        }
        let ghost queue = aggregator::batch_views(self.waiting());
        let left: usize = self.batches.len();
        if left == 0 {
            self.done = true;
            return None;
        }
        if self.deadline.reached(now) {
            self.abandoned = if left <= usize::MAX - self.abandoned {
                self.abandoned + left
            } else {
                usize::MAX
            };
            self.done = true;
            self.batches.clear();
            return None;
        }
        let ghost waiting = self.waiting();
        let batch = self.batches.pop_front();
        if self.exported < usize::MAX {
            self.exported = self.exported + 1;
        }
        proof {
            assert(self.waiting() =~= waiting.skip(1));
            assert(aggregator::batch_views(self.waiting()) =~= queue.skip(1));
        }
        batch
    }
}

/// `/next` is never held past the invocation's deadline less the margin, nor longer
/// than the cap, nor at all where that is switched off.
pub proof fn law_hold_is_bounded(deadline_ms: u64, wait: CompletionWait, now_ms: u64)
    ensures
        wait == CompletionWait::Off ==> hold_time(deadline_ms, wait, now_ms) is None,
        hold_time(deadline_ms, wait, now_ms) is Some ==> hold_time(deadline_ms, wait, now_ms)->0
            + HOLD_DEADLINE_MARGIN_MS * 1_000_000 <= (deadline_ms - now_ms) * 1_000_000,
        wait is Cap && hold_time(deadline_ms, wait, now_ms) is Some ==> hold_time(
            deadline_ms,
            wait,
            now_ms,
        )->0 <= wait->Cap_0@,
{
}

/// Success is no error, and every other end of an invocation is one.
pub proof fn law_only_success_is_no_error(
    status: InvocationStatus,
    request_id: Seq<char>,
    start: u64,
    end: u64,
    trace_id: Seq<u8>,
    span_id: Seq<u8>,
    parent: Seq<u8>,
)
    ensures
        ({
            let span = conversion::invocation_span(
                request_id,
                status.name(),
                start,
                end,
                trace_id,
                span_id,
                parent,
            );
            &&& span.status is Some
            &&& ((span.status->0).0 == conversion::STATUS_UNSET) == (status
                == InvocationStatus::Success)
        }),
{
    reveal_strlit("success");
    reveal_strlit("error");
    reveal_strlit("failure");
    reveal_strlit("timeout");
    assert("error"@.len() != "success"@.len());
    assert("failure"@[0] != "success"@[0]);
    assert("timeout"@[0] != "success"@[0]);
}

/// A deadline within the margin, or past, leaves nothing to hold for.
pub proof fn law_no_hold_within_the_margin(deadline_ms: u64, wait: CompletionWait, now_ms: u64)
    requires
        deadline_ms <= now_ms + HOLD_DEADLINE_MARGIN_MS,
    ensures
        hold_time(deadline_ms, wait, now_ms) is None,
{
}

/// A shutdown ends before the deadline of its event, by the margin, wherever the
/// event leaves that much time.
pub proof fn law_shutdown_ends_in_time(deadline_ms: u64, now_ms: u64)
    requires
        now_ms + SHUTDOWN_DEADLINE_MARGIN_MS <= deadline_ms,
    ensures
        time_before(deadline_ms, SHUTDOWN_DEADLINE_MARGIN_MS, now_ms)
            + SHUTDOWN_DEADLINE_MARGIN_MS * 1_000_000 == (deadline_ms - now_ms) * 1_000_000,
{
}

/// After too many failures in a row any strategy flushes in the midst of an
/// invocation.
pub proof fn law_escalation_flushes_midway(f: flush::FlushState, now: Moment)
    requires
        f.timeouts >= flush::HISTORY_SIZE,
    ensures
        periodic_tick(f, now) == Some(time::greatest(f.time_left(now), 10_000_000)),
{
}

/// The periodic flush is never looked at without a pause, so a completion signal is
/// always seen first.
pub proof fn law_periodic_tick_is_never_zero(f: flush::FlushState, now: Moment)
    ensures
        periodic_tick(f, now) is Some ==> periodic_tick(f, now)->0 >= 10_000_000,
{
}

/// Holding that is paid for in vain is not paid for again: after a hold has expired
/// without a signal, the next invocation is not held.
pub proof fn law_expired_hold_is_not_repeated(
    before: ExtensionState,
    after: ExtensionState,
    s: completion::TrackerState,
    expired: Moment,
    request_id: Seq<char>,
    deadline_ms: u64,
    now: Moment,
    now_ms: u64,
    action: InvokeAction,
)
    requires
        s.current is Some,
        s.current->0.completed is None,
        expired@ >= s.current->0.hold_deadline@,
        before.completion@ == s.after_wait(s.generation, expired),
        invoked(before, after, request_id, deadline_ms, now, now_ms, action),
    ensures
        action == InvokeAction::Flush,
{
}

/// Completion is signalled only when telemetry is queued: once events are processed,
/// every metric and every span that they came to is in the aggregator, wherever it has
/// room for them, behind what was there, and nothing is dropped for them.
pub proof fn law_completion_follows_the_telemetry(
    before: ExtensionState,
    after: ExtensionState,
    events: Seq<LambdaTelemetry>,
    metrics: Seq<MetricsData>,
    traces: Seq<TracesData>,
    signals: Seq<otlp::Entries>,
    at: Seq<Moment>,
)
    requires
        processed(before, after, events, metrics, traces, signals, at),
        before.aggregator@.bytes() + aggregator::signal_bytes(signals)
            <= before.aggregator@.config.max_queue_bytes,
        before.aggregator@.entries() + signals.len()
            <= before.aggregator@.config.max_queue_entries,
    ensures
        after.completion@ == completed_all(before.completion@, runtime_done_ids(events), at),
        after.aggregator@ == aggregator::pushed_all(before.aggregator@, signals),
        after.aggregator@.dropped == before.aggregator@.dropped,
        after.aggregator@.entries() == before.aggregator@.entries() + signals.len(),
{
    aggregator::law_room_for_all_means_no_drop(before.aggregator@, signals);
}

/// Whether an event tells that the runtime finished the invocation with the given ID.
pub open spec fn ends(e: LambdaTelemetry, id: Seq<char>) -> bool {
    e.record is PlatformRuntimeDone && e.record->PlatformRuntimeDone_request_id@ == id
}

/// Every invocation that the runtime finished completes, whatever its status, metrics,
/// spans and tracing are, and no other: there is one completed ID for each such event.
pub proof fn law_every_runtime_done_completes(events: Seq<LambdaTelemetry>)
    ensures
        runtime_done_ids(events).len() == events.filter(
            |e: LambdaTelemetry| e.record is PlatformRuntimeDone,
        ).len(),
        forall|i: int|
            0 <= i < events.len() && (#[trigger] events[i]).record is PlatformRuntimeDone
                ==> runtime_done_ids(events).contains(
                events[i].record->PlatformRuntimeDone_request_id@,
            ),
        forall|id: Seq<char>| #[trigger]
            runtime_done_ids(events).contains(id) ==> exists|i: int|
                0 <= i < events.len() && ends(#[trigger] events[i], id),
    decreases events.len(),
{
    reveal(Seq::filter);
    if events.len() > 0 {
        let front = events.drop_last();
        let ids = runtime_done_ids(events);
        let before = runtime_done_ids(front);
        law_every_runtime_done_completes(front);
        assert forall|i: int|
            0 <= i < events.len() && (
            #[trigger] events[i]).record is PlatformRuntimeDone implies ids.contains(
            events[i].record->PlatformRuntimeDone_request_id@,
        ) by {
            let id = events[i].record->PlatformRuntimeDone_request_id@;
            if i < front.len() {
                assert(front[i] == events[i]);
                let k = choose|k: int| 0 <= k < before.len() && before[k] == id;
                assert(ids[k] == id);
            } else {
                assert(ids[ids.len() - 1] == id);
            }
        }
        assert forall|id: Seq<char>| #[trigger] ids.contains(id) implies exists|i: int|
            0 <= i < events.len() && ends(#[trigger] events[i], id) by {
            let k = choose|k: int| 0 <= k < ids.len() && ids[k] == id;
            if k < before.len() {
                assert(before[k] == id);
                assert(before.contains(id));
                let i = choose|i: int| 0 <= i < front.len() && ends(#[trigger] front[i], id);
                assert(events[i] == front[i]);
            } else {
                assert(ends(events[events.len() - 1], id));
            }
        }
    }
}

/// Telemetry that ends the invocation in flight releases its hold at once: after the batch
/// the wait is over, and completed.
pub proof fn law_runtime_done_releases_the_hold(
    s: completion::TrackerState,
    ids: Seq<Seq<char>>,
    at: Seq<Moment>,
    now: Moment,
)
    requires
        s.current is Some,
        ids.len() == at.len(),
        ids.contains(s.current->0.request_id),
    ensures
        ({
            let after = completed_all(s, ids, at);
            &&& after.current is Some
            &&& after.current->0.completed is Some
            &&& s.current->0.completed is None ==> after.current->0.completed->0.source
                == CompletionSource::RuntimeDone
            &&& after.wait_outcome(s.generation, now) is Some
            &&& after.wait_outcome(s.generation, now)->0 is Completed
        }),
{
    lemma_completed_all(s, ids, at);
}

/// Completions leave the invocation in flight in its place, and complete it exactly where
/// it is among them.
proof fn lemma_completed_all(s: completion::TrackerState, ids: Seq<Seq<char>>, at: Seq<Moment>)
    requires
        s.current is Some,
        ids.len() == at.len(),
    ensures
        ({
            let after = completed_all(s, ids, at);
            &&& after.current is Some
            &&& after.generation == s.generation
            &&& after.current->0.request_id == s.current->0.request_id
            &&& s.current->0.completed is Some ==> after.current->0.completed
                == s.current->0.completed
            &&& s.current->0.completed is None && after.current->0.completed is Some
                ==> after.current->0.completed->0.source == CompletionSource::RuntimeDone
            &&& s.current->0.completed is None ==> (after.current->0.completed is Some)
                == ids.contains(s.current->0.request_id)
        }),
    decreases ids.len(),
{
    if ids.len() > 0 {
        let front = ids.drop_last();
        let id = s.current->0.request_id;
        lemma_completed_all(s, front, at.drop_last());
        assert(ids.contains(id) == (front.contains(id) || ids.last() == id)) by {
            if front.contains(id) {
                let i = choose|i: int| 0 <= i < front.len() && front[i] == id;
                assert(ids[i] == id);
            }
            assert(ids[ids.len() - 1] == ids.last());
            if ids.contains(id) && ids.last() != id {
                let i = choose|i: int| 0 <= i < ids.len() && ids[i] == id;
                assert(front[i] == id);
            }
        }
    }
}

/// Telemetry of other invocations leaves the one in flight as it is.
pub proof fn law_other_telemetry_leaves_the_hold(
    s: completion::TrackerState,
    ids: Seq<Seq<char>>,
    at: Seq<Moment>,
)
    requires
        s.current is Some,
        s.current->0.completed is None,
        ids.len() == at.len(),
        !ids.contains(s.current->0.request_id),
    ensures
        completed_all(s, ids, at).current is Some,
        completed_all(s, ids, at).current->0.completed is None,
{
    lemma_completed_all(s, ids, at);
}

/// A delivered event keeps what it tells: its kind, its time and every field of its record.
pub proof fn law_events_keep_what_they_tell(e: LambdaTelemetry)
    ensures
        e.record is Other <==> converted(e) is None,
        e.record is PlatformStart ==> {
            &&& converted(e) is Some
            &&& converted(e)->0 is Start
            &&& converted(e)->0->Start_time == e.time
            &&& converted(e)->0->Start_record.request_id == e.record->PlatformStart_request_id
            &&& converted(e)->0->Start_record.version == e.record->PlatformStart_version
            &&& e.record->PlatformStart_tracing is None
                ==> converted(e)->0->Start_record.tracing is None
            &&& e.record->PlatformStart_tracing is Some ==> {
                &&& converted(e)->0->Start_record.tracing is Some
                &&& converted(e)->0->Start_record.tracing->0.value == Some(
                    e.record->PlatformStart_tracing->0.value,
                )
                &&& converted(e)->0->Start_record.tracing->0.trace_type == Some(
                    e.record->PlatformStart_tracing->0.trace_type,
                )
                &&& converted(e)->0->Start_record.tracing->0.span_id is None
            }
        },
        e.record is PlatformRuntimeDone ==> {
            &&& converted(e) is Some
            &&& converted(e)->0 is RuntimeDone
            &&& converted(e)->0->RuntimeDone_time == e.time
            &&& converted(e)->0->RuntimeDone_record.request_id
                == e.record->PlatformRuntimeDone_request_id
            &&& converted(e)->0->RuntimeDone_record.status == e.record->PlatformRuntimeDone_status
            &&& converted(e)->0->RuntimeDone_record.metrics == e.record->PlatformRuntimeDone_metrics
            &&& converted(e)->0->RuntimeDone_record.spans == e.record->PlatformRuntimeDone_spans
        },
        e.record is PlatformReport ==> {
            &&& converted(e) is Some
            &&& converted(e)->0 is Report
            &&& converted(e)->0->Report_time == e.time
            &&& converted(e)->0->Report_record.request_id == e.record->PlatformReport_request_id
            &&& converted(e)->0->Report_record.status == e.record->PlatformReport_status
            &&& converted(e)->0->Report_record.metrics == e.record->PlatformReport_metrics
        },
{
}

/// What events stand for does not depend on how they are divided into batches, and neither
/// do the invocations that they complete.
pub proof fn law_batches_of_telemetry_do_not_matter(
    first: Seq<LambdaTelemetry>,
    second: Seq<LambdaTelemetry>,
)
    ensures
        converted_all(first + second) == converted_all(first) + converted_all(second),
        runtime_done_ids(first + second) == runtime_done_ids(first) + runtime_done_ids(second),
        converted_all(Seq::empty()).len() == 0,
    decreases second.len(),
{
    let all = first + second;
    if second.len() == 0 {
        assert(all =~= first);
        assert(converted_all(first) + converted_all(second) =~= converted_all(first));
        assert(runtime_done_ids(first) + runtime_done_ids(second) =~= runtime_done_ids(first));
    } else {
        law_batches_of_telemetry_do_not_matter(first, second.drop_last());
        assert(all.drop_last() =~= first + second.drop_last());
        assert(all.last() == second.last());
        assert(converted_all(all) =~= converted_all(first) + converted_all(second));
        assert(runtime_done_ids(all) =~= runtime_done_ids(first) + runtime_done_ids(second));
    }
}

/// One event alone stands for what it is converted to.
pub proof fn law_an_event_alone_is_converted(e: LambdaTelemetry)
    ensures
        converted(e) is None ==> converted_all(seq![e]).len() == 0,
        converted(e) is Some ==> converted_all(seq![e]) == seq![converted(e)->0],
{
    assert(seq![e].drop_last() =~= Seq::<LambdaTelemetry>::empty());
    assert(converted_all(Seq::<LambdaTelemetry>::empty()) =~= Seq::<TelemetryEvent>::empty());
    if converted(e) is Some {
        assert(converted_all(seq![e]) =~= seq![converted(e)->0]);
    }
}

/// `/next` is held until a second before the deadline, or for the cap where that is less,
/// wherever more than a second is left; and not where holding is off.
pub proof fn law_hold_lasts_to_a_second_before_the_deadline(
    deadline_ms: u64,
    wait: CompletionWait,
    now_ms: u64,
)
    ensures
        wait is Off || deadline_ms <= now_ms + 1000 <==> hold_time(deadline_ms, wait, now_ms)
            is None,
        wait is Auto && deadline_ms > now_ms + 1000 ==> hold_time(deadline_ms, wait, now_ms)
            == Some(((deadline_ms - now_ms - 1000) * 1_000_000) as nat),
        wait is Cap && deadline_ms > now_ms + 1000 && wait->Cap_0@ <= (deadline_ms - now_ms - 1000)
            * 1_000_000 ==> hold_time(deadline_ms, wait, now_ms) == Some(wait->Cap_0@),
        wait is Cap && deadline_ms > now_ms + 1000 && wait->Cap_0@ > (deadline_ms - now_ms - 1000)
            * 1_000_000 ==> hold_time(deadline_ms, wait, now_ms) == Some(
            ((deadline_ms - now_ms - 1000) * 1_000_000) as nat,
        ),
{
}

/// Shutdown work ends a fifth of a second before the deadline of its event, or at once
/// where less is left.
pub proof fn law_shutdown_leaves_a_fifth_of_a_second(deadline_ms: u64, now: Moment, now_ms: u64)
    ensures
        deadline_ms <= now_ms + 200 ==> time_before(
            deadline_ms,
            SHUTDOWN_DEADLINE_MARGIN_MS,
            now_ms,
        ) == 0,
        deadline_ms > now_ms + 200 ==> time_before(deadline_ms, SHUTDOWN_DEADLINE_MARGIN_MS, now_ms)
            == (deadline_ms - now_ms - 200) * 1_000_000,
        now@ + u64::MAX * 1_000_000 <= u128::MAX ==> point_after(
            now,
            time_before(deadline_ms, SHUTDOWN_DEADLINE_MARGIN_MS, now_ms),
        ) == now@ + time_before(deadline_ms, SHUTDOWN_DEADLINE_MARGIN_MS, now_ms),
{
}

/// After an invocation nothing is flushed where nothing is pending. With fewer than twenty
/// failures in a row, what is pending is flushed where the strategy waits for the end, as
/// soon as a batch is full, and where the interval since the last flush has passed.
pub proof fn law_what_is_pending_is_flushed_after_an_invocation(
    f: flush::FlushState,
    pending: nat,
    now: Moment,
    now_ms: u64,
)
    ensures
        pending == 0 ==> !flush_after_invocation(f, pending, now, now_ms),
        pending > 0 && pending >= f.config.max_batch_entries ==> flush_after_invocation(
            f,
            pending,
            now,
            now_ms,
        ),
        pending > 0 && (f.last_flush is None || now@ >= f.last_flush->0@ + f.config.interval@)
            ==> flush_after_invocation(f, pending, now, now_ms),
        pending > 0 && f.timeouts < 20 && f.config.strategy == FlushStrategy::End
            ==> flush_after_invocation(f, pending, now, now_ms),
        pending > 0 && f.timeouts < 20 && f.config.strategy == FlushStrategy::Default
            && f.infrequent() ==> flush_after_invocation(f, pending, now, now_ms),
        f.timeouts < 20 && (f.config.strategy == FlushStrategy::Periodic || f.config.strategy
            == FlushStrategy::Continuous) && pending < f.config.max_batch_entries
            && f.last_flush is Some && f.last_flush->0@ <= now@ < f.last_flush->0@
            + f.config.interval@ ==> !flush_after_invocation(f, pending, now, now_ms),
{
}

/// While an invocation is held, only the periodic and the continuous strategy flush; they
/// look again when the interval has passed, and after a hundredth of a second at the
/// earliest.
pub proof fn law_periodic_strategies_tick(f: flush::FlushState, now: Moment)
    requires
        f.timeouts < 20,
    ensures
        f.config.strategy == FlushStrategy::End || f.config.strategy == FlushStrategy::Default
            <==> periodic_tick(f, now) is None,
        periodic_tick(f, now) is Some && f.last_flush is Some && f.last_flush->0@ <= now@
            && now@ + 10_000_000 <= f.last_flush->0@ + f.config.interval@ ==> now@ + periodic_tick(
            f,
            now,
        )->0 == f.last_flush->0@ + f.config.interval@,
        periodic_tick(f, now) is Some && (f.last_flush is None || now@ + 10_000_000
            > f.last_flush->0@ + f.config.interval@) ==> periodic_tick(f, now)->0 == 10_000_000,
{
}

/// An invocation is held exactly where there is time for it and no hold has expired since
/// a signal was seen in time; held or not, it is tracked under its request ID, and counts
/// in the history.
pub proof fn law_an_invocation_is_held_where_it_can_be(
    before: ExtensionState,
    after: ExtensionState,
    request_id: Seq<char>,
    deadline_ms: u64,
    now: Moment,
    now_ms: u64,
    action: InvokeAction,
)
    requires
        invoked(before, after, request_id, deadline_ms, now, now_ms, action),
    ensures
        action is Hold <==> hold_time(deadline_ms, before.completion_wait, now_ms) is Some
            && before.completion@.hold_timeouts == 0,
        after.completion@.current is Some,
        after.completion@.current->0.request_id == request_id,
        action is Hold ==> {
            &&& action->Hold_0 == after.completion@.generation
            &&& action->Hold_1 == after.completion@.current->0.hold_deadline
            &&& after.completion@.current->0.waits == 1
        },
        hold_time(deadline_ms, before.completion_wait, now_ms) is None
            ==> after.completion@.current->0.hold_deadline@ == now@,
        hold_time(deadline_ms, before.completion_wait, now_ms) is Some && now@ + hold_time(
            deadline_ms,
            before.completion_wait,
            now_ms,
        )->0 <= u128::MAX ==> after.completion@.current->0.hold_deadline@ == now@ + hold_time(
            deadline_ms,
            before.completion_wait,
            now_ms,
        )->0,
        after.flush_manager@.history.len() > 0,
        after.flush_manager@.history.last() == now,
        after.flush_manager@.timeouts == before.flush_manager@.timeouts,
        after.flush_manager@.last_flush == before.flush_manager@.last_flush,
        after.flush_manager@.config == before.flush_manager@.config,
        after.aggregator == before.aggregator,
{
}

/// A hold ends a fiftieth of a second after the completion signal, and at once where its
/// deadline comes first; until then it waits, but for the periodic flush when that is due.
pub proof fn law_a_hold_ends_with_its_invocation(
    s: ExtensionState,
    ticked: bool,
    now: Moment,
    now_ms: u64,
    step: HoldStep,
)
    requires
        s.completion@.current is Some,
        held(s, s.completion@.generation, ticked, now, now_ms, step),
    ensures
        s.completion@.current->0.completed is Some ==> step is Release && step->Release_0@
            == 20_000_000,
        s.completion@.current->0.completed is None && now@
            >= s.completion@.current->0.hold_deadline@ ==> step is Release && step->Release_0@ == 0,
        s.completion@.current->0.completed is None && now@
            < s.completion@.current->0.hold_deadline@ ==> !(step is Release),
        step is Wait ==> step->Wait_0 == s.completion@.current->0.hold_deadline,
        step is FlushBefore ==> ticked && s.flush_manager@.reason(
            None,
            s.aggregator@.entries(),
            false,
            now,
            now_ms,
        ) is Some,
        step is FlushBefore && now@ + 1_000_000_000 <= u128::MAX ==> step->FlushBefore_0@ == now@
            + 1_000_000_000,
        step is Wait && ticked ==> s.flush_manager@.reason(
            None,
            s.aggregator@.entries(),
            false,
            now,
            now_ms,
        ) is None,
{
}

/// Every metric and every span has a signal of its own: the metrics first, in their order,
/// then the spans in theirs.
pub proof fn law_every_metric_and_span_has_its_signal<
    F: Fn(MetricsData) -> ExportMetricsServiceRequest,
    G: Fn(TracesData) -> ExportTraceServiceRequest,
>(
    signals: Seq<Signal>,
    metrics: Seq<MetricsData>,
    traces: Seq<TracesData>,
    to_metrics: F,
    to_traces: G,
)
    requires
        are_signals_of(signals, metrics, traces, to_metrics, to_traces),
    ensures
        signals.len() == metrics.len() + traces.len(),
        signal_views(signals).len() == signals.len(),
        forall|i: int|
            0 <= i < metrics.len() ==> (#[trigger] signals[i]) is Metrics && to_metrics.ensures(
                (metrics[i],),
                signals[i]->Metrics_0,
            ) && signal_views(signals)[i] == otlp::Entries::Metrics(
                signals[i]->Metrics_0.resource_metrics@,
            ),
        forall|i: int|
            metrics.len() <= i < signals.len() ==> (#[trigger] signals[i]) is Traces
                && to_traces.ensures((traces[i - metrics.len()],), signals[i]->Traces_0)
                && signal_views(signals)[i] == otlp::Entries::Traces(
                signals[i]->Traces_0.resource_spans@,
            ),
{
}

/// Processed telemetry gives what its events tell: metrics of their reports, spans of the
/// invocations that they ended, and the completion of these; the starts that are still
/// open wait for the next batch, and nothing else changes.
pub proof fn law_processing_follows_the_events(
    before: ExtensionState,
    after: ExtensionState,
    events: Seq<LambdaTelemetry>,
    metrics: Seq<MetricsData>,
    traces: Seq<TracesData>,
    signals: Seq<otlp::Entries>,
    at: Seq<Moment>,
)
    requires
        processed(before, after, events, metrics, traces, signals, at),
    ensures
        metrics.len() == conversion::reports(converted_all(events)).len(),
        traces.len() == conversion::invocations(
            before.telemetry_processor.pending(),
            converted_all(events),
        ).len(),
        conversion::are_metrics_of(
            metrics,
            before.telemetry_processor.resource(),
            conversion::reports(converted_all(events)),
        ),
        conversion::are_traces_of(
            traces,
            before.telemetry_processor.resource(),
            conversion::invocations(before.telemetry_processor.pending(), converted_all(events)),
        ),
        after.telemetry_processor.pending() == conversion::pending_after(
            before.telemetry_processor.pending(),
            converted_all(events),
        ),
        after.telemetry_processor.resource() == before.telemetry_processor.resource(),
        after.flush_manager == before.flush_manager,
        after.metrics_converter == before.metrics_converter,
        after.shutdown_signalled == before.shutdown_signalled,
        before.completion@.current is Some && runtime_done_ids(events).contains(
            before.completion@.current->0.request_id,
        ) ==> after.completion@.current is Some && after.completion@.current->0.completed is Some,
{
    if before.completion@.current is Some {
        lemma_completed_all(before.completion@, runtime_done_ids(events), at);
    }
}

/// The metric of a shutdown is one gauge that counts one, gives the reason, and belongs to
/// the resource of the extension.
pub proof fn law_the_shutdown_metric_gives_its_reason(
    m: MetricsData,
    converter: MetricsConverter,
    reason: Seq<char>,
)
    requires
        is_shutdown_metric(m, converter, reason),
    ensures
        m.resource_metrics@.len() == 1,
        m.resource_metrics@[0].resource is Some,
        m.resource_metrics@[0].resource->0@ == converter.resource@,
        m.resource_metrics@[0].scope_metrics@.len() == 1,
        m.resource_metrics@[0].scope_metrics@[0].metrics@.len() == 1,
        ({
            let view = m.resource_metrics@[0].scope_metrics@[0].metrics@[0]@;
            &&& view.name == "extension.shutdown_count"@
            &&& view.points.len() == 1
            &&& view.points[0].value == PointValue::AsInt(1)
            &&& view.points[0].attributes == seq![("shutdown.reason"@, ValueView::Text(reason))]
            &&& time::may_be_epoch_nanos(view.points[0].time)
        }),
{
    let n = choose|n: u64|
        time::may_be_epoch_nanos(n) && m.holds(
            conversion::extension_metrics(
                converter.resource@,
                seq![#[trigger] conversion::shutdown_metric(reason, n)],
            ),
        );
    let list = m.resource_metrics@[0].scope_metrics@[0].metrics@;
    assert(list.map_values(|x: Metric| x@).len() == list.len());
    assert(list.map_values(|x: Metric| x@)[0] == list[0]@);
    assert(list[0]@ == conversion::shutdown_metric(reason, n));
}

/// The Telemetry API writes each status in its own word.
pub proof fn law_a_status_has_its_word(status: InvocationStatus)
    ensures
        status == InvocationStatus::Success <==> status.name() == "success"@,
        status == InvocationStatus::Error <==> status.name() == "error"@,
        status == InvocationStatus::Failure <==> status.name() == "failure"@,
        status == InvocationStatus::Timeout <==> status.name() == "timeout"@,
{
    reveal_strlit("success");
    reveal_strlit("error");
    reveal_strlit("failure");
    reveal_strlit("timeout");
    assert("success"@[0] != "failure"@[0]);
    assert("success"@[0] != "timeout"@[0]);
    assert("failure"@[0] != "timeout"@[0]);
    assert("success"@.len() == 7);
    assert("error"@.len() == 5);
    assert("failure"@.len() == 7);
    assert("timeout"@.len() == 7);
}

/// What is collected of a batch of events are the request IDs of the invocations that the
/// runtime finished: each of them, whatever its status, and no other.
pub proof fn law_collected_ids_are_of_finished_invocations(
    events: Vec<LambdaTelemetry>,
    ids: Vec<String>,
    i: int,
)
    requires
        call_ensures(collect_runtime_done_ids, (&events,), ids),
        0 <= i < events@.len(),
    ensures
        events@[i].record is PlatformRuntimeDone ==> exists|k: int|
            0 <= k < ids@.len() && (#[trigger] ids@[k])@
                == events@[i].record->PlatformRuntimeDone_request_id@,
        ids@.len() == events@.filter(|e: LambdaTelemetry| e.record is PlatformRuntimeDone).len(),
{
    law_every_runtime_done_completes(events@);
    if events@[i].record is PlatformRuntimeDone {
        let id = events@[i].record->PlatformRuntimeDone_request_id@;
        let k = choose|k: int|
            0 <= k < runtime_done_ids(events@).len() && runtime_done_ids(events@)[k] == id;
        assert(string_views(ids@)[k] == ids@[k]@);
    }
    assert(string_views(ids@).len() == ids@.len());
}

/// Events are converted one by one, in their order; each start, end and report gives one.
pub proof fn law_each_event_is_converted(
    events: Vec<LambdaTelemetry>,
    r: Vec<TelemetryEvent>,
    e: LambdaTelemetry,
    one: Option<TelemetryEvent>,
)
    requires
        call_ensures(convert_telemetry_events, (events,), r),
        call_ensures(convert_telemetry_event, (e,), one),
    ensures
        r@.len() == events@.filter(|x: LambdaTelemetry| !(x.record is Other)).len(),
        one is None <==> e.record is Other,
        one is Some ==> one == converted(e),
        forall|i: int|
            0 <= i < events@.len() && !((#[trigger] events@[i]).record is Other) ==> r@.contains(
                converted(events@[i])->0,
            ),
{
    lemma_each_is_converted(events@);
}

/// Each event that is not left out is among the converted ones.
proof fn lemma_each_is_converted(events: Seq<LambdaTelemetry>)
    ensures
        converted_all(events).len() == events.filter(
            |x: LambdaTelemetry| !(x.record is Other),
        ).len(),
        forall|i: int|
            0 <= i < events.len() && !((#[trigger] events[i]).record is Other) ==> converted_all(
                events,
            ).contains(converted(events[i])->0),
    decreases events.len(),
{
    reveal(Seq::filter);
    if events.len() > 0 {
        let front = events.drop_last();
        let before = converted_all(front);
        let all = converted_all(events);
        lemma_each_is_converted(front);
        assert forall|i: int| 0 <= i < events.len() && !((
        #[trigger] events[i]).record is Other) implies all.contains(converted(events[i])->0) by {
            let e = converted(events[i])->0;
            if i < front.len() {
                assert(front[i] == events[i]);
                let k = choose|k: int| 0 <= k < before.len() && before[k] == e;
                assert(all[k] == e);
            } else {
                assert(all[all.len() - 1] == e);
            }
        }
    }
}

/// A batch of telemetry that ends the invocation in flight completes it, and queues its
/// signals behind what waits; a hold that looks then is released.
pub proof fn law_queued_telemetry_releases_the_hold(
    s: &mut ExtensionState,
    signals: Vec<Signal>,
    completed: Vec<String>,
    k: int,
    now: Moment,
)
    requires
        call_ensures(ExtensionState::queue_telemetry, (s, signals, &completed), ()),
        old(s).completion@.current is Some,
        0 <= k < completed@.len(),
        completed@[k]@ == old(s).completion@.current->0.request_id,
        old(s).aggregator@.bytes() + aggregator::signal_bytes(signal_views(signals@))
            <= old(s).aggregator@.config.max_queue_bytes,
        old(s).aggregator@.entries() + signals@.len()
            <= old(s).aggregator@.config.max_queue_entries,
    ensures
        final(s).completion@.wait_outcome(old(s).completion@.generation, now) is Some,
        final(s).completion@.wait_outcome(old(s).completion@.generation, now)->0 is Completed,
        final(s).aggregator@.entries() == old(s).aggregator@.entries() + signals@.len(),
        final(s).aggregator@.dropped == old(s).aggregator@.dropped,
{
    let at = choose|at: Seq<Moment>|
        {
            &&& at.len() == completed@.len()
            &&& forall|i: int| 0 <= i < at.len() ==> old(s).clock.may_show(#[trigger] at[i])
            &&& final(s).completion@ == #[trigger] completed_all(
                old(s).completion@,
                string_views(completed@),
                at,
            )
        };
    assert(string_views(completed@)[k] == completed@[k]@);
    assert(string_views(completed@).len() == at.len());
    law_runtime_done_releases_the_hold(old(s).completion@, string_views(completed@), at, now);
    assert(signal_views(signals@).len() == signals@.len());
    aggregator::law_room_for_all_means_no_drop(old(s).aggregator@, signal_views(signals@));
}

/// The hold of an invocation ends a second before its deadline, or with the cap, counted
/// from now; there is none where holding is off or no more than a second is left.
pub proof fn law_hold_deadlines_leave_a_second(
    deadline_ms: u64,
    wait: CompletionWait,
    now: Moment,
    now_ms: u64,
    r: Option<Moment>,
)
    requires
        call_ensures(hold_deadline, (deadline_ms, wait, now, now_ms), r),
        now@ + u64::MAX * 1_000_000 <= u128::MAX,
    ensures
        r is None <==> wait is Off || deadline_ms <= now_ms + 1000,
        wait is Auto && r is Some ==> r->0@ == now@ + (deadline_ms - now_ms - 1000) * 1_000_000,
        wait is Cap && r is Some ==> r->0@ <= now@ + (deadline_ms - now_ms - 1000) * 1_000_000
            && r->0@ <= now@ + wait->Cap_0@ && (r->0@ == now@ + wait->Cap_0@ || r->0@ == now@ + (
        deadline_ms - now_ms - 1000) * 1_000_000),
{
}

/// A shutdown is planned to end a fifth of a second before its deadline. A quarter of the
/// time until then, and half a second at most, is spent on telemetry that is being
/// processed.
pub proof fn law_a_shutdown_is_planned_in_time(
    deadline_ms: u64,
    now: Moment,
    now_ms: u64,
    plan: ShutdownPlan,
    m: Moment,
)
    requires
        call_ensures(ExtensionState::plan_shutdown, (deadline_ms, now, now_ms), plan),
        call_ensures(shutdown_deadline, (deadline_ms, now, now_ms), m),
        now@ + u64::MAX * 1_000_000 <= u128::MAX,
    ensures
        plan.deadline@ == m@,
        deadline_ms <= now_ms + 200 ==> m@ == now@ && plan.processing_wait@ == 0,
        deadline_ms > now_ms + 200 ==> m@ == now@ + (deadline_ms - now_ms - 200) * 1_000_000,
        4 * plan.processing_wait@ <= m@ - now@,
        plan.processing_wait@ <= 500_000_000,
        plan.processing_wait@ == 500_000_000 || m@ - now@ < 4 * plan.processing_wait@ + 4,
{
}

/// A flush in the invocation path has a second.
pub proof fn law_a_flush_has_a_second(now: Moment, m: Moment)
    requires
        call_ensures(ExtensionState::flush_budget, (now,), m),
        now@ + 1_000_000_000 <= u128::MAX,
    ensures
        m@ == now@ + 1_000_000_000,
{
}

/// An export that succeeds counts as a flush, and any other as a failed one.
pub proof fn law_an_export_is_recorded(s: &mut ExtensionState, result: ExportResult)
    requires
        call_ensures(ExtensionState::record_export, (s, result), ()),
        old(s).flush_manager@.timeouts < usize::MAX,
    ensures
        result == ExportResult::Success ==> final(s).flush_manager@.timeouts == 0 && final(s).flush_manager@.last_flush is Some,
        result != ExportResult::Success ==> final(s).flush_manager@.timeouts == old(s).flush_manager@.timeouts + 1 && final(s).flush_manager@.last_flush == old(s).flush_manager@.last_flush,
        final(s).aggregator == old(s).aggregator,
        final(s).completion == old(s).completion,
{
}

/// An invocation that comes with time to spare, while holds do not expire, is held to a
/// second before its deadline; where a hold has expired, or holding is off, it is not.
pub proof fn law_an_invocation_with_time_is_held(
    s: &mut ExtensionState,
    request_id: &str,
    deadline_ms: u64,
    now: Moment,
    now_ms: u64,
    action: InvokeAction,
)
    requires
        call_ensures(
            ExtensionState::handle_invoke_at,
            (s, request_id, deadline_ms, now, now_ms),
            action,
        ),
        now@ + u64::MAX * 1_000_000 <= u128::MAX,
    ensures
        action is Hold <==> !(old(s).completion_wait is Off) && deadline_ms > now_ms + 1000 && old(s).completion@.hold_timeouts == 0,
        action is Hold && old(s).completion_wait is Auto ==> action->Hold_1@ == now@ + (deadline_ms
            - now_ms - 1000) * 1_000_000,
        final(s).completion@.current is Some,
        final(s).completion@.current->0.request_id == request_id@,
        final(s).flush_manager@.history.last() == now,
        final(s).aggregator == old(s).aggregator,
{
    law_an_invocation_is_held_where_it_can_be(
        *old(s),
        *final(s),
        request_id@,
        deadline_ms,
        now,
        now_ms,
        action,
    );
}

/// While an invocation is held, its completion releases it a fiftieth of a second later and
/// its deadline at once; until then it stays held.
pub proof fn law_a_held_invocation_is_released(
    s: &mut ExtensionState,
    ticked: bool,
    now: Moment,
    now_ms: u64,
    step: HoldStep,
)
    requires
        old(s).completion@.current is Some,
        call_ensures(
            ExtensionState::hold_step,
            (s, old(s).completion@.generation, ticked, now, now_ms),
            step,
        ),
    ensures
        ({
            let current = old(s).completion@.current->0;
            &&& current.completed is Some ==> step is Release && step->Release_0@ == 20_000_000
            &&& current.completed is None && now@ >= current.hold_deadline@ ==> step is Release
                && step->Release_0@ == 0 && final(s).completion@.hold_timeouts > 0
            &&& current.completed is None && now@ < current.hold_deadline@ ==> !(step is Release)
            &&& current.completed is None && now@ < current.hold_deadline@ && !ticked
                ==> step is Wait && step->Wait_0 == current.hold_deadline
        }),
{
    law_a_hold_ends_with_its_invocation(*old(s), ticked, now, now_ms, step);
}

/// A handler wrapper's call completes the invocation that it names, or the one in flight
/// where it names none, and is accepted.
pub proof fn law_a_wrapper_completes_its_invocation(
    s: &mut ExtensionState,
    request_id: Option<&str>,
    status: u16,
)
    requires
        call_ensures(ExtensionState::invocation_complete, (s, request_id), status),
        old(s).completion@.current is Some,
        old(s).completion@.current->0.completed is None,
        request_id is None || request_id->0@ == old(s).completion@.current->0.request_id,
    ensures
        status == 202,
        final(s).completion@.current is Some,
        final(s).completion@.current->0.completed is Some,
        final(s).completion@.current->0.completed->0.source == CompletionSource::Wrapper,
{
}

/// A final flush hands out what is left, batch by batch, and ends when nothing is or when
/// its deadline has come; what it could not hand out is counted.
pub proof fn law_a_final_flush_drains_until_its_deadline(
    f: &mut FinalFlush,
    a: &mut SignalAggregator,
    now: Moment,
    r: Option<BatchedSignal>,
)
    requires
        call_ensures(FinalFlush::next_batch, (f, a, now), r),
        !old(f).done,
        old(f).waiting().len() == 0,
        old(f).exported < usize::MAX,
        old(f).abandoned == 0,
    ensures
        ({
            let all = old(a)@.all_batches();
            &&& final(a)@.entries() == 0
            &&& all.len() == 0 ==> r is None && final(f).done && final(f).exported == old(f).exported && final(f).abandoned == 0
            &&& all.len() > 0 && now@ >= old(f).deadline@ ==> r is None && final(f).done && final(f).abandoned == time::least(all.len(), usize::MAX as nat) && final(f).exported == old(f).exported
            &&& all.len() > 0 && now@ < old(f).deadline@ ==> r is Some && r->0@ == all[0] && !final(f).done && final(f).exported == old(f).exported + 1 && final(f).waiting().len()
                == all.len() - 1
        }),
        final(f).deadline == old(f).deadline,
{
    aggregator::law_draining_empties(old(a)@);
    assert(aggregator::batch_views(final(f).waiting()).len() == final(f).waiting().len());
}

/// A final flush that has batches left hands out the next one, and takes no more in.
pub proof fn law_a_final_flush_hands_out_its_batches(
    f: &mut FinalFlush,
    a: &mut SignalAggregator,
    now: Moment,
    r: Option<BatchedSignal>,
)
    requires
        call_ensures(FinalFlush::next_batch, (f, a, now), r),
        !old(f).done,
        old(f).waiting().len() > 0,
        now@ < old(f).deadline@,
    ensures
        r is Some,
        r->0@ == old(f).waiting()[0]@,
        final(f).waiting().len() == old(f).waiting().len() - 1,
        final(a)@ == old(a)@,
        !final(f).done,
{
    let before = aggregator::batch_views(old(f).waiting());
    assert(before[0] == old(f).waiting()[0]@);
    assert(aggregator::batch_views(final(f).waiting()).len() == final(f).waiting().len());
    assert(before.len() == old(f).waiting().len());
}

/// Pending signals are flushed after an invocation as the strategy asks, and nothing is
/// where nothing is pending.
pub proof fn law_signals_are_flushed_after_an_invocation(
    s: ExtensionState,
    now: Moment,
    now_ms: u64,
    r: bool,
)
    requires
        call_ensures(ExtensionState::post_invoke_flush_at, (&s, now, now_ms), r),
    ensures
        s.aggregator@.entries() == 0 ==> !r,
        s.aggregator@.entries() > 0 && s.flush_manager@.timeouts < 20
            && s.flush_manager@.config.strategy == FlushStrategy::End ==> r,
        s.aggregator@.entries() > 0 && s.aggregator@.entries()
            >= s.flush_manager@.config.max_batch_entries ==> r,
        s.aggregator@.entries() > 0 && s.flush_manager@.last_flush is None ==> r,
{
    law_what_is_pending_is_flushed_after_an_invocation(
        s.flush_manager@,
        s.aggregator@.entries(),
        now,
        now_ms,
    );
}

/// The end of a shutdown is signalled once.
pub proof fn law_a_shutdown_is_signalled_once(
    s: &mut ExtensionState,
    t: &mut ExtensionState,
    first: bool,
    second: bool,
)
    requires
        call_ensures(ExtensionState::signal_shutdown_complete, (s,), first),
        *old(t) == *final(s),
        call_ensures(ExtensionState::signal_shutdown_complete, (t,), second),
    ensures
        first <==> !old(s).shutdown_signalled,
        !second,
        final(t).aggregator == old(s).aggregator,
        final(t).completion == old(s).completion,
{
}

/// All that is queued is taken at once, and nothing is left.
pub proof fn law_taken_batches_leave_nothing(s: &mut ExtensionState, batches: Vec<BatchedSignal>)
    requires
        call_ensures(ExtensionState::take_batches, (s,), batches),
    ensures
        batches@.len() == old(s).aggregator@.all_batches().len(),
        forall|i: int|
            0 <= i < batches@.len() ==> (#[trigger] batches@[i])@ == old(s).aggregator@.all_batches()[i],
        final(s).aggregator@.entries() == 0,
        final(s).completion == old(s).completion,
{
    aggregator::law_draining_empties(old(s).aggregator@);
    let all = aggregator::batch_views(batches@);
    assert(all.len() == batches@.len());
    assert forall|i: int| 0 <= i < batches@.len() implies (#[trigger] batches@[i])@ == old(s).aggregator@.all_batches()[i] by {
        assert(all[i] == batches@[i]@);
    }
}

} // verus!
