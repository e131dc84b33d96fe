//! Platform event to OTLP signal conversion.
//!
//! Converts Lambda Telemetry API platform events into OpenTelemetry metrics and
//! spans, following semantic conventions.
use crate::model;
use crate::model::{
    kv_string, InstrumentationScope, KeyValue, Metric, MetricGroup, MetricView,
    MetricsData, MetricsView, NumberDataPoint, PointValue, PointView, Resource, ScopeMetrics,
    ScopeSpans, Span, SpanGroup, SpanView, Status, TracesData, TracesView, ValueView,
};
use crate::resource::{SCHEMA_URL, VERSION};
use crate::semconv;
use crate::table::Table;
use crate::telemetry::{ReportRecord, RuntimeDoneRecord, StartRecord, TelemetryEvent};
use crate::text::equal;
use crate::time;
use crate::time::epoch_nanos;
use crate::tracing;
use crate::tracing::XRayTraceHeader;
use vstd::prelude::*;
use vstd::string::*;

verus! {

/// Scope name for instrumentation.
pub const SCOPE_NAME: &'static str = "lambda-otel-extension";

/// The span kind of a server in OTLP.
pub const SPAN_KIND_SERVER: i32 = 2;

/// The status code of OTLP that says nothing.
pub const STATUS_UNSET: i32 = 0;

/// The status code of an error in OTLP.
pub const STATUS_ERROR: i32 = 2;

/// The nanoseconds since the epoch of an RFC 3339 date and time, where the string
/// is one and the number can be held: what chrono makes of it.
pub uninterp spec fn rfc3339_nanos(s: Seq<char>) -> Option<i64>;

/// `DateTime::parse_from_rfc3339` of chrono, and `timestamp_nanos_opt` of what it
/// gives.
#[verifier::external_body]
fn parse_rfc3339_nanos(s: &str) -> (r: Option<i64>)
    ensures
        r == rfc3339_nanos(s@),
{
    chrono::DateTime::parse_from_rfc3339(s).ok()?.timestamp_nanos_opt()
}

/// Whether some call of `rand::random` may draw these bytes.
pub uninterp spec fn may_be_drawn(bytes: Seq<u8>) -> bool;

/// `rand::random`: sixteen random bytes. Which ones they are rests on chance, and is
/// left unsaid.
#[verifier::external_body]
fn random_16() -> (bytes: [u8; 16])
    ensures
        may_be_drawn(bytes@),
{
    rand::random::<[u8; 16]>()
}

/// `rand::random`: eight random bytes. Which ones they are rests on chance, and is
/// left unsaid.
#[verifier::external_body]
fn random_8() -> (bytes: [u8; 8])
    ensures
        may_be_drawn(bytes@),
{
    rand::random::<[u8; 8]>()
}

/// The time of a timestamp; a time before the epoch wraps round.
pub open spec fn timestamp_nanos(s: Seq<char>) -> Option<u64> {
    match rfc3339_nanos(s) {
        Some(n) => Some(n as u64),
        None => None,
    }
}

/// Parses an ISO 8601 timestamp to nanoseconds since Unix epoch.
pub fn parse_iso8601_to_nanos(timestamp: &str) -> (r: Option<u64>)
    ensures
        r == timestamp_nanos(timestamp@),
{
    match parse_rfc3339_nanos(timestamp) {
        Some(n) => Some(n as u64),
        None => None,
    }
}

/// Returns the current time in nanoseconds since Unix epoch.
pub fn current_time_nanos() -> (n: u64)
    ensures
        time::may_be_epoch_nanos(n),
{
    epoch_nanos()
}

/// The time of a timestamp, or the current one where it has none.
fn nanos_or_now(timestamp: &str) -> (n: u64)
    ensures
        is_time_of(timestamp@, n),
{
    match parse_iso8601_to_nanos(timestamp) {
        Some(n) => n,
        None => current_time_nanos(),
    }
}

/// Whether `n` may stand for a timestamp: its own time, or what the wall clock may
/// show where it cannot be read.
pub open spec fn is_time_of(timestamp: Seq<char>, n: u64) -> bool {
    match timestamp_nanos(timestamp) {
        Some(t) => n == t,
        None => time::may_be_epoch_nanos(n),
    }
}

/// Generates a random trace ID per OpenTelemetry specification.
fn generate_trace_id() -> (id: Vec<u8>)
    ensures
        id@.len() == 16,
        may_be_drawn(id@),
{
    let bytes = random_16();
    let mut id: Vec<u8> = Vec::new();
    let mut i: usize = 0;
    while i < 16
        invariant
            i <= 16,
            id@ == bytes@.take(i as int),
        decreases 16 - i,
    {
        id.push(bytes[i]);
        i = i + 1;
        assert(id@ =~= bytes@.take(i as int));
    }
    assert(id@ =~= bytes@);
    id
}

/// Generates a random span ID per OpenTelemetry specification.
fn generate_span_id() -> (id: Vec<u8>)
    ensures
        id@.len() == 8,
        may_be_drawn(id@),
{
    let bytes = random_8();
    let mut id: Vec<u8> = Vec::new();
    let mut i: usize = 0;
    while i < 8
        invariant
            i <= 8,
            id@ == bytes@.take(i as int),
        decreases 8 - i,
    {
        id.push(bytes[i]);
        i = i + 1;
        assert(id@ =~= bytes@.take(i as int));
    }
    assert(id@ =~= bytes@);
    id
}

/// The attribute that names an invocation.
pub open spec fn invocation_attribute(request_id: Seq<char>) -> Seq<(Seq<char>, ValueView)> {
    seq![(semconv::FAAS_INVOCATION_ID@, ValueView::Text(request_id))]
}

/// A gauge with one data point.
pub open spec fn gauge(
    name: Seq<char>,
    description: Seq<char>,
    unit: Seq<char>,
    value: PointValue,
    time: u64,
    attributes: Seq<(Seq<char>, ValueView)>,
) -> MetricView {
    MetricView {
        name,
        description,
        unit,
        points: seq![PointView { attributes, start: time, time, value }],
    }
}

/// The metrics of a report: duration, billed duration and memory used, and the
/// time of a cold start and of a restore where the report tells it.
pub open spec fn report_metrics(record: ReportRecord, time: u64) -> Seq<MetricView> {
    let m = record.metrics;
    let attributes = invocation_attribute(record.request_id@);
    let base = seq![
        gauge(
            "faas.invocation.duration"@,
            "Duration of the function invocation"@,
            "ms"@,
            PointValue::AsDouble(m.duration_ms),
            time,
            attributes,
        ),
        gauge(
            "aws.lambda.billed_duration"@,
            "Billed duration of the invocation"@,
            "ms"@,
            PointValue::AsDoubleOf(m.billed_duration_ms),
            time,
            attributes,
        ),
        gauge(
            "aws.lambda.max_memory_used"@,
            "Maximum memory used during invocation"@,
            "By"@,
            PointValue::AsDoubleOf((m.max_memory_used_mb * 1_048_576) as u64),
            time,
            attributes,
        ),
    ];
    let with_init = match m.init_duration_ms {
        Some(d) => base.push(
            gauge(
                "aws.lambda.init_duration"@,
                "Cold start initialization duration"@,
                "ms"@,
                PointValue::AsDouble(d),
                time,
                attributes,
            ),
        ),
        None => base,
    };
    match m.restore_duration_ms {
        Some(d) => with_init.push(
            gauge(
                "aws.lambda.restore_duration"@,
                "SnapStart restore duration"@,
                "ms"@,
                PointValue::AsDouble(d),
                time,
                attributes,
            ),
        ),
        None => with_init,
    }
}

/// Whether the memory that a report tells of can be told in bytes.
pub open spec fn memory_fits(record: ReportRecord) -> bool {
    record.metrics.max_memory_used_mb * 1_048_576 <= u64::MAX
}

/// Metrics of the extension.
pub open spec fn extension_metrics(
    resource: Seq<(Seq<char>, ValueView)>,
    metrics: Seq<MetricView>,
) -> MetricsView {
    MetricsView {
        resource,
        scope_name: SCOPE_NAME@,
        scope_version: VERSION@,
        schema_url: SCHEMA_URL@,
        metrics,
    }
}

/// The metric of a shutdown.
pub open spec fn shutdown_metric(reason: Seq<char>, time: u64) -> MetricView {
    gauge(
        "extension.shutdown_count"@,
        "Count of extension shutdown events"@,
        "{count}"@,
        PointValue::AsInt(1),
        time,
        seq![("shutdown.reason"@, ValueView::Text(reason))],
    )
}

/// Converts platform events to OTLP metrics.
#[derive(Debug)]
pub struct MetricsConverter {
    /// The resource of the metrics.
    pub resource: Resource,
}

/// A list with one attribute.
fn one_attribute(key: &str, value: &str) -> (v: Vec<KeyValue>)
    ensures
        model::attributes_view(v@) == seq![(key@, ValueView::Text(value@))],
{
    let v = vec![kv_string(key, value)];
    assert(model::attributes_view(v@) =~= seq![(key@, ValueView::Text(value@))]);
    v
}

impl MetricsConverter {
    /// Creates a new metrics converter with the given resource attributes.
    pub fn new(resource: Resource) -> (c: Self)
        ensures
            c.resource == resource,
    {
        MetricsConverter { resource }
    }

    /// Creates a converter with default resource attributes.
    pub fn with_defaults() -> (c: Self)
        ensures
            c.resource@ == Seq::<(Seq<char>, ValueView)>::empty(),
    {
        MetricsConverter::new(Resource::default())
    }

    /// Sets the resource for this converter.
    pub fn set_resource(&mut self, resource: Resource)
        ensures
            final(self).resource == resource,
    {
        self.resource = resource;
    }

    /// Converts a report event to OTLP metrics.
    ///
    /// Where the timestamp cannot be read, the current time stands for it.
    pub fn convert_report(&self, record: &ReportRecord, time: &str) -> (r: MetricsData)
        requires
            memory_fits(*record),
        ensures
            exists|n: u64| #[trigger]
                is_time_of(time@, n) && r.holds(
                    extension_metrics(self.resource@, report_metrics(*record, n)),
                ),
    {
        let n: u64 = nanos_or_now(time);
        let r = self.convert_report_at(record, n);
        assert(is_time_of(time@, n));
        r
    }

    /// Converts a report event of the given time, in nanoseconds since the epoch,
    /// to OTLP metrics.
    pub fn convert_report_at(&self, record: &ReportRecord, timestamp_nanos: u64) -> (r: MetricsData)
        requires
            memory_fits(*record),
        ensures
            r.holds(
                extension_metrics(self.resource@, report_metrics(*record, timestamp_nanos)),
            ),
    {
        let id = record.request_id.as_str();
        let m = record.metrics;
        let mut metrics: Vec<Metric> = Vec::new();
        metrics.push(
            self.create_gauge_metric(
                "faas.invocation.duration",
                "Duration of the function invocation",
                "ms",
                PointValue::AsDouble(m.duration_ms),
                timestamp_nanos,
                one_attribute(semconv::FAAS_INVOCATION_ID, id),
            ),
        );
        metrics.push(
            self.create_gauge_metric(
                "aws.lambda.billed_duration",
                "Billed duration of the invocation",
                "ms",
                PointValue::AsDoubleOf(m.billed_duration_ms),
                timestamp_nanos,
                one_attribute(semconv::FAAS_INVOCATION_ID, id),
            ),
        );
        metrics.push(
            self.create_gauge_metric(
                "aws.lambda.max_memory_used",
                "Maximum memory used during invocation",
                "By",
                PointValue::AsDoubleOf(m.max_memory_used_mb * 1_048_576),
                timestamp_nanos,
                one_attribute(semconv::FAAS_INVOCATION_ID, id),
            ),
        );
        if let Some(init_duration) = m.init_duration_ms {
            metrics.push(
                self.create_gauge_metric(
                    "aws.lambda.init_duration",
                    "Cold start initialization duration",
                    "ms",
                    PointValue::AsDouble(init_duration),
                    timestamp_nanos,
                    one_attribute(semconv::FAAS_INVOCATION_ID, id),
                ),
            );
        }
        if let Some(restore_duration) = m.restore_duration_ms {
            metrics.push(
                self.create_gauge_metric(
                    "aws.lambda.restore_duration",
                    "SnapStart restore duration",
                    "ms",
                    PointValue::AsDouble(restore_duration),
                    timestamp_nanos,
                    one_attribute(semconv::FAAS_INVOCATION_ID, id),
                ),
            );
        }
        proof {
            assert(metrics@.map_values(|m: Metric| m@) =~= report_metrics(
                *record,
                timestamp_nanos,
            ));
        }
        self.wrap(metrics)
    }

    /// Creates a shutdown count metric.
    ///
    /// The metric is emitted when the extension receives a SHUTDOWN event; the
    /// resource tells which function is shutting down.
    pub fn create_shutdown_metric(&self, shutdown_reason: &str) -> (r: MetricsData)
        ensures
            exists|n: u64|
                time::may_be_epoch_nanos(n) && r.holds(
                    extension_metrics(
                        self.resource@,
                        seq![#[trigger] shutdown_metric(shutdown_reason@, n)],
                    ),
                ),
    {
        let n: u64 = current_time_nanos();
        self.create_shutdown_metric_at(shutdown_reason, n)
    }

    /// Creates a shutdown count metric at the given time, in nanoseconds since the
    /// epoch.
    pub fn create_shutdown_metric_at(&self, shutdown_reason: &str, timestamp_nanos: u64) -> (r:
        MetricsData)
        ensures
            r.holds(
                extension_metrics(
                    self.resource@,
                    seq![shutdown_metric(shutdown_reason@, timestamp_nanos)],
                ),
            ),
    {
        let metric = self.create_gauge_metric(
            "extension.shutdown_count",
            "Count of extension shutdown events",
            "{count}",
            PointValue::AsInt(1),
            timestamp_nanos,
            one_attribute("shutdown.reason", shutdown_reason),
        );
        let metrics = vec![metric];
        proof {
            assert(metrics@.map_values(|m: Metric| m@) =~= seq![
                shutdown_metric(shutdown_reason@, timestamp_nanos),
            ]);
        }
        self.wrap(metrics)
    }

    /// Makes a request of metrics.
    fn wrap(&self, metrics: Vec<Metric>) -> (r: MetricsData)
        ensures
            r.holds(
                extension_metrics(self.resource@, metrics@.map_values(|m: Metric| m@)),
            ),
    {
        MetricsData {
            resource_metrics: vec![
                MetricGroup {
                    resource: Some(self.resource.copy()),
                    scope_metrics: vec![
                        ScopeMetrics {
                            scope: InstrumentationScope {
                                name: SCOPE_NAME.to_owned(),
                                version: VERSION.to_owned(),
                            },
                            metrics,
                            schema_url: SCHEMA_URL.to_owned(),
                        },
                    ],
                    schema_url: SCHEMA_URL.to_owned(),
                },
            ],
        }
    }

    /// Makes a gauge with one data point.
    fn create_gauge_metric(
        &self,
        name: &str,
        description: &str,
        unit: &str,
        value: PointValue,
        timestamp_nanos: u64,
        attributes: Vec<KeyValue>,
    ) -> (m: Metric)
        ensures
            m@ == gauge(
                name@,
                description@,
                unit@,
                value,
                timestamp_nanos,
                model::attributes_view(attributes@),
            ),
    {
        let m = Metric {
            name: name.to_owned(),
            description: description.to_owned(),
            unit: unit.to_owned(),
            data_points: vec![
                NumberDataPoint {
                    attributes,
                    start_time_unix_nano: timestamp_nanos,
                    time_unix_nano: timestamp_nanos,
                    value,
                },
            ],
        };
        assert(m@.points =~= seq![
            PointView {
                attributes: model::attributes_view(attributes@),
                start: timestamp_nanos,
                time: timestamp_nanos,
                value,
            },
        ]);
        m
    }
}

/// The trace ID and the parent span ID that a start record tells in its X-Ray
/// header.
pub open spec fn trace_context(start: StartRecord) -> (Option<Seq<u8>>, Option<Seq<u8>>) {
    match start.tracing {
        Some(t) => match t.value {
            Some(v) => match tracing::parse_header(v@) {
                Some(h) => match tracing::w3c_context(h) {
                    Some(w) => (
                        tracing::id_bytes(w.trace_id, 16),
                        tracing::id_bytes(w.span_id, 8),
                    ),
                    None => (None, None),
                },
                None => (None, None),
            },
            None => (None, None),
        },
        None => (None, None),
    }
}

/// Optional bytes, as the contracts see them.
pub open spec fn opt_bytes(v: Option<Vec<u8>>) -> Option<Seq<u8>> {
    match v {
        Some(b) => Some(b@),
        None => None,
    }
}

/// Extracts trace context from a start record's tracing info.
pub fn extract_trace_context(start: &StartRecord) -> (r: (Option<Vec<u8>>, Option<Vec<u8>>))
    ensures
        (opt_bytes(r.0), opt_bytes(r.1)) == trace_context(*start),
{
    let value = match &start.tracing {
        Some(t) => match &t.value {
            Some(v) => v,
            None => {
                return (None, None);
            },
        },
        None => {
            return (None, None);
        },
    };
    let xray = match XRayTraceHeader::parse(value.as_str()) {
        Some(x) => x,
        None => {
            return (None, None);
        },
    };
    let w3c = match xray.to_w3c() {
        Some(w) => w,
        None => {
            return (None, None);
        },
    };
    let trace_id = match w3c.trace_id_bytes() {
        Some(b) => {
            let mut v: Vec<u8> = Vec::new();
            let mut i: usize = 0;
            while i < 16
                invariant
                    i <= 16,
                    v@ == b@.take(i as int),
                decreases 16 - i,
            {
                v.push(b[i]);
                i = i + 1;
                assert(v@ =~= b@.take(i as int));
            }
            assert(v@ =~= b@);
            Some(v)
        },
        None => None,
    };
    let span_id = match w3c.span_id_bytes() {
        Some(b) => {
            let mut v: Vec<u8> = Vec::new();
            let mut i: usize = 0;
            while i < 8
                invariant
                    i <= 8,
                    v@ == b@.take(i as int),
                decreases 8 - i,
            {
                v.push(b[i]);
                i = i + 1;
                assert(v@ =~= b@.take(i as int));
            }
            assert(v@ =~= b@);
            Some(v)
        },
        None => None,
    };
    (trace_id, span_id)
}

/// The span of an invocation that ended with the given status. Any status but
/// "success" is an error.
pub open spec fn invocation_span(
    request_id: Seq<char>,
    status: Seq<char>,
    start: u64,
    end: u64,
    trace_id: Seq<u8>,
    span_id: Seq<u8>,
    parent_span_id: Seq<u8>,
) -> SpanView {
    SpanView {
        trace_id,
        span_id,
        parent_span_id,
        name: "lambda.invoke"@,
        kind: SPAN_KIND_SERVER,
        start,
        end,
        attributes: seq![
            (semconv::FAAS_INVOCATION_ID@, ValueView::Text(request_id)),
            ("faas.invocation.status"@, ValueView::Text(status)),
        ],
        status: Some(
            if status == "success"@ {
                (STATUS_UNSET, Seq::empty())
            } else {
                (STATUS_ERROR, "Lambda invocation "@ + status)
            },
        ),
    }
}

/// Spans of the extension.
pub open spec fn extension_spans(
    resource: Seq<(Seq<char>, ValueView)>,
    spans: Seq<SpanView>,
) -> TracesView {
    TracesView {
        resource,
        scope_name: SCOPE_NAME@,
        scope_version: VERSION@,
        schema_url: SCHEMA_URL@,
        spans,
    }
}

/// Whether the IDs may be those of an invocation's span: the trace is the one
/// that the start record tells, or drawn where it tells none, and the span's own ID
/// is drawn.
pub open spec fn are_ids_of(start: StartRecord, trace_id: Seq<u8>, span_id: Seq<u8>) -> bool {
    &&& match trace_context(start).0 {
        Some(id) => trace_id == id,
        None => may_be_drawn(trace_id),
    }
    &&& may_be_drawn(span_id)
    &&& trace_id.len() == 16
    &&& span_id.len() == 8
}

/// The span ID that an invocation's span is part of; none where the start record
/// tells of none.
pub open spec fn parent_of(start: StartRecord) -> Seq<u8> {
    match trace_context(start).1 {
        Some(id) => id,
        None => Seq::empty(),
    }
}

/// Whether these are the spans of an invocation, for some IDs and times that may
/// be its own.
pub open spec fn is_invocation_trace(
    r: TracesData,
    resource: Seq<(Seq<char>, ValueView)>,
    start: StartRecord,
    start_time: Seq<char>,
    done: RuntimeDoneRecord,
    done_time: Seq<char>,
) -> bool {
    exists|begin: u64, end: u64, trace_id: Seq<u8>, span_id: Seq<u8>|
        {
            &&& is_time_of(start_time, begin)
            &&& is_time_of(done_time, end)
            &&& are_ids_of(start, trace_id, span_id)
            &&& r.holds(
                extension_spans(
                    resource,
                    seq![
                        #[trigger] invocation_span(
                            start.request_id@,
                            done.status@,
                            begin,
                            end,
                            trace_id,
                            span_id,
                            parent_of(start),
                        ),
                    ],
                ),
            )
        }
}

/// Converts platform events to OTLP spans.
#[derive(Debug)]
pub struct SpanConverter {
    /// The resource of the spans.
    pub resource: Resource,
}

impl SpanConverter {
    /// Creates a new span converter with the given resource attributes.
    pub fn new(resource: Resource) -> (c: Self)
        ensures
            c.resource == resource,
    {
        SpanConverter { resource }
    }

    /// Creates a converter with default resource attributes.
    pub fn with_defaults() -> (c: Self)
        ensures
            c.resource@ == Seq::<(Seq<char>, ValueView)>::empty(),
    {
        SpanConverter::new(Resource::default())
    }

    /// Sets the resource for this converter.
    pub fn set_resource(&mut self, resource: Resource)
        ensures
            final(self).resource == resource,
    {
        self.resource = resource;
    }

    /// Creates an invocation span from start and runtime_done events.
    ///
    /// Where a timestamp cannot be read, the current time stands for it; where the
    /// start record tells of no trace, a new one begins.
    pub fn create_invocation_span(
        &self,
        start: &StartRecord,
        start_time: &str,
        runtime_done: &RuntimeDoneRecord,
        done_time: &str,
    ) -> (r: TracesData)
        ensures
            is_invocation_trace(
                r,
                self.resource@,
                *start,
                start_time@,
                *runtime_done,
                done_time@,
            ),
    {
        let start_nanos: u64 = nanos_or_now(start_time);
        let end_nanos: u64 = nanos_or_now(done_time);
        let (trace_id, parent_span_id) = extract_trace_context(start);
        let trace_id = match trace_id {
            Some(id) => id,
            None => generate_trace_id(),
        };
        let parent_span_id = match parent_span_id {
            Some(id) => id,
            None => Vec::new(),
        };
        let span_id = generate_span_id();
        proof {
            assert(parent_span_id@ =~= parent_of(*start));
            assert(are_ids_of(*start, trace_id@, span_id@));
        }
        let r = self.create_invocation_span_at(
            start,
            runtime_done,
            start_nanos,
            end_nanos,
            trace_id,
            span_id,
            parent_span_id,
        );
        proof {
            assert(r.holds(
                extension_spans(
                    self.resource@,
                    seq![
                        invocation_span(
                            start.request_id@,
                            runtime_done.status@,
                            start_nanos,
                            end_nanos,
                            trace_id@,
                            span_id@,
                            parent_of(*start),
                        ),
                    ],
                ),
            ));
        }
        r
    }

    /// Creates an invocation span with the given times and IDs.
    pub fn create_invocation_span_at(
        &self,
        start: &StartRecord,
        runtime_done: &RuntimeDoneRecord,
        start_nanos: u64,
        end_nanos: u64,
        trace_id: Vec<u8>,
        span_id: Vec<u8>,
        parent_span_id: Vec<u8>,
    ) -> (r: TracesData)
        ensures
            r.holds(
                extension_spans(
                    self.resource@,
                    seq![
                        invocation_span(
                            start.request_id@,
                            runtime_done.status@,
                            start_nanos,
                            end_nanos,
                            trace_id@,
                            span_id@,
                            parent_span_id@,
                        ),
                    ],
                ),
            ),
    {
        let status = runtime_done.status.as_str();
        let status_record = if equal(status, "success") {
            Status { code: STATUS_UNSET, message: String::new() }
        } else {
            let mut message = "Lambda invocation ".to_owned();
            message.append(status);
            Status { code: STATUS_ERROR, message }
        };
        let attributes = vec![
            kv_string(semconv::FAAS_INVOCATION_ID, start.request_id.as_str()),
            kv_string("faas.invocation.status", status),
        ];
        let span = Span {
            trace_id,
            span_id,
            parent_span_id,
            name: "lambda.invoke".to_owned(),
            kind: SPAN_KIND_SERVER,
            start_time_unix_nano: start_nanos,
            end_time_unix_nano: end_nanos,
            attributes,
            status: Some(status_record),
        };
        let ghost view = invocation_span(
            start.request_id@,
            status@,
            start_nanos,
            end_nanos,
            trace_id@,
            span_id@,
            parent_span_id@,
        );
        proof {
            assert(span@.attributes =~= view.attributes);
            assert(span@.status == view.status);
            assert(span@ == view);
        }
        let spans = vec![span];
        proof {
            assert(spans@.map_values(|s: Span| s@) =~= seq![view]);
        }
        TracesData {
            resource_spans: vec![
                SpanGroup {
                    resource: Some(self.resource.copy()),
                    scope_spans: vec![
                        ScopeSpans {
                            scope: InstrumentationScope {
                                name: SCOPE_NAME.to_owned(),
                                version: VERSION.to_owned(),
                            },
                            spans,
                            schema_url: SCHEMA_URL.to_owned(),
                        },
                    ],
                    schema_url: SCHEMA_URL.to_owned(),
                },
            ],
        }
    }
}

/// The start records that wait for the end of their invocation, by request ID,
/// each with the time of its event.
pub type Pending = Map<Seq<char>, (StartRecord, String)>;

/// A start record, the record of the same invocation's end, and the times of the
/// two events.
pub struct Invocation {
    /// The start record.
    pub start: StartRecord,
    /// The time of its event.
    pub start_time: String,
    /// The record of the end.
    pub done: RuntimeDoneRecord,
    /// The time of its event.
    pub done_time: String,
}

/// The start records that wait after the events.
pub open spec fn pending_after(pending: Pending, events: Seq<TelemetryEvent>) -> Pending
    decreases events.len(),
{
    if events.len() == 0 {
        pending
    } else {
        let before = pending_after(pending, events.drop_last());
        match events.last() {
            TelemetryEvent::Start { time, record } => before.insert(
                record.request_id@,
                (record, time),
            ),
            TelemetryEvent::RuntimeDone { time, record } => before.remove(record.request_id@),
            _ => before,
        }
    }
}

/// The invocations that the events bring to an end: those whose start is known.
pub open spec fn invocations(pending: Pending, events: Seq<TelemetryEvent>) -> Seq<Invocation>
    decreases events.len(),
{
    if events.len() == 0 {
        Seq::empty()
    } else {
        let before = invocations(pending, events.drop_last());
        let known = pending_after(pending, events.drop_last());
        match events.last() {
            TelemetryEvent::RuntimeDone { time, record } => if known.dom().contains(
                record.request_id@,
            ) {
                before.push(
                    Invocation {
                        start: known[record.request_id@].0,
                        start_time: known[record.request_id@].1,
                        done: record,
                        done_time: time,
                    },
                )
            } else {
                before
            },
            _ => before,
        }
    }
}

/// The reports among the events, each with its time.
pub open spec fn reports(events: Seq<TelemetryEvent>) -> Seq<(ReportRecord, String)>
    decreases events.len(),
{
    if events.len() == 0 {
        Seq::empty()
    } else {
        let before = reports(events.drop_last());
        match events.last() {
            TelemetryEvent::Report { time, record } => before.push((record, time)),
            _ => before,
        }
    }
}

/// Whether the memory of every report can be told in bytes.
pub open spec fn all_memory_fits(events: Seq<TelemetryEvent>) -> bool {
    forall|i: int|
        0 <= i < events.len() ==> match #[trigger] events[i] {
            TelemetryEvent::Report { time, record } => memory_fits(record),
            _ => true,
        }
}

/// Whether these are the metrics of the reports, one request for each, in order.
pub open spec fn are_metrics_of(
    metrics: Seq<MetricsData>,
    resource: Seq<(Seq<char>, ValueView)>,
    reports: Seq<(ReportRecord, String)>,
) -> bool {
    &&& metrics.len() == reports.len()
    &&& forall|i: int| 0 <= i < metrics.len() ==> is_report_request(
        #[trigger] metrics[i],
        resource,
        reports[i].0,
        reports[i].1@,
    )
}

/// Whether this is the request of a report, for a time that may be its own.
pub open spec fn is_report_request(
    r: MetricsData,
    resource: Seq<(Seq<char>, ValueView)>,
    record: ReportRecord,
    time: Seq<char>,
) -> bool {
    exists|n: u64| #[trigger]
        is_time_of(time, n) && r.holds(extension_metrics(resource, report_metrics(record, n)))
}

/// Whether these are the spans of the invocations, one request for each, in order.
pub open spec fn are_traces_of(
    traces: Seq<TracesData>,
    resource: Seq<(Seq<char>, ValueView)>,
    invocations: Seq<Invocation>,
) -> bool {
    &&& traces.len() == invocations.len()
    &&& forall|i: int| 0 <= i < traces.len() ==> is_invocation_trace(
        #[trigger] traces[i],
        resource,
        invocations[i].start,
        invocations[i].start_time@,
        invocations[i].done,
        invocations[i].done_time@,
    )
}

/// Batch processor for telemetry events.
///
/// Collects related events (start + runtimeDone + report) and converts them to
/// OTLP signals when complete.
#[derive(Debug)]
pub struct TelemetryProcessor {
    metrics_converter: MetricsConverter,
    span_converter: SpanConverter,
    pending_starts: Table<(StartRecord, String)>,
}

impl TelemetryProcessor {
    /// No start record waits twice, and both converters have one resource.
    pub closed spec fn wf(&self) -> bool {
        &&& self.pending_starts.wf()
        &&& self.metrics_converter.resource@ == self.span_converter.resource@
    }

    /// The resource of the signals.
    pub closed spec fn resource(&self) -> Seq<(Seq<char>, ValueView)> {
        self.metrics_converter.resource@
    }

    /// The start records that wait.
    pub closed spec fn pending(&self) -> Pending {
        self.pending_starts@
    }

    /// Creates a new telemetry processor.
    pub fn new(resource: Resource) -> (p: Self)
        ensures
            p.wf(),
            p.resource() == resource@,
            p.pending() == Map::<Seq<char>, (StartRecord, String)>::empty(),
    {
        TelemetryProcessor {
            metrics_converter: MetricsConverter::new(resource.copy()),
            span_converter: SpanConverter::new(resource),
            pending_starts: Table::new(),
        }
    }

    /// Creates a processor with default resource.
    pub fn with_defaults() -> (p: Self)
        ensures
            p.wf(),
            p.resource() == Seq::<(Seq<char>, ValueView)>::empty(),
            p.pending() == Map::<Seq<char>, (StartRecord, String)>::empty(),
    {
        TelemetryProcessor::new(Resource::default())
    }

    /// Sets the resource for this processor.
    pub fn set_resource(&mut self, resource: Resource)
        requires
            old(self).wf(),
        ensures
            final(self).wf(),
            final(self).resource() == resource@,
            final(self).pending() == old(self).pending(),
    {
        self.metrics_converter.set_resource(resource.copy());
        self.span_converter.set_resource(resource);
    }

    /// Processes a batch of telemetry events.
    ///
    /// Returns generated OTLP signals (metrics and traces).
    pub fn process_events(&mut self, events: Vec<TelemetryEvent>) -> (r: (
        Vec<MetricsData>,
        Vec<TracesData>,
    ))
        requires
            old(self).wf(),
            all_memory_fits(events@),
        ensures
            final(self).wf(),
            final(self).resource() == old(self).resource(),
            final(self).pending() == pending_after(old(self).pending(), events@),
            are_metrics_of(r.0@, old(self).resource(), reports(events@)),
            are_traces_of(r.1@, old(self).resource(), invocations(old(self).pending(), events@)),
    {
        let mut metrics: Vec<MetricsData> = Vec::new();
        let mut traces: Vec<TracesData> = Vec::new();
        let ghost all = events@;
        let ghost first = self.pending();
        assert(all.take(0) =~= Seq::<TelemetryEvent>::empty());
        for event in it: events
            invariant
                it.seq() == all,
                all_memory_fits(all),
                self.wf(),
                self.resource() == old(self).resource(),
                self.pending() == pending_after(first, all.take(it.index() as int)),
                are_metrics_of(metrics@, self.resource(), reports(all.take(it.index() as int))),
                are_traces_of(
                    traces@,
                    self.resource(),
                    invocations(first, all.take(it.index() as int)),
                ),
        {
            let ghost i = it.index() as int;
            proof {
                assert(all.take(i + 1).drop_last() =~= all.take(i));
                assert(all.take(i + 1).last() == event);
                assert(all[i] == event);
            }
            let ghost metrics_before = metrics@;
            let ghost traces_before = traces@;
            match event {
                TelemetryEvent::Start { time, record } => {
                    self.pending_starts.insert(record.request_id.clone(), (record, time));
                },
                TelemetryEvent::RuntimeDone { time, record } => {
                    if let Some((start_record, start_time)) = self.pending_starts.remove(
                        record.request_id.as_str(),
                    ) {
                        let trace = self.span_converter.create_invocation_span(
                            &start_record,
                            start_time.as_str(),
                            &record,
                            time.as_str(),
                        );
                        traces.push(trace);
                        proof {
                            let inv = invocations(first, all.take(i + 1));
                            assert forall|k: int| 0 <= k < traces@.len() implies
                                is_invocation_trace(
                                #[trigger] traces@[k],
                                self.resource(),
                                inv[k].start,
                                inv[k].start_time@,
                                inv[k].done,
                                inv[k].done_time@,
                            ) by {
                                if k < traces_before.len() {
                                    assert(traces@[k] == traces_before[k]);
                                }
                            }
                        }
                    }
                },
                TelemetryEvent::Report { time, record } => {
                    assert(memory_fits(record));
                    let metric = self.metrics_converter.convert_report(&record, time.as_str());
                    metrics.push(metric);
                    proof {
                        let rep = reports(all.take(i + 1));
                        assert forall|k: int| 0 <= k < metrics@.len() implies is_report_request(
                            #[trigger] metrics@[k],
                            self.resource(),
                            rep[k].0,
                            rep[k].1@,
                        ) by {
                            if k < metrics_before.len() {
                                assert(metrics@[k] == metrics_before[k]);
                            }
                        }
                    }
                },
                _ => {},
            }
        }
        assert(all.take(all.len() as int) =~= all);
        (metrics, traces)
    }

    /// Clears any pending start events.
    pub fn clear_pending(&mut self)
        requires
            old(self).wf(),
        ensures
            final(self).wf(),
            final(self).resource() == old(self).resource(),
            final(self).pending() == Map::<Seq<char>, (StartRecord, String)>::empty(),
    {
        self.pending_starts.clear();
    }

    /// Returns the number of pending start events.
    pub fn pending_count(&self) -> (n: usize)
        requires
            self.wf(),
        ensures
            n == self.pending().dom().len(),
    {
        self.pending_starts.len()
    }
}

/// An invocation ends once: its start record leaves when it does, so that a second
/// end gives no second span.
pub proof fn law_an_invocation_ends_once(
    pending: Pending,
    events: Seq<TelemetryEvent>,
    end: TelemetryEvent,
    again: TelemetryEvent,
)
    requires
        end is RuntimeDone,
        again is RuntimeDone,
        end->RuntimeDone_record.request_id@ == again->RuntimeDone_record.request_id@,
    ensures
        invocations(pending, events.push(end).push(again)) == invocations(
            pending,
            events.push(end),
        ),
        !pending_after(pending, events.push(end)).dom().contains(
            end->RuntimeDone_record.request_id@,
        ),
{
    assert(events.push(end).push(again).drop_last() =~= events.push(end));
    assert(events.push(end).drop_last() =~= events);
}

/// The end of an invocation whose start was never seen gives no span.
pub proof fn law_unknown_end_gives_no_span(
    pending: Pending,
    events: Seq<TelemetryEvent>,
    end: TelemetryEvent,
)
    requires
        end is RuntimeDone,
        !pending_after(pending, events).dom().contains(end->RuntimeDone_record.request_id@),
    ensures
        invocations(pending, events.push(end)) == invocations(pending, events),
{
    assert(events.push(end).drop_last() =~= events);
}

/// Batches do not matter: what the events give does not depend on how they are
/// divided into calls.
pub proof fn law_batches_of_events_do_not_matter(
    pending: Pending,
    first: Seq<TelemetryEvent>,
    second: Seq<TelemetryEvent>,
)
    ensures
        pending_after(pending_after(pending, first), second) == pending_after(
            pending,
            first + second,
        ),
        invocations(pending, first + second) == invocations(pending, first) + invocations(
            pending_after(pending, first),
            second,
        ),
        reports(first + second) == reports(first) + reports(second),
    decreases second.len(),
{
    if second.len() == 0 {
        assert(first + second =~= first);
        assert(invocations(pending, first) + Seq::<Invocation>::empty() =~= invocations(
            pending,
            first,
        ));
        assert(reports(first) + Seq::<(ReportRecord, String)>::empty() =~= reports(first));
    } else {
        let front = second.drop_last();
        law_batches_of_events_do_not_matter(pending, first, front);
        assert((first + second).drop_last() =~= first + front);
        assert((first + second).last() == second.last());
        let all = first + second;
        assert(invocations(pending, all) =~= invocations(pending, first) + invocations(
            pending_after(pending, first),
            second,
        ));
        assert(reports(all) =~= reports(first) + reports(second));
    }
}

/// The span of an invocation says whether it failed: any status but "success" is
/// an error, with a message that tells it.
pub proof fn law_status_tells_failure(
    request_id: Seq<char>,
    status: Seq<char>,
    start: u64,
    end: u64,
    trace_id: Seq<u8>,
    span_id: Seq<u8>,
    parent: Seq<u8>,
)
    ensures
        ({
            let s = invocation_span(request_id, status, start, end, trace_id, span_id, parent);
            let (code, message) = s.status->0;
            &&& s.kind == SPAN_KIND_SERVER
            &&& code == STATUS_ERROR <==> status != "success"@
            &&& code == STATUS_UNSET <==> status == "success"@
        }),
{
}

/// Only a cold start has an init duration, and it is told as the report tells it.
pub proof fn law_init_duration_means_cold_start(record: ReportRecord, time: u64)
    ensures
        record.metrics.init_duration_ms is None && record.metrics.restore_duration_ms is None
            ==> report_metrics(record, time).len() == 3,
        record.metrics.init_duration_ms is Some ==> report_metrics(record, time).len() >= 4
            && report_metrics(record, time)[3].name == "aws.lambda.init_duration"@
            && report_metrics(record, time)[3].points[0].value == PointValue::AsDouble(
            record.metrics.init_duration_ms->0,
        ),
{
}

/// The trace that a valid X-Ray header names is kept: the span belongs to it, under
/// the parent that the header names.
pub proof fn law_xray_header_names_the_trace(start: StartRecord)
    requires
        start.tracing is Some,
        start.tracing->0.value is Some,
        tracing::parse_header(start.tracing->0.value->0@) is Some,
        tracing::w3c_context(tracing::parse_header(start.tracing->0.value->0@)->0) is Some,
    ensures
        trace_context(start).0 is Some,
        trace_context(start).0->0.len() == 16,
        trace_context(start).1 is Some,
        parent_of(start).len() == 8,
{
    tracing::law_w3c_ids_are_valid(tracing::parse_header(start.tracing->0.value->0@)->0);
}

/// Whether an event begins or ends the invocation with the given request ID.
pub open spec fn concerns(event: TelemetryEvent, id: Seq<char>) -> bool {
    match event {
        TelemetryEvent::Start { time, record } => record.request_id@ == id,
        TelemetryEvent::RuntimeDone { time, record } => record.request_id@ == id,
        _ => false,
    }
}

/// What does not concern an invocation leaves its start record as it is.
proof fn lemma_pending_is_left(pending: Pending, events: Seq<TelemetryEvent>, id: Seq<char>)
    requires
        forall|i: int| 0 <= i < events.len() ==> !concerns(#[trigger] events[i], id),
    ensures
        pending_after(pending, events).dom().contains(id) == pending.dom().contains(id),
        pending.dom().contains(id) ==> pending_after(pending, events)[id] == pending[id],
    decreases events.len(),
{
    if events.len() > 0 {
        let front = events.drop_last();
        assert forall|i: int| 0 <= i < front.len() implies !concerns(#[trigger] front[i], id) by {
            assert(front[i] == events[i]);
        }
        lemma_pending_is_left(pending, front, id);
        assert(!concerns(events[events.len() - 1], id));
    }
}

/// The end of an invocation meets its own start: the span has the start record and the
/// time of the start event, and the record and the time of the event that ends it,
/// whatever happens to other invocations in between.
pub proof fn law_an_invocation_runs_from_its_start_to_its_end(
    pending: Pending,
    earlier: Seq<TelemetryEvent>,
    start: TelemetryEvent,
    between: Seq<TelemetryEvent>,
    end: TelemetryEvent,
)
    requires
        start is Start,
        end is RuntimeDone,
        start->Start_record.request_id@ == end->RuntimeDone_record.request_id@,
        forall|i: int|
            0 <= i < between.len() ==> !concerns(
                #[trigger] between[i],
                start->Start_record.request_id@,
            ),
    ensures
        ({
            let before = earlier.push(start) + between;
            let all = invocations(pending, before.push(end));
            &&& all.len() == invocations(pending, before).len() + 1
            &&& all.drop_last() == invocations(pending, before)
            &&& all.last().start == start->Start_record
            &&& all.last().start_time == start->Start_time
            &&& all.last().done == end->RuntimeDone_record
            &&& all.last().done_time == end->RuntimeDone_time
        }),
{
    let id = start->Start_record.request_id@;
    let begun = earlier.push(start);
    let before = begun + between;
    assert(begun.drop_last() =~= earlier);
    lemma_pending_is_left(pending_after(pending, begun), between, id);
    law_batches_of_events_do_not_matter(pending, begun, between);
    assert(before.push(end).drop_last() =~= before);
    let all = invocations(pending, before.push(end));
    assert(all.drop_last() =~= invocations(pending, before));
}

/// Only the end of an invocation gives a span, and only a report gives metrics.
pub proof fn law_other_events_give_nothing(
    pending: Pending,
    events: Seq<TelemetryEvent>,
    event: TelemetryEvent,
)
    ensures
        !(event is RuntimeDone) ==> invocations(pending, events.push(event)) == invocations(
            pending,
            events,
        ),
        !(event is Report) ==> reports(events.push(event)) == reports(events),
        event is Report ==> reports(events.push(event)) == reports(events).push(
            (event->Report_record, event->Report_time),
        ),
        !(event is Start) && !(event is RuntimeDone) ==> pending_after(pending, events.push(event))
            == pending_after(pending, events),
        event is Start ==> pending_after(pending, events.push(event)) == pending_after(
            pending,
            events,
        ).insert(event->Start_record.request_id@, (event->Start_record, event->Start_time)),
        invocations(pending, Seq::empty()).len() == 0,
        reports(Seq::empty()).len() == 0,
        pending_after(pending, Seq::empty()) == pending,
{
    assert(events.push(event).drop_last() =~= events);
}

/// Every report is converted, and nothing else: there are as many metrics as reports.
pub proof fn law_every_report_is_converted(events: Seq<TelemetryEvent>)
    ensures
        reports(events).len() == events.filter(|e: TelemetryEvent| e is Report).len(),
        forall|i: int|
            0 <= i < events.len() && (#[trigger] events[i]) is Report ==> reports(events).contains(
                (events[i]->Report_record, events[i]->Report_time),
            ),
    decreases events.len(),
{
    reveal(Seq::filter);
    if events.len() > 0 {
        let front = events.drop_last();
        law_every_report_is_converted(front);
        assert forall|i: int| 0 <= i < events.len() && (
        #[trigger] events[i]) is Report implies reports(events).contains(
            (events[i]->Report_record, events[i]->Report_time),
        ) by {
            if i < front.len() {
                let pair = (events[i]->Report_record, events[i]->Report_time);
                assert(front[i] == events[i]);
                let k = choose|k: int| 0 <= k < reports(front).len() && reports(front)[k] == pair;
                assert(reports(events)[k] == pair);
            } else {
                assert(reports(events)[reports(events).len() - 1] == (
                    events[i]->Report_record,
                    events[i]->Report_time,
                ));
            }
        }
    }
}

/// A span tells of its invocation: it runs from the time of the start event to that of
/// the event that ended it, names the request and the status, is an error unless the
/// status is "success", and belongs to the trace that the start record names.
pub proof fn law_a_span_tells_its_invocation(
    r: TracesData,
    resource: Seq<(Seq<char>, ValueView)>,
    start: StartRecord,
    start_time: Seq<char>,
    done: RuntimeDoneRecord,
    done_time: Seq<char>,
)
    requires
        is_invocation_trace(r, resource, start, start_time, done, done_time),
    ensures
        r.resource_spans@.len() == 1,
        r.resource_spans@[0].resource is Some,
        r.resource_spans@[0].resource->0@ == resource,
        r.resource_spans@[0].scope_spans@.len() == 1,
        r.resource_spans@[0].scope_spans@[0].scope.name@ == "lambda-otel-extension"@,
        r.resource_spans@[0].scope_spans@[0].spans@.len() == 1,
        ({
            let span = r.resource_spans@[0].scope_spans@[0].spans@[0];
            &&& span.name@ == "lambda.invoke"@
            &&& span.kind == 2
            &&& rfc3339_nanos(start_time) is Some ==> span.start_time_unix_nano == rfc3339_nanos(
                start_time,
            )->0 as u64
            &&& rfc3339_nanos(done_time) is Some ==> span.end_time_unix_nano == rfc3339_nanos(
                done_time,
            )->0 as u64
            &&& span.attributes@.len() == 2
            &&& span.attributes@[0]@ == ("faas.invocation_id"@, ValueView::Text(start.request_id@))
            &&& span.attributes@[1]@ == ("faas.invocation.status"@, ValueView::Text(done.status@))
            &&& span.status is Some
            &&& done.status@ == "success"@ ==> span.status->0.code == 0
                && span.status->0.message@.len() == 0
            &&& done.status@ != "success"@ ==> span.status->0.code == 2
                && span.status->0.message@ == "Lambda invocation "@ + done.status@
            &&& span.trace_id@.len() == 16
            &&& span.span_id@.len() == 8
            &&& trace_context(start).0 is Some ==> span.trace_id@ == trace_context(start).0->0
            &&& trace_context(start).1 is Some ==> span.parent_span_id@ == trace_context(start).1->0
            &&& trace_context(start).1 is None ==> span.parent_span_id@.len() == 0
        }),
{
    let (begin, end, trace_id, span_id) = choose|
        begin: u64,
        end: u64,
        trace_id: Seq<u8>,
        span_id: Seq<u8>,
    |
        {
            &&& is_time_of(start_time, begin)
            &&& is_time_of(done_time, end)
            &&& are_ids_of(start, trace_id, span_id)
            &&& r.holds(
                extension_spans(
                    resource,
                    seq![
                        #[trigger] invocation_span(
                            start.request_id@,
                            done.status@,
                            begin,
                            end,
                            trace_id,
                            span_id,
                            parent_of(start),
                        ),
                    ],
                ),
            )
        };
    let view = invocation_span(
        start.request_id@,
        done.status@,
        begin,
        end,
        trace_id,
        span_id,
        parent_of(start),
    );
    let spans = r.resource_spans@[0].scope_spans@[0].spans@;
    assert(spans.map_values(|s: Span| s@).len() == 1);
    assert(spans.map_values(|s: Span| s@)[0] == view);
    assert(spans[0]@ == view);
    assert(model::attributes_view(spans[0].attributes@) == view.attributes);
    assert(model::attributes_view(spans[0].attributes@).len() == spans[0].attributes@.len());
    assert(model::attributes_view(spans[0].attributes@)[0] == spans[0].attributes@[0]@);
    assert(model::attributes_view(spans[0].attributes@)[1] == spans[0].attributes@[1]@);
}

/// Whether this is a gauge with one point, whose value is
/// that of the invocation with the given request ID.
pub open spec fn measures(
    m: Metric,
    name: Seq<char>,
    unit: Seq<char>,
    value: PointValue,
    request_id: Seq<char>,
) -> bool {
    &&& m.name@ == name
    &&& m.unit@ == unit
    &&& m.data_points@.len() == 1
    &&& m.data_points@[0].value == value
    &&& m.data_points@[0].attributes@.len() == 1
    &&& m.data_points@[0].attributes@[0]@ == ("faas.invocation_id"@, ValueView::Text(request_id))
}

/// What the view of a gauge says, the gauge says.
proof fn lemma_gauge(
    m: Metric,
    name: Seq<char>,
    description: Seq<char>,
    unit: Seq<char>,
    value: PointValue,
    time: u64,
    request_id: Seq<char>,
)
    requires
        m@ == gauge(name, description, unit, value, time, invocation_attribute(request_id)),
    ensures
        measures(m, name, unit, value, request_id),
        m.data_points@[0].time_unix_nano == time,
        m.data_points@[0].start_time_unix_nano == time,
{
    let points = m.data_points@.map_values(|p: NumberDataPoint| p@);
    assert(points == m@.points);
    assert(points.len() == m.data_points@.len());
    assert(points[0] == m.data_points@[0]@);
    let list = m.data_points@[0].attributes@;
    assert(model::attributes_view(list).len() == list.len());
    assert(model::attributes_view(list)[0] == list[0]@);
}

/// The metrics tell what their report tells: the duration, the billed duration and the
/// memory used in bytes, then the durations of the initialisation and of the restore where
/// there were such; each once, at the time of the report, for its request.
pub proof fn law_metrics_tell_their_report(
    r: MetricsData,
    resource: Seq<(Seq<char>, ValueView)>,
    record: ReportRecord,
    time: Seq<char>,
)
    requires
        memory_fits(record),
        is_report_request(r, resource, record, time),
    ensures
        r.resource_metrics@.len() == 1,
        r.resource_metrics@[0].resource is Some,
        r.resource_metrics@[0].resource->0@ == resource,
        r.resource_metrics@[0].scope_metrics@.len() == 1,
        r.resource_metrics@[0].scope_metrics@[0].scope.name@ == "lambda-otel-extension"@,
        ({
            let m = r.resource_metrics@[0].scope_metrics@[0].metrics@;
            let id = record.request_id@;
            let told = record.metrics;
            let inits: int = if told.init_duration_ms is Some {
                1
            } else {
                0
            };
            let restores: int = if told.restore_duration_ms is Some {
                1
            } else {
                0
            };
            &&& m.len() == 3 + inits + restores
            &&& measures(
                m[0],
                "faas.invocation.duration"@,
                "ms"@,
                PointValue::AsDouble(told.duration_ms),
                id,
            )
            &&& measures(
                m[1],
                "aws.lambda.billed_duration"@,
                "ms"@,
                PointValue::AsDoubleOf(told.billed_duration_ms),
                id,
            )
            &&& measures(
                m[2],
                "aws.lambda.max_memory_used"@,
                "By"@,
                PointValue::AsDoubleOf((told.max_memory_used_mb * 1024 * 1024) as u64),
                id,
            )
            &&& told.init_duration_ms is Some ==> measures(
                m[3],
                "aws.lambda.init_duration"@,
                "ms"@,
                PointValue::AsDouble(told.init_duration_ms->0),
                id,
            )
            &&& told.restore_duration_ms is Some ==> measures(
                m[3 + inits],
                "aws.lambda.restore_duration"@,
                "ms"@,
                PointValue::AsDouble(told.restore_duration_ms->0),
                id,
            )
            &&& rfc3339_nanos(time) is Some ==> forall|i: int|
                0 <= i < m.len() ==> (#[trigger] m[i]).data_points@[0].time_unix_nano
                    == rfc3339_nanos(time)->0 as u64 && m[i].data_points@[0].start_time_unix_nano
                    == rfc3339_nanos(time)->0 as u64
        }),
{
    let n = choose|n: u64| #[trigger]
        is_time_of(time, n) && r.holds(extension_metrics(resource, report_metrics(record, n)));
    let views = report_metrics(record, n);
    let m = r.resource_metrics@[0].scope_metrics@[0].metrics@;
    assert(m.map_values(|x: Metric| x@) == views);
    assert(m.map_values(|x: Metric| x@).len() == m.len());
    assert forall|i: int| 0 <= i < m.len() implies (#[trigger] m[i])@ == views[i] by {
        assert(m.map_values(|x: Metric| x@)[i] == m[i]@);
    }
    let id = record.request_id@;
    assert forall|i: int| 0 <= i < m.len() implies (
    #[trigger] m[i]).data_points@[0].time_unix_nano == n
        && m[i].data_points@[0].start_time_unix_nano == n && measures(
        m[i],
        views[i].name,
        views[i].unit,
        views[i].points[0].value,
        id,
    ) by {
        assert(m[i]@ == views[i]);
        assert(views[i].points =~= seq![
            PointView {
                attributes: invocation_attribute(id),
                start: n,
                time: n,
                value: views[i].points[0].value,
            },
        ]);
        lemma_gauge(
            m[i],
            views[i].name,
            views[i].description,
            views[i].unit,
            views[i].points[0].value,
            n,
            id,
        );
    }
    assert(measures(m[0], views[0].name, views[0].unit, views[0].points[0].value, id));
    assert(measures(m[1], views[1].name, views[1].unit, views[1].points[0].value, id));
    assert(measures(m[2], views[2].name, views[2].unit, views[2].points[0].value, id));
    if record.metrics.init_duration_ms is Some {
        assert(measures(m[3], views[3].name, views[3].unit, views[3].points[0].value, id));
        if record.metrics.restore_duration_ms is Some {
            assert(measures(m[4], views[4].name, views[4].unit, views[4].points[0].value, id));
        }
    } else if record.metrics.restore_duration_ms is Some {
        assert(measures(m[3], views[3].name, views[3].unit, views[3].points[0].value, id));
    }
}

/// Each report has its own request of metrics, and each ended invocation its own request
/// of spans, in the order of the events.
pub proof fn law_requests_follow_the_events(
    metrics: Seq<MetricsData>,
    traces: Seq<TracesData>,
    resource: Seq<(Seq<char>, ValueView)>,
    told: Seq<(ReportRecord, String)>,
    ended: Seq<Invocation>,
)
    requires
        are_metrics_of(metrics, resource, told),
        are_traces_of(traces, resource, ended),
    ensures
        metrics.len() == told.len(),
        traces.len() == ended.len(),
        forall|i: int|
            0 <= i < told.len() ==> is_report_request(
                #[trigger] metrics[i],
                resource,
                told[i].0,
                told[i].1@,
            ),
        forall|i: int|
            0 <= i < ended.len() ==> is_invocation_trace(
                #[trigger] traces[i],
                resource,
                ended[i].start,
                ended[i].start_time@,
                ended[i].done,
                ended[i].done_time@,
            ),
{
}

/// The metric of a shutdown counts one, and gives the reason.
pub proof fn law_a_shutdown_counts_once(reason: Seq<char>, time: u64)
    ensures
        ({
            let m = shutdown_metric(reason, time);
            &&& m.name == "extension.shutdown_count"@
            &&& m.unit == "{count}"@
            &&& m.points.len() == 1
            &&& m.points[0].value == PointValue::AsInt(1)
            &&& m.points[0].time == time
            &&& m.points[0].start == time
            &&& m.points[0].attributes == seq![("shutdown.reason"@, ValueView::Text(reason))]
        }),
{
}

/// A record without an X-Ray header names no trace, and one whose header cannot be read
/// names none either.
pub proof fn law_no_header_names_no_trace(start: StartRecord)
    requires
        start.tracing is None || start.tracing->0.value is None || tracing::parse_header(
            start.tracing->0.value->0@,
        ) is None,
    ensures
        trace_context(start).0 is None,
        trace_context(start).1 is None,
        parent_of(start).len() == 0,
{
}

/// A start event and the event that ends its invocation give one span, which runs from the
/// time of the first to that of the second; nothing waits then for this invocation.
pub proof fn law_a_processed_invocation_gives_its_span(
    p: &mut TelemetryProcessor,
    events: Vec<TelemetryEvent>,
    r: (Vec<MetricsData>, Vec<TracesData>),
)
    requires
        call_ensures(TelemetryProcessor::process_events, (p, events), r),
        events@.len() == 2,
        events@[0] is Start,
        events@[1] is RuntimeDone,
        events@[0]->Start_record.request_id@ == events@[1]->RuntimeDone_record.request_id@,
    ensures
        r.0@.len() == 0,
        r.1@.len() == 1,
        !final(p).pending().dom().contains(events@[0]->Start_record.request_id@),
        final(p).resource() == old(p).resource(),
        is_invocation_trace(
            r.1@[0],
            old(p).resource(),
            events@[0]->Start_record,
            events@[0]->Start_time@,
            events@[1]->RuntimeDone_record,
            events@[1]->RuntimeDone_time@,
        ),
        ({
            let begun = rfc3339_nanos(events@[0]->Start_time@);
            let ended = rfc3339_nanos(events@[1]->RuntimeDone_time@);
            let span = r.1@[0].resource_spans@[0].scope_spans@[0].spans@[0];
            &&& begun is Some ==> span.start_time_unix_nano == begun->0 as u64
            &&& ended is Some ==> span.end_time_unix_nano == ended->0 as u64
        }),
{
    let none = Seq::<TelemetryEvent>::empty();
    let pending = old(p).pending();
    let before = none.push(events@[0]) + none;
    assert(before.push(events@[1]) =~= events@);
    law_an_invocation_runs_from_its_start_to_its_end(
        pending,
        none,
        events@[0],
        none,
        events@[1],
    );
    assert(before =~= none.push(events@[0]));
    law_other_events_give_nothing(pending, none, events@[0]);
    law_other_events_give_nothing(pending, before, events@[1]);
    assert(reports(events@) == reports(none));
    assert(events@.drop_last() =~= before);
    assert(is_invocation_trace(
        r.1@[0],
        old(p).resource(),
        events@[0]->Start_record,
        events@[0]->Start_time@,
        events@[1]->RuntimeDone_record,
        events@[1]->RuntimeDone_time@,
    ));
    law_a_span_tells_its_invocation(
        r.1@[0],
        old(p).resource(),
        events@[0]->Start_record,
        events@[0]->Start_time@,
        events@[1]->RuntimeDone_record,
        events@[1]->RuntimeDone_time@,
    );
}

/// What is processed gives one request of metrics for each report, and one of spans for
/// each invocation that ended and whose start is known.
pub proof fn law_processed_events_give_their_requests(
    p: &mut TelemetryProcessor,
    events: Vec<TelemetryEvent>,
    r: (Vec<MetricsData>, Vec<TracesData>),
)
    requires
        call_ensures(TelemetryProcessor::process_events, (p, events), r),
    ensures
        r.0@.len() == events@.filter(|e: TelemetryEvent| e is Report).len(),
        r.1@.len() == invocations(old(p).pending(), events@).len(),
        are_metrics_of(r.0@, old(p).resource(), reports(events@)),
        are_traces_of(r.1@, old(p).resource(), invocations(old(p).pending(), events@)),
        final(p).pending() == pending_after(old(p).pending(), events@),
{
    law_every_report_is_converted(events@);
}

/// The span of an invocation begins with its start and ends with its end, and the metrics
/// of a report tell the duration that it gives, for the resource of their converter.
pub proof fn law_converters_tell_what_they_are_given(
    m: MetricsConverter,
    s: SpanConverter,
    record: ReportRecord,
    time: &str,
    start: StartRecord,
    start_time: &str,
    done: RuntimeDoneRecord,
    done_time: &str,
    metrics: MetricsData,
    traces: TracesData,
)
    requires
        memory_fits(record),
        call_ensures(MetricsConverter::convert_report, (&m, &record, time), metrics),
        call_ensures(
            SpanConverter::create_invocation_span,
            (&s, &start, start_time, &done, done_time),
            traces,
        ),
    ensures
        metrics.resource_metrics@[0].resource->0@ == m.resource@,
        measures(
            metrics.resource_metrics@[0].scope_metrics@[0].metrics@[0],
            "faas.invocation.duration"@,
            "ms"@,
            PointValue::AsDouble(record.metrics.duration_ms),
            record.request_id@,
        ),
        traces.resource_spans@[0].resource->0@ == s.resource@,
        ({
            let span = traces.resource_spans@[0].scope_spans@[0].spans@[0];
            let begun = rfc3339_nanos(start_time@);
            let ended = rfc3339_nanos(done_time@);
            &&& span.attributes@[0]@ == ("faas.invocation_id"@, ValueView::Text(start.request_id@))
            &&& begun is Some ==> span.start_time_unix_nano == begun->0 as u64
            &&& ended is Some ==> span.end_time_unix_nano == ended->0 as u64
        }),
{
    law_metrics_tell_their_report(metrics, m.resource@, record, time@);
    law_a_span_tells_its_invocation(
        traces,
        s.resource@,
        start,
        start_time@,
        done,
        done_time@,
    );
}

/// A timestamp is read as its own time, and nothing else is.
pub proof fn law_a_timestamp_is_its_time(timestamp: &str, r: Option<u64>)
    requires
        call_ensures(parse_iso8601_to_nanos, (timestamp,), r),
    ensures
        r is Some <==> rfc3339_nanos(timestamp@) is Some,
        r is Some && rfc3339_nanos(timestamp@)->0 >= 0 ==> r->0 == rfc3339_nanos(timestamp@)->0,
{
}

} // verus!
