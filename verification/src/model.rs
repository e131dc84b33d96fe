//! The OTLP data that the extension produces itself: attributes, resources,
//! metrics and spans, as plain values.
use vstd::prelude::*;
use vstd::string::*;

verus! {

/// A number in double precision, by its bits. The extension passes such numbers
/// on as they come.
#[derive(Debug, Clone, Copy, PartialEq, Eq, Structural)]
pub struct Float64 {
    /// The bits of the number in the format of IEEE 754.
    pub bits: u64,
}

/// The value of an attribute.
#[derive(Debug, Clone, PartialEq, Eq)]
pub enum AnyValue {
    /// A string.
    StringValue(String),
    /// An integer.
    IntValue(i64),
    /// A truth value.
    BoolValue(bool),
    /// A list of strings.
    ArrayValue(Vec<String>),
}

/// The value of an attribute, as the contracts see it.
pub enum ValueView {
    /// A string.
    Text(Seq<char>),
    /// An integer.
    Int(i64),
    /// A truth value.
    Bool(bool),
    /// A list of strings.
    List(Seq<Seq<char>>),
}

impl View for AnyValue {
    type V = ValueView;

    open spec fn view(&self) -> ValueView {
        match self {
            AnyValue::StringValue(s) => ValueView::Text(s@),
            AnyValue::IntValue(n) => ValueView::Int(*n),
            AnyValue::BoolValue(b) => ValueView::Bool(*b),
            AnyValue::ArrayValue(v) => ValueView::List(v@.map_values(|s: String| s@)),
        }
    }
}

impl AnyValue {
    /// A copy of the value.
    pub fn copy(&self) -> (v: AnyValue)
        ensures
            v@ == self@,
    {
        match self {
            AnyValue::StringValue(s) => AnyValue::StringValue(s.clone()),
            AnyValue::IntValue(n) => AnyValue::IntValue(*n),
            AnyValue::BoolValue(b) => AnyValue::BoolValue(*b),
            AnyValue::ArrayValue(list) => {
                let mut out: Vec<String> = Vec::new();
                let mut i: usize = 0;
                while i < list.len()
                    invariant
                        i <= list.len(),
                        out@.len() == i,
                        forall|j: int| 0 <= j < i ==> (#[trigger] out@[j])@ == list@[j]@,
                    decreases list.len() - i,
                {
                    out.push(list[i].clone());
                    i = i + 1;
                }
                assert(out@.map_values(|s: String| s@) =~= list@.map_values(|s: String| s@));
                AnyValue::ArrayValue(out)
            },
        }
    }
}

/// An attribute.
#[derive(Debug, Clone, PartialEq, Eq)]
pub struct KeyValue {
    /// Its name.
    pub key: String,
    /// Its value.
    pub value: AnyValue,
}

impl View for KeyValue {
    type V = (Seq<char>, ValueView);

    open spec fn view(&self) -> (Seq<char>, ValueView) {
        (self.key@, self.value@)
    }
}

/// The attributes of a list.
pub open spec fn attributes_view(list: Seq<KeyValue>) -> Seq<(Seq<char>, ValueView)> {
    list.map_values(|kv: KeyValue| kv@)
}

/// Creates a string attribute.
pub fn kv_string(key: &str, value: &str) -> (kv: KeyValue)
    ensures
        kv@ == (key@, ValueView::Text(value@)),
{
    KeyValue { key: key.to_owned(), value: AnyValue::StringValue(value.to_owned()) }
}

/// Copies a list of attributes.
pub fn copy_attributes(list: &Vec<KeyValue>) -> (out: Vec<KeyValue>)
    ensures
        attributes_view(out@) == attributes_view(list@),
{
    let mut out: Vec<KeyValue> = Vec::new();
    let mut i: usize = 0;
    while i < list.len()
        invariant
            i <= list.len(),
            out@.len() == i,
            forall|j: int| 0 <= j < i ==> (#[trigger] out@[j])@ == list@[j]@,
        decreases list.len() - i,
    {
        out.push(KeyValue { key: list[i].key.clone(), value: list[i].value.copy() });
        i = i + 1;
    }
    assert(attributes_view(out@) =~= attributes_view(list@));
    out
}

/// What telemetry is about: the attributes of its source.
#[derive(Debug, Clone, PartialEq, Eq)]
pub struct Resource {
    /// The attributes.
    pub attributes: Vec<KeyValue>,
}

impl View for Resource {
    type V = Seq<(Seq<char>, ValueView)>;

    open spec fn view(&self) -> Seq<(Seq<char>, ValueView)> {
        attributes_view(self.attributes@)
    }
}

impl Default for Resource {
    fn default() -> (r: Self)
        ensures
            r@ == Seq::<(Seq<char>, ValueView)>::empty(),
    {
        let r = Resource { attributes: Vec::new() };
        assert(r@ =~= Seq::<(Seq<char>, ValueView)>::empty());
        r
    }
}

impl Resource {
    /// A copy of the resource.
    pub fn copy(&self) -> (r: Resource)
        ensures
            r@ == self@,
    {
        Resource { attributes: copy_attributes(&self.attributes) }
    }
}

/// The instrumentation that produced telemetry.
#[derive(Debug, Clone, PartialEq, Eq)]
pub struct InstrumentationScope {
    /// Its name.
    pub name: String,
    /// Its version.
    pub version: String,
}

/// The value of a data point.
#[derive(Debug, Clone, Copy, PartialEq, Eq, Structural)]
pub enum PointValue {
    /// An integer.
    AsInt(i64),
    /// A number in double precision.
    AsDouble(Float64),
    /// A whole number, to be written in double precision.
    AsDoubleOf(u64),
}

/// A data point of a metric.
#[derive(Debug, Clone, PartialEq, Eq)]
pub struct NumberDataPoint {
    /// The attributes of the point.
    pub attributes: Vec<KeyValue>,
    /// When what it measures began, in nanoseconds since the epoch.
    pub start_time_unix_nano: u64,
    /// When it was measured, in nanoseconds since the epoch.
    pub time_unix_nano: u64,
    /// Its value.
    pub value: PointValue,
}

/// A data point, as the contracts see it.
pub struct PointView {
    /// The attributes of the point.
    pub attributes: Seq<(Seq<char>, ValueView)>,
    /// When what it measures began.
    pub start: u64,
    /// When it was measured.
    pub time: u64,
    /// Its value.
    pub value: PointValue,
}

impl View for NumberDataPoint {
    type V = PointView;

    open spec fn view(&self) -> PointView {
        PointView {
            attributes: attributes_view(self.attributes@),
            start: self.start_time_unix_nano,
            time: self.time_unix_nano,
            value: self.value,
        }
    }
}

/// A gauge metric.
#[derive(Debug, Clone, PartialEq, Eq)]
pub struct Metric {
    /// Its name.
    pub name: String,
    /// What it measures.
    pub description: String,
    /// The unit of its values.
    pub unit: String,
    /// The data points of the gauge.
    pub data_points: Vec<NumberDataPoint>,
}

/// A gauge metric, as the contracts see it.
pub struct MetricView {
    /// Its name.
    pub name: Seq<char>,
    /// What it measures.
    pub description: Seq<char>,
    /// The unit of its values.
    pub unit: Seq<char>,
    /// The data points of the gauge.
    pub points: Seq<PointView>,
}

impl View for Metric {
    type V = MetricView;

    open spec fn view(&self) -> MetricView {
        MetricView {
            name: self.name@,
            description: self.description@,
            unit: self.unit@,
            points: self.data_points@.map_values(|p: NumberDataPoint| p@),
        }
    }
}

/// The metrics of one instrumentation.
#[derive(Debug, Clone, PartialEq, Eq)]
pub struct ScopeMetrics {
    /// The instrumentation.
    pub scope: InstrumentationScope,
    /// The metrics.
    pub metrics: Vec<Metric>,
    /// The schema that they follow.
    pub schema_url: String,
}

/// The metrics of one resource.
#[derive(Debug, Clone, PartialEq, Eq)]
pub struct MetricGroup {
    /// The resource.
    pub resource: Option<Resource>,
    /// The metrics, by instrumentation.
    pub scope_metrics: Vec<ScopeMetrics>,
    /// The schema that the resource follows.
    pub schema_url: String,
}

/// Metrics to be exported.
#[derive(Debug, Clone, PartialEq, Eq)]
pub struct MetricsData {
    /// The metrics, by resource.
    pub resource_metrics: Vec<MetricGroup>,
}

/// Metrics of one resource and one instrumentation, as the contracts see them.
pub struct MetricsView {
    /// The resource.
    pub resource: Seq<(Seq<char>, ValueView)>,
    /// The name of the instrumentation.
    pub scope_name: Seq<char>,
    /// The version of the instrumentation.
    pub scope_version: Seq<char>,
    /// The schema that both follow.
    pub schema_url: Seq<char>,
    /// The metrics.
    pub metrics: Seq<MetricView>,
}

impl MetricsData {
    /// Whether this is one group of one instrumentation, with the given contents.
    pub open spec fn holds(&self, v: MetricsView) -> bool {
        &&& self.resource_metrics@.len() == 1
        &&& self.resource_metrics@[0].resource is Some
        &&& self.resource_metrics@[0].resource->0@ == v.resource
        &&& self.resource_metrics@[0].schema_url@ == v.schema_url
        &&& self.resource_metrics@[0].scope_metrics@.len() == 1
        &&& self.resource_metrics@[0].scope_metrics@[0].scope.name@ == v.scope_name
        &&& self.resource_metrics@[0].scope_metrics@[0].scope.version@ == v.scope_version
        &&& self.resource_metrics@[0].scope_metrics@[0].schema_url@ == v.schema_url
        &&& self.resource_metrics@[0].scope_metrics@[0].metrics@.map_values(|m: Metric| m@)
            == v.metrics
    }
}

/// The outcome of what a span stands for.
#[derive(Debug, Clone, PartialEq, Eq)]
pub struct Status {
    /// The status code of OTLP: 0 for unset, 2 for an error.
    pub code: i32,
    /// What went wrong.
    pub message: String,
}

/// A span.
#[derive(Debug, Clone, PartialEq, Eq)]
pub struct Span {
    /// The trace that it belongs to.
    pub trace_id: Vec<u8>,
    /// Its ID.
    pub span_id: Vec<u8>,
    /// The span that it is part of; empty where it is a root.
    pub parent_span_id: Vec<u8>,
    /// Its name.
    pub name: String,
    /// The span kind of OTLP: 2 for a server.
    pub kind: i32,
    /// When it began, in nanoseconds since the epoch.
    pub start_time_unix_nano: u64,
    /// When it ended, in nanoseconds since the epoch.
    pub end_time_unix_nano: u64,
    /// Its attributes.
    pub attributes: Vec<KeyValue>,
    /// Its outcome.
    pub status: Option<Status>,
}

/// A span, as the contracts see it.
pub struct SpanView {
    /// The trace that it belongs to.
    pub trace_id: Seq<u8>,
    /// Its ID.
    pub span_id: Seq<u8>,
    /// The span that it is part of.
    pub parent_span_id: Seq<u8>,
    /// Its name.
    pub name: Seq<char>,
    /// Its kind.
    pub kind: i32,
    /// When it began.
    pub start: u64,
    /// When it ended.
    pub end: u64,
    /// Its attributes.
    pub attributes: Seq<(Seq<char>, ValueView)>,
    /// The code and the message of its status.
    pub status: Option<(i32, Seq<char>)>,
}

impl View for Span {
    type V = SpanView;

    open spec fn view(&self) -> SpanView {
        SpanView {
            trace_id: self.trace_id@,
            span_id: self.span_id@,
            parent_span_id: self.parent_span_id@,
            name: self.name@,
            kind: self.kind,
            start: self.start_time_unix_nano,
            end: self.end_time_unix_nano,
            attributes: attributes_view(self.attributes@),
            status: match self.status {
                Some(s) => Some((s.code, s.message@)),
                None => None,
            },
        }
    }
}

/// The spans of one instrumentation.
#[derive(Debug, Clone, PartialEq, Eq)]
pub struct ScopeSpans {
    /// The instrumentation.
    pub scope: InstrumentationScope,
    /// The spans.
    pub spans: Vec<Span>,
    /// The schema that they follow.
    pub schema_url: String,
}

/// The spans of one resource.
#[derive(Debug, Clone, PartialEq, Eq)]
pub struct SpanGroup {
    /// The resource.
    pub resource: Option<Resource>,
    /// The spans, by instrumentation.
    pub scope_spans: Vec<ScopeSpans>,
    /// The schema that the resource follows.
    pub schema_url: String,
}

/// Spans to be exported.
#[derive(Debug, Clone, PartialEq, Eq)]
pub struct TracesData {
    /// The spans, by resource.
    pub resource_spans: Vec<SpanGroup>,
}

/// Spans of one resource and one instrumentation, as the contracts see them.
pub struct TracesView {
    /// The resource.
    pub resource: Seq<(Seq<char>, ValueView)>,
    /// The name of the instrumentation.
    pub scope_name: Seq<char>,
    /// The version of the instrumentation.
    pub scope_version: Seq<char>,
    /// The schema that both follow.
    pub schema_url: Seq<char>,
    /// The spans.
    pub spans: Seq<SpanView>,
}

impl TracesData {
    /// Whether this is one group of one instrumentation, with the given contents.
    pub open spec fn holds(&self, v: TracesView) -> bool {
        &&& self.resource_spans@.len() == 1
        &&& self.resource_spans@[0].resource is Some
        &&& self.resource_spans@[0].resource->0@ == v.resource
        &&& self.resource_spans@[0].schema_url@ == v.schema_url
        &&& self.resource_spans@[0].scope_spans@.len() == 1
        &&& self.resource_spans@[0].scope_spans@[0].scope.name@ == v.scope_name
        &&& self.resource_spans@[0].scope_spans@[0].scope.version@ == v.scope_version
        &&& self.resource_spans@[0].scope_spans@[0].schema_url@ == v.schema_url
        &&& self.resource_spans@[0].scope_spans@[0].spans@.map_values(|s: Span| s@) == v.spans
    }
}

} // verus!
