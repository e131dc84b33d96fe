//! Telemetry API subscriptions and events.
use crate::model::Float64;
use crate::text::push_decimal;
use vstd::prelude::*;
use vstd::string::*;

verus! {

/// Types of telemetry events from the Telemetry API.
#[non_exhaustive]
#[derive(Debug, Clone, Copy, PartialEq, Eq, Structural)]
pub enum TelemetryType {
    /// Platform events (start, end, report, fault, extension).
    Platform,
    /// Function logs from stdout/stderr.
    Function,
    /// Extension logs.
    Extension,
}

/// Buffering configuration for Telemetry API subscription.
#[derive(Debug, Clone, Copy, PartialEq, Eq, Structural)]
pub struct BufferingConfig {
    /// Maximum number of events to buffer before sending.
    pub max_items: Option<u32>,
    /// Maximum size in bytes to buffer before sending.
    pub max_bytes: Option<u32>,
    /// Maximum time in milliseconds to buffer before sending.
    pub timeout_ms: Option<u32>,
}

impl Default for BufferingConfig {
    fn default() -> (c: Self)
        ensures
            c == (BufferingConfig {
                max_items: Some(1000),
                max_bytes: Some(262144),
                timeout_ms: Some(25),
            }),
    {
        BufferingConfig { max_items: Some(1000), max_bytes: Some(262144), timeout_ms: Some(25) }
    }
}

/// Destination configuration for Telemetry API subscription.
#[derive(Debug, Clone)]
pub struct DestinationConfig {
    /// Protocol to use (HTTP only supported).
    pub protocol: String,
    /// URI to send events to.
    pub uri: String,
}

/// Subscription request for the Telemetry API.
#[derive(Debug, Clone)]
pub struct TelemetrySubscription {
    /// Schema version.
    pub schema_version: String,
    /// Types of telemetry to subscribe to.
    pub types: Vec<TelemetryType>,
    /// Buffering configuration.
    pub buffering: BufferingConfig,
    /// Destination for events.
    pub destination: DestinationConfig,
}

impl TelemetrySubscription {
    /// Creates a new subscription request for platform events.
    pub fn platform_events(listener_uri: &str) -> (s: Self)
        ensures
            s.schema_version@ == "2022-12-13"@,
            s.types@ == seq![TelemetryType::Platform],
            s.buffering == (BufferingConfig {
                max_items: Some(1000),
                max_bytes: Some(262144),
                timeout_ms: Some(25),
            }),
            s.destination.protocol@ == "HTTP"@,
            s.destination.uri@ == listener_uri@,
    {
        TelemetrySubscription {
            schema_version: "2022-12-13".to_owned(),
            types: vec![TelemetryType::Platform],
            buffering: BufferingConfig::default(),
            destination: DestinationConfig {
                protocol: "HTTP".to_owned(),
                uri: listener_uri.to_owned(),
            },
        }
    }

    /// Creates a subscription for all event types.
    pub fn all_events(listener_uri: &str) -> (s: Self)
        ensures
            s.schema_version@ == "2022-12-13"@,
            s.types@ == seq![
                TelemetryType::Platform,
                TelemetryType::Function,
                TelemetryType::Extension,
            ],
            s.buffering == (BufferingConfig {
                max_items: Some(1000),
                max_bytes: Some(262144),
                timeout_ms: Some(25),
            }),
            s.destination.protocol@ == "HTTP"@,
            s.destination.uri@ == listener_uri@,
    {
        TelemetrySubscription {
            schema_version: "2022-12-13".to_owned(),
            types: vec![
                TelemetryType::Platform,
                TelemetryType::Function,
                TelemetryType::Extension,
            ],
            buffering: BufferingConfig::default(),
            destination: DestinationConfig {
                protocol: "HTTP".to_owned(),
                uri: listener_uri.to_owned(),
            },
        }
    }

    /// Sets custom buffering configuration.
    pub fn with_buffering(self, config: BufferingConfig) -> (s: Self)
        ensures
            s == (TelemetrySubscription { buffering: config, ..self }),
    {
        TelemetrySubscription { buffering: config, ..self }
    }
}

/// Platform telemetry event from Lambda.
#[non_exhaustive]
#[derive(Debug, Clone)]
pub enum TelemetryEvent {
    /// Platform initialization start.
    InitStart {
        /// Event time in ISO 8601 format.
        time: String,
        /// Event record.
        record: InitStartRecord,
    },
    /// Platform initialization complete (runtime ready).
    InitRuntimeDone {
        /// Event time in ISO 8601 format.
        time: String,
        /// Event record.
        record: InitRuntimeDoneRecord,
    },
    /// Platform invocation start.
    Start {
        /// Event time in ISO 8601 format.
        time: String,
        /// Event record.
        record: StartRecord,
    },
    /// Platform runtime invocation complete.
    RuntimeDone {
        /// Event time in ISO 8601 format.
        time: String,
        /// Event record.
        record: RuntimeDoneRecord,
    },
    /// Platform invocation report.
    Report {
        /// Event time in ISO 8601 format.
        time: String,
        /// Event record.
        record: ReportRecord,
    },
    /// Platform fault.
    Fault {
        /// Event time in ISO 8601 format.
        time: String,
        /// Event record.
        record: FaultRecord,
    },
    /// Extension event.
    Extension {
        /// Event time in ISO 8601 format.
        time: String,
        /// Event record.
        record: ExtensionRecord,
    },
    /// Function log line.
    Function {
        /// Event time in ISO 8601 format.
        time: String,
        /// Log record.
        record: String,
    },
    /// Extension log line.
    ExtensionLog {
        /// Event time in ISO 8601 format.
        time: String,
        /// Log record.
        record: String,
    },
}

/// Record for platform.initStart event.
#[derive(Debug, Clone)]
pub struct InitStartRecord {
    /// Initialization type (on-demand, provisioned-concurrency).
    pub initialization_type: String,
    /// Phase of initialization.
    pub phase: String,
    /// Runtime version.
    pub runtime_version: Option<String>,
    /// Runtime version ARN.
    pub runtime_version_arn: Option<String>,
}

/// Record for platform.initRuntimeDone event.
#[derive(Debug, Clone)]
pub struct InitRuntimeDoneRecord {
    /// Initialization type.
    pub initialization_type: String,
    /// Status of initialization.
    pub status: String,
    /// Phase of initialization.
    pub phase: String,
}

/// Record for platform.start event.
#[derive(Debug, Clone)]
pub struct StartRecord {
    /// Request ID for this invocation.
    pub request_id: String,
    /// Version of the function.
    pub version: Option<String>,
    /// Tracing information.
    pub tracing: Option<TracingRecord>,
}

/// Tracing information in platform events.
#[derive(Debug, Clone)]
pub struct TracingRecord {
    /// Span ID.
    pub span_id: Option<String>,
    /// Trace type.
    pub trace_type: Option<String>,
    /// Trace value (X-Ray header).
    pub value: Option<String>,
}

/// Record for platform.runtimeDone event.
#[derive(Debug, Clone)]
pub struct RuntimeDoneRecord {
    /// Request ID for this invocation.
    pub request_id: String,
    /// Status of the invocation.
    pub status: String,
    /// Metrics for this invocation.
    pub metrics: Option<RuntimeMetrics>,
    /// Tracing information.
    pub tracing: Option<TracingRecord>,
    /// Spans produced during invocation.
    pub spans: Vec<SpanRecord>,
}

/// Runtime metrics from platform.runtimeDone event.
#[derive(Debug, Clone, Copy, PartialEq, Eq, Structural)]
pub struct RuntimeMetrics {
    /// Duration in milliseconds.
    pub duration_ms: Float64,
    /// Produced bytes.
    pub produced_bytes: Option<u64>,
}

/// Span record from platform events.
#[derive(Debug, Clone)]
pub struct SpanRecord {
    /// Name of the span.
    pub name: String,
    /// Start time in milliseconds.
    pub start: Float64,
    /// Duration in milliseconds.
    pub duration_ms: Float64,
}

/// Record for platform.report event.
#[derive(Debug, Clone)]
pub struct ReportRecord {
    /// Request ID for this invocation.
    pub request_id: String,
    /// Status of the invocation.
    pub status: String,
    /// Metrics for this invocation.
    pub metrics: ReportMetrics,
    /// Tracing information.
    pub tracing: Option<TracingRecord>,
}

/// Metrics from platform.report event.
#[derive(Debug, Clone, Copy, PartialEq, Eq, Structural)]
pub struct ReportMetrics {
    /// Duration in milliseconds.
    pub duration_ms: Float64,
    /// Billed duration in milliseconds.
    pub billed_duration_ms: u64,
    /// Memory size in MB.
    pub memory_size_mb: u64,
    /// Max memory used in MB.
    pub max_memory_used_mb: u64,
    /// Init duration in milliseconds (cold start only).
    pub init_duration_ms: Option<Float64>,
    /// Restore duration in milliseconds (SnapStart only).
    pub restore_duration_ms: Option<Float64>,
}

/// Record for platform.fault event.
#[derive(Debug, Clone)]
pub struct FaultRecord {
    /// Request ID for this invocation.
    pub request_id: Option<String>,
    /// Fault message.
    pub fault_message: Option<String>,
}

/// Record for platform.extension event.
#[derive(Debug, Clone)]
pub struct ExtensionRecord {
    /// Name of the extension.
    pub name: String,
    /// State of the extension.
    pub state: String,
    /// Events the extension subscribes to.
    pub events: Vec<String>,
}

/// Error from Telemetry API operations.
#[non_exhaustive]
#[derive(Debug)]
pub enum TelemetryError {
    /// Failed to parse telemetry event.
    Parse(String),
}

impl TelemetryError {
    /// The error in words.
    pub fn message(&self) -> (s: String)
        ensures
            s@ == "Parse error: "@ + self->0@,
    {
        match self {
            TelemetryError::Parse(msg) => {
                let mut s = "Parse error: ".to_owned();
                s.append(msg.as_str());
                s
            },
        }
    }
}

/// The address of the listener on the given port. In the Lambda environment it is
/// reached under the name of the sandbox, elsewhere under the local address.
pub open spec fn listener_address(in_lambda: bool, port: u16) -> Seq<char> {
    if in_lambda {
        "http://sandbox.localdomain:"@ + crate::text::decimal(port as nat)
    } else {
        "http://127.0.0.1:"@ + crate::text::decimal(port as nat)
    }
}

/// HTTP listener for receiving Telemetry API events.
#[derive(Debug, Clone, Copy)]
pub struct TelemetryListener {
    /// The port to listen on.
    pub port: u16,
}

impl TelemetryListener {
    /// Creates a new Telemetry API listener.
    pub fn new(port: u16) -> (l: Self)
        ensures
            l.port == port,
    {
        TelemetryListener { port }
    }

    /// Returns the listener URI for use in subscription requests. `in_lambda`
    /// tells whether `AWS_LAMBDA_FUNCTION_NAME` is set.
    pub fn listener_uri(&self, in_lambda: bool) -> (s: String)
        ensures
            s@ == listener_address(in_lambda, self.port),
    {
        let mut s = if in_lambda {
            "http://sandbox.localdomain:".to_owned()
        } else {
            "http://127.0.0.1:".to_owned()
        };
        push_decimal(&mut s, self.port as u64);
        s
    }
}

/// The platform reaches the listener on its port: in Lambda under the name of the sandbox,
/// elsewhere under the local address.
pub proof fn law_the_listener_is_reached_on_its_port(port: u16)
    ensures
        listener_address(true, port) == "http://sandbox.localdomain:"@ + crate::text::decimal(
            port as nat,
        ),
        listener_address(false, port) == "http://127.0.0.1:"@ + crate::text::decimal(port as nat),
{
}

/// The address of a listener ends with its port, and names the sandbox where that is where
/// it runs.
pub proof fn law_a_listener_tells_its_address(
    l: TelemetryListener,
    inside: String,
    outside: String,
)
    requires
        call_ensures(TelemetryListener::listener_uri, (&l, true), inside),
        call_ensures(TelemetryListener::listener_uri, (&l, false), outside),
    ensures
        inside@ == "http://sandbox.localdomain:"@ + crate::text::decimal(l.port as nat),
        outside@ == "http://127.0.0.1:"@ + crate::text::decimal(l.port as nat),
{
    law_the_listener_is_reached_on_its_port(l.port);
}

} // verus!
