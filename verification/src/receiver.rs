//! OTLP receiver for collecting signals from Lambda functions.
//!
//! What a request from the function holds, in protobuf or JSON and compressed or
//! not, and what it is answered. Serving HTTP is up to the program.
use crate::config::ReceiverConfig;
use crate::otlp;
use crate::otlp::{
    Entries, ExportLogsServiceRequest, ExportMetricsServiceRequest, ExportTraceServiceRequest,
};
use crate::text;
use crate::text::{contains_str, push_decimal};
use opentelemetry_proto::tonic::logs::v1::ResourceLogs;
use opentelemetry_proto::tonic::metrics::v1::ResourceMetrics;
use opentelemetry_proto::tonic::trace::v1::ResourceSpans;
use vstd::prelude::*;
use vstd::string::*;

verus! {

/// The status of a request that was accepted.
pub const STATUS_OK: u16 = 200;

/// The status of a request that cannot be read.
pub const STATUS_BAD_REQUEST: u16 = 400;

/// The status of a request that cannot be taken in for good.
pub const STATUS_INTERNAL_SERVER_ERROR: u16 = 500;

/// The status of a request that cannot be taken in for now.
pub const STATUS_SERVICE_UNAVAILABLE: u16 = 503;

/// Signals received from the Lambda function.
#[non_exhaustive]
#[derive(Debug, Clone)]
pub enum Signal {
    /// Trace spans.
    Traces(ExportTraceServiceRequest),
    /// Metrics.
    Metrics(ExportMetricsServiceRequest),
    /// Log records.
    Logs(ExportLogsServiceRequest),
}

impl View for Signal {
    type V = Entries;

    open spec fn view(&self) -> Entries {
        match self {
            Signal::Traces(req) => Entries::Traces(req.resource_spans@),
            Signal::Metrics(req) => Entries::Metrics(req.resource_metrics@),
            Signal::Logs(req) => Entries::Logs(req.resource_logs@),
        }
    }
}

/// Whether the value of a header holds a word.
pub open spec fn mentions(header: Option<&str>, word: Seq<char>) -> bool {
    header is Some && text::contains(header->0@, word)
}

/// The body of a request, decompressed where its encoding says that it is gzip
/// data; nothing where that fails.
pub open spec fn plain_body(content_encoding: Option<&str>, body: Seq<u8>) -> Option<Seq<u8>> {
    if mentions(content_encoding, "gzip"@) {
        otlp::gunzip_bytes(body)
    } else {
        Some(body)
    }
}

/// The trace request that was received: in JSON where the media type says so, else
/// in protobuf. Nothing where it cannot be read.
pub open spec fn received_traces(
    content_type: Option<&str>,
    content_encoding: Option<&str>,
    body: Seq<u8>,
) -> Option<Seq<ResourceSpans>> {
    match plain_body(content_encoding, body) {
        Some(bytes) => if mentions(content_type, "application/json"@) {
            otlp::trace_from_json(bytes)
        } else {
            otlp::trace_from_bytes(bytes)
        },
        None => None,
    }
}

/// The metrics request that was received, as for traces.
pub open spec fn received_metrics(
    content_type: Option<&str>,
    content_encoding: Option<&str>,
    body: Seq<u8>,
) -> Option<Seq<ResourceMetrics>> {
    match plain_body(content_encoding, body) {
        Some(bytes) => if mentions(content_type, "application/json"@) {
            otlp::metrics_from_json(bytes)
        } else {
            otlp::metrics_from_bytes(bytes)
        },
        None => None,
    }
}

/// The logs request that was received, as for traces.
pub open spec fn received_logs(
    content_type: Option<&str>,
    content_encoding: Option<&str>,
    body: Seq<u8>,
) -> Option<Seq<ResourceLogs>> {
    match plain_body(content_encoding, body) {
        Some(bytes) => if mentions(content_type, "application/json"@) {
            otlp::logs_from_json(bytes)
        } else {
            otlp::logs_from_bytes(bytes)
        },
        None => None,
    }
}

/// Tells whether the value of a header holds a word.
fn header_mentions(header: Option<&str>, word: &str) -> (r: bool)
    ensures
        r == mentions(header, word@),
{
    match header {
        Some(value) => contains_str(value, word),
        None => false,
    }
}

/// Decompresses a body.
pub fn decompress_gzip(body: &[u8]) -> (r: Result<Vec<u8>, u16>)
    ensures
        match r {
            Ok(bytes) => otlp::gunzip_bytes(body@) == Some(bytes@),
            Err(status) => otlp::gunzip_bytes(body@) is None && status == STATUS_BAD_REQUEST,
        },
{
    match otlp::gunzip(body) {
        Ok(bytes) => Ok(bytes),
        Err(_) => Err(STATUS_BAD_REQUEST),
    }
}

/// Reads a trace request from its protobuf or JSON form.
fn read_traces(is_json: bool, bytes: &[u8]) -> (r: Result<ExportTraceServiceRequest, u16>)
    ensures
        ({
            let read = if is_json {
                otlp::trace_from_json(bytes@)
            } else {
                otlp::trace_from_bytes(bytes@)
            };
            match r {
                Ok(req) => read == Some(req.resource_spans@),
                Err(status) => read is None && status == STATUS_BAD_REQUEST,
            }
        }),
{
    if is_json {
        match otlp::parse_traces_json(bytes) {
            Ok(resource_spans) => Ok(ExportTraceServiceRequest { resource_spans }),
            Err(_) => Err(STATUS_BAD_REQUEST),
        }
    } else {
        match otlp::decode_traces(bytes) {
            Ok(resource_spans) => Ok(ExportTraceServiceRequest { resource_spans }),
            Err(_) => Err(STATUS_BAD_REQUEST),
        }
    }
}

/// Reads a metrics request from its protobuf or JSON form.
fn read_metrics(is_json: bool, bytes: &[u8]) -> (r: Result<ExportMetricsServiceRequest, u16>)
    ensures
        ({
            let read = if is_json {
                otlp::metrics_from_json(bytes@)
            } else {
                otlp::metrics_from_bytes(bytes@)
            };
            match r {
                Ok(req) => read == Some(req.resource_metrics@),
                Err(status) => read is None && status == STATUS_BAD_REQUEST,
            }
        }),
{
    if is_json {
        match otlp::parse_metrics_json(bytes) {
            Ok(resource_metrics) => Ok(ExportMetricsServiceRequest { resource_metrics }),
            Err(_) => Err(STATUS_BAD_REQUEST),
        }
    } else {
        match otlp::decode_metrics(bytes) {
            Ok(resource_metrics) => Ok(ExportMetricsServiceRequest { resource_metrics }),
            Err(_) => Err(STATUS_BAD_REQUEST),
        }
    }
}

/// Reads a logs request from its protobuf or JSON form.
fn read_logs(is_json: bool, bytes: &[u8]) -> (r: Result<ExportLogsServiceRequest, u16>)
    ensures
        ({
            let read = if is_json {
                otlp::logs_from_json(bytes@)
            } else {
                otlp::logs_from_bytes(bytes@)
            };
            match r {
                Ok(req) => read == Some(req.resource_logs@),
                Err(status) => read is None && status == STATUS_BAD_REQUEST,
            }
        }),
{
    if is_json {
        match otlp::parse_logs_json(bytes) {
            Ok(resource_logs) => Ok(ExportLogsServiceRequest { resource_logs }),
            Err(_) => Err(STATUS_BAD_REQUEST),
        }
    } else {
        match otlp::decode_logs(bytes) {
            Ok(resource_logs) => Ok(ExportLogsServiceRequest { resource_logs }),
            Err(_) => Err(STATUS_BAD_REQUEST),
        }
    }
}

/// Reads a trace request, or tells the status to answer where it cannot be read.
/// The headers are those whose values are visible ASCII text.
pub fn parse_traces(
    content_type: Option<&str>,
    content_encoding: Option<&str>,
    body: &[u8],
) -> (r: Result<ExportTraceServiceRequest, u16>)
    ensures
        match r {
            Ok(req) => received_traces(content_type, content_encoding, body@) == Some(
                req.resource_spans@,
            ),
            Err(status) => received_traces(content_type, content_encoding, body@) is None && status
                == STATUS_BAD_REQUEST,
        },
{
    let is_json = header_mentions(content_type, "application/json");
    if header_mentions(content_encoding, "gzip") {
        match decompress_gzip(body) {
            Ok(bytes) => read_traces(is_json, bytes.as_slice()),
            Err(status) => Err(status),
        }
    } else {
        read_traces(is_json, body)
    }
}

/// Reads a metrics request, or tells the status to answer where it cannot be read.
/// The headers are those whose values are visible ASCII text.
pub fn parse_metrics(
    content_type: Option<&str>,
    content_encoding: Option<&str>,
    body: &[u8],
) -> (r: Result<ExportMetricsServiceRequest, u16>)
    ensures
        match r {
            Ok(req) => received_metrics(content_type, content_encoding, body@) == Some(
                req.resource_metrics@,
            ),
            Err(status) => received_metrics(content_type, content_encoding, body@) is None
                && status == STATUS_BAD_REQUEST,
        },
{
    let is_json = header_mentions(content_type, "application/json");
    if header_mentions(content_encoding, "gzip") {
        match decompress_gzip(body) {
            Ok(bytes) => read_metrics(is_json, bytes.as_slice()),
            Err(status) => Err(status),
        }
    } else {
        read_metrics(is_json, body)
    }
}

/// Reads a logs request, or tells the status to answer where it cannot be read. The
/// headers are those whose values are visible ASCII text.
pub fn parse_logs(
    content_type: Option<&str>,
    content_encoding: Option<&str>,
    body: &[u8],
) -> (r: Result<ExportLogsServiceRequest, u16>)
    ensures
        match r {
            Ok(req) => received_logs(content_type, content_encoding, body@) == Some(
                req.resource_logs@,
            ),
            Err(status) => received_logs(content_type, content_encoding, body@) is None && status
                == STATUS_BAD_REQUEST,
        },
{
    let is_json = header_mentions(content_type, "application/json");
    if header_mentions(content_encoding, "gzip") {
        match decompress_gzip(body) {
            Ok(bytes) => read_logs(is_json, bytes.as_slice()),
            Err(status) => Err(status),
        }
    } else {
        read_logs(is_json, body)
    }
}

/// What became of a message that was put into a channel.
#[derive(Debug, Clone, Copy, PartialEq, Eq, Structural)]
pub enum Delivery {
    /// It was taken in.
    Accepted,
    /// The channel was full.
    Full,
    /// Nobody reads the channel any more.
    Closed,
}

/// The status to answer for a delivery: a full channel signals backpressure.
pub open spec fn status_of(delivery: Delivery) -> u16 {
    match delivery {
        Delivery::Accepted => STATUS_OK,
        Delivery::Full => STATUS_SERVICE_UNAVAILABLE,
        Delivery::Closed => STATUS_INTERNAL_SERVER_ERROR,
    }
}

/// Tells the status to answer for a delivery.
pub fn delivery_status(delivery: Delivery) -> (status: u16)
    ensures
        status == status_of(delivery),
{
    match delivery {
        Delivery::Accepted => STATUS_OK,
        Delivery::Full => STATUS_SERVICE_UNAVAILABLE,
        Delivery::Closed => STATUS_INTERNAL_SERVER_ERROR,
    }
}

/// Health check response.
#[derive(Debug, Clone, Copy)]
pub struct HealthResponse {
    /// Status of the receiver ("ready" or "starting").
    pub status: &'static str,
    /// Number of signals received.
    pub signals_received: u64,
}

/// Error returned when a flush operation fails.
#[non_exhaustive]
#[derive(Debug, Clone, Copy, PartialEq, Eq, Structural)]
pub enum FlushError {
    /// The flush operation timed out.
    Timeout,
}

impl FlushError {
    /// The error in words.
    pub fn message(&self) -> (s: &'static str)
        ensures
            s@ == "flush operation timed out"@,
    {
        "flush operation timed out"
    }
}

/// Handle for interacting with a running OTLP receiver.
#[derive(Debug)]
pub struct ReceiverHandle {
    port: u16,
    signals_received: u64,
}

impl ReceiverHandle {
    /// The port that the receiver listens on.
    pub closed spec fn bound_port(&self) -> u16 {
        self.port
    }

    /// The number of signals received, modulo what can be counted.
    pub closed spec fn received(&self) -> u64 {
        self.signals_received
    }

    /// A handle for a receiver that listens on the given port.
    pub fn new(port: u16) -> (h: Self)
        ensures
            h.bound_port() == port,
            h.received() == 0,
    {
        ReceiverHandle { port, signals_received: 0 }
    }

    /// Returns the port the receiver is listening on.
    pub fn port(&self) -> (port: u16)
        ensures
            port == self.bound_port(),
    {
        self.port
    }

    /// Returns the URL for the OTLP HTTP receiver.
    pub fn url(&self) -> (s: String)
        ensures
            s@ == "http://127.0.0.1:"@ + text::decimal(self.bound_port() as nat),
    {
        let mut s = "http://127.0.0.1:".to_owned();
        push_decimal(&mut s, self.port as u64);
        s
    }

    /// Returns the number of signals received.
    pub fn signals_received(&self) -> (n: u64)
        ensures
            n == self.received(),
    {
        self.signals_received
    }

    /// Records what became of a signal, and tells the status to answer. A signal
    /// counts as received once it is taken in.
    pub fn record_delivery(&mut self, delivery: Delivery) -> (status: u16)
        ensures
            status == status_of(delivery),
            final(self).bound_port() == old(self).bound_port(),
            final(self).received() == (if delivery != Delivery::Accepted {
                old(self).received()
            } else if old(self).received() == u64::MAX {
                0
            } else {
                (old(self).received() + 1) as u64
            }),
    {
        match delivery {
            Delivery::Accepted => {
                self.signals_received = if self.signals_received == u64::MAX {
                    0
                } else {
                    self.signals_received + 1
                };
            },
            _ => {},
        }
        delivery_status(delivery)
    }

    /// The answer to a health check.
    pub fn health(&self) -> (h: HealthResponse)
        ensures
            h.status@ == "ready"@,
            h.signals_received == self.received(),
    {
        HealthResponse { status: "ready", signals_received: self.signals_received }
    }
}

/// OTLP HTTP receiver for collecting signals.
#[derive(Debug, Clone, Copy)]
pub struct OtlpReceiver {
    /// The configuration.
    pub config: ReceiverConfig,
}

impl OtlpReceiver {
    /// Creates a new OTLP receiver.
    pub fn new(config: ReceiverConfig) -> (r: Self)
        ensures
            r.config == config,
    {
        OtlpReceiver { config }
    }

    /// The port to listen on; nothing where the receiver is disabled.
    pub fn listen_port(&self) -> (r: Option<u16>)
        ensures
            r == (if self.config.http_enabled {
                Some(self.config.http_port)
            } else {
                None
            }),
    {
        if self.config.http_enabled {
            Some(self.config.http_port)
        } else {
            None
        }
    }
}

/// What the exporter compresses, the receiver reads: gzip data that decompresses to
/// a protobuf message is received as that message.
pub proof fn law_compressed_request_is_received(
    content_type: Option<&str>,
    content_encoding: Option<&str>,
    body: Seq<u8>,
    plain: Seq<u8>,
)
    requires
        content_encoding is Some,
        content_encoding->0@ == "gzip"@,
        !mentions(content_type, "application/json"@),
        otlp::gunzip_bytes(body) == Some(plain),
    ensures
        received_traces(content_type, content_encoding, body) == otlp::trace_from_bytes(plain),
        received_metrics(content_type, content_encoding, body) == otlp::metrics_from_bytes(plain),
        received_logs(content_type, content_encoding, body) == otlp::logs_from_bytes(plain),
{
    let s = content_encoding->0@;
    assert(s.subrange(0, "gzip"@.len() as int) =~= "gzip"@);
    assert(s.subrange(0, 0 + "gzip"@.len() as int) == "gzip"@);
}

/// The media type decides how a request is read: as JSON where it mentions that, whatever
/// stands around it, and as protobuf where it does not or there is none.
pub proof fn law_the_media_type_decides(
    content_type: Option<&str>,
    before: Seq<char>,
    after: Seq<char>,
    body: Seq<u8>,
)
    requires
        content_type is Some ==> content_type->0@ == before + "application/json"@ + after,
    ensures
        content_type is Some ==> {
            &&& received_traces(content_type, None, body) == otlp::trace_from_json(body)
            &&& received_metrics(content_type, None, body) == otlp::metrics_from_json(body)
            &&& received_logs(content_type, None, body) == otlp::logs_from_json(body)
        },
        content_type is None ==> {
            &&& received_traces(content_type, None, body) == otlp::trace_from_bytes(body)
            &&& received_metrics(content_type, None, body) == otlp::metrics_from_bytes(body)
            &&& received_logs(content_type, None, body) == otlp::logs_from_bytes(body)
        },
{
    if content_type is Some {
        text::law_a_word_is_found_anywhere(before, "application/json"@, after);
    }
}

/// The encoding decides whether a body is decompressed: where it mentions gzip, and only
/// there. What cannot be decompressed is not received.
pub proof fn law_the_encoding_decides(
    content_type: Option<&str>,
    content_encoding: Option<&str>,
    body: Seq<u8>,
)
    ensures
        content_encoding is None || !text::contains(content_encoding->0@, "gzip"@) ==> {
            &&& plain_body(content_encoding, body) == Some(body)
            &&& received_traces(content_type, content_encoding, body) == received_traces(
                content_type,
                None,
                body,
            )
            &&& received_metrics(content_type, content_encoding, body) == received_metrics(
                content_type,
                None,
                body,
            )
            &&& received_logs(content_type, content_encoding, body) == received_logs(
                content_type,
                None,
                body,
            )
        },
        content_encoding is Some && text::contains(content_encoding->0@, "gzip"@) ==> {
            &&& plain_body(content_encoding, body) == otlp::gunzip_bytes(body)
            &&& otlp::gunzip_bytes(body) is None ==> received_traces(
                content_type,
                content_encoding,
                body,
            ) is None && received_metrics(content_type, content_encoding, body) is None
                && received_logs(content_type, content_encoding, body) is None
        },
{
}

/// A delivered signal is answered with 200, a full channel with 503 so that the sender
/// tries again, and a closed one with 500.
pub proof fn law_a_full_channel_signals_backpressure(delivery: Delivery)
    ensures
        status_of(delivery) == 200 <==> delivery == Delivery::Accepted,
        status_of(delivery) == 503 <==> delivery == Delivery::Full,
        status_of(delivery) == 500 <==> delivery == Delivery::Closed,
{
}

/// A request is received as what it holds, and one that cannot be read is answered with
/// 400.
pub proof fn law_a_request_is_received_as_it_is(
    body: &[u8],
    traces: Result<ExportTraceServiceRequest, u16>,
    metrics: Result<ExportMetricsServiceRequest, u16>,
    logs: Result<ExportLogsServiceRequest, u16>,
    plain: Result<Vec<u8>, u16>,
)
    requires
        call_ensures(parse_traces, (None, None, body), traces),
        call_ensures(parse_metrics, (None, None, body), metrics),
        call_ensures(parse_logs, (None, None, body), logs),
        call_ensures(decompress_gzip, (body,), plain),
    ensures
        traces is Ok ==> otlp::trace_from_bytes(body@) == Some(traces->Ok_0.resource_spans@),
        traces is Err ==> otlp::trace_from_bytes(body@) is None && traces->Err_0 == 400,
        metrics is Ok ==> otlp::metrics_from_bytes(body@) == Some(metrics->Ok_0.resource_metrics@),
        metrics is Err ==> otlp::metrics_from_bytes(body@) is None && metrics->Err_0 == 400,
        logs is Ok ==> otlp::logs_from_bytes(body@) == Some(logs->Ok_0.resource_logs@),
        logs is Err ==> otlp::logs_from_bytes(body@) is None && logs->Err_0 == 400,
        plain is Ok ==> otlp::gunzip_bytes(body@) == Some(plain->Ok_0@),
        plain is Err ==> otlp::gunzip_bytes(body@) is None && plain->Err_0 == 400,
{
}

/// A request whose media type names JSON is read as JSON, whatever stands around the name,
/// and one whose encoding names gzip is unpacked first; what cannot be read is answered
/// with 400.
pub proof fn law_requests_are_read_as_their_headers_say(
    content_type: &str,
    content_encoding: &str,
    before: Seq<char>,
    after: Seq<char>,
    body: &[u8],
    traces: Result<ExportTraceServiceRequest, u16>,
    metrics: Result<ExportMetricsServiceRequest, u16>,
    logs: Result<ExportLogsServiceRequest, u16>,
    packed_traces: Result<ExportTraceServiceRequest, u16>,
    packed_metrics: Result<ExportMetricsServiceRequest, u16>,
    packed_logs: Result<ExportLogsServiceRequest, u16>,
)
    requires
        content_type@ == before + "application/json"@ + after,
        content_encoding@ == before + "gzip"@ + after,
        call_ensures(parse_traces, (Some(content_type), None, body), traces),
        call_ensures(parse_metrics, (Some(content_type), None, body), metrics),
        call_ensures(parse_logs, (Some(content_type), None, body), logs),
        call_ensures(parse_traces, (None, Some(content_encoding), body), packed_traces),
        call_ensures(parse_metrics, (None, Some(content_encoding), body), packed_metrics),
        call_ensures(parse_logs, (None, Some(content_encoding), body), packed_logs),
    ensures
        traces is Ok ==> otlp::trace_from_json(body@) == Some(traces->Ok_0.resource_spans@),
        traces is Err ==> otlp::trace_from_json(body@) is None && traces->Err_0 == 400,
        metrics is Ok ==> otlp::metrics_from_json(body@) == Some(metrics->Ok_0.resource_metrics@),
        metrics is Err ==> otlp::metrics_from_json(body@) is None && metrics->Err_0 == 400,
        logs is Ok ==> otlp::logs_from_json(body@) == Some(logs->Ok_0.resource_logs@),
        logs is Err ==> otlp::logs_from_json(body@) is None && logs->Err_0 == 400,
        otlp::gunzip_bytes(body@) is None ==> packed_traces is Err && packed_metrics is Err
            && packed_logs is Err,
        packed_traces is Ok ==> otlp::trace_from_bytes(otlp::gunzip_bytes(body@)->0) == Some(
            packed_traces->Ok_0.resource_spans@,
        ),
        packed_metrics is Ok ==> otlp::metrics_from_bytes(otlp::gunzip_bytes(body@)->0) == Some(
            packed_metrics->Ok_0.resource_metrics@,
        ),
        packed_logs is Ok ==> otlp::logs_from_bytes(otlp::gunzip_bytes(body@)->0) == Some(
            packed_logs->Ok_0.resource_logs@,
        ),
        packed_traces is Err ==> packed_traces->Err_0 == 400 && (otlp::gunzip_bytes(body@) is None
            || otlp::trace_from_bytes(otlp::gunzip_bytes(body@)->0) is None),
        packed_metrics is Err ==> packed_metrics->Err_0 == 400 && (otlp::gunzip_bytes(body@) is None
            || otlp::metrics_from_bytes(otlp::gunzip_bytes(body@)->0) is None),
        packed_logs is Err ==> packed_logs->Err_0 == 400 && (otlp::gunzip_bytes(body@) is None
            || otlp::logs_from_bytes(otlp::gunzip_bytes(body@)->0) is None),
{
    law_the_media_type_decides(Some(content_type), before, after, body@);
    text::law_a_word_is_found_anywhere(before, "gzip"@, after);
    law_the_encoding_decides(None, Some(content_encoding), body@);
}

/// A signal counts as received once it is taken in, and only then; a health check tells the
/// count.
pub proof fn law_taken_signals_are_counted(
    h: &mut ReceiverHandle,
    delivery: Delivery,
    status: u16,
    health: HealthResponse,
)
    requires
        call_ensures(ReceiverHandle::record_delivery, (h, delivery), status),
        call_ensures(ReceiverHandle::health, (&*final(h),), health),
        old(h).received() < u64::MAX,
    ensures
        delivery == Delivery::Accepted ==> status == 200 && final(h).received() == old(h).received()
            + 1,
        delivery == Delivery::Full ==> status == 503 && final(h).received() == old(h).received(),
        delivery == Delivery::Closed ==> status == 500 && final(h).received() == old(h).received(),
        health.signals_received == final(h).received(),
        health.status@ == "ready"@,
        final(h).bound_port() == old(h).bound_port(),
{
}

} // verus!
