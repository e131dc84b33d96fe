//! OTLP requests and their encodings.
//!
//! A request is a list of entries, one for each resource. What is inside an entry
//! does not matter to the extension, which carries it from the receiver to the
//! exporter; the entries are therefore the messages of `opentelemetry_proto`,
//! opaque to the contracts.
use flate2::read::GzDecoder;
use flate2::write::GzEncoder;
use opentelemetry_proto::tonic::collector::logs::v1 as logs_collector;
use opentelemetry_proto::tonic::collector::metrics::v1 as metrics_collector;
use opentelemetry_proto::tonic::collector::trace::v1 as trace_collector;
use opentelemetry_proto::tonic::logs::v1::ResourceLogs;
use opentelemetry_proto::tonic::metrics::v1::ResourceMetrics;
use opentelemetry_proto::tonic::trace::v1::ResourceSpans;
use prost::Message;
use std::io::{Read, Write};
use vstd::prelude::*;

verus! {

/// The spans of one resource.
#[verifier::external_type_specification]
#[verifier::external_body]
pub struct ExResourceSpans(opentelemetry_proto::tonic::trace::v1::ResourceSpans);

/// The metrics of one resource.
#[verifier::external_type_specification]
#[verifier::external_body]
pub struct ExResourceMetrics(opentelemetry_proto::tonic::metrics::v1::ResourceMetrics);

/// The log records of one resource.
#[verifier::external_type_specification]
#[verifier::external_body]
pub struct ExResourceLogs(opentelemetry_proto::tonic::logs::v1::ResourceLogs);

/// What prost says of bytes that are no message.
#[verifier::external_type_specification]
#[verifier::external_body]
pub struct ExDecodeError(prost::DecodeError);

/// What serde_json says of text that is no message.
#[verifier::external_type_specification]
#[verifier::external_body]
pub struct ExJsonError(serde_json::Error);

/// What a reader or a writer of the standard library says when it fails.
#[verifier::external_type_specification]
#[verifier::external_body]
pub struct ExIoError(std::io::Error);

/// A request to export trace spans.
#[derive(Debug, Clone)]
pub struct ExportTraceServiceRequest {
    /// The spans, by resource.
    pub resource_spans: Vec<ResourceSpans>,
}

/// A request to export metrics.
#[derive(Debug, Clone)]
pub struct ExportMetricsServiceRequest {
    /// The metrics, by resource.
    pub resource_metrics: Vec<ResourceMetrics>,
}

/// A request to export log records.
#[derive(Debug, Clone)]
pub struct ExportLogsServiceRequest {
    /// The log records, by resource.
    pub resource_logs: Vec<ResourceLogs>,
}

/// The entries of a request of any kind.
pub enum Entries {
    /// The entries of a trace request.
    Traces(Seq<ResourceSpans>),
    /// The entries of a metrics request.
    Metrics(Seq<ResourceMetrics>),
    /// The entries of a logs request.
    Logs(Seq<ResourceLogs>),
}

impl Entries {
    /// The request in protobuf.
    pub open spec fn bytes(self) -> Seq<u8> {
        match self {
            Entries::Traces(entries) => trace_bytes(entries),
            Entries::Metrics(entries) => metrics_bytes(entries),
            Entries::Logs(entries) => logs_bytes(entries),
        }
    }
}

/// A trace request in protobuf: what prost writes for it.
pub uninterp spec fn trace_bytes(entries: Seq<ResourceSpans>) -> Seq<u8>;

/// A metrics request in protobuf: what prost writes for it.
pub uninterp spec fn metrics_bytes(entries: Seq<ResourceMetrics>) -> Seq<u8>;

/// A logs request in protobuf: what prost writes for it.
pub uninterp spec fn logs_bytes(entries: Seq<ResourceLogs>) -> Seq<u8>;

/// The trace request that prost reads from bytes, where they hold one.
pub uninterp spec fn trace_from_bytes(bytes: Seq<u8>) -> Option<Seq<ResourceSpans>>;

/// The metrics request that prost reads from bytes, where they hold one.
pub uninterp spec fn metrics_from_bytes(bytes: Seq<u8>) -> Option<Seq<ResourceMetrics>>;

/// The logs request that prost reads from bytes, where they hold one.
pub uninterp spec fn logs_from_bytes(bytes: Seq<u8>) -> Option<Seq<ResourceLogs>>;

/// The trace request that serde_json reads from JSON text, where it is one.
pub uninterp spec fn trace_from_json(bytes: Seq<u8>) -> Option<Seq<ResourceSpans>>;

/// The metrics request that serde_json reads from JSON text, where it is one.
pub uninterp spec fn metrics_from_json(bytes: Seq<u8>) -> Option<Seq<ResourceMetrics>>;

/// The logs request that serde_json reads from JSON text, where it is one.
pub uninterp spec fn logs_from_json(bytes: Seq<u8>) -> Option<Seq<ResourceLogs>>;

/// The bytes that flate2 makes of others by gzip compression at its default
/// level, where it does not fail.
pub uninterp spec fn gzip_bytes(data: Seq<u8>) -> Option<Seq<u8>>;

/// The bytes that flate2 finds in gzip data, where it is valid.
pub uninterp spec fn gunzip_bytes(data: Seq<u8>) -> Option<Seq<u8>>;

/// `encoded_len_repeated` of prost, on the one field of a trace request (its tag
/// is 1): the length of what is written for it.
#[verifier::external_body]
pub(crate) fn trace_encoded_len(entries: &Vec<ResourceSpans>) -> (n: usize)
    ensures
        n == trace_bytes(entries@).len(),
{
    prost::encoding::message::encoded_len_repeated(1, entries)
}

/// `encoded_len_repeated` of prost, on the one field of a metrics request (its
/// tag is 1): the length of what is written for it.
#[verifier::external_body]
pub(crate) fn metrics_encoded_len(entries: &Vec<ResourceMetrics>) -> (n: usize)
    ensures
        n == metrics_bytes(entries@).len(),
{
    prost::encoding::message::encoded_len_repeated(1, entries)
}

/// `encoded_len_repeated` of prost, on the one field of a logs request (its tag
/// is 1): the length of what is written for it.
#[verifier::external_body]
pub(crate) fn logs_encoded_len(entries: &Vec<ResourceLogs>) -> (n: usize)
    ensures
        n == logs_bytes(entries@).len(),
{
    prost::encoding::message::encoded_len_repeated(1, entries)
}

/// `encode_repeated` of prost, on the one field of a trace request (its tag is
/// 1): writes the request in protobuf.
#[verifier::external_body]
pub(crate) fn encode_traces(entries: &Vec<ResourceSpans>) -> (bytes: Vec<u8>)
    ensures
        bytes@ == trace_bytes(entries@),
{
    let mut bytes = Vec::new();
    prost::encoding::message::encode_repeated(1, entries, &mut bytes);
    bytes
}

/// `encode_repeated` of prost, on the one field of a metrics request (its tag is
/// 1): writes the request in protobuf.
#[verifier::external_body]
pub(crate) fn encode_metrics(entries: &Vec<ResourceMetrics>) -> (bytes: Vec<u8>)
    ensures
        bytes@ == metrics_bytes(entries@),
{
    let mut bytes = Vec::new();
    prost::encoding::message::encode_repeated(1, entries, &mut bytes);
    bytes
}

/// `encode_repeated` of prost, on the one field of a logs request (its tag is 1):
/// writes the request in protobuf.
#[verifier::external_body]
pub(crate) fn encode_logs(entries: &Vec<ResourceLogs>) -> (bytes: Vec<u8>)
    ensures
        bytes@ == logs_bytes(entries@),
{
    let mut bytes = Vec::new();
    prost::encoding::message::encode_repeated(1, entries, &mut bytes);
    bytes
}

/// `Message::decode` of prost for a trace request: reads it from protobuf, or
/// fails where the bytes hold none.
#[verifier::external_body]
pub(crate) fn decode_traces(bytes: &[u8]) -> (r: Result<Vec<ResourceSpans>, prost::DecodeError>)
    ensures
        match r {
            Ok(entries) => trace_from_bytes(bytes@) == Some(entries@),
            Err(_) => trace_from_bytes(bytes@) is None,
        },
{
    trace_collector::ExportTraceServiceRequest::decode(bytes).map(|r| r.resource_spans)
}

/// `Message::decode` of prost for a metrics request: reads it from protobuf, or
/// fails where the bytes hold none.
#[verifier::external_body]
pub(crate) fn decode_metrics(bytes: &[u8]) -> (r: Result<
    Vec<ResourceMetrics>,
    prost::DecodeError,
>)
    ensures
        match r {
            Ok(entries) => metrics_from_bytes(bytes@) == Some(entries@),
            Err(_) => metrics_from_bytes(bytes@) is None,
        },
{
    metrics_collector::ExportMetricsServiceRequest::decode(bytes).map(|r| r.resource_metrics)
}

/// `Message::decode` of prost for a logs request: reads it from protobuf, or fails
/// where the bytes hold none.
#[verifier::external_body]
pub(crate) fn decode_logs(bytes: &[u8]) -> (r: Result<Vec<ResourceLogs>, prost::DecodeError>)
    ensures
        match r {
            Ok(entries) => logs_from_bytes(bytes@) == Some(entries@),
            Err(_) => logs_from_bytes(bytes@) is None,
        },
{
    logs_collector::ExportLogsServiceRequest::decode(bytes).map(|r| r.resource_logs)
}

/// `serde_json::from_slice` for a trace request: reads it from JSON text, or fails
/// where the text is none.
#[verifier::external_body]
pub(crate) fn parse_traces_json(bytes: &[u8]) -> (r: Result<
    Vec<ResourceSpans>,
    serde_json::Error,
>)
    ensures
        match r {
            Ok(entries) => trace_from_json(bytes@) == Some(entries@),
            Err(_) => trace_from_json(bytes@) is None,
        },
{
    serde_json::from_slice::<trace_collector::ExportTraceServiceRequest>(bytes).map(
        |r| r.resource_spans,
    )
}

/// `serde_json::from_slice` for a metrics request: reads it from JSON text, or
/// fails where the text is none.
#[verifier::external_body]
pub(crate) fn parse_metrics_json(bytes: &[u8]) -> (r: Result<
    Vec<ResourceMetrics>,
    serde_json::Error,
>)
    ensures
        match r {
            Ok(entries) => metrics_from_json(bytes@) == Some(entries@),
            Err(_) => metrics_from_json(bytes@) is None,
        },
{
    serde_json::from_slice::<metrics_collector::ExportMetricsServiceRequest>(bytes).map(
        |r| r.resource_metrics,
    )
}

/// `serde_json::from_slice` for a logs request: reads it from JSON text, or fails
/// where the text is none.
#[verifier::external_body]
pub(crate) fn parse_logs_json(bytes: &[u8]) -> (r: Result<Vec<ResourceLogs>, serde_json::Error>)
    ensures
        match r {
            Ok(entries) => logs_from_json(bytes@) == Some(entries@),
            Err(_) => logs_from_json(bytes@) is None,
        },
{
    serde_json::from_slice::<logs_collector::ExportLogsServiceRequest>(bytes).map(
        |r| r.resource_logs,
    )
}

/// `GzEncoder` of flate2 at the default level, written to and finished over a
/// vector: compresses bytes. Decompressing what it gives brings the bytes back.
#[verifier::external_body]
pub(crate) fn gzip(data: &[u8]) -> (r: Result<Vec<u8>, std::io::Error>)
    ensures
        match r {
            Ok(bytes) => gzip_bytes(data@) == Some(bytes@) && gunzip_bytes(bytes@) == Some(data@),
            Err(_) => gzip_bytes(data@) is None,
        },
{
    let mut encoder = GzEncoder::new(Vec::new(), flate2::Compression::default());
    encoder.write_all(data)?;
    encoder.finish()
}

/// `GzDecoder` of flate2, read to its end: decompresses bytes, or fails where they
/// are no valid gzip data.
#[verifier::external_body]
pub(crate) fn gunzip(data: &[u8]) -> (r: Result<Vec<u8>, std::io::Error>)
    ensures
        match r {
            Ok(bytes) => gunzip_bytes(data@) == Some(bytes@),
            Err(_) => gunzip_bytes(data@) is None,
        },
{
    let mut bytes = Vec::new();
    GzDecoder::new(data).read_to_end(&mut bytes)?;
    Ok(bytes)
}

} // verus!
