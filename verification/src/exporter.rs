//! OTLP signal exporter with retry and fallback.
//!
//! Which requests are sent where, what a response means, and when a failed export
//! is tried again. Sending is up to the program.
use crate::aggregator::BatchedSignal;
use crate::config::{Compression, ExporterConfig, Protocol};
use crate::otlp;
use crate::otlp::Entries;
use crate::text;
use crate::text::push_decimal;
use crate::time;
use crate::time::{Duration, Moment};
use vstd::prelude::*;
use vstd::string::*;

verus! {

/// The number of attempts to export a batch.
pub const MAX_RETRIES: u32 = 3;

/// The time before the second attempt, in milliseconds; it doubles with each.
pub const INITIAL_BACKOFF_MS: u64 = 50;

/// Result of an export operation.
#[non_exhaustive]
#[derive(Debug, Clone, Copy, PartialEq, Eq, Structural)]
pub enum ExportResult {
    /// Export succeeded.
    Success,
    /// Export failed after retries, data written to stdout.
    Fallback,
    /// Export failed and no data was sent (no endpoint configured).
    Skipped,
}

/// Error during export.
#[non_exhaustive]
#[derive(Debug)]
pub enum ExportError {
    /// HTTP request failed, for the given reason.
    Http(String),
    /// Server returned an error status.
    Status {
        /// HTTP status code returned by server.
        status: u16,
        /// Response body from server.
        body: String,
    },
    /// Encoding failed.
    Encode(std::io::Error),
    /// No endpoint configured.
    NoEndpoint,
}

/// What lies behind an export error.
#[derive(Debug)]
pub enum ExportErrorSource<'a> {
    /// An error of the operating system or of an encoder.
    Io(&'a std::io::Error),
    /// A reason in words.
    Reason(&'a str),
}

impl ExportError {
    /// The error in words, as the contracts see it.
    pub open spec fn words(&self) -> Seq<char> {
        match self {
            ExportError::Http(_) => "HTTP request failed"@,
            ExportError::Status { status, body } => "server returned "@ + text::decimal(
                *status as nat,
            ) + ": "@ + body@,
            ExportError::Encode(_) => "failed to encode request"@,
            ExportError::NoEndpoint => "no endpoint configured"@,
        }
    }

    /// The error in words.
    pub fn message(&self) -> (s: String)
        ensures
            s@ == self.words(),
    {
        match self {
            ExportError::Http(_) => "HTTP request failed".to_owned(),
            ExportError::Status { status, body } => {
                let mut s = "server returned ".to_owned();
                push_decimal(&mut s, *status as u64);
                s.append(": ");
                s.append(body.as_str());
                s
            },
            ExportError::Encode(_) => "failed to encode request".to_owned(),
            ExportError::NoEndpoint => "no endpoint configured".to_owned(),
        }
    }

    /// An error status of the server.
    pub fn status(status: u16, body: String) -> (e: Self)
        ensures
            e == (ExportError::Status { status, body }),
    {
        ExportError::Status { status, body }
    }

    /// A failure to encode a request.
    pub fn encode(source: std::io::Error) -> (e: Self)
        ensures
            e == ExportError::Encode(source),
    {
        ExportError::Encode(source)
    }

    /// What lies behind the error, where something does.
    pub fn source(&self) -> (s: Option<ExportErrorSource<'_>>)
        ensures
            match self {
                ExportError::Http(reason) => s is Some && s->0 is Reason && s->0->Reason_0@
                    == reason@,
                ExportError::Encode(e) => s is Some && s->0 is Io && *s->0->Io_0 == *e,
                _ => s is None,
            },
    {
        match self {
            ExportError::Http(reason) => Some(ExportErrorSource::Reason(reason.as_str())),
            ExportError::Encode(e) => Some(ExportErrorSource::Io(e)),
            _ => None,
        }
    }
}

/// A request to be sent.
#[derive(Debug, Clone)]
pub struct HttpRequest {
    /// Where it is sent.
    pub url: String,
    /// The names and values of its headers.
    pub headers: Vec<(String, String)>,
    /// What it carries.
    pub body: Vec<u8>,
}

/// Headers, as the contracts see them.
pub open spec fn headers_view(headers: Seq<(String, String)>) -> Seq<(Seq<char>, Seq<char>)> {
    headers.map_values(|h: (String, String)| (h.0@, h.1@))
}

/// The path that signals of a kind are sent to.
pub open spec fn signal_path(signals: Entries) -> Seq<char> {
    match signals {
        Entries::Traces(_) => "/v1/traces"@,
        Entries::Metrics(_) => "/v1/metrics"@,
        Entries::Logs(_) => "/v1/logs"@,
    }
}

/// The media type of a protocol.
pub open spec fn media_type(protocol: Protocol) -> Seq<char> {
    match protocol {
        Protocol::Http => "application/x-protobuf"@,
        Protocol::Grpc => "application/grpc"@,
    }
}

/// What is sent for the signals: their encoding, compressed where that is asked
/// for. Nothing where compression fails.
pub open spec fn request_body(signals: Entries, compression: Compression) -> Option<Seq<u8>> {
    match compression {
        Compression::Gzip => otlp::gzip_bytes(signals.bytes()),
        Compression::Uncompressed => Some(signals.bytes()),
    }
}

/// The headers of a request: its media type, those of the configuration in their
/// order, and the compression where there is one.
pub open spec fn request_headers(config: ExporterConfig) -> Seq<(Seq<char>, Seq<char>)> {
    let base = seq![("Content-Type"@, media_type(config.protocol))] + headers_view(
        config.headers.listed(),
    );
    match config.compression {
        Compression::Gzip => base.push(("Content-Encoding"@, "gzip"@)),
        Compression::Uncompressed => base,
    }
}

/// Whether a status code is worth another attempt: the server timed out, is
/// overloaded or has failed.
pub open spec fn retryable(status: u16) -> bool {
    status == 408 || status == 429 || 500 <= status < 600
}

/// Whether a failure is final: the server refused the request for good.
pub open spec fn is_final(error: ExportError) -> bool {
    error is Status && !retryable(error->status)
}

/// OTLP exporter for sending signals to a remote endpoint.
#[derive(Debug)]
pub struct OtlpExporter {
    /// The configuration.
    pub config: ExporterConfig,
}

impl OtlpExporter {
    /// Creates a new OTLP exporter with the given configuration.
    pub fn new(config: ExporterConfig) -> (e: Self)
        ensures
            e.config == config,
    {
        OtlpExporter { config }
    }

    /// Creates a new exporter with default configuration.
    pub fn with_defaults() -> (e: Self)
        ensures
            e.config.endpoint is None,
            e.config.protocol == Protocol::Http,
            e.config.timeout@ == 500_000_000,
            e.config.compression == Compression::Gzip,
            e.config.headers.wf(),
            e.config.headers@ == Map::<Seq<char>, String>::empty(),
    {
        OtlpExporter::new(ExporterConfig::default())
    }

    /// Returns whether an endpoint is configured.
    pub fn has_endpoint(&self) -> (r: bool)
        ensures
            r == (self.config.endpoint is Some),
    {
        self.config.endpoint.is_some()
    }

    /// Returns the configured endpoint URL.
    pub fn endpoint(&self) -> (r: Option<&str>)
        ensures
            text::opt_str_view(r) == text::opt_view(self.config.endpoint),
    {
        match &self.config.endpoint {
            Some(e) => Some(e.as_str()),
            None => None,
        }
    }

    /// Begins to export a batch: the attempts to make, all of them before
    /// `deadline` where there is one. Nothing is exported without an endpoint.
    pub fn begin_export(&self, deadline: Option<Moment>) -> (r: Result<Retry, ExportResult>)
        ensures
            match r {
                Ok(retry) => self.config.endpoint is Some && retry == (Retry {
                    attempts: 0,
                    backoff: retry.backoff,
                    timeout: self.config.timeout,
                    deadline,
                }) && retry.backoff@ == 50_000_000,
                Err(result) => self.config.endpoint is None && result == ExportResult::Skipped,
            },
    {
        if !self.has_endpoint() {
            return Err(ExportResult::Skipped);
        }
        Ok(
            Retry {
                attempts: 0,
                backoff: Duration::from_millis(INITIAL_BACKOFF_MS),
                timeout: self.config.timeout,
                deadline,
            },
        )
    }

    /// Determines if a status code is retryable per OTLP specification.
    ///
    /// Retryable: 408 (Request Timeout), 429 (Too Many Requests), 5xx (Server Errors)
    /// Non-retryable: 400, 401, 403, 404, and other 4xx client errors
    pub fn is_retryable(status: u16) -> (r: bool)
        ensures
            r == retryable(status),
    {
        status == 408 || status == 429 || (500 <= status && status < 600)
    }

    /// The request that exports a batch.
    pub fn request(&self, batch: &BatchedSignal) -> (r: Result<HttpRequest, ExportError>)
        requires
            self.config.headers.wf(),
        ensures
            match r {
                Ok(request) => {
                    &&& self.config.endpoint is Some
                    &&& request.url@ == self.config.endpoint->0@ + signal_path(batch@)
                    &&& headers_view(request.headers@) == request_headers(self.config)
                    &&& request_body(batch@, self.config.compression) == Some(request.body@)
                    &&& self.config.compression == Compression::Gzip ==> otlp::gunzip_bytes(
                        request.body@,
                    ) == Some(batch@.bytes())
                },
                Err(error) => {
                    &&& self.config.endpoint is None ==> error is NoEndpoint
                    &&& self.config.endpoint is Some ==> error is Encode && request_body(
                        batch@,
                        self.config.compression,
                    ) is None
                },
            },
    {
        let endpoint = match &self.config.endpoint {
            Some(e) => e,
            None => {
                return Err(ExportError::NoEndpoint);
            },
        };
        let path = match batch {
            BatchedSignal::Traces(_) => "/v1/traces",
            BatchedSignal::Metrics(_) => "/v1/metrics",
            BatchedSignal::Logs(_) => "/v1/logs",
        };
        let body = match self.encode_request(batch) {
            Ok(body) => body,
            Err(e) => {
                return Err(e);
            },
        };
        let mut url = endpoint.clone();
        url.append(path);
        Ok(HttpRequest { url, headers: self.headers(), body })
    }

    /// The headers of a request.
    fn headers(&self) -> (headers: Vec<(String, String)>)
        requires
            self.config.headers.wf(),
        ensures
            headers_view(headers@) == request_headers(self.config),
    {
        let mut headers: Vec<(String, String)> = Vec::new();
        headers.push(("Content-Type".to_owned(), self.content_type().to_owned()));
        let n: usize = self.config.headers.len();
        let ghost listed = self.config.headers.listed();
        let ghost first = seq![("Content-Type"@, media_type(self.config.protocol))];
        let mut i: usize = 0;
        assert(headers_view(headers@) =~= first + headers_view(listed.take(0)));
        while i < n
            invariant
                i <= n,
                n == listed.len(),
                listed == self.config.headers.listed(),
                headers_view(headers@) == first + headers_view(listed.take(i as int)),
            decreases n - i,
        {
            let entry = self.config.headers.entry(i);
            let ghost before = headers_view(headers@);
            headers.push((entry.0.clone(), entry.1.clone()));
            proof {
                assert(headers_view(headers@) =~= before.push((entry.0@, entry.1@)));
                assert(headers_view(listed.take(i + 1)) =~= headers_view(
                    listed.take(i as int),
                ).push((entry.0@, entry.1@)));
                assert(headers_view(headers@) =~= first + headers_view(listed.take(i + 1)));
            }
            i = i + 1;
        }
        assert(listed.take(n as int) =~= listed);
        if self.config.compression == Compression::Gzip {
            let ghost before = headers_view(headers@);
            headers.push(("Content-Encoding".to_owned(), "gzip".to_owned()));
            assert(headers_view(headers@) =~= before.push(("Content-Encoding"@, "gzip"@)));
        }
        headers
    }

    /// Encodes a batch, and compresses it where that is asked for.
    pub fn encode_request(&self, batch: &BatchedSignal) -> (r: Result<Vec<u8>, ExportError>)
        ensures
            match r {
                Ok(body) => {
                    &&& request_body(batch@, self.config.compression) == Some(body@)
                    &&& self.config.compression == Compression::Gzip ==> otlp::gunzip_bytes(
                        body@,
                    ) == Some(batch@.bytes())
                },
                Err(error) => error is Encode && request_body(batch@, self.config.compression)
                    is None,
            },
    {
        let bytes = match batch {
            BatchedSignal::Traces(req) => otlp::encode_traces(&req.resource_spans),
            BatchedSignal::Metrics(req) => otlp::encode_metrics(&req.resource_metrics),
            BatchedSignal::Logs(req) => otlp::encode_logs(&req.resource_logs),
        };
        match self.config.compression {
            Compression::Gzip => match otlp::gzip(bytes.as_slice()) {
                Ok(body) => Ok(body),
                Err(e) => Err(ExportError::encode(e)),
            },
            Compression::Uncompressed => Ok(bytes),
        }
    }

    /// The media type of the requests.
    pub fn content_type(&self) -> (s: &'static str)
        ensures
            s@ == media_type(self.config.protocol),
    {
        match self.config.protocol {
            Protocol::Http => "application/x-protobuf",
            Protocol::Grpc => "application/grpc",
        }
    }
}

/// What a response means: any status from 200 to 299 is a success.
pub fn interpret_response(status: u16, body: String) -> (r: Result<(), ExportError>)
    ensures
        match r {
            Ok(()) => 200 <= status < 300,
            Err(e) => !(200 <= status < 300) && e == (ExportError::Status { status, body }),
        },
{
    if 200 <= status && status < 300 {
        Ok(())
    } else {
        Err(ExportError::status(status, body))
    }
}

/// The attempts to export one batch.
#[derive(Debug, Clone, Copy, PartialEq, Eq, Structural)]
pub struct Retry {
    /// The number of attempts that failed.
    pub attempts: u32,
    /// The time to wait before the next one.
    pub backoff: Duration,
    /// The time that one attempt may take.
    pub timeout: Duration,
    /// The time by which all attempts must end.
    pub deadline: Option<Moment>,
}

/// What to do after an attempt.
#[derive(Debug)]
pub enum RetryStep {
    /// The batch was exported.
    Succeeded,
    /// Wait, and try again.
    Wait(Duration),
    /// Give up, for the error of the last attempt.
    Failed(ExportError),
}

impl Retry {
    /// Whether there is time for an attempt at `now`.
    pub open spec fn in_time(self, now: nat) -> bool {
        self.deadline is Some ==> now < self.deadline->0@
    }

    /// Whether another attempt follows after one that failed at `now`.
    pub open spec fn goes_on(self, error: ExportError, now: Moment) -> bool {
        &&& !is_final(error)
        &&& self.attempts + 1 < MAX_RETRIES
        &&& self.in_time(now@ + self.backoff@)
    }

    /// The time that an attempt begun at `now` may take; nothing where the deadline
    /// has come.
    pub fn attempt_timeout(&self, now: Moment) -> (r: Option<Duration>)
        ensures
            match r {
                Some(d) => self.in_time(now@) && d@ == (match self.deadline {
                    Some(deadline) => time::least(
                        self.timeout@,
                        time::minus(deadline@, now@),
                    ),
                    None => self.timeout@,
                }),
                None => !self.in_time(now@),
            },
    {
        match self.deadline {
            Some(deadline) => {
                if deadline.reached(now) {
                    None
                } else {
                    Some(self.timeout.shorter(deadline.since(now)))
                }
            },
            None => Some(self.timeout),
        }
    }

    /// What to do after an attempt that ended at `now`.
    ///
    /// A failure is tried again, after a time that doubles, unless the server
    /// refused the request for good, the attempts are used up, or the next one
    /// would come after the deadline.
    pub fn after_attempt(&mut self, outcome: Result<(), ExportError>, now: Moment) -> (step:
        RetryStep)
        requires
            old(self).attempts < MAX_RETRIES,
        ensures
            match outcome {
                Ok(()) => step == RetryStep::Succeeded && *final(self) == *old(self),
                Err(error) => if old(self).goes_on(error, now) {
                    &&& step == RetryStep::Wait(old(self).backoff)
                    &&& final(self).attempts == old(self).attempts + 1
                    &&& final(self).attempts < MAX_RETRIES
                    &&& final(self).backoff@ == time::least(
                        2 * old(self).backoff@,
                        u128::MAX as nat,
                    )
                    &&& final(self).timeout == old(self).timeout
                    &&& final(self).deadline == old(self).deadline
                } else {
                    step == RetryStep::Failed(error) && *final(self) == *old(self)
                },
            },
    {
        let error = match outcome {
            Ok(()) => {
                return RetryStep::Succeeded;
            },
            Err(e) => e,
        };
        let refused = match &error {
            ExportError::Status { status, .. } => !OtlpExporter::is_retryable(*status),
            _ => false,
        };
        let too_late = match self.deadline {
            Some(deadline) => {
                deadline.reached(now) || deadline.since(now).nanos <= self.backoff.nanos
            },
            None => false,
        };
        if refused || self.attempts + 1 >= MAX_RETRIES || too_late {
            return RetryStep::Failed(error);
        }
        let backoff = self.backoff;
        self.attempts = self.attempts + 1;
        self.backoff = self.backoff.doubled();
        RetryStep::Wait(backoff)
    }
}

/// The result of an export whose attempts ended so: where they failed, the batch
/// is written to stdout instead.
pub fn export_result(outcome: &Result<(), ExportError>) -> (r: ExportResult)
    ensures
        r == (if outcome is Ok {
            ExportResult::Success
        } else {
            ExportResult::Fallback
        }),
{
    match outcome {
        Ok(()) => ExportResult::Success,
        Err(_) => ExportResult::Fallback,
    }
}

/// A client error is not tried again, but for a request timeout and too many
/// requests.
pub proof fn law_client_errors_are_final(status: u16, body: String)
    requires
        400 <= status < 500,
        status != 408,
        status != 429,
    ensures
        is_final(ExportError::Status { status, body }),
{
}

/// A server error is never final.
pub proof fn law_server_errors_are_tried_again(status: u16, body: String)
    requires
        500 <= status < 600,
    ensures
        !is_final(ExportError::Status { status, body }),
{
}

/// No attempt follows the third, however it fails.
pub proof fn law_attempts_are_bounded(retry: Retry, error: ExportError, now: Moment)
    requires
        retry.attempts + 1 >= 3,
    ensures
        !retry.goes_on(error, now),
{
}

/// The deadline bounds the export: an attempt begins before it, may last no longer
/// than until it, and no wait reaches it.
pub proof fn law_deadline_bounds_the_export(
    retry: Retry,
    deadline: Moment,
    error: ExportError,
    now: Moment,
)
    requires
        retry.deadline == Some(deadline),
    ensures
        retry.in_time(now@) ==> now@ + time::least(
            retry.timeout@,
            time::minus(deadline@, now@),
        ) <= deadline@,
        retry.goes_on(error, now) ==> now@ + retry.backoff@ < deadline@,
{
}

/// Every kind of signal is sent to its own path.
pub proof fn law_each_kind_has_its_path(signals: Entries)
    ensures
        signals is Traces ==> signal_path(signals) == "/v1/traces"@,
        signals is Metrics ==> signal_path(signals) == "/v1/metrics"@,
        signals is Logs ==> signal_path(signals) == "/v1/logs"@,
{
}

/// A request names its media type first, then carries every configured header in its
/// order, and says that it is gzip data where it is, and only there.
pub proof fn law_a_request_carries_its_headers(config: ExporterConfig, i: int)
    requires
        0 <= i < config.headers.listed().len(),
    ensures
        ({
            let headers = request_headers(config);
            let own = config.headers.listed();
            &&& headers[0].0 == "Content-Type"@
            &&& config.protocol == Protocol::Http ==> headers[0].1 == "application/x-protobuf"@
            &&& config.protocol == Protocol::Grpc ==> headers[0].1 == "application/grpc"@
            &&& headers[1 + i] == (own[i].0@, own[i].1@)
            &&& config.compression == Compression::Gzip ==> headers.len() == own.len() + 2
                && headers.last() == ("Content-Encoding"@, "gzip"@)
            &&& config.compression == Compression::Uncompressed ==> headers.len() == own.len() + 1
        }),
{
}

/// A request without configured headers has its media type, and its compression where
/// there is one.
pub proof fn law_a_request_names_its_media_type(config: ExporterConfig)
    requires
        config.headers.listed().len() == 0,
    ensures
        ({
            let headers = request_headers(config);
            &&& headers[0].0 == "Content-Type"@
            &&& config.protocol == Protocol::Http ==> headers[0].1 == "application/x-protobuf"@
            &&& config.protocol == Protocol::Grpc ==> headers[0].1 == "application/grpc"@
            &&& config.compression == Compression::Gzip ==> headers.len() == 2 && headers[1] == (
                "Content-Encoding"@,
                "gzip"@,
            )
            &&& config.compression == Compression::Uncompressed ==> headers.len() == 1
        }),
{
}

/// What is sent is what was batched: the encoding of these signals, compressed exactly
/// where the configuration asks for it.
pub proof fn law_the_body_is_the_batch(signals: Entries)
    ensures
        request_body(signals, Compression::Uncompressed) == Some(signals.bytes()),
        request_body(signals, Compression::Gzip) == otlp::gzip_bytes(signals.bytes()),
        signals is Traces ==> signals.bytes() == otlp::trace_bytes(signals->Traces_0),
        signals is Metrics ==> signals.bytes() == otlp::metrics_bytes(signals->Metrics_0),
        signals is Logs ==> signals.bytes() == otlp::logs_bytes(signals->Logs_0),
{
}

/// A failure is tried again exactly where the server did not refuse the request for good,
/// fewer than three attempts were made, and the wait ends before the deadline. What is
/// worth another attempt is a timeout, too many requests, a failure of the server, and
/// whatever kept the request from being answered.
pub proof fn law_what_is_tried_again(retry: Retry, error: ExportError, now: Moment)
    ensures
        retry.goes_on(error, now) <==> (error is Status ==> error->status == 408 || error->status
            == 429 || 500 <= error->status <= 599) && retry.attempts < 2 && (retry.deadline is Some
            ==> now@ + retry.backoff@ < retry.deadline->0@),
        !(error is Status) ==> !is_final(error),
{
}

/// Each export error has its words; that of a refusal gives the status and the answer.
pub proof fn law_export_errors_have_their_words(e: ExportError)
    ensures
        e is Http ==> e.words() == "HTTP request failed"@,
        e is Status ==> e.words() == "server returned "@ + text::decimal(e->status as nat) + ": "@
            + e->body@,
        e is Encode ==> e.words() == "failed to encode request"@,
        e is NoEndpoint ==> e.words() == "no endpoint configured"@,
{
}

/// A batch goes to the endpoint, on the path of its kind, and carries what was batched;
/// without an endpoint nothing is exported.
pub proof fn law_a_batch_goes_to_its_path(
    e: OtlpExporter,
    batch: BatchedSignal,
    deadline: Option<Moment>,
    r: Result<HttpRequest, ExportError>,
    begun: Result<Retry, ExportResult>,
)
    requires
        call_ensures(OtlpExporter::request, (&e, &batch), r),
        call_ensures(OtlpExporter::begin_export, (&e, deadline), begun),
    ensures
        e.config.endpoint is None ==> r is Err && r->Err_0 is NoEndpoint && begun is Err
            && begun->Err_0 == ExportResult::Skipped,
        e.config.endpoint is Some ==> begun is Ok && begun->Ok_0.attempts == 0
            && begun->Ok_0.backoff@ == 50_000_000 && begun->Ok_0.timeout == e.config.timeout
            && begun->Ok_0.deadline == deadline,
        r is Ok ==> {
            &&& batch is Traces ==> r->Ok_0.url@ == e.config.endpoint->0@ + "/v1/traces"@
            &&& batch is Metrics ==> r->Ok_0.url@ == e.config.endpoint->0@ + "/v1/metrics"@
            &&& batch is Logs ==> r->Ok_0.url@ == e.config.endpoint->0@ + "/v1/logs"@
            &&& e.config.compression == Compression::Uncompressed ==> r->Ok_0.body@
                == batch@.bytes()
            &&& e.config.compression == Compression::Gzip ==> otlp::gunzip_bytes(r->Ok_0.body@)
                == Some(batch@.bytes())
            &&& r->Ok_0.headers@.len() >= 1 + e.config.headers.listed().len()
        },
        e.config.endpoint is Some && e.config.compression == Compression::Uncompressed ==> r is Ok,
{
    if r is Ok {
        assert(headers_view(r->Ok_0.headers@).len() == r->Ok_0.headers@.len());
    }
}

/// A response from 200 to 299 is a success; any other is an error with its status and what
/// came with it. A success is told as one, and a failure as a fallback.
pub proof fn law_a_response_is_told_by_its_status(
    status: u16,
    body: String,
    r: Result<(), ExportError>,
    told: ExportResult,
)
    requires
        call_ensures(interpret_response, (status, body), r),
        call_ensures(export_result, (&r,), told),
    ensures
        r is Ok <==> 200 <= status <= 299,
        r is Err ==> r->Err_0 == (ExportError::Status { status, body }),
        told == ExportResult::Success <==> 200 <= status <= 299,
        told == ExportResult::Fallback <==> !(200 <= status <= 299),
{
}

/// A failed attempt is followed by another after a wait, which doubles each time, as long
/// as it is worth trying and there is time; else it is the last.
pub proof fn law_failed_attempts_are_spaced_out(
    retry: &mut Retry,
    outcome: Result<(), ExportError>,
    now: Moment,
    step: RetryStep,
)
    requires
        call_ensures(Retry::after_attempt, (retry, outcome, now), step),
        2 * old(retry).backoff@ <= u128::MAX,
    ensures
        outcome is Ok ==> step is Succeeded,
        outcome is Err ==> ({
            let again = (outcome->Err_0 is Status ==> outcome->Err_0->status == 408
                || outcome->Err_0->status == 429 || 500 <= outcome->Err_0->status <= 599) && old(retry).attempts < 2 && (old(retry).deadline is Some ==> now@ + old(retry).backoff@ < old(retry).deadline->0@);
            &&& again ==> step is Wait && step->Wait_0 == old(retry).backoff && final(retry).attempts == old(retry).attempts + 1 && final(retry).backoff@ == 2 * old(retry).backoff@
            &&& !again ==> step is Failed && step->Failed_0 == outcome->Err_0
        }),
{
    if outcome is Err {
        law_what_is_tried_again(*old(retry), outcome->Err_0, now);
    }
}

/// An attempt may take its timeout, but no longer than until the deadline; none begins once
/// that has come.
pub proof fn law_an_attempt_ends_by_the_deadline(retry: Retry, now: Moment, r: Option<Duration>)
    requires
        call_ensures(Retry::attempt_timeout, (&retry, now), r),
    ensures
        retry.deadline is None ==> r is Some && r->0@ == retry.timeout@,
        retry.deadline is Some && now@ >= retry.deadline->0@ ==> r is None,
        retry.deadline is Some && now@ < retry.deadline->0@ ==> r is Some && r->0@
            <= retry.timeout@ && now@ + r->0@ <= retry.deadline->0@ && (r->0@ == retry.timeout@
            || now@ + r->0@ == retry.deadline->0@),
{
}

/// An exporter that is told nothing has nowhere to send to, speaks HTTP, packs what it
/// sends, and waits for half a second.
pub proof fn law_a_default_exporter_has_no_endpoint(e: OtlpExporter)
    requires
        call_ensures(OtlpExporter::with_defaults, (), e),
    ensures
        e.config.endpoint is None,
        e.config.protocol == Protocol::Http,
        e.config.compression == Compression::Gzip,
        e.config.timeout@ == 500 * 1_000_000,
        e.config.headers@.dom() == Set::<Seq<char>>::empty(),
{
    assert(e.config.headers@.dom() =~= Set::<Seq<char>>::empty());
}

} // verus!
