//! HTTP event extractors for API Gateway.
use crate::extractor;
use crate::extractor::{
    extract_from_headers, lookup_str, AttributeList, Setting, TraceContextExtractor,
};
use crate::model;
use crate::model::{kv_string, KeyValue, ValueView};
use crate::semconv;
use crate::text;
use crate::text::{
    all_hex_str, equal, equal_ignore_case, len_bytes, split_once_str, split_str, strip_prefix_str,
};
use crate::tracing;
use crate::tracing::traceparent_string;
use vstd::prelude::*;
use vstd::string::*;

verus! {

/// Type alias for the most common HTTP extractor (API Gateway HTTP API v2).
pub type HttpEventExtractor = ApiGatewayV2Extractor;

/// What the extractor reads of an API Gateway HTTP API (v2) event.
#[derive(Debug, Clone)]
pub struct HttpRequestV2 {
    /// The HTTP method.
    pub method: String,
    /// The route pattern, after the method and a space.
    pub route_key: Option<String>,
    /// The path.
    pub raw_path: Option<String>,
    /// The query string.
    pub raw_query_string: Option<String>,
    /// The headers: their names in lower case, and their first values, as far as
    /// these are visible ASCII text.
    pub headers: Vec<(String, String)>,
    /// The address of the client.
    pub source_ip: Option<String>,
    /// The protocol, such as `HTTP/1.1`.
    pub protocol: Option<String>,
}

/// What the extractor reads of an API Gateway REST API (v1) event.
#[derive(Debug, Clone)]
pub struct HttpRequestV1 {
    /// The HTTP method.
    pub method: String,
    /// The route pattern.
    pub resource: Option<String>,
    /// The path.
    pub path: Option<String>,
    /// The headers: their names in lower case, and their first values, as far as
    /// these are visible ASCII text.
    pub headers: Vec<(String, String)>,
    /// The address of the client.
    pub source_ip: Option<String>,
    /// The protocol, such as `HTTP/1.1`.
    pub protocol: Option<String>,
}

/// The attributes with one more.
pub open spec fn with_attribute(list: AttributeList, key: Seq<char>, value: Seq<char>)
    -> AttributeList {
    list.push((key, ValueView::Text(value)))
}

/// The attributes with one more, where it has a value.
pub open spec fn with_optional(
    list: AttributeList,
    key: Seq<char>,
    value: Option<Seq<char>>,
) -> AttributeList {
    match value {
        Some(v) => with_attribute(list, key, v),
        None => list,
    }
}

/// The part of a route key after the method, or all of it where there is none.
pub open spec fn route_of_key(route_key: Seq<char>) -> Seq<char> {
    match text::split_once(route_key, ' ') {
        Some(p) => p.1,
        None => route_key,
    }
}

/// `s` without any `.0` at its end.
pub open spec fn without_zeros(s: Seq<char>) -> Seq<char>
    decreases s.len(),
{
    if s.len() >= 2 && s[s.len() - 2] == '.' && s[s.len() - 1] == '0' {
        without_zeros(s.take(s.len() - 2))
    } else {
        s
    }
}

/// The version of a protocol: what follows `HTTP/`, without any `.0` at its end; all
/// of it where it does not begin so.
pub open spec fn http_version(protocol: Seq<char>) -> Seq<char> {
    match text::strip_prefix(protocol, "HTTP/"@) {
        Some(v) => without_zeros(v),
        None => protocol,
    }
}

/// The version of an optional protocol.
pub open spec fn opt_version(protocol: Option<Seq<char>>) -> Option<Seq<char>> {
    match protocol {
        Some(p) => Some(http_version(p)),
        None => None,
    }
}

/// The query string, where it is not empty.
pub open spec fn nonempty(s: Option<Seq<char>>) -> Option<Seq<char>> {
    if s is Some && s->0.len() == 0 {
        None
    } else {
        s
    }
}

/// The route of an optional route key.
pub open spec fn opt_route(route_key: Option<Seq<char>>) -> Option<Seq<char>> {
    match route_key {
        Some(k) => Some(route_of_key(k)),
        None => None,
    }
}

/// A name made of a method and a route.
pub open spec fn method_and_route(method: Seq<char>, route: Seq<char>) -> Seq<char> {
    method + " "@ + route
}

impl HttpRequestV2 {
    /// The route of the request: the pattern of the route key, the path, or the name
    /// of the function.
    pub open spec fn route(self, function_name: Seq<char>) -> Seq<char> {
        if self.route_key is Some && text::split_once(self.route_key->0@, ' ') is Some {
            route_of_key(self.route_key->0@)
        } else if self.raw_path is Some {
            self.raw_path->0@
        } else {
            function_name
        }
    }

    /// The attributes of the request.
    pub open spec fn attributes(self) -> AttributeList {
        let a = with_attribute(Seq::empty(), semconv::HTTP_REQUEST_METHOD@, self.method@);
        let a = with_optional(a, semconv::URL_PATH@, text::opt_view(self.raw_path));
        let a = with_optional(a, semconv::HTTP_ROUTE@, opt_route(text::opt_view(self.route_key)));
        let a = with_attribute(a, semconv::URL_SCHEME@, "https"@);
        let a = with_optional(
            a,
            semconv::URL_QUERY@,
            nonempty(text::opt_view(self.raw_query_string)),
        );
        let a = with_optional(
            a,
            semconv::USER_AGENT_ORIGINAL@,
            extractor::lookup(self.headers@, "user-agent"@),
        );
        let a = with_optional(a, semconv::CLIENT_ADDRESS@, text::opt_view(self.source_ip));
        let a = with_optional(a, semconv::SERVER_ADDRESS@, extractor::lookup(self.headers@, "host"@));
        with_optional(
            a,
            semconv::NETWORK_PROTOCOL_VERSION@,
            opt_version(text::opt_view(self.protocol)),
        )
    }
}

impl HttpRequestV1 {
    /// The route of the request: the pattern of the resource, the path, or the name
    /// of the function.
    pub open spec fn route(self, function_name: Seq<char>) -> Seq<char> {
        if self.resource is Some {
            self.resource->0@
        } else if self.path is Some {
            self.path->0@
        } else {
            function_name
        }
    }

    /// The attributes of the request.
    pub open spec fn attributes(self) -> AttributeList {
        let a = with_attribute(Seq::empty(), semconv::HTTP_REQUEST_METHOD@, self.method@);
        let a = with_optional(a, semconv::URL_PATH@, text::opt_view(self.path));
        let a = with_optional(a, semconv::HTTP_ROUTE@, text::opt_view(self.resource));
        let a = with_attribute(a, semconv::URL_SCHEME@, "https"@);
        let a = with_optional(
            a,
            semconv::USER_AGENT_ORIGINAL@,
            extractor::lookup(self.headers@, "user-agent"@),
        );
        let a = with_optional(a, semconv::CLIENT_ADDRESS@, text::opt_view(self.source_ip));
        let a = with_optional(a, semconv::SERVER_ADDRESS@, extractor::lookup(self.headers@, "host"@));
        with_optional(
            a,
            semconv::NETWORK_PROTOCOL_VERSION@,
            opt_version(text::opt_view(self.protocol)),
        )
    }
}

/// Adds an attribute to a list.
pub fn add_attribute(list: &mut Vec<KeyValue>, key: &str, value: &str)
    ensures
        model::attributes_view(final(list)@) == with_attribute(
            model::attributes_view(old(list)@),
            key@,
            value@,
        ),
{
    list.push(kv_string(key, value));
    assert(model::attributes_view(list@) =~= with_attribute(
        model::attributes_view(old(list)@),
        key@,
        value@,
    ));
}

/// Adds an attribute to a list, where it has a value.
pub fn add_optional(list: &mut Vec<KeyValue>, key: &str, value: &Option<String>)
    ensures
        model::attributes_view(final(list)@) == with_optional(
            model::attributes_view(old(list)@),
            key@,
            text::opt_view(*value),
        ),
{
    if let Some(v) = value {
        add_attribute(list, key, v.as_str());
    }
}

/// Adds the value of a header to a list, where there is one.
pub fn add_header(
    list: &mut Vec<KeyValue>,
    key: &str,
    headers: &Vec<(String, String)>,
    name: &str,
)
    ensures
        model::attributes_view(final(list)@) == with_optional(
            model::attributes_view(old(list)@),
            key@,
            extractor::lookup(headers@, name@),
        ),
{
    if let Some(v) = lookup_str(headers, name) {
        add_attribute(list, key, v);
    }
}

/// Adds the version of a protocol to a list, where there is one.
pub fn add_version(list: &mut Vec<KeyValue>, protocol: &Option<String>)
    ensures
        model::attributes_view(final(list)@) == with_optional(
            model::attributes_view(old(list)@),
            semconv::NETWORK_PROTOCOL_VERSION@,
            opt_version(text::opt_view(*protocol)),
        ),
{
    if let Some(p) = protocol {
        add_attribute(list, semconv::NETWORK_PROTOCOL_VERSION, extract_http_version(p.as_str()));
    }
}

/// Makes a name of a method and a route.
pub fn join_name(method: &str, route: &str) -> (s: String)
    ensures
        s@ == method_and_route(method@, route@),
{
    let mut s = method.to_owned();
    s.append(" ");
    s.append(route);
    s
}

/// Names the span of a v2 request.
pub fn span_name_v2(event: &HttpRequestV2, function_name: &str) -> (s: String)
    ensures
        s@ == method_and_route(event.method@, event.route(function_name@)),
{
    if let Some(key) = &event.route_key {
        if let Some((_, route)) = split_once_str(key.as_str(), ' ') {
            return join_name(event.method.as_str(), route);
        }
    }
    match &event.raw_path {
        Some(path) => join_name(event.method.as_str(), path.as_str()),
        None => join_name(event.method.as_str(), function_name),
    }
}

/// Names the span of a v1 request.
pub fn span_name_v1(event: &HttpRequestV1, function_name: &str) -> (s: String)
    ensures
        s@ == method_and_route(event.method@, event.route(function_name@)),
{
    if let Some(resource) = &event.resource {
        return join_name(event.method.as_str(), resource.as_str());
    }
    match &event.path {
        Some(path) => join_name(event.method.as_str(), path.as_str()),
        None => join_name(event.method.as_str(), function_name),
    }
}

/// The attributes of a v2 request.
pub fn attributes_v2(event: &HttpRequestV2) -> (list: Vec<KeyValue>)
    ensures
        model::attributes_view(list@) == event.attributes(),
{
    let mut list: Vec<KeyValue> = Vec::new();
    assert(model::attributes_view(list@) =~= Seq::empty());
    add_attribute(&mut list, semconv::HTTP_REQUEST_METHOD, event.method.as_str());
    add_optional(&mut list, semconv::URL_PATH, &event.raw_path);
    if let Some(key) = &event.route_key {
        match split_once_str(key.as_str(), ' ') {
            Some((_, route)) => {
                add_attribute(&mut list, semconv::HTTP_ROUTE, route);
            },
            None => {
                add_attribute(&mut list, semconv::HTTP_ROUTE, key.as_str());
            },
        }
    }
    add_attribute(&mut list, semconv::URL_SCHEME, "https");
    if let Some(query) = &event.raw_query_string {
        if !query.as_str().is_empty() {
            add_attribute(&mut list, semconv::URL_QUERY, query.as_str());
        }
    }
    add_header(&mut list, semconv::USER_AGENT_ORIGINAL, &event.headers, "user-agent");
    add_optional(&mut list, semconv::CLIENT_ADDRESS, &event.source_ip);
    add_header(&mut list, semconv::SERVER_ADDRESS, &event.headers, "host");
    add_version(&mut list, &event.protocol);
    list
}

/// The attributes of a v1 request.
pub fn attributes_v1(event: &HttpRequestV1) -> (list: Vec<KeyValue>)
    ensures
        model::attributes_view(list@) == event.attributes(),
{
    let mut list: Vec<KeyValue> = Vec::new();
    assert(model::attributes_view(list@) =~= Seq::empty());
    add_attribute(&mut list, semconv::HTTP_REQUEST_METHOD, event.method.as_str());
    add_optional(&mut list, semconv::URL_PATH, &event.path);
    add_optional(&mut list, semconv::HTTP_ROUTE, &event.resource);
    add_attribute(&mut list, semconv::URL_SCHEME, "https");
    add_header(&mut list, semconv::USER_AGENT_ORIGINAL, &event.headers, "user-agent");
    add_optional(&mut list, semconv::CLIENT_ADDRESS, &event.source_ip);
    add_header(&mut list, semconv::SERVER_ADDRESS, &event.headers, "host");
    add_version(&mut list, &event.protocol);
    list
}

/// Extractor for API Gateway HTTP API (v2) events.
///
/// Extracts trace context from HTTP headers using the globally configured
/// OpenTelemetry propagator, or else from the X-Ray header of the environment.
#[derive(Clone, Copy, Debug, Default)]
pub struct ApiGatewayV2Extractor;

impl ApiGatewayV2Extractor {
    /// Creates a new extractor.
    pub fn new() -> (e: Self)
        ensures
            e == ApiGatewayV2Extractor,
    {
        ApiGatewayV2Extractor
    }
}

impl TraceContextExtractor<HttpRequestV2> for ApiGatewayV2Extractor {
    open spec fn may_have_parent(
        &self,
        payload: HttpRequestV2,
        xray: Option<Seq<char>>,
        context: opentelemetry::Context,
    ) -> bool {
        extractor::may_be_parent(extractor::pair_views(payload.headers@), xray, context)
    }

    open spec fn trigger_of(&self) -> Seq<char> {
        "http"@
    }

    open spec fn name_of(&self, payload: HttpRequestV2, function_name: Seq<char>) -> Seq<char> {
        method_and_route(payload.method@, payload.route(function_name))
    }

    open spec fn attributes_of(&self, payload: HttpRequestV2) -> AttributeList {
        payload.attributes()
    }

    fn extract_context(&self, payload: &HttpRequestV2, xray: Option<&str>) -> (c:
        opentelemetry::Context) {
        extract_from_headers(&payload.headers, xray)
    }

    fn trigger_type(&self) -> (s: &'static str) {
        "http"
    }

    /// The name is the method and the route.
    fn span_name(&self, payload: &HttpRequestV2, function_name: &str) -> (s: String) {
        span_name_v2(payload, function_name)
    }

    fn record_attributes(&self, payload: &HttpRequestV2) -> (list: Vec<KeyValue>) {
        attributes_v2(payload)
    }
}

/// Extractor for API Gateway REST API (v1) events.
///
/// Similar to v2 but handles the different event structure.
#[derive(Clone, Copy, Debug, Default)]
pub struct ApiGatewayV1Extractor;

impl ApiGatewayV1Extractor {
    /// Creates a new extractor.
    pub fn new() -> (e: Self)
        ensures
            e == ApiGatewayV1Extractor,
    {
        ApiGatewayV1Extractor
    }
}

impl TraceContextExtractor<HttpRequestV1> for ApiGatewayV1Extractor {
    open spec fn may_have_parent(
        &self,
        payload: HttpRequestV1,
        xray: Option<Seq<char>>,
        context: opentelemetry::Context,
    ) -> bool {
        extractor::may_be_parent(extractor::pair_views(payload.headers@), xray, context)
    }

    open spec fn trigger_of(&self) -> Seq<char> {
        "http"@
    }

    open spec fn name_of(&self, payload: HttpRequestV1, function_name: Seq<char>) -> Seq<char> {
        method_and_route(payload.method@, payload.route(function_name))
    }

    open spec fn attributes_of(&self, payload: HttpRequestV1) -> AttributeList {
        payload.attributes()
    }

    fn extract_context(&self, payload: &HttpRequestV1, xray: Option<&str>) -> (c:
        opentelemetry::Context) {
        extract_from_headers(&payload.headers, xray)
    }

    fn trigger_type(&self) -> (s: &'static str) {
        "http"
    }

    /// The name is the method and the route.
    fn span_name(&self, payload: &HttpRequestV1, function_name: &str) -> (s: String) {
        span_name_v1(payload, function_name)
    }

    fn record_attributes(&self, payload: &HttpRequestV1) -> (list: Vec<KeyValue>) {
        attributes_v1(payload)
    }
}

/// Extracts the HTTP version from a protocol string.
///
/// Input formats: "HTTP/1.1", "HTTP/2.0", "HTTP/2", etc.
/// Returns: "1.1", "2", etc. (just the version part)
pub fn extract_http_version<'a>(protocol: &'a str) -> (r: &'a str)
    ensures
        r@ == http_version(protocol@),
{
    match strip_prefix_str(protocol, "HTTP/") {
        Some(v) => {
            let c = text::chars(v);
            let mut n: usize = c.len();
            assert(v@.take(n as int) =~= v@);
            while n >= 2 && c[n - 2] == '.' && c[n - 1] == '0'
                invariant
                    n <= c.len(),
                    c@ == v@,
                    without_zeros(v@.take(n as int)) == without_zeros(v@),
                decreases n,
            {
                assert(v@.take(n as int).take(n - 2) =~= v@.take(n - 2));
                n = n - 2;
            }
            let r = v.substring_char(0, n);
            assert(r@ =~= v@.take(n as int));
            r
        },
        None => protocol,
    }
}

/// The components of a trace that the parts of an X-Ray header have given so far.
pub struct TraceParts {
    /// The trace ID of the last Root, where it gives one.
    pub trace_id: Option<Seq<char>>,
    /// The last Parent.
    pub parent: Option<Seq<char>>,
    /// Whether a part says that the trace is sampled.
    pub sampled: bool,
}

/// The trace ID of an X-Ray Root of version 1: its time and its random part, where
/// they are 32 hexadecimal digits together.
pub open spec fn xray_trace_id(root: Seq<char>) -> Option<Seq<char>> {
    let parts = text::split(root, '-');
    if parts.len() == 3 && parts[0] == "1"@ && (parts[1] + parts[2]).len() == 32 && text::all_hex(
        parts[1] + parts[2],
    ) {
        Some(parts[1] + parts[2])
    } else {
        None
    }
}

/// The components after one more part of the header.
pub open spec fn with_trace_part(parts: TraceParts, part: Seq<char>) -> TraceParts {
    match text::strip_prefix(part, "Root="@) {
        Some(root) => TraceParts { trace_id: xray_trace_id(root), ..parts },
        None => match text::strip_prefix(part, "Parent="@) {
            Some(parent) => TraceParts { parent: Some(parent), ..parts },
            None => if part == "Sampled=1"@ {
                TraceParts { sampled: true, ..parts }
            } else {
                parts
            },
        },
    }
}

/// The components that a list of parts gives.
pub open spec fn trace_parts(list: Seq<Seq<char>>) -> TraceParts
    decreases list.len(),
{
    if list.len() == 0 {
        TraceParts { trace_id: None, parent: None, sampled: false }
    } else {
        with_trace_part(trace_parts(list.drop_last()), list.last())
    }
}

/// The traceparent of an X-Ray header, where it names a trace and a parent of 16
/// bytes.
pub open spec fn xray_traceparent(xray: Seq<char>) -> Option<Seq<char>> {
    let p = trace_parts(text::split(xray, ';'));
    match (p.trace_id, p.parent) {
        (Some(trace_id), Some(parent)) => if text::byte_len(parent) == 16 {
            Some(tracing::traceparent(trace_id, parent, p.sampled))
        } else {
            None
        },
        _ => None,
    }
}

/// The parts of a trace that an X-Ray header gives, taken in one after another.
pub struct TracePartsReader {
    /// The trace ID of the last Root, where it gives one.
    pub trace_id: Option<String>,
    /// The last Parent.
    pub parent: Option<String>,
    /// Whether a part says that the trace is sampled.
    pub sampled: bool,
}

impl View for TracePartsReader {
    type V = TraceParts;

    open spec fn view(&self) -> TraceParts {
        TraceParts {
            trace_id: text::opt_view(self.trace_id),
            parent: text::opt_view(self.parent),
            sampled: self.sampled,
        }
    }
}

impl TracePartsReader {
    /// A reader that has taken in nothing.
    pub fn new() -> (r: Self)
        ensures
            r@ == trace_parts(Seq::empty()),
    {
        TracePartsReader { trace_id: None, parent: None, sampled: false }
    }

    /// Takes in a part of the header.
    pub fn take(&mut self, part: &str)
        ensures
            final(self)@ == with_trace_part(old(self)@, part@),
    {
        if let Some(root) = strip_prefix_str(part, "Root=") {
            self.trace_id = parse_xray_trace_id(root);
        } else if let Some(parent) = strip_prefix_str(part, "Parent=") {
            self.parent = Some(parent.to_owned());
        } else if equal(part, "Sampled=1") {
            self.sampled = true;
        }
    }
}

/// Converts X-Ray trace header to W3C traceparent format.
///
/// X-Ray: `Root=1-{epoch}-{random};Parent={span-id};Sampled=1`
/// W3C: `00-{trace-id}-{parent-id}-{flags}`
pub fn convert_xray_to_traceparent(xray: &str) -> (r: Option<String>)
    ensures
        text::opt_view(r) == xray_traceparent(xray@),
{
    let parts = split_str(xray, ';');
    let ghost all = text::views(parts@);
    let mut reader = TracePartsReader::new();
    let mut i: usize = 0;
    assert(all.take(0) =~= Seq::<Seq<char>>::empty());
    while i < parts.len()
        invariant
            i <= parts.len(),
            all == text::views(parts@),
            reader@ == trace_parts(all.take(i as int)),
        decreases parts.len() - i,
    {
        proof {
            assert(all.take(i + 1).drop_last() =~= all.take(i as int));
            assert(all.take(i + 1).last() == parts@[i as int]@);
        }
        reader.take(parts[i]);
        i = i + 1;
    }
    assert(all.take(i as int) =~= all);
    match (&reader.trace_id, &reader.parent) {
        (Some(trace), Some(parent)) => {
            if len_bytes(parent.as_str()) != 16 {
                return None;
            }
            Some(traceparent_string(trace.as_str(), parent.as_str(), reader.sampled))
        },
        _ => None,
    }
}

/// Parses X-Ray trace ID format to 32-character hex string.
///
/// X-Ray format: `1-{epoch_hex}-{random_hex}`
/// OTel format: `{epoch_hex}{random_hex}` (32 chars total)
pub fn parse_xray_trace_id(root: &str) -> (r: Option<String>)
    ensures
        text::opt_view(r) == xray_trace_id(root@),
{
    let parts = split_str(root, '-');
    proof {
        assert(text::views(parts@).len() == parts@.len());
    }
    if parts.len() != 3 {
        return None;
    }
    proof {
        assert(text::views(parts@)[0] == parts@[0]@);
        assert(text::views(parts@)[1] == parts@[1]@);
        assert(text::views(parts@)[2] == parts@[2]@);
    }
    if !equal(parts[0], "1") {
        return None;
    }
    let mut trace_id = parts[1].to_owned();
    trace_id.append(parts[2]);
    if !all_hex_str(trace_id.as_str()) {
        return None;
    }
    proof {
        text::lemma_hex_bytes_of_chars(trace_id@);
    }
    if len_bytes(trace_id.as_str()) == 32 {
        Some(trace_id)
    } else {
        None
    }
}

/// Adapter to read a traceparent from X-Ray environment variable format.
#[derive(Debug, Clone)]
pub struct XRayEnvExtractor {
    /// The traceparent, where the variable gives one.
    pub traceparent: Option<String>,
}

/// A traceparent under its name, where there is one.
pub open spec fn traceparent_carrier(traceparent: Option<Seq<char>>) -> Seq<
    (Seq<char>, Seq<char>),
> {
    match traceparent {
        Some(t) => seq![("traceparent"@, t)],
        None => Seq::empty(),
    }
}

/// What the propagator is given of an X-Ray header.
pub open spec fn xray_carrier(xray: Seq<char>) -> Seq<(Seq<char>, Seq<char>)> {
    traceparent_carrier(xray_traceparent(xray))
}

/// Whether a key is that of the traceparent, in any case.
pub open spec fn is_traceparent_key(key: Seq<char>) -> bool {
    text::ascii_lower_all(key) == text::ascii_lower_all("traceparent"@)
}

impl XRayEnvExtractor {
    /// Reads the value of the environment variable.
    pub fn new(xray: &str) -> (e: Self)
        ensures
            text::opt_view(e.traceparent) == xray_traceparent(xray@),
    {
        XRayEnvExtractor { traceparent: convert_xray_to_traceparent(xray) }
    }

    /// The value of a key: the traceparent has one, in any case.
    pub fn get(&self, key: &str) -> (r: Option<&str>)
        ensures
            text::opt_str_view(r) == (if is_traceparent_key(key@) {
                text::opt_view(self.traceparent)
            } else {
                None
            }),
    {
        if equal_ignore_case(key, "traceparent") {
            match &self.traceparent {
                Some(t) => Some(t.as_str()),
                None => None,
            }
        } else {
            None
        }
    }

    /// The traceparent under its name, where there is one.
    pub fn carrier(&self) -> (list: Vec<(String, String)>)
        ensures
            extractor::pair_views(list@) == traceparent_carrier(text::opt_view(self.traceparent)),
    {
        let mut list: Vec<(String, String)> = Vec::new();
        if let Some(t) = &self.traceparent {
            list.push(("traceparent".to_owned(), t.clone()));
        }
        assert(extractor::pair_views(list@) =~= traceparent_carrier(
            text::opt_view(self.traceparent),
        ));
        list
    }

    /// The keys that have a value.
    pub fn keys(&self) -> (keys: Vec<&'static str>)
        ensures
            text::views(keys@) == (if self.traceparent is Some {
                seq!["traceparent"@]
            } else {
                Seq::empty()
            }),
    {
        let mut keys: Vec<&'static str> = Vec::new();
        if self.traceparent.is_some() {
            keys.push("traceparent");
            assert(text::views(keys@) =~= seq!["traceparent"@]);
        } else {
            assert(text::views(keys@) =~= Seq::<Seq<char>>::empty());
        }
        keys
    }
}

/// The names of HTTP attributes are told apart by their lengths and their first letters.
pub proof fn lemma_http_names()
    ensures
        "http.request.method"@.len() == 19,
        "http.request.method"@[0] == 'h',
        "url.path"@.len() == 8,
        "http.route"@.len() == 10,
        "http.route"@[0] == 'h',
        "url.scheme"@.len() == 10,
        "url.scheme"@[0] == 'u',
        "url.query"@.len() == 9,
        "user_agent.original"@.len() == 19,
        "user_agent.original"@[0] == 'u',
        "client.address"@.len() == 14,
        "client.address"@[0] == 'c',
        "server.address"@.len() == 14,
        "server.address"@[0] == 's',
        "network.protocol.version"@.len() == 24,
{
    reveal_strlit("http.request.method");
    reveal_strlit("url.path");
    reveal_strlit("http.route");
    reveal_strlit("url.scheme");
    reveal_strlit("url.query");
    reveal_strlit("user_agent.original");
    reveal_strlit("client.address");
    reveal_strlit("server.address");
    reveal_strlit("network.protocol.version");
}

/// A REST API request tells its method, its path under `url.path`, its resource pattern
/// under `http.route`, and what its headers and its context say of the two sides; each
/// once, and nothing else.
pub proof fn law_a_v1_request_tells_its_path_and_route(r: HttpRequestV1)
    ensures
        extractor::tells_exactly(
            r.attributes(),
            seq![
                ("http.request.method"@, Some(ValueView::Text(r.method@))),
                ("url.path"@, extractor::text_value(text::opt_view(r.path))),
                ("http.route"@, extractor::text_value(text::opt_view(r.resource))),
                ("url.scheme"@, Some(ValueView::Text("https"@))),
                (
                    "user_agent.original"@,
                    extractor::text_value(extractor::lookup(r.headers@, "user-agent"@)),
                ),
                ("client.address"@, extractor::text_value(text::opt_view(r.source_ip))),
                (
                    "server.address"@,
                    extractor::text_value(extractor::lookup(r.headers@, "host"@)),
                ),
                (
                    "network.protocol.version"@,
                    match r.protocol {
                        Some(p) => Some(ValueView::Text(http_version(p@))),
                        None => None,
                    },
                ),
            ],
        ),
{
    let settings: Seq<Setting> = seq![
        ("http.request.method"@, Some(ValueView::Text(r.method@))),
        ("url.path"@, extractor::text_value(text::opt_view(r.path))),
        ("http.route"@, extractor::text_value(text::opt_view(r.resource))),
        ("url.scheme"@, Some(ValueView::Text("https"@))),
        (
            "user_agent.original"@,
            extractor::text_value(extractor::lookup(r.headers@, "user-agent"@)),
        ),
        ("client.address"@, extractor::text_value(text::opt_view(r.source_ip))),
        ("server.address"@, extractor::text_value(extractor::lookup(r.headers@, "host"@))),
        (
            "network.protocol.version"@,
            match r.protocol {
                Some(p) => Some(ValueView::Text(http_version(p@))),
                None => None,
            },
        ),
    ];
    lemma_http_names();
    reveal_with_fuel(extractor::listed, 9);
    reveal_with_fuel(extractor::names_differ, 9);
    reveal_with_fuel(extractor::named, 9);
    assert(r.attributes() == extractor::listed(settings, 8));
    extractor::lemma_listed(settings, 8);
    assert(settings.take(8) =~= settings);
}

/// An HTTP API request tells its method, its path under `url.path`, the pattern of its
/// route key under `http.route`, its query where that is not empty, and what its headers
/// and its context say of the two sides; each once, and nothing else.
pub proof fn law_a_v2_request_tells_its_path_and_route(r: HttpRequestV2)
    ensures
        extractor::tells_exactly(
            r.attributes(),
            seq![
                ("http.request.method"@, Some(ValueView::Text(r.method@))),
                ("url.path"@, extractor::text_value(text::opt_view(r.raw_path))),
                (
                    "http.route"@,
                    match r.route_key {
                        Some(key) => Some(ValueView::Text(route_of_key(key@))),
                        None => None,
                    },
                ),
                ("url.scheme"@, Some(ValueView::Text("https"@))),
                (
                    "url.query"@,
                    if r.raw_query_string is Some && r.raw_query_string->0@.len() > 0 {
                        Some(ValueView::Text(r.raw_query_string->0@))
                    } else {
                        None
                    },
                ),
                (
                    "user_agent.original"@,
                    extractor::text_value(extractor::lookup(r.headers@, "user-agent"@)),
                ),
                ("client.address"@, extractor::text_value(text::opt_view(r.source_ip))),
                (
                    "server.address"@,
                    extractor::text_value(extractor::lookup(r.headers@, "host"@)),
                ),
                (
                    "network.protocol.version"@,
                    match r.protocol {
                        Some(p) => Some(ValueView::Text(http_version(p@))),
                        None => None,
                    },
                ),
            ],
        ),
{
    let settings: Seq<Setting> = seq![
        ("http.request.method"@, Some(ValueView::Text(r.method@))),
        ("url.path"@, extractor::text_value(text::opt_view(r.raw_path))),
        (
            "http.route"@,
            match r.route_key {
                Some(key) => Some(ValueView::Text(route_of_key(key@))),
                None => None,
            },
        ),
        ("url.scheme"@, Some(ValueView::Text("https"@))),
        (
            "url.query"@,
            if r.raw_query_string is Some && r.raw_query_string->0@.len() > 0 {
                Some(ValueView::Text(r.raw_query_string->0@))
            } else {
                None
            },
        ),
        (
            "user_agent.original"@,
            extractor::text_value(extractor::lookup(r.headers@, "user-agent"@)),
        ),
        ("client.address"@, extractor::text_value(text::opt_view(r.source_ip))),
        ("server.address"@, extractor::text_value(extractor::lookup(r.headers@, "host"@))),
        (
            "network.protocol.version"@,
            match r.protocol {
                Some(p) => Some(ValueView::Text(http_version(p@))),
                None => None,
            },
        ),
    ];
    lemma_http_names();
    reveal_with_fuel(extractor::listed, 10);
    reveal_with_fuel(extractor::names_differ, 10);
    reveal_with_fuel(extractor::named, 10);
    assert(r.attributes() == extractor::listed(settings, 9));
    extractor::lemma_listed(settings, 9);
    assert(settings.take(9) =~= settings);
}

/// The route of a key is the pattern after its method, and a key without a method is
/// itself the route.
pub proof fn law_a_route_follows_its_method(method: Seq<char>, route: Seq<char>)
    requires
        text::free_of(method, ' '),
    ensures
        route_of_key(method + " "@ + route) == route,
        route_of_key(method) == method,
{
    reveal_strlit(" ");
    assert(method + " "@ + route =~= method.push(' ') + route);
    text::lemma_split_join(method, ' ', route);
    text::lemma_split_single(method, ' ');
}

/// The span of a REST API request is named by its method and its resource pattern, by its
/// path where it has no pattern, and by the function where it has neither.
pub proof fn law_a_v1_span_is_named_by_its_route(r: HttpRequestV1, function_name: Seq<char>)
    ensures
        ({
            let name = ApiGatewayV1Extractor.name_of(r, function_name);
            &&& r.resource is Some ==> name == r.method@ + " "@ + r.resource->0@
            &&& r.resource is None && r.path is Some ==> name == r.method@ + " "@ + r.path->0@
            &&& r.resource is None && r.path is None ==> name == r.method@ + " "@ + function_name
        }),
        ApiGatewayV1Extractor.trigger_of() == "http"@,
        ApiGatewayV1Extractor.attributes_of(r) == r.attributes(),
{
}

/// The span of an HTTP API request is named by its method and the pattern of its route key,
/// by its path where the key has no pattern, and by the function where it has neither.
pub proof fn law_a_v2_span_is_named_by_its_route(r: HttpRequestV2, function_name: Seq<char>)
    ensures
        ({
            let name = ApiGatewayV2Extractor.name_of(r, function_name);
            let plain = r.route_key is None || text::free_of(r.route_key->0@, ' ');
            &&& !plain ==> name == r.method@ + " "@ + route_of_key(r.route_key->0@)
            &&& plain && r.raw_path is Some ==> name == r.method@ + " "@ + r.raw_path->0@
            &&& plain && r.raw_path is None ==> name == r.method@ + " "@ + function_name
        }),
        ApiGatewayV2Extractor.trigger_of() == "http"@,
        ApiGatewayV2Extractor.attributes_of(r) == r.attributes(),
{
    if r.route_key is Some {
        let key = r.route_key->0@;
        text::lemma_index_of(key, ' ');
        let i = text::index_of(key, ' ');
        if text::free_of(key, ' ') {
            text::lemma_split_single(key, ' ');
        } else if i >= key.len() {
            assert forall|j: int| 0 <= j < key.len() implies key[j] != ' ' by {}
        }
    }
}

/// The parent of a request's span comes of its own headers, or else of the environment.
pub proof fn law_requests_give_their_headers(
    v1: HttpRequestV1,
    v2: HttpRequestV2,
    xray: Option<Seq<char>>,
    c: opentelemetry::Context,
)
    ensures
        ApiGatewayV1Extractor.may_have_parent(v1, xray, c) == extractor::may_be_parent(
            extractor::pair_views(v1.headers@),
            xray,
            c,
        ),
        ApiGatewayV2Extractor.may_have_parent(v2, xray, c) == extractor::may_be_parent(
            extractor::pair_views(v2.headers@),
            xray,
            c,
        ),
{
}

/// The version of a protocol is what follows `HTTP/`; a minor version of zero is left out,
/// and any other is kept. A protocol that does not begin so is told as it is.
pub proof fn law_a_protocol_gives_its_version(version: Seq<char>, protocol: Seq<char>)
    requires
        version.len() >= 2 ==> version.last() != '0' || version[version.len() - 2] != '.',
        !"HTTP/"@.is_prefix_of(protocol),
    ensures
        http_version("HTTP/"@ + version) == version,
        http_version("HTTP/"@ + (version + ".0"@)) == version,
        http_version(protocol) == protocol,
{
    reveal_strlit("HTTP/");
    reveal_strlit(".0");
    let a = "HTTP/"@ + version;
    assert("HTTP/"@.is_prefix_of(a));
    assert(a.skip(5) =~= version);
    let longer = version + ".0"@;
    let b = "HTTP/"@ + longer;
    assert("HTTP/"@.is_prefix_of(b));
    assert(b.skip(5) =~= longer);
    assert(longer.take(longer.len() - 2) =~= version);
    assert(without_zeros(version) == version);
    assert(longer[longer.len() - 2] == '.' && longer[longer.len() - 1] == '0');
    assert(without_zeros(longer) == without_zeros(version));
}

/// Where an X-Ray header gives a traceparent, the propagator gets that alone, under its
/// name; else it gets nothing.
pub proof fn law_the_environment_gives_a_traceparent(xray: Seq<char>)
    ensures
        xray_traceparent(xray) is Some ==> xray_carrier(xray) == seq![
            ("traceparent"@, xray_traceparent(xray)->0),
        ],
        xray_traceparent(xray) is None ==> xray_carrier(xray).len() == 0,
{
}

/// An X-Ray root of version 1 names the trace of its two parts, where these are 32
/// hexadecimal digits together.
pub proof fn law_a_root_names_its_trace(epoch: Seq<char>, unique: Seq<char>)
    requires
        text::all_hex(epoch),
        text::all_hex(unique),
        epoch.len() + unique.len() == 32,
    ensures
        xray_trace_id("1-"@ + epoch + "-"@ + unique) == Some(epoch + unique),
        xray_trace_id("2-"@ + epoch + "-"@ + unique) is None,
{
    reveal_strlit("1-");
    reveal_strlit("2-");
    reveal_strlit("1");
    reveal_strlit("2");
    reveal_strlit("-");
    assert(text::free_of(epoch, '-')) by {
        assert forall|i: int| 0 <= i < epoch.len() implies epoch[i] != '-' by {
            assert(text::is_hex_digit(epoch[i]));
        }
    }
    assert(text::free_of(unique, '-')) by {
        assert forall|i: int| 0 <= i < unique.len() implies unique[i] != '-' by {
            assert(text::is_hex_digit(unique[i]));
        }
    }
    let rest = epoch.push('-') + unique;
    assert("1-"@ + epoch + "-"@ + unique =~= "1"@.push('-') + rest);
    assert("2-"@ + epoch + "-"@ + unique =~= "2"@.push('-') + rest);
    text::lemma_split_join("1"@, '-', rest);
    text::lemma_split_join("2"@, '-', rest);
    text::lemma_split_join(epoch, '-', unique);
    text::lemma_split_single(unique, '-');
    assert("2"@[0] != "1"@[0]);
    let both = epoch + unique;
    assert forall|i: int| 0 <= i < both.len() implies text::is_hex_digit(#[trigger] both[i]) by {
        if i < epoch.len() {
            assert(both[i] == epoch[i]);
        } else {
            assert(both[i] == unique[i - epoch.len()]);
        }
    }
}

/// A traceparent needs a trace and a parent of sixteen bytes: without either there is
/// none.
pub proof fn law_a_traceparent_needs_both_ids(xray: Seq<char>)
    ensures
        ({
            let p = trace_parts(text::split(xray, ';'));
            &&& xray_traceparent(xray) is Some <==> p.trace_id is Some && p.parent is Some
                && text::byte_len(p.parent->0) == 16
            &&& xray_traceparent(xray) is Some && p.sampled ==> xray_traceparent(xray)->0
                == "00-"@ + p.trace_id->0 + "-"@ + p.parent->0 + "-01"@
            &&& xray_traceparent(xray) is Some && !p.sampled ==> xray_traceparent(xray)->0
                == "00-"@ + p.trace_id->0 + "-"@ + p.parent->0 + "-00"@
        }),
{
    reveal_strlit("-");
    reveal_strlit("01");
    reveal_strlit("00");
    reveal_strlit("-01");
    reveal_strlit("-00");
    let p = trace_parts(text::split(xray, ';'));
    if xray_traceparent(xray) is Some {
        let head = "00-"@ + p.trace_id->0 + "-"@ + p.parent->0;
        assert(head + "-"@ + "01"@ =~= head + "-01"@);
        assert(head + "-"@ + "00"@ =~= head + "-00"@);
    }
}

/// Each part of an X-Ray header sets its own component: `Root=` the trace, `Parent=` the
/// parent, `Sampled=1` that it is sampled. Any other part sets none, and the order of
/// these three does not matter.
pub proof fn law_each_part_sets_its_component(
    parts: TraceParts,
    root: Seq<char>,
    parent: Seq<char>,
    other: Seq<char>,
)
    requires
        !"Root="@.is_prefix_of(other),
        !"Parent="@.is_prefix_of(other),
        other != "Sampled=1"@,
    ensures
        with_trace_part(parts, "Root="@ + root) == (TraceParts {
            trace_id: xray_trace_id(root),
            ..parts
        }),
        with_trace_part(parts, "Parent="@ + parent) == (TraceParts {
            parent: Some(parent),
            ..parts
        }),
        with_trace_part(parts, "Sampled=1"@) == (TraceParts { sampled: true, ..parts }),
        with_trace_part(parts, other) == parts,
{
    reveal_strlit("Root=");
    reveal_strlit("Parent=");
    reveal_strlit("Sampled=1");
    let a = "Root="@ + root;
    let b = "Parent="@ + parent;
    assert("Root="@.is_prefix_of(a));
    assert(a.skip(5) =~= root);
    assert("Parent="@.is_prefix_of(b));
    assert(b.skip(7) =~= parent);
    assert(!"Root="@.is_prefix_of(b)) by {
        assert(b[0] == 'P');
        assert("Root="@[0] == 'R');
    }
    assert(!"Root="@.is_prefix_of("Sampled=1"@)) by {
        assert("Sampled=1"@[0] == 'S');
        assert("Root="@[0] == 'R');
    }
    assert(!"Parent="@.is_prefix_of("Sampled=1"@)) by {
        assert("Sampled=1"@[0] == 'S');
        assert("Parent="@[0] == 'P');
    }
}

/// The attributes of a request say where it went: the path under `url.path`, and the
/// pattern under `http.route`, each once, under no other name's value.
pub proof fn law_attributes_tell_path_and_route(
    v1: HttpRequestV1,
    v2: HttpRequestV2,
    first: Vec<KeyValue>,
    second: Vec<KeyValue>,
)
    requires
        call_ensures(attributes_v1, (&v1,), first),
        call_ensures(attributes_v2, (&v2,), second),
    ensures
        v1.path is Some ==> model::attributes_view(first@).contains(
            ("url.path"@, ValueView::Text(v1.path->0@)),
        ),
        v1.resource is Some ==> model::attributes_view(first@).contains(
            ("http.route"@, ValueView::Text(v1.resource->0@)),
        ),
        v2.raw_path is Some ==> model::attributes_view(second@).contains(
            ("url.path"@, ValueView::Text(v2.raw_path->0@)),
        ),
        v2.route_key is Some ==> model::attributes_view(second@).contains(
            ("http.route"@, ValueView::Text(route_of_key(v2.route_key->0@))),
        ),
        forall|i: int, j: int|
            0 <= i < j < first@.len() ==> (#[trigger] first@[i]).key@ != (#[trigger] first@[j]).key@,
        forall|i: int, j: int|
            0 <= i < j < second@.len() ==> (#[trigger] second@[i]).key@ != (
            #[trigger] second@[j]).key@,
{
    law_a_v1_request_tells_its_path_and_route(v1);
    law_a_v2_request_tells_its_path_and_route(v2);
    let a = model::attributes_view(first@);
    let b = model::attributes_view(second@);
    let sa: Seq<Setting> = seq![
        ("http.request.method"@, Some(ValueView::Text(v1.method@))),
        ("url.path"@, extractor::text_value(text::opt_view(v1.path))),
        ("http.route"@, extractor::text_value(text::opt_view(v1.resource))),
        ("url.scheme"@, Some(ValueView::Text("https"@))),
        (
            "user_agent.original"@,
            extractor::text_value(extractor::lookup(v1.headers@, "user-agent"@)),
        ),
        ("client.address"@, extractor::text_value(text::opt_view(v1.source_ip))),
        ("server.address"@, extractor::text_value(extractor::lookup(v1.headers@, "host"@))),
        (
            "network.protocol.version"@,
            match v1.protocol {
                Some(p) => Some(ValueView::Text(http_version(p@))),
                None => None,
            },
        ),
    ];
    assert(extractor::tells_exactly(a, sa));
    assert(sa[1] == ("url.path"@, extractor::text_value(text::opt_view(v1.path))));
    assert(sa[2] == ("http.route"@, extractor::text_value(text::opt_view(v1.resource))));
    let sb: Seq<Setting> = seq![
        ("http.request.method"@, Some(ValueView::Text(v2.method@))),
        ("url.path"@, extractor::text_value(text::opt_view(v2.raw_path))),
        (
            "http.route"@,
            match v2.route_key {
                Some(key) => Some(ValueView::Text(route_of_key(key@))),
                None => None,
            },
        ),
        ("url.scheme"@, Some(ValueView::Text("https"@))),
        (
            "url.query"@,
            if v2.raw_query_string is Some && v2.raw_query_string->0@.len() > 0 {
                Some(ValueView::Text(v2.raw_query_string->0@))
            } else {
                None
            },
        ),
        (
            "user_agent.original"@,
            extractor::text_value(extractor::lookup(v2.headers@, "user-agent"@)),
        ),
        ("client.address"@, extractor::text_value(text::opt_view(v2.source_ip))),
        ("server.address"@, extractor::text_value(extractor::lookup(v2.headers@, "host"@))),
        (
            "network.protocol.version"@,
            match v2.protocol {
                Some(p) => Some(ValueView::Text(http_version(p@))),
                None => None,
            },
        ),
    ];
    assert(extractor::tells_exactly(b, sb));
    assert(sb[1] == ("url.path"@, extractor::text_value(text::opt_view(v2.raw_path))));
    assert(v2.route_key is Some ==> sb[2] == (
        "http.route"@,
        Some(ValueView::Text(route_of_key(v2.route_key->0@))),
    ));
    assert forall|i: int, j: int| 0 <= i < j < first@.len() implies (
    #[trigger] first@[i]).key@ != (#[trigger] first@[j]).key@ by {
        assert(a[i] == first@[i]@ && a[j] == first@[j]@);
        assert(a[i].0 != a[j].0);
    }
    assert forall|i: int, j: int| 0 <= i < j < second@.len() implies (
    #[trigger] second@[i]).key@ != (#[trigger] second@[j]).key@ by {
        assert(b[i] == second@[i]@ && b[j] == second@[j]@);
        assert(b[i].0 != b[j].0);
    }
}

/// The name of a request's span begins with its method, and goes on with its route.
pub proof fn law_span_names_are_method_and_route(
    v1: HttpRequestV1,
    v2: HttpRequestV2,
    function_name: &str,
    first: String,
    second: String,
)
    requires
        call_ensures(span_name_v1, (&v1, function_name), first),
        call_ensures(span_name_v2, (&v2, function_name), second),
    ensures
        v1.resource is Some ==> first@ == v1.method@ + " "@ + v1.resource->0@,
        v1.resource is None && v1.path is Some ==> first@ == v1.method@ + " "@ + v1.path->0@,
        v1.resource is None && v1.path is None ==> first@ == v1.method@ + " "@ + function_name@,
        v2.route_key is None && v2.raw_path is Some ==> second@ == v2.method@ + " "@
            + v2.raw_path->0@,
        v2.route_key is None && v2.raw_path is None ==> second@ == v2.method@ + " "@
            + function_name@,
        v2.route_key is Some && !text::free_of(v2.route_key->0@, ' ') ==> second@ == v2.method@
            + " "@ + route_of_key(v2.route_key->0@),
{
    law_a_v2_span_is_named_by_its_route(v2, function_name@);
}

/// What the environment's header gives is read under the name of the traceparent, in any
/// case, and under no other.
pub proof fn law_the_environment_is_read_by_its_key(
    xray: &str,
    e: XRayEnvExtractor,
    key: &str,
    r: Option<&str>,
)
    requires
        call_ensures(XRayEnvExtractor::new, (xray,), e),
        call_ensures(XRayEnvExtractor::get, (&e, key), r),
    ensures
        text::ascii_lower_all(key@) == "traceparent"@ ==> text::opt_str_view(r)
            == xray_traceparent(xray@),
        text::ascii_lower_all(key@) != "traceparent"@ ==> r is None,
{
    reveal_strlit("traceparent");
    assert(text::ascii_lower_all("traceparent"@) =~= "traceparent"@);
}

/// What carries the environment's traceparent holds it under its name alone, and nothing
/// where there is none.
pub proof fn law_a_carrier_holds_the_traceparent(
    e: XRayEnvExtractor,
    list: Vec<(String, String)>,
    keys: Vec<&'static str>,
)
    requires
        call_ensures(XRayEnvExtractor::carrier, (&e,), list),
        call_ensures(XRayEnvExtractor::keys, (&e,), keys),
    ensures
        e.traceparent is None ==> list@.len() == 0 && keys@.len() == 0,
        e.traceparent is Some ==> list@.len() == 1 && list@[0].0@ == "traceparent"@ && list@[0].1@
            == e.traceparent->0@ && keys@.len() == 1 && keys@[0]@ == "traceparent"@,
{
    let pairs = extractor::pair_views(list@);
    let names = text::views(keys@);
    assert(pairs.len() == list@.len());
    assert(names.len() == keys@.len());
    if e.traceparent is Some {
        assert(pairs[0] == (list@[0].0@, list@[0].1@));
        assert(names[0] == keys@[0]@);
    }
}

} // verus!
