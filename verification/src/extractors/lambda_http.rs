//! Extractor for requests of the `lambda_http` crate.
//!
//! Handles all HTTP event types that it supports: API Gateway REST API (v1), API
//! Gateway HTTP API (v2), Application Load Balancer and API Gateway WebSocket.
use crate::extractor;
use crate::extractor::{
    current_context, extract_from_headers, AttributeList, Setting,
    TraceContextExtractor,
};
use crate::extractors::http;
use crate::extractors::http::{
    add_attribute, add_header, add_optional, attributes_v1, attributes_v2, join_name,
    span_name_v1, span_name_v2, ApiGatewayV1Extractor, ApiGatewayV2Extractor,
    HttpRequestV1, HttpRequestV2,
};
use crate::model;
use crate::model::{KeyValue, ValueView};
use crate::semconv;
use crate::text;
use vstd::prelude::*;
use vstd::string::*;

verus! {

/// What the extractor reads of a request from an Application Load Balancer.
#[derive(Debug, Clone)]
pub struct AlbRequest {
    /// The HTTP method.
    pub method: String,
    /// The path.
    pub path: Option<String>,
    /// The headers: their names in lower case, and their first values, as far as
    /// these are visible ASCII text.
    pub headers: Vec<(String, String)>,
}

impl AlbRequest {
    /// The attributes of the request.
    pub open spec fn attributes(self) -> AttributeList {
        let a = http::with_attribute(Seq::empty(), semconv::HTTP_REQUEST_METHOD@, self.method@);
        let a = http::with_optional(a, semconv::URL_PATH@, text::opt_view(self.path));
        let a = http::with_attribute(a, semconv::URL_SCHEME@, "https"@);
        let a = http::with_optional(
            a,
            semconv::USER_AGENT_ORIGINAL@,
            extractor::lookup(self.headers@, "user-agent"@),
        );
        http::with_optional(
            a,
            semconv::SERVER_ADDRESS@,
            extractor::lookup(self.headers@, "host"@),
        )
    }
}

/// What the extractor reads of a WebSocket request.
#[derive(Debug, Clone)]
pub struct WebSocketRequest {
    /// The route.
    pub route_key: Option<String>,
    /// The headers: their names in lower case, and their first values, as far as
    /// these are visible ASCII text.
    pub headers: Vec<(String, String)>,
}

/// A request in one of the forms that Lambda receives.
#[derive(Debug, Clone)]
pub enum LambdaRequest {
    /// From an API Gateway REST API.
    ApiGatewayV1(HttpRequestV1),
    /// From an API Gateway HTTP API.
    ApiGatewayV2(HttpRequestV2),
    /// From an Application Load Balancer.
    Alb(AlbRequest),
    /// From an API Gateway WebSocket.
    WebSocket(WebSocketRequest),
    /// From something else.
    Other,
}

impl LambdaRequest {
    /// The headers of the request, where its form is known.
    pub open spec fn headers(self) -> Option<Seq<(Seq<char>, Seq<char>)>> {
        match self {
            LambdaRequest::ApiGatewayV1(r) => Some(extractor::pair_views(r.headers@)),
            LambdaRequest::ApiGatewayV2(r) => Some(extractor::pair_views(r.headers@)),
            LambdaRequest::Alb(r) => Some(extractor::pair_views(r.headers@)),
            LambdaRequest::WebSocket(r) => Some(extractor::pair_views(r.headers@)),
            LambdaRequest::Other => None,
        }
    }
}

/// The attributes of a load balancer's request.
pub fn attributes_alb(event: &AlbRequest) -> (list: Vec<KeyValue>)
    ensures
        model::attributes_view(list@) == event.attributes(),
{
    let mut list: Vec<KeyValue> = Vec::new();
    assert(model::attributes_view(list@) =~= Seq::empty());
    add_attribute(&mut list, semconv::HTTP_REQUEST_METHOD, event.method.as_str());
    add_optional(&mut list, semconv::URL_PATH, &event.path);
    add_attribute(&mut list, semconv::URL_SCHEME, "https");
    add_header(&mut list, semconv::USER_AGENT_ORIGINAL, &event.headers, "user-agent");
    add_header(&mut list, semconv::SERVER_ADDRESS, &event.headers, "host");
    list
}

/// Extractor for `lambda_http` requests.
///
/// Uses the globally configured OpenTelemetry propagator for trace context
/// extraction, and falls back to the X-Ray header of the environment if no trace
/// headers are found.
#[derive(Clone, Copy, Debug, Default)]
pub struct LambdaHttpExtractor;

impl LambdaHttpExtractor {
    /// Creates a new extractor.
    pub fn new() -> (e: Self)
        ensures
            e == LambdaHttpExtractor,
    {
        LambdaHttpExtractor
    }
}

impl TraceContextExtractor<LambdaRequest> for LambdaHttpExtractor {
    open spec fn may_have_parent(
        &self,
        payload: LambdaRequest,
        xray: Option<Seq<char>>,
        context: opentelemetry::Context,
    ) -> bool {
        match payload.headers() {
            Some(headers) => extractor::may_be_parent(headers, xray, context),
            None => extractor::may_be_active(context),
        }
    }

    open spec fn trigger_of(&self) -> Seq<char> {
        "http"@
    }

    open spec fn name_of(&self, payload: LambdaRequest, function_name: Seq<char>) -> Seq<char> {
        match payload {
            LambdaRequest::ApiGatewayV1(r) => http::method_and_route(
                r.method@,
                r.route(function_name),
            ),
            LambdaRequest::ApiGatewayV2(r) => http::method_and_route(
                r.method@,
                r.route(function_name),
            ),
            LambdaRequest::Alb(r) => http::method_and_route(
                r.method@,
                match r.path {
                    Some(path) => path@,
                    None => "/"@,
                },
            ),
            LambdaRequest::WebSocket(r) => http::method_and_route(
                "WebSocket"@,
                match r.route_key {
                    Some(route) => route@,
                    None => "$default"@,
                },
            ),
            LambdaRequest::Other => function_name,
        }
    }

    open spec fn attributes_of(&self, payload: LambdaRequest) -> AttributeList {
        match payload {
            LambdaRequest::ApiGatewayV1(r) => r.attributes(),
            LambdaRequest::ApiGatewayV2(r) => r.attributes(),
            LambdaRequest::Alb(r) => r.attributes(),
            LambdaRequest::WebSocket(_) => http::with_attribute(
                Seq::empty(),
                semconv::URL_SCHEME@,
                "wss"@,
            ),
            LambdaRequest::Other => Seq::empty(),
        }
    }

    fn extract_context(&self, payload: &LambdaRequest, xray: Option<&str>) -> (c:
        opentelemetry::Context) {
        match payload {
            LambdaRequest::ApiGatewayV1(r) => extract_from_headers(&r.headers, xray),
            LambdaRequest::ApiGatewayV2(r) => extract_from_headers(&r.headers, xray),
            LambdaRequest::Alb(r) => extract_from_headers(&r.headers, xray),
            LambdaRequest::WebSocket(r) => extract_from_headers(&r.headers, xray),
            LambdaRequest::Other => current_context(),
        }
    }

    fn trigger_type(&self) -> (s: &'static str) {
        "http"
    }

    /// The name is the method and the route.
    fn span_name(&self, payload: &LambdaRequest, function_name: &str) -> (s: String) {
        match payload {
            LambdaRequest::ApiGatewayV1(r) => span_name_v1(r, function_name),
            LambdaRequest::ApiGatewayV2(r) => span_name_v2(r, function_name),
            LambdaRequest::Alb(r) => match &r.path {
                Some(path) => join_name(r.method.as_str(), path.as_str()),
                None => join_name(r.method.as_str(), "/"),
            },
            LambdaRequest::WebSocket(r) => match &r.route_key {
                Some(route) => join_name("WebSocket", route.as_str()),
                None => join_name("WebSocket", "$default"),
            },
            LambdaRequest::Other => function_name.to_owned(),
        }
    }

    fn record_attributes(&self, payload: &LambdaRequest) -> (list: Vec<KeyValue>) {
        match payload {
            LambdaRequest::ApiGatewayV1(r) => attributes_v1(r),
            LambdaRequest::ApiGatewayV2(r) => attributes_v2(r),
            LambdaRequest::Alb(r) => attributes_alb(r),
            LambdaRequest::WebSocket(_) => {
                let mut list: Vec<KeyValue> = Vec::new();
                assert(model::attributes_view(list@) =~= Seq::empty());
                add_attribute(&mut list, semconv::URL_SCHEME, "wss");
                list
            },
            LambdaRequest::Other => {
                let list: Vec<KeyValue> = Vec::new();
                assert(model::attributes_view(list@) =~= Seq::empty());
                list
            },
        }
    }
}

/// A load balancer's request tells its method, its path and what its headers say of the
/// two sides; each once, and nothing else.
pub proof fn law_a_load_balancer_request_tells_its_path(r: AlbRequest)
    ensures
        extractor::tells_exactly(
            r.attributes(),
            seq![
                ("http.request.method"@, Some(ValueView::Text(r.method@))),
                ("url.path"@, extractor::text_value(text::opt_view(r.path))),
                ("url.scheme"@, Some(ValueView::Text("https"@))),
                (
                    "user_agent.original"@,
                    extractor::text_value(extractor::lookup(r.headers@, "user-agent"@)),
                ),
                (
                    "server.address"@,
                    extractor::text_value(extractor::lookup(r.headers@, "host"@)),
                ),
            ],
        ),
{
    let settings: Seq<Setting> = seq![
        ("http.request.method"@, Some(ValueView::Text(r.method@))),
        ("url.path"@, extractor::text_value(text::opt_view(r.path))),
        ("url.scheme"@, Some(ValueView::Text("https"@))),
        (
            "user_agent.original"@,
            extractor::text_value(extractor::lookup(r.headers@, "user-agent"@)),
        ),
        ("server.address"@, extractor::text_value(extractor::lookup(r.headers@, "host"@))),
    ];
    http::lemma_http_names();
    reveal_with_fuel(extractor::listed, 6);
    reveal_with_fuel(extractor::names_differ, 6);
    reveal_with_fuel(extractor::named, 6);
    assert(r.attributes() == extractor::listed(settings, 5));
    extractor::lemma_listed(settings, 5);
    assert(settings.take(5) =~= settings);
}

/// A request is named as its form asks for: one of API Gateway by method and route, one of
/// a load balancer by method and path, one of a WebSocket by its route, any other by the
/// function.
pub proof fn law_a_request_is_named_by_its_form(r: LambdaRequest, function_name: Seq<char>)
    ensures
        ({
            let name = LambdaHttpExtractor.name_of(r, function_name);
            &&& r is ApiGatewayV1 ==> name == ApiGatewayV1Extractor.name_of(
                r->ApiGatewayV1_0,
                function_name,
            )
            &&& r is ApiGatewayV2 ==> name == ApiGatewayV2Extractor.name_of(
                r->ApiGatewayV2_0,
                function_name,
            )
            &&& r is Alb && r->Alb_0.path is Some ==> name == r->Alb_0.method@ + " "@
                + r->Alb_0.path->0@
            &&& r is Alb && r->Alb_0.path is None ==> name == r->Alb_0.method@ + " "@ + "/"@
            &&& r is WebSocket && r->WebSocket_0.route_key is Some ==> name == "WebSocket"@ + " "@
                + r->WebSocket_0.route_key->0@
            &&& r is WebSocket && r->WebSocket_0.route_key is None ==> name == "WebSocket"@ + " "@
                + "$default"@
            &&& r is Other ==> name == function_name
        }),
        LambdaHttpExtractor.trigger_of() == "http"@,
{
}

/// A request tells the attributes of its form; one of a WebSocket its scheme alone, and one
/// of an unknown form none.
pub proof fn law_a_request_tells_its_form(r: LambdaRequest)
    ensures
        ({
            let list = LambdaHttpExtractor.attributes_of(r);
            &&& r is ApiGatewayV1 ==> list == r->ApiGatewayV1_0.attributes()
            &&& r is ApiGatewayV2 ==> list == r->ApiGatewayV2_0.attributes()
            &&& r is Alb ==> list == r->Alb_0.attributes()
            &&& r is WebSocket ==> list == seq![("url.scheme"@, ValueView::Text("wss"@))]
            &&& r is Other ==> list.len() == 0
        }),
{
    if r is WebSocket {
        assert(LambdaHttpExtractor.attributes_of(r) =~= seq![
            ("url.scheme"@, ValueView::Text("wss"@)),
        ]);
    }
}

/// The parent of a request's span comes of the headers of its form, or else of the
/// environment; one of an unknown form has the active context.
pub proof fn law_a_request_gives_its_headers(
    r: LambdaRequest,
    xray: Option<Seq<char>>,
    c: opentelemetry::Context,
)
    ensures
        ({
            let may = LambdaHttpExtractor.may_have_parent(r, xray, c);
            &&& r is ApiGatewayV1 ==> may == extractor::may_be_parent(
                extractor::pair_views(r->ApiGatewayV1_0.headers@),
                xray,
                c,
            )
            &&& r is ApiGatewayV2 ==> may == extractor::may_be_parent(
                extractor::pair_views(r->ApiGatewayV2_0.headers@),
                xray,
                c,
            )
            &&& r is Alb ==> may == extractor::may_be_parent(
                extractor::pair_views(r->Alb_0.headers@),
                xray,
                c,
            )
            &&& r is WebSocket ==> may == extractor::may_be_parent(
                extractor::pair_views(r->WebSocket_0.headers@),
                xray,
                c,
            )
            &&& r is Other ==> may == extractor::may_be_active(c)
        }),
{
}

} // verus!
