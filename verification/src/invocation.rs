//! The span of an invocation, as the tracing middleware makes it.
use crate::extractor;
use crate::extractor::{AttributeList, LinkContext, Setting, TraceContextExtractor};
use crate::extractors::http;
use crate::extractors::http::add_attribute;
use crate::extractors::sqs::add_count;
use crate::model;
use crate::model::{kv_string, KeyValue, ValueView};
use crate::semconv;
use crate::text;
use crate::text::split_str;
use vstd::prelude::*;
use vstd::string::*;

verus! {

/// The attribute that holds the ARN by which a function was invoked.
pub const AWS_LAMBDA_INVOKED_ARN: &'static str = "aws.lambda.invoked_arn";

/// What the middleware reads of the context of an invocation.
#[derive(Debug, Clone)]
pub struct LambdaContext {
    /// The request ID.
    pub request_id: String,
    /// The ARN by which the function was invoked.
    pub invoked_function_arn: String,
    /// The name of the function.
    pub function_name: String,
    /// The version of the function.
    pub version: String,
    /// The memory of the function in megabytes.
    pub memory: i32,
}

/// The account in an ARN: its fifth part, where it has so many.
pub open spec fn account_in_arn(arn: Seq<char>) -> Option<Seq<char>> {
    let parts = text::split(arn, ':');
    if parts.len() > 4 {
        Some(parts[4])
    } else {
        None
    }
}

/// The attributes of a context, in a region.
pub open spec fn context_attributes(ctx: LambdaContext, region: Option<Seq<char>>)
    -> AttributeList {
    let a = http::with_attribute(Seq::empty(), semconv::CLOUD_PROVIDER@, "aws"@);
    let a = http::with_attribute(a, semconv::FAAS_NAME@, ctx.function_name@);
    let a = http::with_attribute(a, semconv::FAAS_VERSION@, ctx.version@);
    let a = a.push((semconv::FAAS_MAX_MEMORY@, ValueView::Int((ctx.memory * 1048576) as i64)));
    let a = http::with_optional(a, semconv::CLOUD_REGION@, region);
    let a = http::with_attribute(a, AWS_LAMBDA_INVOKED_ARN@, ctx.invoked_function_arn@);
    http::with_optional(
        a,
        semconv::CLOUD_ACCOUNT_ID@,
        account_in_arn(ctx.invoked_function_arn@),
    )
}

/// The standard attributes of a Lambda context.
pub fn lambda_context_attributes(ctx: &LambdaContext, region: Option<&str>) -> (list: Vec<
    KeyValue,
>)
    ensures
        model::attributes_view(list@) == context_attributes(*ctx, text::opt_str_view(region)),
{
    let mut list: Vec<KeyValue> = Vec::new();
    assert(model::attributes_view(list@) =~= Seq::empty());
    add_attribute(&mut list, semconv::CLOUD_PROVIDER, "aws");
    add_attribute(&mut list, semconv::FAAS_NAME, ctx.function_name.as_str());
    add_attribute(&mut list, semconv::FAAS_VERSION, ctx.version.as_str());
    add_count(&mut list, semconv::FAAS_MAX_MEMORY, ctx.memory as i64 * 1024 * 1024);
    if let Some(region) = region {
        add_attribute(&mut list, semconv::CLOUD_REGION, region);
    }
    add_attribute(&mut list, AWS_LAMBDA_INVOKED_ARN, ctx.invoked_function_arn.as_str());
    let parts = split_str(ctx.invoked_function_arn.as_str(), ':');
    proof {
        assert(text::views(parts@).len() == parts@.len());
        assert(parts@.len() > 4 ==> text::views(parts@)[4] == parts@[4]@);
    }
    if parts.len() > 4 {
        add_attribute(&mut list, semconv::CLOUD_ACCOUNT_ID, parts[4]);
    }
    list
}

/// The span of an invocation before its handler runs: a server span.
#[derive(Debug, Clone)]
pub struct InvocationSpan {
    /// Its name.
    pub name: String,
    /// What triggered the invocation.
    pub trigger: &'static str,
    /// The request ID.
    pub invocation_id: String,
    /// Whether the invocation is a cold start.
    pub coldstart: bool,
    /// The spans that it is linked to.
    pub links: Vec<LinkContext>,
    /// The attributes of the event.
    pub event_attributes: Vec<KeyValue>,
    /// The attributes of the context.
    pub context_attributes: Vec<KeyValue>,
}

/// Makes the span of an invocation out of its event and its context.
pub fn invocation_span<T, E: TraceContextExtractor<T>>(
    extractor: &E,
    payload: &T,
    ctx: &LambdaContext,
    region: Option<&str>,
    coldstart: bool,
) -> (s: InvocationSpan)
    ensures
        s.name@ == extractor.name_of(*payload, ctx.function_name@),
        s.trigger@ == extractor.trigger_of(),
        s.invocation_id@ == ctx.request_id@,
        s.coldstart == coldstart,
        call_ensures(E::extract_links, (extractor, payload), s.links),
        model::attributes_view(s.event_attributes@) == extractor.attributes_of(*payload),
        model::attributes_view(s.context_attributes@) == context_attributes(
            *ctx,
            text::opt_str_view(region),
        ),
{
    InvocationSpan {
        name: extractor.span_name(payload, ctx.function_name.as_str()),
        trigger: extractor.trigger_type(),
        invocation_id: ctx.request_id.clone(),
        coldstart,
        links: extractor.extract_links(payload),
        event_attributes: extractor.record_attributes(payload),
        context_attributes: lambda_context_attributes(ctx, region),
    }
}

/// The attributes that tell how a handler ended.
pub open spec fn outcome(error: Option<Seq<char>>) -> AttributeList {
    match error {
        None => seq![(semconv::OTEL_STATUS_CODE@, ValueView::Text("OK"@))],
        Some(message) => seq![
            (semconv::OTEL_STATUS_CODE@, ValueView::Text("ERROR"@)),
            (semconv::ERROR_MESSAGE@, ValueView::Text(message)),
        ],
    }
}

/// The attributes that tell how a handler ended: with the error that it names, or
/// well where it names none.
pub fn outcome_attributes(error: Option<&str>) -> (list: Vec<KeyValue>)
    ensures
        model::attributes_view(list@) == outcome(text::opt_str_view(error)),
{
    let mut list: Vec<KeyValue> = Vec::new();
    match error {
        None => {
            list.push(kv_string(semconv::OTEL_STATUS_CODE, "OK"));
        },
        Some(message) => {
            list.push(kv_string(semconv::OTEL_STATUS_CODE, "ERROR"));
            list.push(kv_string(semconv::ERROR_MESSAGE, message));
        },
    }
    assert(model::attributes_view(list@) =~= outcome(text::opt_str_view(error)));
    list
}

/// The span of an invocation tells of its function: its name, version, memory in bytes,
/// the ARN by which it was invoked and the account in it, and the region where that is
/// known; each once, and nothing else.
pub proof fn law_a_context_tells_of_its_function(ctx: LambdaContext, region: Option<Seq<char>>)
    ensures
        extractor::tells_exactly(
            context_attributes(ctx, region),
            seq![
                ("cloud.provider"@, Some(ValueView::Text("aws"@))),
                ("faas.name"@, Some(ValueView::Text(ctx.function_name@))),
                ("faas.version"@, Some(ValueView::Text(ctx.version@))),
                ("faas.max_memory"@, Some(ValueView::Int((ctx.memory * 1024 * 1024) as i64))),
                ("cloud.region"@, extractor::text_value(region)),
                ("aws.lambda.invoked_arn"@, Some(ValueView::Text(ctx.invoked_function_arn@))),
                (
                    "cloud.account.id"@,
                    extractor::text_value(account_in_arn(ctx.invoked_function_arn@)),
                ),
            ],
        ),
{
    let settings: Seq<Setting> = seq![
        ("cloud.provider"@, Some(ValueView::Text("aws"@))),
        ("faas.name"@, Some(ValueView::Text(ctx.function_name@))),
        ("faas.version"@, Some(ValueView::Text(ctx.version@))),
        ("faas.max_memory"@, Some(ValueView::Int((ctx.memory * 1024 * 1024) as i64))),
        ("cloud.region"@, extractor::text_value(region)),
        ("aws.lambda.invoked_arn"@, Some(ValueView::Text(ctx.invoked_function_arn@))),
        (
            "cloud.account.id"@,
            extractor::text_value(account_in_arn(ctx.invoked_function_arn@)),
        ),
    ];
    reveal_strlit("cloud.provider");
    reveal_strlit("faas.name");
    reveal_strlit("faas.version");
    reveal_strlit("faas.max_memory");
    reveal_strlit("cloud.region");
    reveal_strlit("aws.lambda.invoked_arn");
    reveal_strlit("cloud.account.id");
    assert("cloud.provider"@.len() == 14);
    assert("faas.name"@.len() == 9);
    assert("faas.version"@.len() == 12 && "faas.version"@[0] == 'f');
    assert("faas.max_memory"@.len() == 15);
    assert("cloud.region"@.len() == 12 && "cloud.region"@[0] == 'c');
    assert("aws.lambda.invoked_arn"@.len() == 22);
    assert("cloud.account.id"@.len() == 16);
    reveal_with_fuel(extractor::listed, 8);
    reveal_with_fuel(extractor::names_differ, 8);
    reveal_with_fuel(extractor::named, 8);
    assert(context_attributes(ctx, region) == extractor::listed(settings, 7));
    extractor::lemma_listed(settings, 7);
    assert(settings.take(7) =~= settings);
}

/// The account in an ARN stands between its fourth colon and the next one; an ARN that is
/// shorter has none.
pub proof fn law_an_arn_has_its_account(
    arn: Seq<char>,
    partition: Seq<char>,
    service: Seq<char>,
    region: Seq<char>,
    account: Seq<char>,
    rest: Seq<char>,
)
    requires
        text::free_of(arn, ':'),
        text::free_of(partition, ':'),
        text::free_of(service, ':'),
        text::free_of(region, ':'),
        text::free_of(account, ':'),
    ensures
        account_in_arn(
            arn.push(':') + (partition.push(':') + (service.push(':') + (region.push(':') + (
            account.push(':') + rest)))),
        ) == Some(account),
        account_in_arn(arn.push(':') + (partition.push(':') + service)) is None,
        account_in_arn(arn) is None,
{
    let e = account.push(':') + rest;
    let d = region.push(':') + e;
    let c = service.push(':') + d;
    let b = partition.push(':') + c;
    text::lemma_split_join(arn, ':', b);
    text::lemma_split_join(partition, ':', c);
    text::lemma_split_join(service, ':', d);
    text::lemma_split_join(region, ':', e);
    text::lemma_split_join(account, ':', rest);
    let all = text::split(arn.push(':') + b, ':');
    assert(all =~= seq![arn, partition, service, region, account] + text::split(rest, ':'));
    text::lemma_split_parts(rest, ':');
    text::lemma_split_join(arn, ':', partition.push(':') + service);
    text::lemma_split_join(partition, ':', service);
    text::lemma_split_single(service, ':');
    text::lemma_split_single(arn, ':');
}

/// A handler that ends well is told as such and nothing more; one that fails with its
/// message.
pub proof fn law_an_outcome_tells_the_error(error: Option<Seq<char>>)
    ensures
        error is None ==> outcome(error) == seq![("otel.status_code"@, ValueView::Text("OK"@))],
        error is Some ==> outcome(error) == seq![
            ("otel.status_code"@, ValueView::Text("ERROR"@)),
            ("error.message"@, ValueView::Text(error->0)),
        ],
{
}

/// The span of an invocation is named, triggered and described by its event, and carries
/// the request ID and the cold start that it was given.
pub proof fn law_an_invocation_span_tells_its_event<T, E: TraceContextExtractor<T>>(
    e: E,
    payload: T,
    ctx: LambdaContext,
    region: Option<&str>,
    coldstart: bool,
    s: InvocationSpan,
)
    requires
        call_ensures(invocation_span::<T, E>, (&e, &payload, &ctx, region, coldstart), s),
    ensures
        s.name@ == e.name_of(payload, ctx.function_name@),
        s.trigger@ == e.trigger_of(),
        s.invocation_id@ == ctx.request_id@,
        s.coldstart == coldstart,
        model::attributes_view(s.event_attributes@) == e.attributes_of(payload),
        s.context_attributes@.len() >= 5,
{
    assert(model::attributes_view(s.context_attributes@).len() == s.context_attributes@.len());
}

/// A handler's end is told by its status, and a failure by its message too.
pub proof fn law_the_end_of_a_handler_is_told(error: Option<&str>, list: Vec<KeyValue>)
    requires
        call_ensures(outcome_attributes, (error,), list),
    ensures
        error is None ==> list@.len() == 1 && list@[0]@ == (
            "otel.status_code"@,
            ValueView::Text("OK"@),
        ),
        error is Some ==> list@.len() == 2 && list@[0]@ == (
            "otel.status_code"@,
            ValueView::Text("ERROR"@),
        ) && list@[1]@ == ("error.message"@, ValueView::Text(error->0@)),
{
    let view = model::attributes_view(list@);
    assert(view.len() == list@.len());
    assert(view[0] == list@[0]@);
    if error is Some {
        assert(view[1] == list@[1]@);
    }
}

} // verus!
