//! SNS event extractor for notification triggers.
//!
//! Extracts trace context from SNS message attributes: what the configured
//! propagator finds there, or else `AWSTraceHeader` in X-Ray format.
use crate::extractor;
use crate::extractor::{
    current_context, lookup_str, names_of, AttributeList, LinkContext, LinkView,
    Setting, TraceContextExtractor,
};
use crate::extractors::http;
use crate::extractors::http::add_attribute;
use crate::extractors::sqs;
use crate::extractors::sqs::{
    add_count, last_of_arn, parse_xray_trace_header, process_name_string,
};
use crate::model;
use crate::model::{KeyValue, ValueView};
use crate::semconv;
use crate::text;
use opentelemetry::trace::TraceContextExt;
use vstd::prelude::*;
use vstd::string::*;

verus! {

/// What the extractor reads of an SNS record.
#[derive(Debug, Clone)]
pub struct SnsRecord {
    /// The ARN of the topic.
    pub topic_arn: String,
    /// The ID of the message.
    pub message_id: String,
    /// The message attributes, by name.
    pub message_attributes: Vec<(String, String)>,
}

/// A batch of SNS records.
#[derive(Debug, Clone)]
pub struct SnsEvent {
    /// The records.
    pub records: Vec<SnsRecord>,
}

/// Gives the propagator message attributes by their exact names.
pub struct SnsMessageAttributeExtractor<'a> {
    /// The message attributes.
    pub attributes: &'a Vec<(String, String)>,
}

impl<'a> opentelemetry::propagation::Extractor for SnsMessageAttributeExtractor<'a> {
    fn get(&self, key: &str) -> Option<&str> {
        lookup_str(self.attributes, key)
    }

    fn keys(&self) -> Vec<&str> {
        names_of(self.attributes)
    }
}

/// Whether some propagator may find this span context, valid or not, in message
/// attributes. Two propagators may differ, so that there may be many.
pub uninterp spec fn may_be_linked(
    attributes: Seq<(Seq<char>, Seq<char>)>,
    link: LinkView,
) -> bool;

/// `opentelemetry::global::get_text_map_propagator`: extracts a span context from
/// message attributes with the propagator that the process has set. It looks them up
/// by their exact names.
///
/// What is claimed is that this came of the attributes. Which of the span contexts
/// that may come of them this is rests on the propagator, and is left unsaid.
#[verifier::external_body]
fn propagate_exact(attributes: &Vec<(String, String)>) -> (link: LinkContext)
    ensures
        may_be_linked(extractor::pair_views(attributes@), link@),
{
    let reader = SnsMessageAttributeExtractor { attributes };
    let context = opentelemetry::global::get_text_map_propagator(|p| p.extract(&reader));
    let span = context.span();
    let found = span.span_context();
    LinkContext {
        trace_id: found.trace_id().to_bytes(),
        span_id: found.span_id().to_bytes(),
        flags: found.trace_flags().to_u8(),
        remote: found.is_remote(),
        trace_state: found.trace_state().header(),
    }
}

/// The link that a record gives: what was propagated, where that is valid, else its
/// trace header's, where it has one that is not empty.
pub open spec fn record_link(record: SnsRecord, propagated: LinkView) -> Option<LinkView> {
    if propagated.valid() {
        Some(propagated)
    } else {
        match extractor::lookup(record.message_attributes@, "AWSTraceHeader"@) {
            Some(header) => if header.len() > 0 {
                sqs::xray_link(header)
            } else {
                None
            },
            None => None,
        }
    }
}

/// The links that records give, in their order, where this was propagated for each.
pub open spec fn record_links(records: Seq<SnsRecord>, propagated: Seq<LinkView>) -> Seq<LinkView>
    decreases records.len(),
{
    if records.len() == 0 {
        Seq::empty()
    } else {
        let links = record_links(records.drop_last(), propagated.drop_last());
        match record_link(records.last(), propagated.last()) {
            Some(l) => links.push(l),
            None => links,
        }
    }
}

/// Whether this may be propagated for the records, one span context for each.
pub open spec fn may_be_propagated(records: Seq<SnsRecord>, propagated: Seq<LinkView>) -> bool {
    &&& propagated.len() == records.len()
    &&& forall|i: int|
        0 <= i < records.len() ==> may_be_linked(
            extractor::pair_views(records[i].message_attributes@),
            #[trigger] propagated[i],
        )
}

impl SnsEvent {
    /// The topic of the first record.
    pub open spec fn topic(self) -> Option<Seq<char>> {
        if self.records@.len() > 0 {
            Some(extractor::name_in_arn(self.records@[0].topic_arn@))
        } else {
            None
        }
    }

    /// The ID of the first message.
    pub open spec fn first_id(self) -> Option<Seq<char>> {
        if self.records@.len() > 0 {
            Some(self.records@[0].message_id@)
        } else {
            None
        }
    }

    /// The attributes of the batch.
    pub open spec fn attributes(self) -> AttributeList {
        let a = http::with_attribute(Seq::empty(), semconv::MESSAGING_SYSTEM@, "aws_sns"@);
        let a = http::with_attribute(a, semconv::MESSAGING_OPERATION_TYPE@, "process"@);
        let a = http::with_optional(a, semconv::MESSAGING_DESTINATION_NAME@, self.topic());
        let a = http::with_optional(a, semconv::MESSAGING_MESSAGE_ID@, self.first_id());
        a.push(
            (
                semconv::MESSAGING_BATCH_MESSAGE_COUNT@,
                ValueView::Int(self.records@.len() as i64),
            ),
        )
    }
}

/// Extractor for SNS notification events.
///
/// SNS events may carry trace context in their message attributes, in the format of
/// the configured propagator or as `AWSTraceHeader`. The first is preferred. Each
/// message's trace context becomes a span link, and none a parent.
#[derive(Clone, Copy, Debug, Default)]
pub struct SnsEventExtractor;

impl SnsEventExtractor {
    /// Creates a new SNS event extractor.
    pub fn new() -> (e: Self)
        ensures
            e == SnsEventExtractor,
    {
        SnsEventExtractor
    }

    /// Extracts the topic name from an SNS topic ARN.
    ///
    /// ARN format: `arn:aws:sns:{region}:{account}:{topic-name}`
    pub fn topic_name_from_arn<'a>(arn: &'a str) -> (r: Option<&'a str>)
        ensures
            text::opt_str_view(r) == Some(extractor::name_in_arn(arn@)),
    {
        Some(last_of_arn(arn))
    }
}

impl TraceContextExtractor<SnsEvent> for SnsEventExtractor {
    open spec fn may_have_parent(
        &self,
        payload: SnsEvent,
        xray: Option<Seq<char>>,
        context: opentelemetry::Context,
    ) -> bool {
        extractor::may_be_active(context)
    }

    open spec fn trigger_of(&self) -> Seq<char> {
        "pubsub"@
    }

    open spec fn name_of(&self, payload: SnsEvent, function_name: Seq<char>) -> Seq<char> {
        sqs::process_name(
            match payload.topic() {
                Some(topic) => topic,
                None => function_name,
            },
        )
    }

    open spec fn attributes_of(&self, payload: SnsEvent) -> AttributeList {
        payload.attributes()
    }

    /// Messages are linked, so the parent is the current context.
    fn extract_context(&self, _payload: &SnsEvent, _xray: Option<&str>) -> (c:
        opentelemetry::Context) {
        current_context()
    }

    fn extract_links(&self, payload: &SnsEvent) -> (links: Vec<LinkContext>)
        ensures
            exists|propagated: Seq<LinkView>|
                may_be_propagated(payload.records@, propagated) && extractor::link_views(links@)
                    == #[trigger] record_links(payload.records@, propagated),
    {
        let mut links: Vec<LinkContext> = Vec::new();
        let ghost records = payload.records@;
        let ghost mut propagated: Seq<LinkView> = Seq::empty();
        let mut i: usize = 0;
        assert(extractor::link_views(links@) =~= record_links(records.take(0), propagated));
        while i < payload.records.len()
            invariant
                i <= payload.records.len(),
                records == payload.records@,
                may_be_propagated(records.take(i as int), propagated),
                extractor::link_views(links@) == record_links(records.take(i as int), propagated),
            decreases payload.records.len() - i,
        {
            let ghost before = links@;
            let found = extract_link_from_record(&payload.records[i]);
            proof {
                let p = choose|p: LinkView|
                    may_be_linked(
                        extractor::pair_views(records[i as int].message_attributes@),
                        p,
                    ) && sqs::opt_link(found) == #[trigger] record_link(records[i as int], p);
                let longer = propagated.push(p);
                assert(records.take(i + 1).drop_last() =~= records.take(i as int));
                assert(longer.drop_last() =~= propagated);
                assert forall|k: int| 0 <= k < i + 1 implies may_be_linked(
                    extractor::pair_views(records.take(i + 1)[k].message_attributes@),
                    #[trigger] longer[k],
                ) by {
                    if k < i {
                        assert(longer[k] == propagated[k]);
                        assert(records.take(i as int)[k] == records.take(i + 1)[k]);
                    }
                }
                propagated = longer;
            }
            if let Some(link) = found {
                links.push(link);
                assert(extractor::link_views(links@) =~= extractor::link_views(before).push(link@));
            }
            i = i + 1;
        }
        assert(records.take(i as int) =~= records);
        links
    }

    fn trigger_type(&self) -> (s: &'static str) {
        "pubsub"
    }

    /// The name is the topic and `process`.
    fn span_name(&self, payload: &SnsEvent, function_name: &str) -> (s: String) {
        if payload.records.len() > 0 {
            process_name_string(last_of_arn(payload.records[0].topic_arn.as_str()))
        } else {
            process_name_string(function_name)
        }
    }

    fn record_attributes(&self, payload: &SnsEvent) -> (list: Vec<KeyValue>) {
        let mut list: Vec<KeyValue> = Vec::new();
        assert(model::attributes_view(list@) =~= Seq::empty());
        add_attribute(&mut list, semconv::MESSAGING_SYSTEM, "aws_sns");
        add_attribute(&mut list, semconv::MESSAGING_OPERATION_TYPE, "process");
        if payload.records.len() > 0 {
            let record = &payload.records[0];
            add_attribute(
                &mut list,
                semconv::MESSAGING_DESTINATION_NAME,
                last_of_arn(record.topic_arn.as_str()),
            );
            add_attribute(&mut list, semconv::MESSAGING_MESSAGE_ID, record.message_id.as_str());
        }
        add_count(
            &mut list,
            semconv::MESSAGING_BATCH_MESSAGE_COUNT,
            payload.records.len() as i64,
        );
        list
    }
}

/// The span link of an SNS record, where this was propagated in its message
/// attributes.
///
/// Prefers what was propagated, and falls back to parsing `AWSTraceHeader` in X-Ray
/// format as a Lambda-specific default.
pub fn link_of_record(record: &SnsRecord, propagated: LinkContext) -> (r: Option<LinkContext>)
    ensures
        sqs::opt_link(r) == record_link(*record, propagated@),
{
    if propagated.is_valid() {
        return Some(propagated);
    }
    match lookup_str(&record.message_attributes, "AWSTraceHeader") {
        Some(header) => {
            if header.is_empty() {
                None
            } else {
                parse_xray_trace_header(header)
            }
        },
        None => None,
    }
}

/// Extracts a span link from an SNS record's message attributes, with the propagator
/// that the process has set.
pub fn extract_link_from_record(record: &SnsRecord) -> (r: Option<LinkContext>)
    ensures
        exists|p: LinkView|
            may_be_linked(extractor::pair_views(record.message_attributes@), p)
                && sqs::opt_link(r) == #[trigger] record_link(*record, p),
{
    let propagated = propagate_exact(&record.message_attributes);
    link_of_record(record, propagated)
}

/// A notification tells its system, that it is processed, the topic and the ID of the first
/// message, and how many there are; each once, and nothing else.
pub proof fn law_a_notification_tells_its_topic(e: SnsEvent)
    ensures
        extractor::tells_exactly(
            e.attributes(),
            seq![
                ("messaging.system"@, Some(ValueView::Text("aws_sns"@))),
                ("messaging.operation.type"@, Some(ValueView::Text("process"@))),
                (
                    "messaging.destination.name"@,
                    if e.records@.len() > 0 {
                        Some(ValueView::Text(extractor::name_in_arn(e.records@[0].topic_arn@)))
                    } else {
                        None
                    },
                ),
                (
                    "messaging.message.id"@,
                    if e.records@.len() > 0 {
                        Some(ValueView::Text(e.records@[0].message_id@))
                    } else {
                        None
                    },
                ),
                (
                    "messaging.batch.message_count"@,
                    Some(ValueView::Int(e.records@.len() as i64)),
                ),
            ],
        ),
{
    let settings: Seq<Setting> = seq![
        ("messaging.system"@, Some(ValueView::Text("aws_sns"@))),
        ("messaging.operation.type"@, Some(ValueView::Text("process"@))),
        (
            "messaging.destination.name"@,
            if e.records@.len() > 0 {
                Some(ValueView::Text(extractor::name_in_arn(e.records@[0].topic_arn@)))
            } else {
                None
            },
        ),
        (
            "messaging.message.id"@,
            if e.records@.len() > 0 {
                Some(ValueView::Text(e.records@[0].message_id@))
            } else {
                None
            },
        ),
        ("messaging.batch.message_count"@, Some(ValueView::Int(e.records@.len() as i64))),
    ];
    sqs::lemma_messaging_names();
    reveal_with_fuel(extractor::listed, 6);
    reveal_with_fuel(extractor::names_differ, 6);
    reveal_with_fuel(extractor::named, 6);
    assert(e.attributes() == extractor::listed(settings, 5));
    extractor::lemma_listed(settings, 5);
    assert(settings.take(5) =~= settings);
}

/// The span of a notification is named by the topic of its first record, or by the
/// function, and `process`; records give links, and no parent.
pub proof fn law_a_notification_is_named_by_its_topic(
    e: SnsEvent,
    function_name: Seq<char>,
    xray: Option<Seq<char>>,
    c: opentelemetry::Context,
)
    ensures
        e.records@.len() > 0 ==> SnsEventExtractor.name_of(e, function_name)
            == extractor::name_in_arn(e.records@[0].topic_arn@) + " process"@,
        e.records@.len() == 0 ==> SnsEventExtractor.name_of(e, function_name) == function_name
            + " process"@,
        SnsEventExtractor.trigger_of() == "pubsub"@,
        SnsEventExtractor.attributes_of(e) == e.attributes(),
        SnsEventExtractor.may_have_parent(e, xray, c) ==> extractor::may_be_active(c),
{
}

/// A record is linked to the span that was propagated with it, where that is valid; else to
/// the one of its X-Ray header, where it has such a header that is not empty; else to none.
pub proof fn law_a_record_prefers_what_was_propagated(record: SnsRecord, propagated: LinkView)
    ensures
        propagated.valid() ==> record_link(record, propagated) == Some(propagated),
        !propagated.valid() ==> ({
            let header = extractor::lookup(record.message_attributes@, "AWSTraceHeader"@);
            &&& header is Some && header->0.len() > 0 ==> record_link(record, propagated)
                == sqs::xray_link(header->0)
            &&& header is None || header->0.len() == 0 ==> record_link(record, propagated) is None
        }),
{
}

/// Each record gives its own link, or none, in the order of the records.
pub proof fn law_each_record_gives_its_link(
    records: Seq<SnsRecord>,
    propagated: Seq<LinkView>,
    record: SnsRecord,
    found: LinkView,
)
    requires
        records.len() == propagated.len(),
    ensures
        record_link(record, found) is Some ==> record_links(
            records.push(record),
            propagated.push(found),
        ) == record_links(records, propagated).push(record_link(record, found)->0),
        record_link(record, found) is None ==> record_links(
            records.push(record),
            propagated.push(found),
        ) == record_links(records, propagated),
        record_links(Seq::empty(), Seq::empty()).len() == 0,
        may_be_propagated(records.push(record), propagated.push(found)) ==> may_be_linked(
            extractor::pair_views(record.message_attributes@),
            found,
        ),
{
    assert(records.push(record).drop_last() =~= records);
    assert(propagated.push(found).drop_last() =~= propagated);
    assert(propagated.push(found)[records.len() as int] == found);
    assert(records.push(record)[records.len() as int] == record);
}

} // verus!
