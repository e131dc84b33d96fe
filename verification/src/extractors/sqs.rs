//! SQS event extractor for message queue triggers.
//!
//! Extracts trace context from SQS message system attributes using the
//! `AWSTraceHeader` attribute in X-Ray format.
use crate::extractor;
use crate::extractor::{
    current_context, lookup_str, AttributeList, LinkContext, LinkView, Setting,
    TraceContextExtractor,
};
use crate::extractors::http;
use crate::extractors::http::{add_attribute, parse_xray_trace_id, TracePartsReader};
use crate::model;
use crate::model::{AnyValue, KeyValue, ValueView};
use crate::semconv;
use crate::text;
use crate::text::{split_str, trim_str};
use crate::tracing;
use vstd::prelude::*;
use vstd::string::*;

verus! {

/// What the extractor reads of an SQS message.
#[derive(Debug, Clone)]
pub struct SqsMessage {
    /// The ID of the message.
    pub message_id: Option<String>,
    /// The ARN of the queue.
    pub event_source_arn: Option<String>,
    /// The system attributes (not the message attributes), by name.
    pub attributes: Vec<(String, String)>,
}

/// A batch of SQS messages.
#[derive(Debug, Clone)]
pub struct SqsEvent {
    /// The messages.
    pub records: Vec<SqsMessage>,
}

/// The components that a list of parts gives, each without white space around it.
pub open spec fn trimmed(list: Seq<Seq<char>>) -> Seq<Seq<char>> {
    list.map_values(|p: Seq<char>| text::trim(p))
}

/// The flags of a trace that is sampled or not.
pub open spec fn sampled_flags(sampled: bool) -> u8 {
    if sampled {
        1
    } else {
        0
    }
}

/// The link context of an X-Ray header: there is one where the header names a trace
/// of 32 hexadecimal digits and a parent of 16.
pub open spec fn xray_link(header: Seq<char>) -> Option<LinkView> {
    let p = http::trace_parts(trimmed(text::split(header, ';')));
    match (p.trace_id, p.parent) {
        (Some(trace_id), Some(parent)) => match (
            tracing::id_bytes(trace_id, 16),
            tracing::id_bytes(parent, 8),
        ) {
            (Some(trace_id), Some(span_id)) => Some(
                LinkView {
                    trace_id,
                    span_id,
                    flags: sampled_flags(p.sampled),
                    remote: true,
                    trace_state: Seq::empty(),
                },
            ),
            _ => None,
        },
        _ => None,
    }
}

/// The optional view of a link context.
pub open spec fn opt_link(l: Option<LinkContext>) -> Option<LinkView> {
    match l {
        Some(c) => Some(c@),
        None => None,
    }
}

/// The link that a message gives: its trace header's, where it has one.
pub open spec fn message_link(message: SqsMessage) -> Option<LinkView> {
    match extractor::lookup(message.attributes@, "AWSTraceHeader"@) {
        Some(header) => xray_link(header),
        None => None,
    }
}

/// The links that messages give, in their order.
pub open spec fn message_links(records: Seq<SqsMessage>) -> Seq<LinkView>
    decreases records.len(),
{
    if records.len() == 0 {
        Seq::empty()
    } else {
        let links = message_links(records.drop_last());
        match message_link(records.last()) {
            Some(l) => links.push(l),
            None => links,
        }
    }
}

impl SqsEvent {
    /// The queue that the first message names.
    pub open spec fn queue(self) -> Option<Seq<char>> {
        if self.records@.len() > 0 && self.records@[0].event_source_arn is Some {
            Some(extractor::name_in_arn(self.records@[0].event_source_arn->0@))
        } else {
            None
        }
    }

    /// The ID of the only message.
    pub open spec fn only_id(self) -> Option<Seq<char>> {
        if self.records@.len() == 1 {
            text::opt_view(self.records@[0].message_id)
        } else {
            None
        }
    }

    /// The attributes of the batch.
    pub open spec fn attributes(self) -> AttributeList {
        let a = http::with_attribute(Seq::empty(), semconv::MESSAGING_SYSTEM@, "aws_sqs"@);
        let a = http::with_attribute(a, semconv::MESSAGING_OPERATION_TYPE@, "process"@);
        let a = http::with_optional(a, semconv::MESSAGING_DESTINATION_NAME@, self.queue());
        let a = a.push(
            (
                semconv::MESSAGING_BATCH_MESSAGE_COUNT@,
                ValueView::Int(self.records@.len() as i64),
            ),
        );
        http::with_optional(a, semconv::MESSAGING_MESSAGE_ID@, self.only_id())
    }
}

/// The name of a span that processes messages.
pub open spec fn process_name(destination: Seq<char>) -> Seq<char> {
    destination + " process"@
}

/// Names a span that processes messages.
pub fn process_name_string(destination: &str) -> (s: String)
    ensures
        s@ == process_name(destination@),
{
    let mut s = destination.to_owned();
    s.append(" process");
    s
}

/// Adds an integer attribute to a list.
pub fn add_count(list: &mut Vec<KeyValue>, key: &str, value: i64)
    ensures
        model::attributes_view(final(list)@) == model::attributes_view(old(list)@).push(
            (key@, ValueView::Int(value)),
        ),
{
    list.push(KeyValue { key: key.to_owned(), value: AnyValue::IntValue(value) });
    assert(model::attributes_view(list@) =~= model::attributes_view(old(list)@).push(
        (key@, ValueView::Int(value)),
    ));
}

/// The part of an ARN after its last colon.
pub fn last_of_arn<'a>(arn: &'a str) -> (r: &'a str)
    ensures
        r@ == extractor::name_in_arn(arn@),
{
    let parts = split_str(arn, ':');
    proof {
        text::lemma_split_parts(arn@, ':');
        assert(text::views(parts@).len() == parts@.len());
        assert(text::views(parts@).last() == parts@.last()@);
    }
    parts[parts.len() - 1]
}

/// Extractor for SQS message events.
///
/// SQS events carry trace context in the `AWSTraceHeader` system attribute
/// using X-Ray format. Messages may come from several traces, so each becomes a
/// span link, and none a parent.
#[derive(Clone, Copy, Debug, Default)]
pub struct SqsEventExtractor;

impl SqsEventExtractor {
    /// Creates a new SQS event extractor.
    pub fn new() -> (e: Self)
        ensures
            e == SqsEventExtractor,
    {
        SqsEventExtractor
    }

    /// Extracts the queue name from an event source ARN.
    ///
    /// ARN format: `arn:aws:sqs:{region}:{account}:{queue-name}`
    pub fn queue_name_from_arn<'a>(arn: &'a str) -> (r: Option<&'a str>)
        ensures
            text::opt_str_view(r) == Some(extractor::name_in_arn(arn@)),
    {
        Some(last_of_arn(arn))
    }

    /// The queue that the first message names.
    fn queue_name<'a>(event: &'a SqsEvent) -> (r: Option<&'a str>)
        ensures
            text::opt_str_view(r) == event.queue(),
    {
        if event.records.len() > 0 {
            if let Some(arn) = &event.records[0].event_source_arn {
                return Self::queue_name_from_arn(arn.as_str());
            }
        }
        None
    }
}

impl TraceContextExtractor<SqsEvent> for SqsEventExtractor {
    open spec fn may_have_parent(
        &self,
        payload: SqsEvent,
        xray: Option<Seq<char>>,
        context: opentelemetry::Context,
    ) -> bool {
        extractor::may_be_active(context)
    }

    open spec fn trigger_of(&self) -> Seq<char> {
        "pubsub"@
    }

    open spec fn name_of(&self, payload: SqsEvent, function_name: Seq<char>) -> Seq<char> {
        process_name(
            match payload.queue() {
                Some(queue) => queue,
                None => function_name,
            },
        )
    }

    open spec fn attributes_of(&self, payload: SqsEvent) -> AttributeList {
        payload.attributes()
    }

    /// Messages are linked, so the parent is the current context.
    fn extract_context(&self, _payload: &SqsEvent, _xray: Option<&str>) -> (c:
        opentelemetry::Context) {
        current_context()
    }

    fn extract_links(&self, payload: &SqsEvent) -> (links: Vec<LinkContext>)
        ensures
            extractor::link_views(links@) == message_links(payload.records@),
    {
        let mut links: Vec<LinkContext> = Vec::new();
        let ghost records = payload.records@;
        let mut i: usize = 0;
        assert(extractor::link_views(links@) =~= message_links(records.take(0)));
        while i < payload.records.len()
            invariant
                i <= payload.records.len(),
                records == payload.records@,
                extractor::link_views(links@) == message_links(records.take(i as int)),
            decreases payload.records.len() - i,
        {
            proof {
                assert(records.take(i + 1).drop_last() =~= records.take(i as int));
            }
            let ghost before = links@;
            if let Some(link) = extract_link_from_message(&payload.records[i]) {
                links.push(link);
                assert(extractor::link_views(links@) =~= extractor::link_views(before).push(link@));
            }
            i = i + 1;
        }
        assert(records.take(i as int) =~= records);
        links
    }

    fn trigger_type(&self) -> (s: &'static str) {
        "pubsub"
    }

    /// The name is the queue and `process`.
    fn span_name(&self, payload: &SqsEvent, function_name: &str) -> (s: String) {
        match Self::queue_name(payload) {
            Some(queue) => process_name_string(queue),
            None => process_name_string(function_name),
        }
    }

    fn record_attributes(&self, payload: &SqsEvent) -> (list: Vec<KeyValue>) {
        let mut list: Vec<KeyValue> = Vec::new();
        assert(model::attributes_view(list@) =~= Seq::empty());
        add_attribute(&mut list, semconv::MESSAGING_SYSTEM, "aws_sqs");
        add_attribute(&mut list, semconv::MESSAGING_OPERATION_TYPE, "process");
        if let Some(queue) = Self::queue_name(payload) {
            add_attribute(&mut list, semconv::MESSAGING_DESTINATION_NAME, queue);
        }
        add_count(
            &mut list,
            semconv::MESSAGING_BATCH_MESSAGE_COUNT,
            payload.records.len() as i64,
        );
        if payload.records.len() == 1 {
            if let Some(id) = &payload.records[0].message_id {
                add_attribute(&mut list, semconv::MESSAGING_MESSAGE_ID, id.as_str());
            }
        }
        list
    }
}

/// Extracts a span link from an SQS message's AWSTraceHeader.
pub fn extract_link_from_message(message: &SqsMessage) -> (r: Option<LinkContext>)
    ensures
        opt_link(r) == message_link(*message),
{
    match lookup_str(&message.attributes, "AWSTraceHeader") {
        Some(header) => parse_xray_trace_header(header),
        None => None,
    }
}

/// Parses an X-Ray trace header into a span context.
///
/// X-Ray format: `Root=1-{epoch}-{random};Parent={span-id};Sampled={0|1}`
pub fn parse_xray_trace_header(header: &str) -> (r: Option<LinkContext>)
    ensures
        opt_link(r) == xray_link(header@),
{
    let parts = split_str(header, ';');
    let ghost all = trimmed(text::views(parts@));
    let mut reader = TracePartsReader::new();
    let mut i: usize = 0;
    assert(all.take(0) =~= Seq::<Seq<char>>::empty());
    while i < parts.len()
        invariant
            i <= parts.len(),
            all == trimmed(text::views(parts@)),
            reader@ == http::trace_parts(all.take(i as int)),
        decreases parts.len() - i,
    {
        proof {
            assert(all.take(i + 1).drop_last() =~= all.take(i as int));
            assert(all.take(i + 1).last() == text::trim(parts@[i as int]@));
        }
        reader.take(trim_str(parts[i]));
        i = i + 1;
    }
    assert(all.take(i as int) =~= all);
    match (&reader.trace_id, &reader.parent) {
        (Some(trace_id), Some(parent)) => {
            let trace_id: [u8; 16] = match hex_to_bytes::<16>(trace_id.as_str()) {
                Some(b) => b,
                None => {
                    return None;
                },
            };
            let span_id: [u8; 8] = match hex_to_bytes::<8>(parent.as_str()) {
                Some(b) => b,
                None => {
                    return None;
                },
            };
            let flags: u8 = if reader.sampled {
                1
            } else {
                0
            };
            let link = LinkContext {
                trace_id,
                span_id,
                flags,
                remote: true,
                trace_state: String::new(),
            };
            assert(link.trace_state@ =~= Seq::<char>::empty());
            Some(link)
        },
        _ => None,
    }
}

/// The parts of a written header give its components, whether or not white space
/// around them is dropped.
proof fn lemma_written_parts(h: tracing::HeaderView)
    requires
        tracing::clean(h.root),
        h.parent is Some,
        tracing::clean(h.parent->0),
    ensures
        trimmed(tracing::pieces(h)) == tracing::pieces(h),
        http::trace_parts(tracing::pieces(h)) == (http::TraceParts {
            trace_id: http::xray_trace_id(h.root),
            parent: h.parent,
            sampled: h.sampled == Some(true),
        }),
{
    reveal_strlit("Root=");
    reveal_strlit("Parent=");
    reveal_strlit("Sampled=");
    reveal_strlit("Sampled=1");
    reveal_strlit("0");
    reveal_strlit("1");
    let all = tracing::pieces(h);
    let none = http::TraceParts { trace_id: None, parent: None, sampled: false };
    let a = "Root="@ + h.root;
    let b = "Parent="@ + h.parent->0;
    let d = tracing::sampled_digit(h.sampled)->0;
    let c = "Sampled="@ + d;
    assert(a.skip(5) =~= h.root);
    assert("Root="@.is_prefix_of(a));
    text::lemma_trim_none(a);
    assert(b[0] == 'P');
    assert(!"Root="@.is_prefix_of(b)) by {
        assert("Root="@[0] == 'R');
    }
    assert("Parent="@.is_prefix_of(b));
    assert(b.skip(7) =~= h.parent->0);
    text::lemma_trim_none(b);
    let one = http::with_trace_part(none, a);
    let two = http::with_trace_part(one, b);
    assert(http::trace_parts(Seq::empty()) == none);
    assert(seq![a].drop_last() =~= Seq::empty());
    assert(seq![a, b].drop_last() =~= seq![a]);
    assert(http::trace_parts(seq![a]) == one);
    assert(http::trace_parts(seq![a, b]) == two);
    if h.sampled is Some {
        assert(c[0] == 'S');
        assert(!"Root="@.is_prefix_of(c)) by {
            assert("Root="@[0] == 'R');
        }
        assert(!"Parent="@.is_prefix_of(c)) by {
            assert("Parent="@[0] == 'P');
        }
        text::lemma_trim_none(c);
        if h.sampled == Some(true) {
            assert(c =~= "Sampled=1"@);
        } else {
            assert(c[8] == '0' && "Sampled=1"@[8] == '1');
        }
        assert(seq![a, b, c].drop_last() =~= seq![a, b]);
        assert(all =~= seq![a, b, c]);
    } else {
        assert(all =~= seq![a, b]);
    }
    assert(trimmed(all) =~= all);
}

/// A header names the same trace and span to all who read it: where it converts to
/// a W3C trace context, its traceparent is that of this context, and its link has
/// the bytes of this context's IDs.
pub proof fn law_readers_of_a_header_agree(h: tracing::HeaderView)
    requires
        tracing::w3c_context(h) is Some,
    ensures
        ({
            let w = tracing::w3c_context(h)->0;
            let s = tracing::header_string(h);
            &&& tracing::parse_header(s) == Some(h)
            &&& http::xray_traceparent(s) == Some(
                tracing::traceparent(w.trace_id, w.span_id, w.sampled),
            )
            &&& xray_link(s) == Some(
                LinkView {
                    trace_id: tracing::id_bytes(w.trace_id, 16)->0,
                    span_id: tracing::id_bytes(w.span_id, 8)->0,
                    flags: sampled_flags(w.sampled),
                    remote: true,
                    trace_state: Seq::empty(),
                },
            )
        }),
{
    let w = tracing::w3c_context(h)->0;
    let parts = text::split(h.root, '-');
    reveal_strlit("1");
    text::lemma_hex_bytes_of_chars(parts[1]);
    text::lemma_hex_bytes_of_chars(parts[2]);
    text::lemma_hex_bytes_of_chars(w.span_id);
    tracing::law_w3c_ids_are_valid(h);
    text::lemma_hex_bytes_of_chars(w.trace_id);
    text::lemma_split_parts(h.root, '-');
    assert(parts.last() == parts[2]);
    assert(text::is_hex_digit(parts[2].last()));
    assert forall|k: int| 0 <= k < parts.len() implies text::free_of(#[trigger] parts[k], ';') by {
        if k > 0 {
            assert forall|j: int| 0 <= j < parts[k].len() implies #[trigger] parts[k][j] != ';' by {
                assert(text::is_hex_digit(parts[k][j]));
            }
        }
    }
    assert(text::free_of(h.root, ';'));
    assert(tracing::clean(h.root));
    assert(tracing::clean(w.span_id)) by {
        assert(text::is_hex_digit(w.span_id.last()));
        assert forall|j: int| 0 <= j < w.span_id.len() implies #[trigger] w.span_id[j] != ';' by {
            assert(text::is_hex_digit(w.span_id[j]));
        }
    }
    tracing::law_parse_brings_back_the_header(h);
    tracing::lemma_pieces(h);
    lemma_written_parts(h);
}

/// Converts X-Ray trace ID format to 32-character hex string.
///
/// X-Ray format: `1-{epoch_hex}-{random_hex}` (8 + 24 = 32 chars)
/// Returns: `{epoch_hex}{random_hex}`
pub fn convert_xray_trace_id(xray_id: &str) -> (r: Option<String>)
    ensures
        text::opt_view(r) == http::xray_trace_id(xray_id@),
{
    parse_xray_trace_id(xray_id)
}

/// Converts a hex string to a fixed-size byte array.
pub fn hex_to_bytes<const N: usize>(hex: &str) -> (r: Option<[u8; N]>)
    ensures
        match r {
            Some(bytes) => tracing::id_bytes(hex@, N as nat) == Some(bytes@),
            None => tracing::id_bytes(hex@, N as nat) is None,
        },
{
    let digits = hex.as_bytes();
    let ghost d = digits@;
    let len: usize = digits.len();
    if len / 2 != N || len % 2 != 0 {
        return None;
    }
    let mut bytes: [u8; N] = vstd::array::array_fill_for_copy_types::<u8, N>(0u8);
    let mut i: usize = 0;
    while i < N
        invariant
            i <= N,
            d == digits@,
            len == digits@.len(),
            len == 2 * N,
            d == vstd::utf8::encode_utf8(hex@),
            forall|k: int| 0 <= k < 2 * i ==> tracing::nibble(#[trigger] d[k]) is Some,
            forall|k: int|
                0 <= k < i ==> #[trigger] bytes@[k] == (16 * tracing::nibble(d[2 * k])->0
                    + tracing::nibble(d[2 * k + 1])->0) as u8,
        decreases N - i,
    {
        let high: u8 = match hex_char_to_nibble(digits[2 * i]) {
            Some(n) => n,
            None => {
                assert(tracing::nibble(d[2 * i]) is None);
                return None;
            },
        };
        let low: u8 = match hex_char_to_nibble(digits[2 * i + 1]) {
            Some(n) => n,
            None => {
                assert(tracing::nibble(d[2 * i + 1]) is None);
                return None;
            },
        };
        bytes[i] = 16 * high + low;
        i = i + 1;
    }
    proof {
        assert(tracing::all_nibbles(d));
        assert(tracing::hex_bytes(d)->0 =~= bytes@);
    }
    Some(bytes)
}

/// Converts a single hex character to its 4-bit value.
pub fn hex_char_to_nibble(c: u8) -> (r: Option<u8>)
    ensures
        r == tracing::nibble(c),
        r is Some ==> r->0 < 16,
{
    if 48 <= c && c <= 57 {
        Some(c - 48)
    } else if 97 <= c && c <= 102 {
        Some(c - 87)
    } else if 65 <= c && c <= 70 {
        Some(c - 55)
    } else {
        None
    }
}

/// The names of messaging attributes are told apart by their lengths.
pub proof fn lemma_messaging_names()
    ensures
        "messaging.system"@.len() == 16,
        "messaging.operation.type"@.len() == 24,
        "messaging.destination.name"@.len() == 26,
        "messaging.batch.message_count"@.len() == 29,
        "messaging.message.id"@.len() == 20,
{
    reveal_strlit("messaging.system");
    reveal_strlit("messaging.operation.type");
    reveal_strlit("messaging.destination.name");
    reveal_strlit("messaging.batch.message_count");
    reveal_strlit("messaging.message.id");
}

/// A batch of messages tells its system, that they are processed, the queue of the first
/// message, how many there are, and the ID of the message where there is but one; each
/// once, and nothing else.
pub proof fn law_a_queue_batch_tells_its_queue(e: SqsEvent)
    ensures
        extractor::tells_exactly(
            e.attributes(),
            seq![
                ("messaging.system"@, Some(ValueView::Text("aws_sqs"@))),
                ("messaging.operation.type"@, Some(ValueView::Text("process"@))),
                (
                    "messaging.destination.name"@,
                    if e.records@.len() > 0 && e.records@[0].event_source_arn is Some {
                        Some(
                            ValueView::Text(
                                extractor::name_in_arn(e.records@[0].event_source_arn->0@),
                            ),
                        )
                    } else {
                        None
                    },
                ),
                (
                    "messaging.batch.message_count"@,
                    Some(ValueView::Int(e.records@.len() as i64)),
                ),
                (
                    "messaging.message.id"@,
                    if e.records@.len() == 1 && e.records@[0].message_id is Some {
                        Some(ValueView::Text(e.records@[0].message_id->0@))
                    } else {
                        None
                    },
                ),
            ],
        ),
{
    let settings: Seq<Setting> = seq![
        ("messaging.system"@, Some(ValueView::Text("aws_sqs"@))),
        ("messaging.operation.type"@, Some(ValueView::Text("process"@))),
        (
            "messaging.destination.name"@,
            if e.records@.len() > 0 && e.records@[0].event_source_arn is Some {
                Some(
                    ValueView::Text(extractor::name_in_arn(e.records@[0].event_source_arn->0@)),
                )
            } else {
                None
            },
        ),
        ("messaging.batch.message_count"@, Some(ValueView::Int(e.records@.len() as i64))),
        (
            "messaging.message.id"@,
            if e.records@.len() == 1 && e.records@[0].message_id is Some {
                Some(ValueView::Text(e.records@[0].message_id->0@))
            } else {
                None
            },
        ),
    ];
    lemma_messaging_names();
    reveal_with_fuel(extractor::listed, 6);
    reveal_with_fuel(extractor::names_differ, 6);
    reveal_with_fuel(extractor::named, 6);
    assert(e.attributes() == extractor::listed(settings, 5));
    extractor::lemma_listed(settings, 5);
    assert(settings.take(5) =~= settings);
}

/// The span of a batch is named by the queue of the first message, or by the function, and
/// `process`; messages give links, and no parent.
pub proof fn law_a_queue_batch_is_named_by_its_queue(
    e: SqsEvent,
    function_name: Seq<char>,
    xray: Option<Seq<char>>,
    c: opentelemetry::Context,
)
    ensures
        ({
            let name = SqsEventExtractor.name_of(e, function_name);
            let arn = e.records@[0].event_source_arn;
            &&& e.records@.len() > 0 && arn is Some ==> name == extractor::name_in_arn(arn->0@)
                + " process"@
            &&& e.records@.len() == 0 || arn is None ==> name == function_name + " process"@
        }),
        SqsEventExtractor.trigger_of() == "pubsub"@,
        SqsEventExtractor.attributes_of(e) == e.attributes(),
        SqsEventExtractor.may_have_parent(e, xray, c) ==> extractor::may_be_active(c),
{
}

/// Each message with a readable trace header gives one link, in the order of the messages,
/// and a message without one gives none; other messages do not matter to it.
pub proof fn law_each_message_gives_its_link(records: Seq<SqsMessage>, m: SqsMessage)
    ensures
        message_link(m) is Some ==> message_links(records.push(m)) == message_links(records).push(
            message_link(m)->0,
        ),
        message_link(m) is None ==> message_links(records.push(m)) == message_links(records),
        message_links(Seq::empty()).len() == 0,
        extractor::lookup(m.attributes@, "AWSTraceHeader"@) is None ==> message_link(m) is None,
        extractor::lookup(m.attributes@, "AWSTraceHeader"@) is Some ==> message_link(m)
            == xray_link(extractor::lookup(m.attributes@, "AWSTraceHeader"@)->0),
{
    assert(records.push(m).drop_last() =~= records);
}

/// A link is of another service, has the bytes of both IDs of its header, and is sampled
/// where the header says so; without a trace or a parent in it there is no link.
pub proof fn law_a_link_has_the_ids_of_its_header(header: Seq<char>)
    ensures
        ({
            let p = http::trace_parts(trimmed(text::split(header, ';')));
            let l = xray_link(header);
            &&& l is Some ==> {
                &&& p.trace_id is Some
                &&& p.parent is Some
                &&& l->0.trace_id.len() == 16
                &&& l->0.span_id.len() == 8
                &&& tracing::id_bytes(p.trace_id->0, 16) == Some(l->0.trace_id)
                &&& tracing::id_bytes(p.parent->0, 8) == Some(l->0.span_id)
                &&& l->0.flags == 1 <==> p.sampled
                &&& l->0.flags == 0 <==> !p.sampled
                &&& l->0.remote
                &&& l->0.trace_state.len() == 0
            }
            &&& p.trace_id is None || p.parent is None ==> l is None
            &&& p.trace_id is Some && p.parent is Some && tracing::id_bytes(p.trace_id->0, 16)
                is Some && tracing::id_bytes(p.parent->0, 8) is Some ==> l is Some
        }),
{
}

/// A written header gives a link with the bytes of its two IDs, of another service, and
/// sampled where it says so.
pub proof fn law_a_written_header_gives_its_link(
    h: tracing::HeaderView,
    header: &str,
    r: Option<LinkContext>,
)
    requires
        call_ensures(parse_xray_trace_header, (header,), r),
        tracing::w3c_context(h) is Some,
        header@ == tracing::header_string(h),
    ensures
        r is Some,
        tracing::id_bytes(tracing::w3c_context(h)->0.trace_id, 16) == Some(r->0@.trace_id),
        tracing::id_bytes(tracing::w3c_context(h)->0.span_id, 8) == Some(r->0@.span_id),
        r->0@.flags == 1 <==> h.sampled == Some(true),
        r->0@.remote,
{
    law_readers_of_a_header_agree(h);
    tracing::law_w3c_ids_are_valid(h);
}

/// The link of a message is that of its own trace header.
pub proof fn law_a_message_is_linked_by_its_header(m: SqsMessage, r: Option<LinkContext>)
    requires
        call_ensures(extract_link_from_message, (&m,), r),
    ensures
        extractor::lookup(m.attributes@, "AWSTraceHeader"@) is None ==> r is None,
        extractor::lookup(m.attributes@, "AWSTraceHeader"@) is Some ==> opt_link(r) == xray_link(
            extractor::lookup(m.attributes@, "AWSTraceHeader"@)->0,
        ),
{
}

} // verus!
