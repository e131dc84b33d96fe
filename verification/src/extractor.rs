//! Extraction of trace context from the events of Lambda.
//!
//! Different event sources carry trace context in different places: HTTP requests
//! in their headers, messages of a queue or a topic in their attributes. A request
//! gives its span a parent; messages, which may come from several traces, give
//! theirs links.
use crate::extractors::http;
use crate::extractors::http::XRayEnvExtractor;
use crate::model;
use crate::model::{KeyValue, ValueView};
use crate::text;
use crate::text::{equal, equal_ignore_case};
use crate::tracing;
use opentelemetry::trace::TraceContextExt;
use vstd::prelude::*;
use vstd::string::*;

verus! {

/// Attributes, as the contracts see them.
pub type AttributeList = Seq<(Seq<char>, ValueView)>;

/// The context of a span in another service.
#[derive(Debug, Clone, PartialEq, Eq)]
pub struct LinkContext {
    /// The trace that the span belongs to.
    pub trace_id: [u8; 16],
    /// The span.
    pub span_id: [u8; 8],
    /// The trace flags: the lowest bit says whether the trace is sampled.
    pub flags: u8,
    /// Whether the span belongs to another process.
    pub remote: bool,
    /// The trace state, as its header writes it.
    pub trace_state: String,
}

/// A link context, as the contracts see it.
pub struct LinkView {
    /// The trace that the span belongs to.
    pub trace_id: Seq<u8>,
    /// The span.
    pub span_id: Seq<u8>,
    /// The trace flags.
    pub flags: u8,
    /// Whether the span belongs to another process.
    pub remote: bool,
    /// The trace state.
    pub trace_state: Seq<char>,
}

impl View for LinkContext {
    type V = LinkView;

    open spec fn view(&self) -> LinkView {
        LinkView {
            trace_id: self.trace_id@,
            span_id: self.span_id@,
            flags: self.flags,
            remote: self.remote,
            trace_state: self.trace_state@,
        }
    }
}

/// A list of link contexts, as the contracts see them.
pub open spec fn link_views(links: Seq<LinkContext>) -> Seq<LinkView> {
    links.map_values(|l: LinkContext| l@)
}

/// Whether some byte is not zero.
pub open spec fn some_nonzero(b: Seq<u8>) -> bool {
    exists|i: int| 0 <= i < b.len() && #[trigger] b[i] != 0
}

/// Tells whether some byte is not zero.
fn has_nonzero(b: &[u8]) -> (r: bool)
    ensures
        r == some_nonzero(b@),
{
    let mut i: usize = 0;
    while i < b.len()
        invariant
            i <= b@.len(),
            forall|j: int| 0 <= j < i ==> #[trigger] b@[j] == 0,
        decreases b@.len() - i,
    {
        if b[i] != 0 {
            assert(b@[i as int] != 0);
            return true;
        }
        i = i + 1;
    }
    false
}

/// Writes bytes in hexadecimal, in lower case.
pub fn hex_string(b: &[u8]) -> (s: String)
    ensures
        s@ == tracing::hex_text(b@),
{
    let mut s = String::new();
    let mut i: usize = 0;
    assert(s@ =~= tracing::hex_text(b@.take(0)));
    while i < b.len()
        invariant
            i <= b@.len(),
            s@ == tracing::hex_text(b@.take(i as int)),
        decreases b@.len() - i,
    {
        let ghost before = s@;
        s.push(hex_digit_char(b[i] / 16));
        s.push(hex_digit_char(b[i] % 16));
        proof {
            let longer = b@.take(i + 1);
            let text = tracing::hex_text(longer);
            assert(text.len() == before.len() + 2);
            assert forall|k: int| 0 <= k < text.len() implies text[k] == s@[k] by {
                if k < before.len() {
                    assert(before[k] == tracing::hex_text(b@.take(i as int))[k]);
                    assert(longer[k / 2] == b@.take(i as int)[k / 2]);
                } else {
                    assert(longer[k / 2] == b@[i as int]);
                }
            }
            assert(s@ =~= text);
        }
        i = i + 1;
    }
    assert(b@.take(i as int) =~= b@);
    s
}

/// The hexadecimal digit of a number below 16.
fn hex_digit_char(n: u8) -> (c: char)
    requires
        n < 16,
    ensures
        c == tracing::hex_char(n),
{
    if n < 10 {
        (48 + n) as char
    } else {
        (87 + n) as char
    }
}

impl LinkView {
    /// Whether both IDs name something: an ID of zeros names nothing.
    pub open spec fn valid(self) -> bool {
        some_nonzero(self.trace_id) && some_nonzero(self.span_id)
    }
}

impl LinkContext {
    /// Whether both IDs name something: an ID of zeros names nothing.
    pub fn is_valid(&self) -> (r: bool)
        ensures
            r == self@.valid(),
    {
        has_nonzero(self.trace_id.as_slice()) && has_nonzero(self.span_id.as_slice())
    }

    /// Whether the trace is sampled.
    pub fn is_sampled(&self) -> (r: bool)
        ensures
            r == (self@.flags % 2 == 1),
    {
        self.flags % 2 == 1
    }

    /// Whether the span belongs to another process.
    pub fn is_remote(&self) -> (r: bool)
        ensures
            r == self@.remote,
    {
        self.remote
    }

    /// The trace ID in hexadecimal.
    pub fn trace_id_hex(&self) -> (s: String)
        ensures
            s@ == tracing::hex_text(self@.trace_id),
    {
        hex_string(self.trace_id.as_slice())
    }

    /// The span ID in hexadecimal.
    pub fn span_id_hex(&self) -> (s: String)
        ensures
            s@ == tracing::hex_text(self@.span_id),
    {
        hex_string(self.span_id.as_slice())
    }
}

/// The value of the first entry with a key.
pub open spec fn lookup(list: Seq<(String, String)>, key: Seq<char>) -> Option<Seq<char>>
    decreases list.len(),
{
    if list.len() == 0 {
        None
    } else if list[0].0@ == key {
        Some(list[0].1@)
    } else {
        lookup(list.skip(1), key)
    }
}

/// Finds the value of the first entry with a key.
pub fn lookup_str<'a>(list: &'a Vec<(String, String)>, key: &str) -> (r: Option<&'a str>)
    ensures
        text::opt_str_view(r) == lookup(list@, key@),
{
    let mut i: usize = 0;
    assert(list@.skip(0) =~= list@);
    while i < list.len()
        invariant
            i <= list.len(),
            lookup(list@.skip(i as int), key@) == lookup(list@, key@),
        decreases list.len() - i,
    {
        proof {
            assert(list@.skip(i as int)[0] == list@[i as int]);
            assert(list@.skip(i as int).skip(1) =~= list@.skip(i + 1));
        }
        if equal(list[i].0.as_str(), key) {
            return Some(list[i].1.as_str());
        }
        i = i + 1;
    }
    None
}

/// The value of the first entry with a key, without regard to case.
pub open spec fn lookup_any_case(list: Seq<(String, String)>, key: Seq<char>) -> Option<Seq<char>>
    decreases list.len(),
{
    if list.len() == 0 {
        None
    } else if text::ascii_lower_all(list[0].0@) == text::ascii_lower_all(key) {
        Some(list[0].1@)
    } else {
        lookup_any_case(list.skip(1), key)
    }
}

/// Finds the value of the first entry with a key, without regard to case.
pub fn lookup_any_case_str<'a>(list: &'a Vec<(String, String)>, key: &str) -> (r: Option<&'a str>)
    ensures
        text::opt_str_view(r) == lookup_any_case(list@, key@),
{
    let mut i: usize = 0;
    assert(list@.skip(0) =~= list@);
    while i < list.len()
        invariant
            i <= list.len(),
            lookup_any_case(list@.skip(i as int), key@) == lookup_any_case(list@, key@),
        decreases list.len() - i,
    {
        proof {
            assert(list@.skip(i as int)[0] == list@[i as int]);
            assert(list@.skip(i as int).skip(1) =~= list@.skip(i + 1));
        }
        if equal_ignore_case(list[i].0.as_str(), key) {
            return Some(list[i].1.as_str());
        }
        i = i + 1;
    }
    None
}

/// Gives the propagator headers by their names, without regard to case.
pub struct HeaderMapExtractor<'a> {
    /// The headers.
    pub headers: &'a Vec<(String, String)>,
}

impl<'a> opentelemetry::propagation::Extractor for HeaderMapExtractor<'a> {
    fn get(&self, key: &str) -> Option<&str> {
        lookup_any_case_str(self.headers, key)
    }

    fn keys(&self) -> Vec<&str> {
        names_of(self.headers)
    }
}

/// The names in a list of names and values.
pub fn names_of<'a>(list: &'a Vec<(String, String)>) -> (names: Vec<&'a str>)
    ensures
        text::views(names@) == pair_views(list@).map_values(
            |p: (Seq<char>, Seq<char>)| p.0,
        ),
{
    let mut names: Vec<&'a str> = Vec::new();
    let ghost all = pair_views(list@).map_values(
        |p: (Seq<char>, Seq<char>)| p.0,
    );
    let mut i: usize = 0;
    assert(text::views(names@) =~= all.take(0));
    while i < list.len()
        invariant
            i <= list.len(),
            all == pair_views(list@).map_values(
                |p: (Seq<char>, Seq<char>)| p.0,
            ),
            text::views(names@) == all.take(i as int),
        decreases list.len() - i,
    {
        let ghost before = names@;
        names.push(list[i].0.as_str());
        proof {
            assert(names@ == before.push(names@.last()));
            assert(text::views(names@) =~= text::views(before).push(names@.last()@));
            assert(all.take(i + 1) =~= all.take(i as int).push(all[i as int]));
        }
        i = i + 1;
    }
    assert(all.take(i as int) =~= all);
    names
}

/// The part of an ARN after its last colon: the name of a queue or a topic.
pub open spec fn name_in_arn(arn: Seq<char>) -> Seq<char> {
    text::split(arn, ':').last()
}

/// An OpenTelemetry context.
#[verifier::external_type_specification]
#[verifier::external_body]
pub struct ExContext(opentelemetry::Context);

/// What the propagator made of a carrier.
#[derive(Debug)]
pub struct Propagated {
    /// The context.
    pub context: opentelemetry::Context,
    /// Whether the context holds a valid span context.
    pub valid: bool,
}

/// The names and values of a list.
pub open spec fn pair_views(list: Seq<(String, String)>) -> Seq<(Seq<char>, Seq<char>)> {
    Seq::new(list.len(), |i: int| (list[i].0@, list[i].1@))
}

/// Whether some propagator may make this context of a carrier, and call it valid or
/// not. Two propagators may differ, so that a carrier may have many such contexts.
pub uninterp spec fn may_be_extracted(
    carrier: Seq<(Seq<char>, Seq<char>)>,
    context: opentelemetry::Context,
    valid: bool,
) -> bool;

/// Whether this context may be the active one of some thread at some time.
pub uninterp spec fn may_be_active(context: opentelemetry::Context) -> bool;

/// `opentelemetry::global::get_text_map_propagator`: extracts a context from the
/// carrier with the propagator that the process has set, and tells whether its span
/// context is valid. The carrier is looked up without regard to case, and its first
/// value is taken.
///
/// What is claimed is that this came of the carrier. Which of the contexts that may
/// come of it this is rests on the propagator, and is left unsaid.
#[verifier::external_body]
fn propagate(carrier: &Vec<(String, String)>) -> (p: Propagated)
    ensures
        may_be_extracted(pair_views(carrier@), p.context, p.valid),
{
    let reader = HeaderMapExtractor { headers: carrier };
    let context = opentelemetry::global::get_text_map_propagator(|p| p.extract(&reader));
    let valid = context.span().span_context().is_valid();
    Propagated { context, valid }
}

/// `opentelemetry::Context::current`: the context that is active on this thread.
/// What that context holds rests on the thread, and is left unsaid.
#[verifier::external_body]
pub(crate) fn current_context() -> (c: opentelemetry::Context)
    ensures
        may_be_active(c),
{
    opentelemetry::Context::current()
}

/// The parent context of a request: that of the headers where it is valid, else
/// that of the environment where there is a valid one, else the current one.
pub open spec fn chosen_context(
    headers: Propagated,
    environment: Option<Propagated>,
    current: opentelemetry::Context,
) -> opentelemetry::Context {
    if headers.valid {
        headers.context
    } else if environment is Some && environment->0.valid {
        environment->0.context
    } else {
        current
    }
}

/// Chooses the parent context of a request.
pub fn choose_context(
    headers: Propagated,
    environment: Option<Propagated>,
    current: opentelemetry::Context,
) -> (c: opentelemetry::Context)
    ensures
        c == chosen_context(headers, environment, current),
{
    if headers.valid {
        return headers.context;
    }
    match environment {
        Some(e) => {
            if e.valid {
                e.context
            } else {
                current
            }
        },
        None => current,
    }
}

/// Whether this is what was made of the headers of a request, and, unless they gave
/// a valid context, of the X-Ray header of the environment, where there is one.
pub open spec fn extractions(
    headers: Seq<(Seq<char>, Seq<char>)>,
    xray: Option<Seq<char>>,
    from_headers: Propagated,
    environment: Option<Propagated>,
) -> bool {
    &&& may_be_extracted(headers, from_headers.context, from_headers.valid)
    &&& environment is Some == (xray is Some && !from_headers.valid)
    &&& environment is Some ==> may_be_extracted(
        http::xray_carrier(xray->0),
        environment->0.context,
        environment->0.valid,
    )
}

/// Whether this may be the parent context of a request with these headers, where the
/// environment has this X-Ray header.
pub open spec fn may_be_parent(
    headers: Seq<(Seq<char>, Seq<char>)>,
    xray: Option<Seq<char>>,
    context: opentelemetry::Context,
) -> bool {
    exists|h: Propagated, e: Option<Propagated>, current: opentelemetry::Context|
        {
            &&& extractions(headers, xray, h, e)
            &&& may_be_active(current)
            &&& context == #[trigger] chosen_context(h, e, current)
        }
}

/// Extracts the parent context of a request from its headers, or else from the
/// X-Ray header of the environment, which the propagator sees as a traceparent.
pub fn extract_from_headers(headers: &Vec<(String, String)>, xray: Option<&str>) -> (c:
    opentelemetry::Context)
    ensures
        may_be_parent(pair_views(headers@), text::opt_str_view(xray), c),
{
    let from_headers = propagate(headers);
    let environment = match xray {
        Some(header) => {
            if from_headers.valid {
                None
            } else {
                Some(propagate(&XRayEnvExtractor::new(header).carrier()))
            }
        },
        None => None,
    };
    let current = current_context();
    assert(extractions(
        pair_views(headers@),
        text::opt_str_view(xray),
        from_headers,
        environment,
    ));
    choose_context(from_headers, environment, current)
}

/// Extracts what the span of an event's handling needs to know.
///
/// `T` is the type of the event. An extractor for other events is an impl of this
/// trait.
pub trait TraceContextExtractor<T>: Clone + Send + Sync + 'static {
    /// Whether this may be the parent context of a payload's span: any, unless an
    /// extractor says otherwise.
    open spec fn may_have_parent(
        &self,
        payload: T,
        xray: Option<Seq<char>>,
        context: opentelemetry::Context,
    ) -> bool {
        true
    }

    /// The trigger type.
    open spec fn trigger_of(&self) -> Seq<char> {
        "other"@
    }

    /// The name of the span of a payload.
    open spec fn name_of(&self, payload: T, function_name: Seq<char>) -> Seq<char> {
        function_name
    }

    /// The attributes of the span of a payload.
    open spec fn attributes_of(&self, payload: T) -> AttributeList {
        Seq::empty()
    }

    /// Extracts parent context for creating child spans.
    ///
    /// For HTTP events, the propagator that is configured reads the headers; where
    /// they give none, it reads the X-Ray header of the environment. For messages
    /// this is the current context, since they are linked instead.
    fn extract_context(&self, payload: &T, xray: Option<&str>) -> (c: opentelemetry::Context)
        ensures
            self.may_have_parent(*payload, text::opt_str_view(xray), c),
    ;

    /// Extracts span links for async message correlation.
    ///
    /// Each message's trace context becomes a link rather than a parent. There are
    /// none, unless an extractor says otherwise.
    fn extract_links(&self, _payload: &T) -> (links: Vec<LinkContext>)
        default_ensures
            link_views(links@) == Seq::<LinkView>::empty(),
    {
        let links: Vec<LinkContext> = Vec::new();
        assert(link_views(links@) =~= Seq::<LinkView>::empty());
        links
    }

    /// Returns the FaaS trigger type for semantic conventions: one of `http`,
    /// `pubsub`, `datasource`, `timer` and `other`.
    fn trigger_type(&self) -> (s: &'static str)
        ensures
            s@ == self.trigger_of(),
    ;

    /// Generates span name based on event and the name of the function.
    fn span_name(&self, payload: &T, function_name: &str) -> (s: String)
        ensures
            s@ == self.name_of(*payload, function_name@),
    ;

    /// The attributes of the span that are specific to the event.
    fn record_attributes(&self, payload: &T) -> (list: Vec<KeyValue>)
        ensures
            model::attributes_view(list@) == self.attributes_of(*payload),
    ;
}

/// The name and the value of an attribute; no value where it is not set.
pub type Setting = (Seq<char>, Option<ValueView>);

/// An optional text as an optional value.
pub open spec fn text_value(v: Option<Seq<char>>) -> Option<ValueView> {
    match v {
        Some(s) => Some(ValueView::Text(s)),
        None => None,
    }
}

/// Whether an attribute is set, to this value.
pub open spec fn is_set(settings: Seq<Setting>, attribute: (Seq<char>, ValueView)) -> bool {
    exists|j: int|
        0 <= j < settings.len() && (#[trigger] settings[j]).1 is Some && attribute == (
            settings[j].0,
            settings[j].1->0,
        )
}

/// Whether the attributes are exactly those that are set, each once.
pub open spec fn tells_exactly(list: AttributeList, settings: Seq<Setting>) -> bool {
    &&& forall|j: int|
        0 <= j < settings.len() && (#[trigger] settings[j]).1 is Some ==> list.contains(
            (settings[j].0, settings[j].1->0),
        )
    &&& forall|i: int| 0 <= i < list.len() ==> is_set(settings, #[trigger] list[i])
    &&& forall|i: int, k: int|
        0 <= i < k < list.len() ==> (#[trigger] list[i]).0 != (#[trigger] list[k]).0
}

/// The first `n` settings that are set, in their order.
pub open spec fn listed(settings: Seq<Setting>, n: nat) -> AttributeList
    decreases n,
{
    if n == 0 {
        Seq::empty()
    } else {
        let before = listed(settings, (n - 1) as nat);
        match settings[n - 1].1 {
            Some(v) => before.push((settings[n - 1].0, v)),
            None => before,
        }
    }
}

/// Whether one of the first `n` settings has the name.
pub open spec fn named(settings: Seq<Setting>, n: nat, name: Seq<char>) -> bool
    decreases n,
{
    n > 0 && (settings[n - 1].0 == name || named(settings, (n - 1) as nat, name))
}

/// Whether no two of the first `n` settings have one name.
pub open spec fn names_differ(settings: Seq<Setting>, n: nat) -> bool
    decreases n,
{
    n == 0 || (names_differ(settings, (n - 1) as nat) && !named(
        settings,
        (n - 1) as nat,
        settings[n - 1].0,
    ))
}

/// A name that none of the first settings has is in none of them.
proof fn lemma_named(settings: Seq<Setting>, n: nat, name: Seq<char>)
    requires
        n <= settings.len(),
        !named(settings, n, name),
    ensures
        forall|j: int| 0 <= j < n ==> (#[trigger] settings[j]).0 != name,
    decreases n,
{
    if n > 0 {
        lemma_named(settings, (n - 1) as nat, name);
    }
}

/// What is listed of settings under different names tells exactly these.
pub proof fn lemma_listed(settings: Seq<Setting>, n: nat)
    requires
        n <= settings.len(),
        names_differ(settings, n),
    ensures
        tells_exactly(listed(settings, n), settings.take(n as int)),
    decreases n,
{
    let list = listed(settings, n);
    let taken = settings.take(n as int);
    if n > 0 {
        let m = (n - 1) as nat;
        let before = listed(settings, m);
        let shorter = settings.take(m as int);
        lemma_listed(settings, m);
        lemma_named(settings, m, settings[m as int].0);
        assert forall|j: int| 0 <= j < taken.len() && (
        #[trigger] taken[j]).1 is Some implies list.contains((taken[j].0, taken[j].1->0)) by {
            if j < m {
                assert(shorter[j] == taken[j]);
                let k = choose|k: int|
                    0 <= k < before.len() && before[k] == (taken[j].0, taken[j].1->0);
                assert(list[k] == before[k]);
            } else {
                assert(list[list.len() - 1] == (taken[j].0, taken[j].1->0));
            }
        }
        assert forall|i: int| 0 <= i < list.len() implies is_set(taken, #[trigger] list[i]) by {
            if i < before.len() {
                assert(list[i] == before[i]);
                assert(is_set(shorter, before[i]));
                let j = choose|j: int|
                    0 <= j < shorter.len() && (#[trigger] shorter[j]).1 is Some && before[i] == (
                        shorter[j].0,
                        shorter[j].1->0,
                    );
                assert(taken[j] == shorter[j]);
            } else {
                assert(taken[m as int] == settings[m as int]);
            }
        }
        assert forall|i: int, k: int| 0 <= i < k < list.len() implies (#[trigger] list[i]).0 != (
        #[trigger] list[k]).0 by {
            assert(list[i] == before[i]);
            if k < before.len() {
                assert(list[k] == before[k]);
            } else {
                assert(is_set(shorter, before[i]));
                let j = choose|j: int|
                    0 <= j < shorter.len() && (#[trigger] shorter[j]).1 is Some && before[i] == (
                        shorter[j].0,
                        shorter[j].1->0,
                    );
                assert(settings[j] == shorter[j]);
            }
        }
    }
}

/// A look-up by name finds the value of the first entry with exactly that name, and
/// nothing where no entry has it.
pub proof fn law_lookup_finds_the_first(list: Seq<(String, String)>, key: Seq<char>, i: int)
    requires
        0 <= i <= list.len(),
        forall|j: int| 0 <= j < i ==> (#[trigger] list[j]).0@ != key,
        i < list.len() ==> list[i].0@ == key,
    ensures
        i < list.len() ==> lookup(list, key) == Some(list[i].1@),
        i == list.len() ==> lookup(list, key) is None,
    decreases list.len(),
{
    if list.len() > 0 && i > 0 {
        assert(list[0].0@ != key);
        let rest = list.skip(1);
        assert forall|j: int| 0 <= j < i - 1 implies (#[trigger] rest[j]).0@ != key by {
            assert(rest[j] == list[j + 1]);
        }
        law_lookup_finds_the_first(rest, key, i - 1);
    }
}

/// A header is found in any case of its name, by the first that has it.
pub proof fn law_headers_are_found_in_any_case(
    list: Seq<(String, String)>,
    key: Seq<char>,
    other: Seq<char>,
    i: int,
)
    requires
        0 <= i <= list.len(),
        text::ascii_lower_all(key) == text::ascii_lower_all(other),
        forall|j: int|
            0 <= j < i ==> text::ascii_lower_all((#[trigger] list[j]).0@) != text::ascii_lower_all(
                key,
            ),
        i < list.len() ==> text::ascii_lower_all(list[i].0@) == text::ascii_lower_all(key),
    ensures
        i < list.len() ==> lookup_any_case(list, key) == Some(list[i].1@),
        i == list.len() ==> lookup_any_case(list, key) is None,
        lookup_any_case(list, other) == lookup_any_case(list, key),
    decreases list.len(),
{
    if list.len() > 0 && i > 0 {
        assert(text::ascii_lower_all(list[0].0@) != text::ascii_lower_all(key));
        let rest = list.skip(1);
        assert forall|j: int| 0 <= j < i - 1 implies text::ascii_lower_all((#[trigger] rest[j]).0@)
            != text::ascii_lower_all(key) by {
            assert(rest[j] == list[j + 1]);
        }
        law_headers_are_found_in_any_case(rest, key, other, i - 1);
    }
}

/// The headers come first: a valid context that they give is the parent, whatever the
/// environment says; the environment's comes next, and the current one last.
pub proof fn law_headers_come_before_the_environment(
    headers: Propagated,
    environment: Option<Propagated>,
    current: opentelemetry::Context,
)
    ensures
        headers.valid ==> chosen_context(headers, environment, current) == headers.context,
        !headers.valid && environment is Some && environment->0.valid ==> chosen_context(
            headers,
            environment,
            current,
        ) == environment->0.context,
        !headers.valid && (environment is None || !environment->0.valid) ==> chosen_context(
            headers,
            environment,
            current,
        ) == current,
{
}

/// A parent context came of the headers, or, where they gave no valid one, of the X-Ray
/// header of the environment, or is the active one.
pub proof fn law_a_parent_has_its_source(
    headers: Seq<(Seq<char>, Seq<char>)>,
    xray: Option<Seq<char>>,
    context: opentelemetry::Context,
)
    requires
        may_be_parent(headers, xray, context),
    ensures
        may_be_extracted(headers, context, true) || exists|other: opentelemetry::Context|
            {
                &&& #[trigger] may_be_extracted(headers, other, false)
                &&& may_be_active(context) || (xray is Some && may_be_extracted(
                    http::xray_carrier(xray->0),
                    context,
                    true,
                ))
            },
{
    let (h, e, current) = choose|h: Propagated, e: Option<Propagated>, current: opentelemetry::Context|
        {
            &&& extractions(headers, xray, h, e)
            &&& may_be_active(current)
            &&& context == #[trigger] chosen_context(h, e, current)
        };
    assert(may_be_extracted(headers, h.context, h.valid));
}

/// A link is valid where both its IDs have a byte that is not zero.
pub proof fn law_ids_of_zeros_are_not_valid(l: LinkView)
    ensures
        l.valid() <==> (exists|i: int| 0 <= i < l.trace_id.len() && #[trigger] l.trace_id[i] != 0)
            && (exists|i: int| 0 <= i < l.span_id.len() && #[trigger] l.span_id[i] != 0),
{
}

/// The name at the end of an ARN is what follows its last colon.
pub proof fn law_a_name_follows_the_last_colon(front: Seq<char>, name: Seq<char>)
    requires
        text::free_of(name, ':'),
    ensures
        name_in_arn(front.push(':') + name) == name,
        name_in_arn(name) == name,
    decreases front.len(),
{
    text::lemma_split_single(name, ':');
    let arn = front.push(':') + name;
    text::lemma_index_of(front, ':');
    let i = text::index_of(front, ':');
    let head = front.take(i);
    if i < front.len() {
        let rest = front.skip(i + 1);
        law_a_name_follows_the_last_colon(rest, name);
        assert(arn =~= head.push(':') + (rest.push(':') + name));
        assert(text::free_of(head, ':'));
        text::lemma_split_join(head, ':', rest.push(':') + name);
        text::lemma_split_parts(rest.push(':') + name, ':');
        assert(text::split(arn, ':').last() == text::split(rest.push(':') + name, ':').last());
    } else {
        assert(text::free_of(front, ':'));
        text::lemma_split_join(front, ':', name);
        assert(text::split(arn, ':').last() == name);
    }
}

/// A list gives the value of the first entry of a name, and in any case where that is
/// asked.
pub proof fn law_a_list_gives_its_first_entry(
    list: Vec<(String, String)>,
    key: &str,
    i: int,
    r: Option<&str>,
    any: Option<&str>,
)
    requires
        call_ensures(lookup_str, (&list, key), r),
        call_ensures(lookup_any_case_str, (&list, key), any),
        0 <= i < list@.len(),
        list@[i].0@ == key@,
        forall|j: int|
            0 <= j < i ==> text::ascii_lower_all((#[trigger] list@[j]).0@) != text::ascii_lower_all(
                key@,
            ),
    ensures
        r is Some && r->0@ == list@[i].1@,
        any is Some && any->0@ == list@[i].1@,
{
    assert forall|j: int| 0 <= j < i implies (#[trigger] list@[j]).0@ != key@ by {
        assert(text::ascii_lower_all(list@[j].0@) != text::ascii_lower_all(key@));
    }
    lemma_first_entry(list@, key@, i);
}

/// The first entry of a name is the one that a list gives.
proof fn lemma_first_entry(list: Seq<(String, String)>, key: Seq<char>, i: int)
    requires
        0 <= i < list.len(),
        list[i].0@ == key,
        forall|j: int| 0 <= j < i ==> (#[trigger] list[j]).0@ != key,
        forall|j: int|
            0 <= j < i ==> text::ascii_lower_all((#[trigger] list[j]).0@) != text::ascii_lower_all(
                key,
            ),
    ensures
        lookup(list, key) == Some(list[i].1@),
        lookup_any_case(list, key) == Some(list[i].1@),
    decreases i,
{
    if i > 0 {
        assert(list[0].0@ != key);
        assert forall|j: int| 0 <= j < i - 1 implies (#[trigger] list.skip(1)[j]).0@ != key
            && text::ascii_lower_all(list.skip(1)[j].0@) != text::ascii_lower_all(key) by {
            assert(list.skip(1)[j] == list[j + 1]);
        }
        lemma_first_entry(list.skip(1), key, i - 1);
    }
}

/// The context that the headers give is chosen where it is valid; else the one of the
/// environment, where that is; else the current one.
pub proof fn law_the_headers_are_chosen_first(
    headers: Propagated,
    environment: Option<Propagated>,
    current: opentelemetry::Context,
    c: opentelemetry::Context,
)
    requires
        call_ensures(choose_context, (headers, environment, current), c),
    ensures
        headers.valid ==> c == headers.context,
        !headers.valid && environment is Some && environment->0.valid ==> c
            == environment->0.context,
        !headers.valid && (environment is None || !environment->0.valid) ==> c == current,
{
}

} // verus!
