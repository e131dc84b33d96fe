//! Invocation context management for span correlation.
//!
//! Correlates platform events with the spans of the function: for each active
//! invocation it keeps the parent span that the function told of, and the platform
//! events that wait for it.
use crate::config;
use crate::config::CorrelationConfig;
use crate::table;
use crate::table::Table;
use crate::text;
use crate::text::equal;
use crate::time;
use crate::time::{Clock, Moment};
use vstd::prelude::*;
use vstd::string::*;

verus! {

/// Unique identifier for a Lambda invocation request.
pub type RequestId = String;

/// Span context information extracted from a parent span.
#[derive(Debug, Clone, PartialEq, Eq)]
pub struct SpanContext {
    /// The trace ID (16 bytes as hex string).
    pub trace_id: String,
    /// The span ID (8 bytes as hex string).
    pub span_id: String,
    /// Trace flags (sampled, etc.).
    pub trace_flags: u8,
    /// Trace state (vendor-specific data).
    pub trace_state: Option<String>,
}

/// A span context, as the contracts see it.
pub struct SpanContextView {
    /// The trace ID.
    pub trace_id: Seq<char>,
    /// The span ID.
    pub span_id: Seq<char>,
    /// Trace flags.
    pub trace_flags: u8,
    /// Trace state.
    pub trace_state: Option<Seq<char>>,
}

impl View for SpanContext {
    type V = SpanContextView;

    open spec fn view(&self) -> SpanContextView {
        SpanContextView {
            trace_id: self.trace_id@,
            span_id: self.span_id@,
            trace_flags: self.trace_flags,
            trace_state: text::opt_view(self.trace_state),
        }
    }
}

impl SpanContext {
    /// A copy of the context.
    pub fn copy(&self) -> (c: SpanContext)
        ensures
            c@ == self@,
    {
        SpanContext {
            trace_id: self.trace_id.clone(),
            span_id: self.span_id.clone(),
            trace_flags: self.trace_flags,
            trace_state: match &self.trace_state {
                Some(s) => Some(s.clone()),
                None => None,
            },
        }
    }
}

/// Types of platform events from the Telemetry API.
#[non_exhaustive]
#[derive(Debug, Clone, Copy, PartialEq, Eq, Structural)]
pub enum PlatformEventType {
    /// Function initialization started.
    InitStart,
    /// Runtime initialization completed.
    InitRuntimeDone,
    /// Init phase report.
    InitReport,
    /// Invocation started.
    Start,
    /// Runtime completed processing.
    RuntimeDone,
    /// Invocation report with metrics.
    Report,
}

/// Platform event received from the Lambda Telemetry API.
#[derive(Debug, Clone)]
pub struct PlatformEvent {
    /// The type of platform event.
    pub event_type: PlatformEventType,
    /// When the event occurred, in nanoseconds since the epoch.
    pub timestamp_nanos: i64,
    /// The request ID this event belongs to.
    pub request_id: RequestId,
    /// Additional event-specific data, as JSON text.
    pub data: String,
}

/// Context for a single invocation, tracking correlation state.
#[derive(Debug)]
struct InvocationContext {
    started_at: Moment,
    parent_span_context: Option<SpanContext>,
    pending_platform_events: Vec<PlatformEvent>,
}

/// The context of an invocation, as the contracts see it.
pub struct ContextState {
    /// When it was made.
    pub started_at: Moment,
    /// The parent span, once it is known.
    pub parent: Option<SpanContextView>,
    /// The events that wait.
    pub events: Seq<PlatformEvent>,
}

impl View for InvocationContext {
    type V = ContextState;

    closed spec fn view(&self) -> ContextState {
        ContextState {
            started_at: self.started_at,
            parent: match self.parent_span_context {
                Some(c) => Some(c@),
                None => None,
            },
            events: self.pending_platform_events@,
        }
    }
}

impl InvocationContext {
    fn new(now: Moment) -> (c: Self)
        ensures
            c@ == new_context(now),
    {
        InvocationContext {
            started_at: now,
            parent_span_context: None,
            pending_platform_events: Vec::new(),
        }
    }
}

/// The context of an invocation of which nothing is known but that it began.
pub open spec fn new_context(now: Moment) -> ContextState {
    ContextState { started_at: now, parent: None, events: Seq::empty() }
}

/// The contexts of the active invocations, by request ID.
pub type Contexts = Map<Seq<char>, ContextState>;

/// Whether a context has not outlived its time.
pub open spec fn is_fresh(c: ContextState, config: CorrelationConfig, now: Moment) -> bool {
    time::minus(now@, c.started_at@) <= config.max_invocation_lifetime@
}

/// The contexts that have not outlived their time.
pub open spec fn fresh(m: Contexts, config: CorrelationConfig, now: Moment) -> Contexts {
    Map::new(
        |id: Seq<char>| m.dom().contains(id) && is_fresh(m[id], config, now),
        |id: Seq<char>| m[id],
    )
}

/// The contexts after an invocation was registered. One that is known keeps its
/// context; where there are too many, those that outlived their time leave first.
pub open spec fn registered(
    m: Contexts,
    config: CorrelationConfig,
    id: Seq<char>,
    now: Moment,
) -> Contexts {
    let kept = if m.dom().len() >= config.max_total_buffered_events {
        fresh(m, config, now)
    } else {
        m
    };
    if kept.dom().contains(id) {
        kept
    } else {
        kept.insert(id, new_context(now))
    }
}

/// The contexts after the parent span of an invocation became known. That of an
/// unknown invocation is ignored.
pub open spec fn with_parent(m: Contexts, id: Seq<char>, parent: SpanContextView) -> Contexts {
    if m.dom().contains(id) {
        m.insert(id, ContextState { parent: Some(parent), ..m[id] })
    } else {
        m
    }
}

/// The contexts after a platform event. It waits with its invocation, unless as
/// many wait there as may; an unknown invocation gets a context.
pub open spec fn with_event(
    m: Contexts,
    config: CorrelationConfig,
    event: PlatformEvent,
    now: Moment,
) -> Contexts {
    let id = event.request_id@;
    if !m.dom().contains(id) {
        m.insert(id, ContextState { events: seq![event], ..new_context(now) })
    } else if m[id].events.len() < config.max_buffered_events_per_invocation {
        m.insert(id, ContextState { events: m[id].events.push(event), ..m[id] })
    } else {
        m
    }
}

/// The contexts after the events of an invocation were taken.
pub open spec fn without_events(m: Contexts, id: Seq<char>) -> Contexts {
    if m.dom().contains(id) {
        m.insert(id, ContextState { events: Seq::empty(), ..m[id] })
    } else {
        m
    }
}

/// The events that wait for an invocation.
pub open spec fn waiting_events(m: Contexts, id: Seq<char>) -> Seq<PlatformEvent> {
    if m.dom().contains(id) {
        m[id].events
    } else {
        Seq::empty()
    }
}

/// The parent span of an invocation.
pub open spec fn parent_of(m: Contexts, id: Seq<char>) -> Option<SpanContextView> {
    if m.dom().contains(id) {
        m[id].parent
    } else {
        None
    }
}

/// What waiting for a parent span has come to.
#[derive(Debug, Clone, PartialEq, Eq)]
pub enum ParentWait {
    /// It is over, with the parent span where it became known.
    Over(Option<SpanContext>),
    /// It goes on.
    Pending,
}

/// The parent span of an invocation that was removed.
#[derive(Debug)]
struct Departure {
    request_id: String,
    parent: SpanContext,
    at: Moment,
}

/// The parent span of an invocation that was removed, as the contracts see it.
pub struct DepartureView {
    /// The request ID of the invocation.
    pub request_id: Seq<char>,
    /// Its parent span.
    pub parent: SpanContextView,
    /// When it was removed.
    pub at: Moment,
}

impl View for Departure {
    type V = DepartureView;

    closed spec fn view(&self) -> DepartureView {
        DepartureView { request_id: self.request_id@, parent: self.parent@, at: self.at }
    }
}

/// The departures that someone may still wait for: those within the correlation
/// delay.
pub open spec fn late_departures(
    list: Seq<DepartureView>,
    config: CorrelationConfig,
    now: Moment,
) -> Seq<DepartureView>
    decreases list.len(),
{
    if list.len() == 0 {
        Seq::empty()
    } else {
        let before = late_departures(list.drop_last(), config, now);
        if time::minus(now@, list.last().at@) <= config.max_correlation_delay@ {
            before.push(list.last())
        } else {
            before
        }
    }
}

/// The departures after an invocation was removed.
pub open spec fn departures_after(
    list: Seq<DepartureView>,
    m: Contexts,
    config: CorrelationConfig,
    request_id: Seq<char>,
    now: Moment,
) -> Seq<DepartureView> {
    let late = late_departures(list, config, now);
    match parent_of(m, request_id) {
        Some(parent) => late.push(DepartureView { request_id, parent, at: now }),
        None => late,
    }
}

/// The parent span of an invocation that was removed after `since`.
pub open spec fn departed_parent(
    list: Seq<DepartureView>,
    request_id: Seq<char>,
    since: Moment,
) -> Option<SpanContextView>
    decreases list.len(),
{
    if list.len() == 0 {
        None
    } else if list.last().request_id == request_id && since@ <= list.last().at@ {
        Some(list.last().parent)
    } else {
        departed_parent(list.drop_last(), request_id, since)
    }
}

/// Whether the departures tell also of the invocations that left at `now`, when only
/// some contexts were kept.
pub open spec fn departed_from(
    before: Seq<DepartureView>,
    after: Seq<DepartureView>,
    m: Contexts,
    kept: Contexts,
    now: Moment,
) -> bool {
    forall|id: Seq<char>, since: Moment| #[trigger]
        departed_parent(after, id, since) == (if parent_of(m, id) is Some && !kept.dom().contains(
            id,
        ) && since@ <= now@ {
            parent_of(m, id)
        } else {
            departed_parent(before, id, since)
        })
}

/// Whether these are the departures after an invocation was registered: where there
/// were too many, those that outlived their time have left.
pub open spec fn departed_at_registration(
    before: Seq<DepartureView>,
    after: Seq<DepartureView>,
    m: Contexts,
    config: CorrelationConfig,
    now: Moment,
) -> bool {
    if m.dom().len() >= config.max_total_buffered_events {
        departed_from(
            late_departures(before, config, now),
            after,
            m,
            fresh(m, config, now),
            now,
        )
    } else {
        after == before
    }
}

/// The parent span that is known to whoever began to wait at `since`: that of the
/// invocation, also where it was removed in the meantime.
pub open spec fn known_parent(
    m: Contexts,
    departures: Seq<DepartureView>,
    request_id: Seq<char>,
    since: Moment,
) -> Option<SpanContextView> {
    match departed_parent(departures, request_id, since) {
        Some(parent) => Some(parent),
        None => parent_of(m, request_id),
    }
}

/// Central coordinator for correlating platform spans with function spans.
#[derive(Debug)]
pub struct InvocationContextManager {
    clock: Clock,
    departed: Vec<Departure>,
    contexts: Table<InvocationContext>,
    config: CorrelationConfig,
}

impl View for InvocationContextManager {
    type V = Contexts;

    closed spec fn view(&self) -> Contexts {
        self.contexts@.map_values(|c: InvocationContext| c@)
    }
}

impl InvocationContextManager {
    /// No invocation has two contexts.
    pub closed spec fn wf(&self) -> bool {
        self.contexts.wf()
    }

    /// The configuration.
    pub closed spec fn settings(&self) -> CorrelationConfig {
        self.config
    }

    /// The clock that tells when invocations began.
    pub closed spec fn clock(&self) -> Clock {
        self.clock
    }

    /// The departures that someone may still wait for.
    pub closed spec fn departures(&self) -> Seq<DepartureView> {
        self.departed@.map_values(|d: Departure| d@)
    }

    /// Creates a new context manager with the given configuration.
    pub fn new(config: CorrelationConfig) -> (m: Self)
        ensures
            m.wf(),
            m.settings() == config,
            m.clock().may_be_started(),
            m.departures() == Seq::<DepartureView>::empty(),
            m@ == Map::<Seq<char>, ContextState>::empty(),
    {
        InvocationContextManager::with_clock(config, Clock::start())
    }

    /// Creates a new context manager with the given configuration, on the given clock.
    pub fn with_clock(config: CorrelationConfig, clock: Clock) -> (m: Self)
        ensures
            m.wf(),
            m.settings() == config,
            m.clock() == clock,
            m.departures() == Seq::<DepartureView>::empty(),
            m@ == Map::<Seq<char>, ContextState>::empty(),
    {
        let m = InvocationContextManager {
            clock,
            departed: Vec::new(),
            contexts: Table::new(),
            config,
        };
        assert(m@ =~= Map::<Seq<char>, ContextState>::empty());
        assert(m.departures() =~= Seq::<DepartureView>::empty());
        m
    }

    /// Creates a new context manager with default configuration.
    pub fn with_defaults() -> (m: Self)
        ensures
            m.wf(),
            m@ == Map::<Seq<char>, ContextState>::empty(),
            m.clock().may_be_started(),
            m.departures() == Seq::<DepartureView>::empty(),
            config::is_default_correlation(m.settings()),
    {
        InvocationContextManager::new(CorrelationConfig::default())
    }

    /// Registers a new invocation context.
    ///
    /// Call this when receiving an INVOKE event from the Extensions API.
    pub fn register_invocation(&mut self, request_id: RequestId)
        requires
            old(self).wf(),
        ensures
            final(self).wf(),
            final(self).settings() == old(self).settings(),
            final(self).clock() == old(self).clock(),
            exists|now: Moment|
                {
                    &&& old(self).clock().may_show(now)
                    &&& final(self)@ == #[trigger] registered(
                        old(self)@,
                        old(self).settings(),
                        request_id@,
                        now,
                    )
                    &&& departed_at_registration(
                        old(self).departures(),
                        final(self).departures(),
                        old(self)@,
                        old(self).settings(),
                        now,
                    )
                },
    {
        let now = self.clock.now();
        self.register_invocation_at(request_id, now);
    }

    /// Registers a new invocation context at the given time.
    pub fn register_invocation_at(&mut self, request_id: RequestId, now: Moment)
        requires
            old(self).wf(),
        ensures
            final(self).wf(),
            final(self).settings() == old(self).settings(),
            final(self).clock() == old(self).clock(),
            departed_at_registration(
                old(self).departures(),
                final(self).departures(),
                old(self)@,
                old(self).settings(),
                now,
            ),
            final(self)@ == registered(old(self)@, old(self).settings(), request_id@, now),
    {
        let n: usize = self.contexts.len();
        proof {
            assert(self@.dom() =~= self.contexts@.dom());
        }
        if n >= self.config.max_total_buffered_events {
            self.cleanup_stale_contexts_at(now);
        }
        if !self.contexts.contains_key(request_id.as_str()) {
            let ghost before = self@;
            self.contexts.insert(request_id, InvocationContext::new(now));
            assert(self@ =~= before.insert(request_id@, new_context(now)));
        }
    }

    /// Sets the parent span context for an invocation.
    ///
    /// Call this when a span with `faas.parent_span = true` is received from the
    /// function's OTLP telemetry.
    pub fn set_parent_span(&mut self, request_id: &str, context: SpanContext)
        requires
            old(self).wf(),
        ensures
            final(self).wf(),
            final(self).settings() == old(self).settings(),
            final(self).clock() == old(self).clock(),
            final(self).departures() == old(self).departures(),
            final(self)@ == with_parent(old(self)@, request_id@, context@),
    {
        let ghost before = self@;
        match self.contexts.remove(request_id) {
            Some(c) => {
                let updated = InvocationContext {
                    started_at: c.started_at,
                    parent_span_context: Some(context),
                    pending_platform_events: c.pending_platform_events,
                };
                proof {
                    assert(updated@ == ContextState { parent: Some(context@), ..c@ });
                }
                self.contexts.insert(request_id.to_owned(), updated);
                assert(self@ =~= before.insert(request_id@, updated@));
            },
            None => {
                assert(self@ =~= before);
            },
        }
    }

    /// What waiting for a parent span has come to, for whoever began to wait at
    /// `since`. It is over as soon as the parent span is known, the invocation is
    /// not, or `max_correlation_delay` has passed. A parent span that was known when
    /// its invocation was removed is found by whoever waited by then.
    pub fn poll_parent_span(&self, request_id: &str, since: Moment, now: Moment) -> (r: ParentWait)
        requires
            self.wf(),
        ensures
            ({
                let known = known_parent(self@, self.departures(), request_id@, since);
                let late = time::minus(now@, since@) >= self.settings().max_correlation_delay@;
                match r {
                    ParentWait::Over(found) => {
                        &&& known == (match found {
                            Some(c) => Some(c@),
                            None => None,
                        })
                        &&& found is None ==> !self@.dom().contains(request_id@) || late
                    },
                    ParentWait::Pending => known is None && self@.dom().contains(request_id@)
                        && !late,
                }
            }),
    {
        if let Some(parent) = self.find_departed(request_id, since) {
            return ParentWait::Over(Some(parent));
        }
        match self.contexts.get(request_id) {
            Some(c) => match &c.parent_span_context {
                Some(parent) => ParentWait::Over(Some(parent.copy())),
                None => {
                    if now.since(since).nanos >= self.config.max_correlation_delay.nanos {
                        ParentWait::Over(None)
                    } else {
                        ParentWait::Pending
                    }
                },
            },
            None => ParentWait::Over(None),
        }
    }

    /// Gets the current parent span context if available (non-blocking).
    pub fn get_parent_span(&self, request_id: &str) -> (r: Option<SpanContext>)
        requires
            self.wf(),
        ensures
            parent_of(self@, request_id@) == (match r {
                Some(c) => Some(c@),
                None => None,
            }),
    {
        match self.contexts.get(request_id) {
            Some(c) => match &c.parent_span_context {
                Some(parent) => Some(parent.copy()),
                None => None,
            },
            None => None,
        }
    }

    /// Adds a platform event to the invocation context.
    ///
    /// Events are buffered until the parent span is available for correlation.
    pub fn add_platform_event(&mut self, event: PlatformEvent)
        requires
            old(self).wf(),
        ensures
            final(self).wf(),
            final(self).settings() == old(self).settings(),
            final(self).clock() == old(self).clock(),
            final(self).departures() == old(self).departures(),
            exists|now: Moment|
                old(self).clock().may_show(now) && final(self)@ == #[trigger] with_event(
                    old(self)@,
                    old(self).settings(),
                    event,
                    now,
                ),
    {
        let now = self.clock.now();
        self.add_platform_event_at(event, now);
    }

    /// Adds a platform event to the invocation context at the given time.
    pub fn add_platform_event_at(&mut self, event: PlatformEvent, now: Moment)
        requires
            old(self).wf(),
        ensures
            final(self).wf(),
            final(self).settings() == old(self).settings(),
            final(self).clock() == old(self).clock(),
            final(self).departures() == old(self).departures(),
            final(self)@ == with_event(old(self)@, old(self).settings(), event, now),
    {
        let ghost before = self@;
        let id = event.request_id.clone();
        match self.contexts.remove(id.as_str()) {
            Some(c) => {
                let mut events = c.pending_platform_events;
                if events.len() < self.config.max_buffered_events_per_invocation {
                    events.push(event);
                }
                let updated = InvocationContext {
                    started_at: c.started_at,
                    parent_span_context: c.parent_span_context,
                    pending_platform_events: events,
                };
                self.contexts.insert(id, updated);
                proof {
                    assert(self@ =~= before.insert(id@, updated@));
                    if before[id@].events.len() < self.settings().max_buffered_events_per_invocation {
                        assert(updated@ == ContextState {
                            events: before[id@].events.push(event),
                            ..before[id@]
                        });
                    } else {
                        assert(updated@ == before[id@]);
                        assert(self@ =~= before);
                    }
                }
            },
            None => {
                let fresh_context = InvocationContext {
                    started_at: now,
                    parent_span_context: None,
                    pending_platform_events: vec![event],
                };
                self.contexts.insert(id, fresh_context);
                proof {
                    assert(fresh_context@.events =~= seq![event]);
                    assert(self@ =~= before.insert(id@, fresh_context@));
                }
            },
        }
    }

    /// Takes all pending platform events for an invocation.
    ///
    /// Returns the events and clears the buffer.
    pub fn take_platform_events(&mut self, request_id: &str) -> (events: Vec<PlatformEvent>)
        requires
            old(self).wf(),
        ensures
            final(self).wf(),
            final(self).settings() == old(self).settings(),
            final(self).clock() == old(self).clock(),
            final(self).departures() == old(self).departures(),
            events@ == waiting_events(old(self)@, request_id@),
            final(self)@ == without_events(old(self)@, request_id@),
    {
        let ghost before = self@;
        match self.contexts.remove(request_id) {
            Some(c) => {
                let updated = InvocationContext {
                    started_at: c.started_at,
                    parent_span_context: c.parent_span_context,
                    pending_platform_events: Vec::new(),
                };
                self.contexts.insert(request_id.to_owned(), updated);
                assert(updated@ == ContextState { events: Seq::empty(), ..c@ });
                assert(self@ =~= before.insert(request_id@, updated@));
                c.pending_platform_events
            },
            None => {
                assert(self@ =~= before);
                Vec::new()
            },
        }
    }

    /// Removes an invocation context.
    ///
    /// Call this after the invocation is complete and all data has been flushed.
    pub fn remove_invocation(&mut self, request_id: &str)
        requires
            old(self).wf(),
        ensures
            final(self).wf(),
            final(self).settings() == old(self).settings(),
            final(self).clock() == old(self).clock(),
            final(self)@ == old(self)@.remove(request_id@),
            exists|now: Moment|
                old(self).clock().may_show(now) && final(self).departures()
                    == #[trigger] departures_after(
                    old(self).departures(),
                    old(self)@,
                    old(self).settings(),
                    request_id@,
                    now,
                ),
    {
        let now = self.clock.now();
        self.remove_invocation_at(request_id, now);
    }

    /// Removes an invocation context at the given time. Whoever waits for its parent
    /// span still finds it.
    pub fn remove_invocation_at(&mut self, request_id: &str, now: Moment)
        requires
            old(self).wf(),
        ensures
            final(self).wf(),
            final(self).settings() == old(self).settings(),
            final(self).clock() == old(self).clock(),
            final(self)@ == old(self)@.remove(request_id@),
            final(self).departures() == departures_after(
                old(self).departures(),
                old(self)@,
                old(self).settings(),
                request_id@,
                now,
            ),
    {
        self.forget_departures(now);
        let ghost late = self.departures();
        match self.contexts.remove(request_id) {
            Some(c) => {
                if let Some(parent) = c.parent_span_context {
                    let departure = Departure { request_id: request_id.to_owned(), parent, at: now };
                    self.departed.push(departure);
                    assert(self.departures() =~= late.push(departure@));
                }
            },
            None => {},
        }
        assert(self@ =~= old(self)@.remove(request_id@));
    }

    /// Forgets the departures that nobody can wait for any more.
    fn forget_departures(&mut self, now: Moment)
        requires
            old(self).wf(),
        ensures
            final(self).wf(),
            final(self).settings() == old(self).settings(),
            final(self).clock() == old(self).clock(),
            final(self)@ == old(self)@,
            final(self).contexts == old(self).contexts,
            final(self).departures() == late_departures(
                old(self).departures(),
                old(self).settings(),
                now,
            ),
    {
        let mut all: Vec<Departure> = Vec::new();
        std::mem::swap(&mut all, &mut self.departed);
        let ghost views = old(self).departures();
        let ghost list = all@;
        assert(list.map_values(|d: Departure| d@) =~= views);
        assert(views.take(0) =~= Seq::empty());
        assert(self.departures() =~= late_departures(views.take(0), self.settings(), now));
        for departure in it: all
            invariant
                it.seq() == list,
                views == list.map_values(|d: Departure| d@),
                self.wf(),
                self.contexts == old(self).contexts,
                self.settings() == old(self).settings(),
                self.clock() == old(self).clock(),
                self.departures() == late_departures(
                    views.take(it.index() as int),
                    self.settings(),
                    now,
                ),
        {
            let ghost i = it.index() as int;
            let ghost before = self.departures();
            proof {
                assert(views.take(i + 1).drop_last() =~= views.take(i));
                assert(views.take(i + 1).last() == departure@);
            }
            if now.since(departure.at).nanos <= self.config.max_correlation_delay.nanos {
                self.departed.push(departure);
                assert(self.departures() =~= before.push(departure@));
            }
        }
        assert(views.take(views.len() as int) =~= views);
    }

    /// The parent span of an invocation that was removed after `since`.
    fn find_departed(&self, request_id: &str, since: Moment) -> (r: Option<SpanContext>)
        ensures
            departed_parent(self.departures(), request_id@, since) == (match r {
                Some(c) => Some(c@),
                None => None,
            }),
    {
        let ghost views = self.departures();
        let mut i: usize = self.departed.len();
        assert(views.take(i as int) =~= views);
        while i > 0
            invariant
                i <= self.departed.len(),
                views == self.departures(),
                departed_parent(views.take(i as int), request_id@, since) == departed_parent(
                    views,
                    request_id@,
                    since,
                ),
            decreases i,
        {
            let departure = &self.departed[i - 1];
            proof {
                assert(views.take(i as int).last() == departure@);
                assert(views.take(i as int).drop_last() =~= views.take(i - 1));
            }
            if equal(departure.request_id.as_str(), request_id) && since.reached(departure.at) {
                return Some(departure.parent.copy());
            }
            i = i - 1;
        }
        None
    }

    /// Returns the number of active invocation contexts.
    pub fn active_count(&self) -> (n: usize)
        requires
            self.wf(),
        ensures
            n == self@.dom().len(),
    {
        assert(self@.dom() =~= self.contexts@.dom());
        self.contexts.len()
    }

    /// Cleans up stale invocation contexts.
    ///
    /// Removes contexts that have exceeded `max_invocation_lifetime`.
    pub fn cleanup_stale_contexts(&mut self)
        requires
            old(self).wf(),
        ensures
            final(self).wf(),
            final(self).settings() == old(self).settings(),
            final(self).clock() == old(self).clock(),
            exists|now: Moment|
                {
                    &&& old(self).clock().may_show(now)
                    &&& final(self)@ == #[trigger] fresh(old(self)@, old(self).settings(), now)
                    &&& departed_from(
                        late_departures(old(self).departures(), old(self).settings(), now),
                        final(self).departures(),
                        old(self)@,
                        final(self)@,
                        now,
                    )
                },
    {
        let now = self.clock.now();
        self.cleanup_stale_contexts_at(now);
    }

    /// Cleans up the invocation contexts that are stale at the given time.
    pub fn cleanup_stale_contexts_at(&mut self, now: Moment)
        requires
            old(self).wf(),
        ensures
            final(self).wf(),
            final(self).settings() == old(self).settings(),
            final(self).clock() == old(self).clock(),
            final(self)@ == fresh(old(self)@, old(self).settings(), now),
            departed_from(
                late_departures(old(self).departures(), old(self).settings(), now),
                final(self).departures(),
                old(self)@,
                final(self)@,
                now,
            ),
    {
        self.forget_departures(now);
        let ghost all = self@;
        let ghost late = self.departures();
        let ghost config = self.settings();
        let mut i: usize = 0;
        let mut n: usize = self.contexts.len();
        while i < n
            invariant
                self.wf(),
                self.settings() == config,
                self.clock() == old(self).clock(),
                departed_from(late, self.departures(), all, self@, now),
                i <= n,
                n == self.contexts.listed().len(),
                forall|id: Seq<char>| #[trigger]
                    self@.dom().contains(id) ==> all.dom().contains(id) && self@[id] == all[id],
                forall|id: Seq<char>| #[trigger]
                    all.dom().contains(id) && is_fresh(all[id], config, now) ==> self@.dom().contains(
                        id,
                    ),
                forall|j: int|
                    0 <= j < i ==> is_fresh(
                        (#[trigger] self.contexts.listed()[j]).1@,
                        config,
                        now,
                    ),
            decreases n - i,
        {
            let ghost listed = self.contexts.listed();
            let ghost before = self@;
            proof {
                self.contexts.lemma_listed();
                table::lemma_entry(listed, i as int);
            }
            let entry = self.contexts.entry(i);
            let age = now.since(entry.1.started_at);
            if age.nanos > self.config.max_invocation_lifetime.nanos {
                let id = entry.0.clone();
                let ghost departures = self.departures();
                if let Some(c) = self.contexts.remove(id.as_str()) {
                    assert(before.dom().contains(id@));
                    assert(c@ == all[id@]);
                    if let Some(parent) = c.parent_span_context {
                        let departure = Departure { request_id: id.clone(), parent, at: now };
                        self.departed.push(departure);
                        proof {
                            let longer = self.departures();
                            assert(longer =~= departures.push(departure@));
                            assert(longer.drop_last() =~= departures);
                            assert(parent_of(all, id@) == Some(departure@.parent));
                        }
                    }
                }
                n = n - 1;
                proof {
                    let p = choose|p: int|
                        0 <= p < listed.len() && (#[trigger] listed[p]).0@ == id@
                            && self.contexts.listed() == listed.remove(p);
                    if p < i {
                        assert(listed[p].0@ != listed[i as int].0@);
                    } else if i < p {
                        assert(listed[i as int].0@ != listed[p].0@);
                    }
                    assert(self@ =~= before.remove(id@));
                    assert forall|k: Seq<char>, since: Moment| #[trigger]
                        departed_parent(self.departures(), k, since) == (if parent_of(
                        all,
                        k,
                    ) is Some && !self@.dom().contains(k) && since@ <= now@ {
                        parent_of(all, k)
                    } else {
                        departed_parent(late, k, since)
                    }) by {
                        assert(departed_parent(departures, k, since) == departed_parent(
                            departures,
                            k,
                            since,
                        ));
                    }
                    assert(!is_fresh(before[id@], config, now));
                    assert forall|j: int| 0 <= j < i implies is_fresh(
                        (#[trigger] self.contexts.listed()[j]).1@,
                        config,
                        now,
                    ) by {
                        assert(self.contexts.listed()[j] == listed[j]);
                    }
                }
            } else {
                i = i + 1;
            }
        }
        proof {
            self.contexts.lemma_listed();
            let listed = self.contexts.listed();
            assert forall|id: Seq<char>| #[trigger] self@.dom().contains(id) implies is_fresh(
                all[id],
                config,
                now,
            ) by {
                assert(table::has_key(listed, id));
                let j = table::key_index(listed, id);
                table::lemma_entry(listed, j);
                assert(is_fresh(listed[j].1@, config, now));
            }
            assert(self@ =~= fresh(all, config, now));
        }
    }

    /// Returns whether to emit orphaned spans (spans without parent context).
    pub fn emit_orphaned_spans(&self) -> (r: bool)
        ensures
            r == self.settings().emit_orphaned_spans,
    {
        self.config.emit_orphaned_spans
    }
}

/// Whoever waits for a parent span finds it also where its invocation is removed
/// before they look.
pub proof fn law_removal_does_not_lose_the_parent(
    m: Contexts,
    departures: Seq<DepartureView>,
    config: CorrelationConfig,
    id: Seq<char>,
    parent: SpanContextView,
    since: Moment,
    removed: Moment,
)
    requires
        m.dom().contains(id),
        since@ <= removed@,
    ensures
        ({
            let set = with_parent(m, id, parent);
            known_parent(
                set.remove(id),
                departures_after(departures, set, config, id, removed),
                id,
                since,
            ) == Some(parent)
        }),
{
}

/// What was set is what is found: the parent span of a known invocation is the one
/// that was set last.
pub proof fn law_parent_is_what_was_set(m: Contexts, id: Seq<char>, parent: SpanContextView)
    requires
        m.dom().contains(id),
    ensures
        parent_of(with_parent(m, id, parent), id) == Some(parent),
{
}

/// Registering an invocation again loses nothing, as long as its context has not
/// outlived its time.
pub proof fn law_registering_again_keeps_the_context(
    m: Contexts,
    config: CorrelationConfig,
    id: Seq<char>,
    now: Moment,
)
    requires
        m.dom().contains(id),
        is_fresh(m[id], config, now),
    ensures
        registered(m, config, id, now)[id] == m[id],
        registered(m, config, id, now).dom().contains(id),
{
}

/// Taking events leaves none: they are handed out once.
pub proof fn law_events_are_taken_once(m: Contexts, id: Seq<char>)
    ensures
        waiting_events(without_events(m, id), id) == Seq::<PlatformEvent>::empty(),
{
    assert(waiting_events(without_events(m, id), id) =~= Seq::<PlatformEvent>::empty());
}

/// The events that wait for an invocation are bounded, once the limit is not zero.
pub proof fn law_waiting_events_are_bounded(
    m: Contexts,
    config: CorrelationConfig,
    event: PlatformEvent,
    now: Moment,
    id: Seq<char>,
)
    requires
        config.max_buffered_events_per_invocation > 0,
        waiting_events(m, id).len() <= config.max_buffered_events_per_invocation,
    ensures
        waiting_events(with_event(m, config, event, now), id).len()
            <= config.max_buffered_events_per_invocation,
{
}

/// An event reaches its own invocation alone.
pub proof fn law_events_do_not_cross(
    m: Contexts,
    config: CorrelationConfig,
    event: PlatformEvent,
    now: Moment,
    other: Seq<char>,
)
    requires
        other != event.request_id@,
    ensures
        waiting_events(with_event(m, config, event, now), other) == waiting_events(m, other),
        parent_of(with_event(m, config, event, now), other) == parent_of(m, other),
{
}

/// Setting a parent span loses nothing: no event that waits, for this invocation or
/// another, no context, and no parent span of another invocation.
pub proof fn law_parent_leaves_the_events(
    m: Contexts,
    id: Seq<char>,
    parent: SpanContextView,
    other: Seq<char>,
)
    ensures
        waiting_events(with_parent(m, id, parent), other) == waiting_events(m, other),
        with_parent(m, id, parent).dom() == m.dom(),
        m.dom().contains(other) ==> with_parent(m, id, parent)[other].events == m[other].events
            && with_parent(m, id, parent)[other].started_at == m[other].started_at,
        m.dom().contains(other) && other != id ==> with_parent(m, id, parent)[other] == m[other],
        m.dom().contains(id) ==> with_parent(m, id, parent)[id].parent == Some(parent),
        !m.dom().contains(id) ==> with_parent(m, id, parent) == m,
{
    assert(with_parent(m, id, parent).dom() =~= m.dom());
}

/// Registering makes a context that knows nothing but its time, and touches no other that
/// has not outlived its own; what has outlived it leaves only where there are too many.
pub proof fn law_registering_adds_one_context(
    m: Contexts,
    config: CorrelationConfig,
    id: Seq<char>,
    now: Moment,
    other: Seq<char>,
)
    ensures
        registered(m, config, id, now).dom().contains(id),
        !m.dom().contains(id) ==> ({
            let c = registered(m, config, id, now)[id];
            c.started_at == now && c.parent is None && c.events.len() == 0
        }),
        other != id && m.dom().contains(other) && now@ <= m[other].started_at@
            + config.max_invocation_lifetime@ ==> registered(m, config, id, now).dom().contains(
            other,
        ) && registered(m, config, id, now)[other] == m[other],
        other != id && m.dom().contains(other) && m.dom().len() < config.max_total_buffered_events
            ==> registered(m, config, id, now).dom().contains(other) && registered(
            m,
            config,
            id,
            now,
        )[other] == m[other],
        other != id && m.dom().contains(other) && now@ > m[other].started_at@
            + config.max_invocation_lifetime@ && m.dom().len()
            >= config.max_total_buffered_events ==> !registered(
            m,
            config,
            id,
            now,
        ).dom().contains(other),
        other != id && !m.dom().contains(other) ==> !registered(m, config, id, now).dom().contains(
            other,
        ),
{
}

/// Cleaning up removes exactly the contexts older than the longest lifetime, and changes
/// none of the rest.
pub proof fn law_stale_contexts_leave(
    m: Contexts,
    config: CorrelationConfig,
    now: Moment,
    id: Seq<char>,
)
    ensures
        fresh(m, config, now).dom().contains(id) <==> m.dom().contains(id) && now@
            <= m[id].started_at@ + config.max_invocation_lifetime@,
        fresh(m, config, now).dom().contains(id) ==> fresh(m, config, now)[id] == m[id],
{
}

/// An event waits behind those that wait for its invocation already, as long as there is
/// room, and changes nothing else of it; without room it is dropped. An unknown
/// invocation gets a context in which the event waits alone.
pub proof fn law_an_event_waits_behind_the_others(
    m: Contexts,
    config: CorrelationConfig,
    event: PlatformEvent,
    now: Moment,
)
    ensures
        ({
            let id = event.request_id@;
            let after = with_event(m, config, event, now);
            &&& after.dom() == m.dom().insert(id)
            &&& m.dom().contains(id) ==> {
                &&& after[id].parent == m[id].parent
                &&& after[id].started_at == m[id].started_at
                &&& m[id].events.len() < config.max_buffered_events_per_invocation
                    ==> after[id].events == m[id].events.push(event)
                &&& m[id].events.len() >= config.max_buffered_events_per_invocation
                    ==> after[id].events == m[id].events
            }
            &&& !m.dom().contains(id) ==> {
                &&& after[id].parent is None
                &&& after[id].started_at == now
                &&& after[id].events == seq![event]
            }
        }),
{
    assert(with_event(m, config, event, now).dom() =~= m.dom().insert(event.request_id@));
}

/// What was added is what is taken: the events of an invocation come out once, in the
/// order in which they came, whether its parent span became known in between or not.
pub proof fn law_events_come_out_in_order(
    m: Contexts,
    config: CorrelationConfig,
    first: PlatformEvent,
    second: PlatformEvent,
    parent: SpanContextView,
    now: Moment,
)
    requires
        first.request_id@ == second.request_id@,
        !m.dom().contains(first.request_id@),
        config.max_buffered_events_per_invocation >= 2,
    ensures
        ({
            let id = first.request_id@;
            let one = with_event(m, config, first, now);
            let two = with_event(with_parent(one, id, parent), config, second, now);
            &&& waiting_events(two, id) == seq![first, second]
            &&& waiting_events(without_events(two, id), id).len() == 0
            &&& parent_of(without_events(two, id), id) == Some(parent)
        }),
{
    let id = first.request_id@;
    let one = with_event(m, config, first, now);
    let two = with_event(with_parent(one, id, parent), config, second, now);
    assert(waiting_events(two, id) =~= seq![first, second]);
}

/// The events that are handed out are all those that wait, and handing them out touches
/// neither the parent span nor any other invocation.
pub proof fn law_taking_events_touches_nothing_else(m: Contexts, id: Seq<char>, other: Seq<char>)
    ensures
        m.dom().contains(id) ==> waiting_events(m, id) == m[id].events,
        !m.dom().contains(id) ==> waiting_events(m, id).len() == 0,
        without_events(m, id).dom() == m.dom(),
        parent_of(without_events(m, id), other) == parent_of(m, other),
        other != id ==> waiting_events(without_events(m, id), other) == waiting_events(m, other),
        m.dom().contains(id) ==> without_events(m, id)[id].started_at == m[id].started_at,
        m.dom().contains(other) && other != id ==> without_events(m, id)[other] == m[other],
        m.dom().contains(other) ==> parent_of(m, other) == m[other].parent,
        !m.dom().contains(other) ==> parent_of(m, other) is None,
{
    assert(without_events(m, id).dom() =~= m.dom());
}

/// The parent span of a removed invocation is remembered for those who wait, for no longer
/// than the correlation delay.
pub proof fn law_departures_expire(
    list: Seq<DepartureView>,
    config: CorrelationConfig,
    now: Moment,
    d: DepartureView,
)
    ensures
        late_departures(list, config, now).contains(d) <==> list.contains(d) && now@ <= d.at@
            + config.max_correlation_delay@,
    decreases list.len(),
{
    if list.len() > 0 {
        let front = list.drop_last();
        law_departures_expire(front, config, now, d);
        let before = late_departures(front, config, now);
        assert(list =~= front.push(list.last()));
        assert(list.contains(d) <==> front.contains(d) || d == list.last()) by {
            if front.contains(d) {
                let i = choose|i: int| 0 <= i < front.len() && front[i] == d;
                assert(list[i] == d);
            }
            assert(list[list.len() - 1] == list.last());
            if list.contains(d) && d != list.last() {
                let i = choose|i: int| 0 <= i < list.len() && list[i] == d;
                assert(front[i] == d);
            }
        }
        let longer = before.push(list.last());
        assert(longer.contains(d) <==> before.contains(d) || d == list.last()) by {
            if before.contains(d) {
                let i = choose|i: int| 0 <= i < before.len() && before[i] == d;
                assert(longer[i] == d);
            }
            assert(longer[longer.len() - 1] == list.last());
            if longer.contains(d) && d != list.last() {
                let i = choose|i: int| 0 <= i < longer.len() && longer[i] == d;
                assert(before[i] == d);
            }
        }
    }
}

/// Whoever waits finds the parent span of a removed invocation exactly where one of its
/// own removals came after they began to wait, and it is that removal's.
pub proof fn law_departed_parent_is_of_a_removal(
    list: Seq<DepartureView>,
    request_id: Seq<char>,
    since: Moment,
)
    ensures
        departed_parent(list, request_id, since) is Some <==> exists|i: int|
            0 <= i < list.len() && (#[trigger] list[i]).request_id == request_id && since@
                <= list[i].at@,
        departed_parent(list, request_id, since) is Some ==> exists|i: int|
            0 <= i < list.len() && (#[trigger] list[i]).request_id == request_id && since@
                <= list[i].at@ && departed_parent(list, request_id, since) == Some(list[i].parent),
    decreases list.len(),
{
    if list.len() > 0 {
        let front = list.drop_last();
        law_departed_parent_is_of_a_removal(front, request_id, since);
        if list.last().request_id == request_id && since@ <= list.last().at@ {
            assert(list[list.len() - 1] == list.last());
        } else {
            if departed_parent(front, request_id, since) is Some {
                let i = choose|i: int|
                    0 <= i < front.len() && (#[trigger] front[i]).request_id == request_id && since@
                        <= front[i].at@ && departed_parent(front, request_id, since) == Some(
                        front[i].parent,
                    );
                assert(list[i] == front[i]);
            } else {
                assert forall|i: int| 0 <= i < list.len() implies !((
                #[trigger] list[i]).request_id == request_id && since@ <= list[i].at@) by {
                    if i < front.len() {
                        assert(front[i] == list[i]);
                    }
                }
            }
        }
    }
}

/// Only a parent span that was known is remembered when an invocation is removed, and it
/// does not disturb what others wait for.
pub proof fn law_removal_remembers_the_parent_alone(
    list: Seq<DepartureView>,
    m: Contexts,
    config: CorrelationConfig,
    id: Seq<char>,
    now: Moment,
    other: Seq<char>,
    since: Moment,
)
    ensures
        parent_of(m, id) is None ==> departures_after(list, m, config, id, now) == late_departures(
            list,
            config,
            now,
        ),
        other != id ==> departed_parent(departures_after(list, m, config, id, now), other, since)
            == departed_parent(late_departures(list, config, now), other, since),
        departed_parent(Seq::empty(), id, since) is None,
        known_parent(m, Seq::empty(), id, since) == parent_of(m, id),
{
    let late = late_departures(list, config, now);
    if parent_of(m, id) is Some {
        assert(departures_after(list, m, config, id, now).drop_last() =~= late);
    }
}

/// What a manager was told it tells again: the parent span that was set, for the invocation
/// that it was set for, and the events that wait.
pub proof fn law_a_manager_tells_what_it_was_told(
    m: &mut InvocationContextManager,
    n: &mut InvocationContextManager,
    request_id: &str,
    context: SpanContext,
    found: Option<SpanContext>,
    events: Vec<PlatformEvent>,
)
    requires
        call_ensures(InvocationContextManager::set_parent_span, (m, request_id, context), ()),
        call_ensures(InvocationContextManager::get_parent_span, (&*final(m), request_id), found),
        call_ensures(InvocationContextManager::take_platform_events, (n, request_id), events),
        *old(n) == *final(m),
        old(m)@.dom().contains(request_id@),
    ensures
        found is Some,
        found->0@ == context@,
        events@ == old(m)@[request_id@].events,
        final(n)@.dom() == old(m)@.dom(),
        final(n)@[request_id@].events.len() == 0,
        final(n)@[request_id@].parent == Some(context@),
        final(n).departures() == old(m).departures(),
{
    assert(final(n)@.dom() =~= old(m)@.dom());
}

/// An event that is added waits last for its own invocation, as long as there is room.
pub proof fn law_an_added_event_waits(
    m: &mut InvocationContextManager,
    event: PlatformEvent,
    now: Moment,
)
    requires
        call_ensures(InvocationContextManager::add_platform_event_at, (m, event, now), ()),
        old(m)@.dom().contains(event.request_id@) ==> old(m)@[event.request_id@].events.len()
            < old(m).settings().max_buffered_events_per_invocation,
    ensures
        final(m)@.dom().contains(event.request_id@),
        final(m)@[event.request_id@].events.len() > 0,
        final(m)@[event.request_id@].events.last() == event,
        old(m)@.dom().contains(event.request_id@) ==> final(m)@[event.request_id@].events.drop_last() == old(m)@[event.request_id@].events,
{
    if old(m)@.dom().contains(event.request_id@) {
        assert(final(m)@[event.request_id@].events.drop_last() =~= old(m)@[event.request_id@].events);
    }
}

/// A registered invocation is known, and a removed one is not; neither touches another.
pub proof fn law_invocations_come_and_go(
    m: &mut InvocationContextManager,
    n: &mut InvocationContextManager,
    id: String,
    other: Seq<char>,
    request_id: &str,
    now: Moment,
)
    requires
        call_ensures(InvocationContextManager::register_invocation_at, (m, id, now), ()),
        call_ensures(InvocationContextManager::remove_invocation_at, (n, request_id, now), ()),
        old(m)@.dom().len() < old(m).settings().max_total_buffered_events,
        other != id@,
        other != request_id@,
    ensures
        final(m)@.dom().contains(id@),
        final(m)@.dom().contains(other) == old(m)@.dom().contains(other),
        old(m)@.dom().contains(other) ==> final(m)@[other] == old(m)@[other],
        !final(n)@.dom().contains(request_id@),
        final(n)@.dom().contains(other) == old(n)@.dom().contains(other),
        old(n)@.dom().contains(other) ==> final(n)@[other] == old(n)@[other],
{
}

/// A wait for the parent span of a known invocation, of which nothing has departed, ends
/// with the span as soon as it is known, and without it when the correlation delay is
/// over; an unknown invocation is not waited for.
pub proof fn law_a_wait_for_a_parent_ends(
    m: InvocationContextManager,
    request_id: &str,
    since: Moment,
    now: Moment,
    r: ParentWait,
)
    requires
        call_ensures(
            InvocationContextManager::poll_parent_span,
            (&m, request_id, since, now),
            r,
        ),
        m.departures().len() == 0,
    ensures
        ({
            let known = m@.dom().contains(request_id@);
            let parent = m@[request_id@].parent;
            let late = now@ >= since@ + m.settings().max_correlation_delay@;
            &&& known && parent is Some ==> r is Over && r->Over_0 is Some && r->Over_0->0@
                == parent->0
            &&& known && parent is None && late ==> r is Over && r->Over_0 is None
            &&& known && parent is None && since@ <= now@ && !late ==> r is Pending
            &&& !known ==> r is Over && r->Over_0 is None
        }),
{
}

/// Cleaning up leaves the contexts that are no older than the longest lifetime.
pub proof fn law_cleaning_up_removes_the_old(
    m: &mut InvocationContextManager,
    now: Moment,
    id: Seq<char>,
)
    requires
        call_ensures(InvocationContextManager::cleanup_stale_contexts_at, (m, now), ()),
        old(m)@.dom().contains(id),
    ensures
        final(m)@.dom().contains(id) <==> now@ <= old(m)@[id].started_at@ + old(m).settings().max_invocation_lifetime@,
        final(m)@.dom().contains(id) ==> final(m)@[id] == old(m)@[id],
{
}

/// As many contexts are active as invocations are known.
pub proof fn law_active_contexts_are_counted(m: InvocationContextManager, n: usize)
    requires
        call_ensures(InvocationContextManager::active_count, (&m,), n),
        m@.dom().finite(),
    ensures
        n == m@.dom().len(),
        n == 0 <==> m@.dom() =~= Set::<Seq<char>>::empty(),
{
    if m@.dom().len() == 0 {
        assert(m@.dom() =~= Set::empty());
    }
}

} // verus!
