//! Signal aggregation and batching.
//!
//! Traces, metrics and logs are queued separately but share one budget of bytes
//! and entries: where it would be exceeded, the oldest signals are dropped and
//! counted. Encoded sizes are computed once, when a signal is queued.
use crate::config;
use crate::config::FlushConfig;
use crate::otlp;
use crate::otlp::{
    Entries, ExportLogsServiceRequest, ExportMetricsServiceRequest, ExportTraceServiceRequest,
};
use crate::receiver::Signal;
use opentelemetry_proto::tonic::logs::v1::ResourceLogs;
use opentelemetry_proto::tonic::metrics::v1::ResourceMetrics;
use opentelemetry_proto::tonic::trace::v1::ResourceSpans;
use std::collections::VecDeque;
use vstd::prelude::*;

verus! {

/// Batched signals ready for export.
#[non_exhaustive]
#[derive(Debug, Clone)]
pub enum BatchedSignal {
    /// Batched trace spans.
    Traces(ExportTraceServiceRequest),
    /// Batched metrics.
    Metrics(ExportMetricsServiceRequest),
    /// Batched log records.
    Logs(ExportLogsServiceRequest),
}

impl View for BatchedSignal {
    type V = Entries;

    open spec fn view(&self) -> Entries {
        match self {
            BatchedSignal::Traces(req) => Entries::Traces(req.resource_spans@),
            BatchedSignal::Metrics(req) => Entries::Metrics(req.resource_metrics@),
            BatchedSignal::Logs(req) => Entries::Logs(req.resource_logs@),
        }
    }
}

/// The label of a kind of signals.
pub open spec fn kind_label(entries: Entries) -> Seq<char> {
    match entries {
        Entries::Traces(_) => "traces"@,
        Entries::Metrics(_) => "metrics"@,
        Entries::Logs(_) => "logs"@,
    }
}

impl BatchedSignal {
    /// Returns the size of this batch in bytes, once it is encoded.
    pub fn size_bytes(&self) -> (n: usize)
        ensures
            n == self@.bytes().len(),
    {
        match self {
            BatchedSignal::Traces(req) => otlp::trace_encoded_len(&req.resource_spans),
            BatchedSignal::Metrics(req) => otlp::metrics_encoded_len(&req.resource_metrics),
            BatchedSignal::Logs(req) => otlp::logs_encoded_len(&req.resource_logs),
        }
    }

    /// Returns the signal type as a static label.
    pub fn signal_type(&self) -> (s: &'static str)
        ensures
            s@ == kind_label(self@),
    {
        match self {
            BatchedSignal::Traces(_) => "traces",
            BatchedSignal::Metrics(_) => "metrics",
            BatchedSignal::Logs(_) => "logs",
        }
    }
}

/// A queue as the contracts see it: the entries of each signal and its size.
pub type Queue<E> = Seq<(Seq<E>, nat)>;

/// The size of all signals of a queue.
pub open spec fn queue_bytes<E>(q: Queue<E>) -> nat
    decreases q.len(),
{
    if q.len() == 0 {
        0
    } else {
        q[0].1 + queue_bytes(q.skip(1))
    }
}

/// The entries of all signals of a queue, in their order.
pub open spec fn merged<E>(q: Queue<E>) -> Seq<E>
    decreases q.len(),
{
    if q.len() == 0 {
        Seq::empty()
    } else {
        q[0].0 + merged(q.skip(1))
    }
}

/// Whether the first `n` signals make a batch within the limits. A signal that is
/// too large for any batch makes one of its own.
pub open spec fn fits<E>(q: Queue<E>, n: int, max_bytes: nat, max_entries: nat) -> bool {
    n <= 1 || (queue_bytes(q.take(n)) <= max_bytes && n <= max_entries)
}

/// The number of signals in a batch that has `n` at least.
pub open spec fn grow_batch<E>(q: Queue<E>, n: int, max_bytes: nat, max_entries: nat) -> int
    decreases q.len() - n,
{
    if n < q.len() && fits(q, n + 1, max_bytes, max_entries) {
        grow_batch(q, n + 1, max_bytes, max_entries)
    } else {
        n
    }
}

/// The number of signals in the next batch: as many as fit, but at least one
/// where there is one.
pub open spec fn batch_len<E>(q: Queue<E>, max_bytes: nat, max_entries: nat) -> int {
    grow_batch(q, 0, max_bytes, max_entries)
}

/// The entries of the batches into which a queue is drained.
pub open spec fn batches<E>(q: Queue<E>, max_bytes: nat, max_entries: nat) -> Seq<Seq<E>>
    decreases q.len(),
{
    if q.len() == 0 {
        Seq::empty()
    } else {
        let n = batch_len(q, max_bytes, max_entries);
        proof {
            lemma_batch_len(q, max_bytes, max_entries);
        }
        seq![merged(q.take(n))] + batches(q.skip(n), max_bytes, max_entries)
    }
}

/// What a batch holds is within the queue and the limits, and no more would be.
pub proof fn lemma_grow_batch<E>(q: Queue<E>, n: int, max_bytes: nat, max_entries: nat)
    requires
        0 <= n <= q.len(),
        fits(q, n, max_bytes, max_entries),
    ensures
        ({
            let m = grow_batch(q, n, max_bytes, max_entries);
            &&& n <= m <= q.len()
            &&& fits(q, m, max_bytes, max_entries)
            &&& m < q.len() ==> !fits(q, m + 1, max_bytes, max_entries)
        }),
    decreases q.len() - n,
{
    if n < q.len() && fits(q, n + 1, max_bytes, max_entries) {
        lemma_grow_batch(q, n + 1, max_bytes, max_entries);
    }
}

/// A batch takes at least one signal where there is one, keeps the limits, and
/// leaves behind only what would not fit.
pub proof fn lemma_batch_len<E>(q: Queue<E>, max_bytes: nat, max_entries: nat)
    ensures
        ({
            let n = batch_len(q, max_bytes, max_entries);
            &&& 0 <= n <= q.len()
            &&& q.len() > 0 ==> n >= 1
            &&& fits(q, n, max_bytes, max_entries)
            &&& n < q.len() ==> !fits(q, n + 1, max_bytes, max_entries)
        }),
{
    lemma_grow_batch(q, 0, max_bytes, max_entries);
}

/// The size of a queue and one more signal.
pub proof fn lemma_queue_bytes_push<E>(q: Queue<E>, e: (Seq<E>, nat))
    ensures
        queue_bytes(q.push(e)) == queue_bytes(q) + e.1,
    decreases q.len(),
{
    assert(q.push(e)[0] == if q.len() == 0 {
        e
    } else {
        q[0]
    });
    if q.len() == 0 {
        assert(q.push(e).skip(1) =~= q);
        assert(queue_bytes(q) == 0);
    } else {
        lemma_queue_bytes_push(q.skip(1), e);
        assert(q.push(e).skip(1) =~= q.skip(1).push(e));
    }
}

/// The size of a queue is that of its two parts.
pub proof fn lemma_queue_bytes_split<E>(q: Queue<E>, n: int)
    requires
        0 <= n <= q.len(),
    ensures
        queue_bytes(q.take(n)) + queue_bytes(q.skip(n)) == queue_bytes(q),
    decreases q.len(),
{
    if n == 0 {
        assert(q.take(0) =~= Seq::empty());
        assert(q.skip(0) =~= q);
    } else {
        lemma_queue_bytes_split(q.skip(1), n - 1);
        assert(q.skip(1).take(n - 1) =~= q.take(n).skip(1));
        assert(q.skip(1).skip(n - 1) =~= q.skip(n));
        assert(q.take(n)[0] == q[0]);
    }
}

/// The entries of a queue and one more signal.
pub proof fn lemma_merged_push<E>(q: Queue<E>, e: (Seq<E>, nat))
    ensures
        merged(q.push(e)) == merged(q) + e.0,
    decreases q.len(),
{
    assert(q.push(e)[0] == if q.len() == 0 {
        e
    } else {
        q[0]
    });
    if q.len() == 0 {
        assert(q.push(e).skip(1) =~= q);
        assert(merged(q) =~= Seq::empty());
        assert(merged(q.push(e)) =~= merged(q) + e.0);
    } else {
        lemma_merged_push(q.skip(1), e);
        assert(q.push(e).skip(1) =~= q.skip(1).push(e));
        assert(merged(q.push(e)) =~= merged(q) + e.0);
    }
}

/// The entries of a queue are those of its two parts.
pub proof fn lemma_merged_split<E>(q: Queue<E>, n: int)
    requires
        0 <= n <= q.len(),
    ensures
        merged(q.take(n)) + merged(q.skip(n)) == merged(q),
    decreases q.len(),
{
    if n == 0 {
        assert(q.take(0) =~= Seq::empty());
        assert(q.skip(0) =~= q);
        assert(merged(q.take(0)) + merged(q) =~= merged(q));
    } else {
        lemma_merged_split(q.skip(1), n - 1);
        assert(q.skip(1).take(n - 1) =~= q.take(n).skip(1));
        assert(q.skip(1).skip(n - 1) =~= q.skip(n));
        assert(q.take(n)[0] == q[0]);
        assert(merged(q.take(n)) + merged(q.skip(n)) =~= merged(q));
    }
}

/// Queue for a single signal type, storing each signal with its encoded size.
#[derive(Debug)]
struct SignalQueue<E> {
    items: VecDeque<(Vec<E>, usize)>,
}

/// A signal of a queue, as the contracts see it.
spec fn item_view<E>(item: (Vec<E>, usize)) -> (Seq<E>, nat) {
    (item.0@, item.1 as nat)
}

impl<E> View for SignalQueue<E> {
    type V = Queue<E>;

    closed spec fn view(&self) -> Queue<E> {
        self.items@.map_values(|item: (Vec<E>, usize)| item_view(item))
    }
}

impl<E> SignalQueue<E> {
    fn new() -> (q: Self)
        ensures
            q@ == Seq::<(Seq<E>, nat)>::empty(),
    {
        let q = SignalQueue { items: VecDeque::new() };
        assert(q@ =~= Seq::<(Seq<E>, nat)>::empty());
        q
    }

    fn len(&self) -> (n: usize)
        ensures
            n == self@.len(),
    {
        self.items.len()
    }

    /// Adds a signal at the end.
    fn push(&mut self, entries: Vec<E>, size: usize)
        ensures
            final(self)@ == old(self)@.push((entries@, size as nat)),
    {
        self.items.push_back((entries, size));
        assert(self@ =~= old(self)@.push((entries@, size as nat)));
    }

    /// Removes the first signal and returns its size.
    fn pop(&mut self) -> (r: Option<usize>)
        ensures
            match r {
                Some(size) => old(self)@.len() > 0 && size == old(self)@[0].1 && final(self)@
                    == old(self)@.skip(1),
                None => old(self)@.len() == 0 && final(self)@ == old(self)@,
            },
    {
        match self.items.pop_front() {
            Some((_, size)) => {
                assert(self@ =~= old(self)@.skip(1));
                assert(old(self)@[0] == item_view(old(self).items@[0]));
                Some(size)
            },
            None => {
                assert(self@ =~= old(self)@);
                None
            },
        }
    }

    /// Removes signals from the front until the batch limits are reached, and
    /// returns their entries and their size.
    fn take_batch(&mut self, max_bytes: usize, max_entries: usize) -> (r: (Vec<E>, usize))
        requires
            queue_bytes(old(self)@) <= usize::MAX,
        ensures
            ({
                let n = batch_len(old(self)@, max_bytes as nat, max_entries as nat);
                &&& r.0@ == merged(old(self)@.take(n))
                &&& r.1 == queue_bytes(old(self)@.take(n))
                &&& final(self)@ == old(self)@.skip(n)
            }),
    {
        let ghost q = self@;
        let ghost target = batch_len(q, max_bytes as nat, max_entries as nat);
        let mut batch: Vec<E> = Vec::new();
        let mut batch_size: usize = 0;
        let mut count: usize = 0;
        proof {
            assert(q.take(0) =~= Seq::empty());
            assert(q.skip(0) =~= q);
        }
        let total: usize = self.items.len();
        while self.items.len() > 0
            invariant_except_break
                count <= q.len(),
                fits(q, count as int, max_bytes as nat, max_entries as nat),
                grow_batch(q, count as int, max_bytes as nat, max_entries as nat) == target,
            invariant
                q == old(self)@,
                queue_bytes(q) <= usize::MAX,
                q.len() == total,
                0 <= count <= q.len(),
                self@ == q.skip(count as int),
                self.items@.len() == q.len() - count,
                batch@ == merged(q.take(count as int)),
                batch_size == queue_bytes(q.take(count as int)),
            ensures
                count == target,
            decreases q.len() - count,
        {
            let item_size: usize = self.items[0].1;
            proof {
                assert(self@[0] == item_view(self.items@[0]));
                assert(q.take(count + 1) =~= q.take(count as int).push(q[count as int]));
                lemma_queue_bytes_push(q.take(count as int), q[count as int]);
                lemma_merged_push(q.take(count as int), q[count as int]);
                lemma_queue_bytes_split(q, count + 1);
            }
            if count > 0 && (batch_size + item_size > max_bytes || count >= max_entries) {
                break;
            }
            let ghost items = self.items@;
            let ghost before = self@;
            match self.items.pop_front() {
                Some((mut entries, _)) => {
                    proof {
                        assert(self@ =~= before.skip(1)) by {
                            assert(self.items@ == items.subrange(1, items.len() as int));
                        }
                        assert(self@ =~= q.skip(count + 1));
                    }
                    batch.append(&mut entries);
                    batch_size = batch_size + item_size;
                    count = count + 1;
                },
                None => {
                    assert(false);
                },
            }
        }
        (batch, batch_size)
    }
}

/// The kinds of signals.
#[derive(Debug, Clone, Copy, PartialEq, Eq, Structural)]
pub enum SignalKind {
    /// Trace spans.
    Traces,
    /// Metrics.
    Metrics,
    /// Log records.
    Logs,
}

/// The kind of a signal with the given entries.
pub open spec fn kind_of(entries: Entries) -> SignalKind {
    match entries {
        Entries::Traces(_) => SignalKind::Traces,
        Entries::Metrics(_) => SignalKind::Metrics,
        Entries::Logs(_) => SignalKind::Logs,
    }
}

/// The aggregator, as the contracts see it.
pub struct AggregatorState {
    /// The configuration.
    pub config: FlushConfig,
    /// The queued trace signals.
    pub traces: Queue<ResourceSpans>,
    /// The queued metrics signals.
    pub metrics: Queue<ResourceMetrics>,
    /// The queued log signals.
    pub logs: Queue<ResourceLogs>,
    /// The number of signals that were dropped.
    pub dropped: nat,
}

impl AggregatorState {
    /// The size of all queued signals.
    pub open spec fn bytes(self) -> nat {
        queue_bytes(self.traces) + queue_bytes(self.metrics) + queue_bytes(self.logs)
    }

    /// The number of queued signals.
    pub open spec fn entries(self) -> nat {
        self.traces.len() + self.metrics.len() + self.logs.len()
    }

    /// The sizes are those of the encoded signals.
    pub open spec fn sizes_are_exact(self) -> bool {
        &&& forall|i: int|
            0 <= i < self.traces.len() ==> (#[trigger] self.traces[i]).1 == otlp::trace_bytes(
                self.traces[i].0,
            ).len()
        &&& forall|i: int|
            0 <= i < self.metrics.len() ==> (#[trigger] self.metrics[i]).1 == otlp::metrics_bytes(
                self.metrics[i].0,
            ).len()
        &&& forall|i: int|
            0 <= i < self.logs.len() ==> (#[trigger] self.logs[i]).1 == otlp::logs_bytes(
                self.logs[i].0,
            ).len()
    }

    /// The budget is kept.
    pub open spec fn within_budget(self) -> bool {
        &&& self.bytes() <= self.config.max_queue_bytes
        &&& self.entries() <= self.config.max_queue_entries
    }

    /// Whether a signal of the given size has no room.
    pub open spec fn over_budget(self, size: nat) -> bool {
        self.bytes() + size > self.config.max_queue_bytes || self.entries()
            >= self.config.max_queue_entries
    }

    /// The number of dropped signals after one more; it stays at the largest
    /// number that can be counted.
    pub open spec fn dropped_one(self) -> nat {
        if self.dropped < u64::MAX {
            self.dropped + 1
        } else {
            self.dropped
        }
    }

    /// Without the oldest trace signal.
    pub open spec fn without_trace(self) -> AggregatorState {
        AggregatorState { traces: self.traces.skip(1), dropped: self.dropped_one(), ..self }
    }

    /// Without the oldest metrics signal.
    pub open spec fn without_metrics(self) -> AggregatorState {
        AggregatorState { metrics: self.metrics.skip(1), dropped: self.dropped_one(), ..self }
    }

    /// Without the oldest log signal.
    pub open spec fn without_log(self) -> AggregatorState {
        AggregatorState { logs: self.logs.skip(1), dropped: self.dropped_one(), ..self }
    }

    /// Without the oldest signal of the preferred kind, or of another kind where
    /// there is none of that.
    pub open spec fn drop_oldest(self, prefer: SignalKind) -> AggregatorState {
        match prefer {
            SignalKind::Traces => if self.traces.len() > 0 {
                self.without_trace()
            } else if self.metrics.len() > 0 {
                self.without_metrics()
            } else if self.logs.len() > 0 {
                self.without_log()
            } else {
                self
            },
            SignalKind::Metrics => if self.metrics.len() > 0 {
                self.without_metrics()
            } else if self.traces.len() > 0 {
                self.without_trace()
            } else if self.logs.len() > 0 {
                self.without_log()
            } else {
                self
            },
            SignalKind::Logs => if self.logs.len() > 0 {
                self.without_log()
            } else if self.traces.len() > 0 {
                self.without_trace()
            } else if self.metrics.len() > 0 {
                self.without_metrics()
            } else {
                self
            },
        }
    }

    /// With as many of the oldest signals dropped as must be for a signal of the
    /// given kind and size to have room.
    pub open spec fn make_room(self, kind: SignalKind, size: nat) -> AggregatorState
        decreases self.entries(),
    {
        if self.over_budget(size) && self.entries() > 0 {
            self.drop_oldest(kind).make_room(kind, size)
        } else {
            self
        }
    }

    /// With one more signal at the end of its queue.
    pub open spec fn push(self, signal: Entries) -> AggregatorState {
        let size = signal.bytes().len();
        match signal {
            Entries::Traces(e) => AggregatorState { traces: self.traces.push((e, size)), ..self },
            Entries::Metrics(e) => AggregatorState {
                metrics: self.metrics.push((e, size)),
                ..self
            },
            Entries::Logs(e) => AggregatorState { logs: self.logs.push((e, size)), ..self },
        }
    }

    /// Whether the whole budget has room for a signal of the given size.
    pub open spec fn can_hold(self, size: nat) -> bool {
        size <= self.config.max_queue_bytes && self.config.max_queue_entries > 0
    }

    /// The state after a signal was offered. One that the whole budget has no room
    /// for is dropped; any other is queued, and the oldest make room for it.
    pub open spec fn add(self, signal: Entries) -> AggregatorState {
        let size = signal.bytes().len();
        if !self.can_hold(size) {
            AggregatorState { dropped: self.dropped_one(), ..self }
        } else {
            self.make_room(kind_of(signal), size).push(signal)
        }
    }

    /// The number of trace signals in the next batch.
    pub open spec fn next_traces(self) -> int {
        batch_len(
            self.traces,
            self.config.max_batch_bytes as nat,
            self.config.max_batch_entries as nat,
        )
    }

    /// The number of metrics signals in the next batch.
    pub open spec fn next_metrics(self) -> int {
        batch_len(
            self.metrics,
            self.config.max_batch_bytes as nat,
            self.config.max_batch_entries as nat,
        )
    }

    /// The number of log signals in the next batch.
    pub open spec fn next_logs(self) -> int {
        batch_len(
            self.logs,
            self.config.max_batch_bytes as nat,
            self.config.max_batch_entries as nat,
        )
    }

    /// The batches of trace signals.
    pub open spec fn trace_batches(self) -> Seq<Seq<ResourceSpans>> {
        batches(
            self.traces,
            self.config.max_batch_bytes as nat,
            self.config.max_batch_entries as nat,
        )
    }

    /// The batches of metrics signals.
    pub open spec fn metrics_batches(self) -> Seq<Seq<ResourceMetrics>> {
        batches(
            self.metrics,
            self.config.max_batch_bytes as nat,
            self.config.max_batch_entries as nat,
        )
    }

    /// The batches of log signals.
    pub open spec fn logs_batches(self) -> Seq<Seq<ResourceLogs>> {
        batches(
            self.logs,
            self.config.max_batch_bytes as nat,
            self.config.max_batch_entries as nat,
        )
    }

    /// The batches of all signals: those of traces, of metrics and of logs.
    pub open spec fn all_batches(self) -> Seq<Entries> {
        self.trace_batches().map_values(|e: Seq<ResourceSpans>| Entries::Traces(e))
            + self.metrics_batches().map_values(|e: Seq<ResourceMetrics>| Entries::Metrics(e))
            + self.logs_batches().map_values(|e: Seq<ResourceLogs>| Entries::Logs(e))
    }

    /// With nothing queued.
    pub open spec fn drained(self) -> AggregatorState {
        AggregatorState { traces: Seq::empty(), metrics: Seq::empty(), logs: Seq::empty(), ..self }
    }
}

/// Aggregator for batching OTLP signals.
///
/// Traces, metrics and logs have separate queues but share one byte and entry
/// budget, so total buffered memory stays bounded regardless of the signal mix.
#[derive(Debug)]
pub struct SignalAggregator {
    traces: SignalQueue<ResourceSpans>,
    metrics: SignalQueue<ResourceMetrics>,
    logs: SignalQueue<ResourceLogs>,
    current_bytes: usize,
    dropped: u64,
    config: FlushConfig,
}

impl View for SignalAggregator {
    type V = AggregatorState;

    closed spec fn view(&self) -> AggregatorState {
        AggregatorState {
            config: self.config,
            traces: self.traces@,
            metrics: self.metrics@,
            logs: self.logs@,
            dropped: self.dropped as nat,
        }
    }
}

impl SignalAggregator {
    /// The budget is kept, the sizes are exact, and their sum is at hand.
    pub closed spec fn wf(&self) -> bool {
        &&& self@.within_budget()
        &&& self@.sizes_are_exact()
        &&& self.current_bytes == self@.bytes()
    }

    /// Every aggregator keeps its budget, and knows the encoded size of each signal.
    pub proof fn law_budget_is_kept(&self)
        requires
            self.wf(),
        ensures
            self@.within_budget(),
            self@.sizes_are_exact(),
    {
    }

    /// Creates a new signal aggregator with the given configuration.
    pub fn new(config: FlushConfig) -> (a: Self)
        ensures
            a.wf(),
            a@ == (AggregatorState {
                config,
                traces: Seq::empty(),
                metrics: Seq::empty(),
                logs: Seq::empty(),
                dropped: 0,
            }),
    {
        SignalAggregator {
            traces: SignalQueue::new(),
            metrics: SignalQueue::new(),
            logs: SignalQueue::new(),
            current_bytes: 0,
            dropped: 0,
            config,
        }
    }

    /// Creates a new aggregator with default configuration.
    pub fn with_defaults() -> (a: Self)
        ensures
            a.wf(),
            config::is_default_flush(a@.config, None),
            a@ == (AggregatorState {
                config: a@.config,
                traces: Seq::empty(),
                metrics: Seq::empty(),
                logs: Seq::empty(),
                dropped: 0,
            }),
    {
        SignalAggregator::new(FlushConfig::default())
    }

    /// The number of queued signals.
    fn total_entries(&self) -> (n: usize)
        requires
            self@.entries() <= usize::MAX,
        ensures
            n == self@.entries(),
    {
        self.traces.len() + self.metrics.len() + self.logs.len()
    }

    /// Counts a dropped signal.
    fn count_dropped(&mut self)
        ensures
            final(self)@ == (AggregatorState {
                dropped: old(self)@.dropped_one(),
                ..old(self)@
            }),
            final(self).current_bytes == old(self).current_bytes,
    {
        if self.dropped < u64::MAX {
            self.dropped = self.dropped + 1;
        }
    }

    /// Drops the oldest trace signal.
    fn drop_trace(&mut self) -> (r: bool)
        requires
            old(self).wf(),
        ensures
            final(self).wf(),
            r == (old(self)@.traces.len() > 0),
            final(self)@ == (if r {
                old(self)@.without_trace()
            } else {
                old(self)@
            }),
    {
        match self.traces.pop() {
            Some(size) => {
                self.current_bytes = self.current_bytes - size;
                self.count_dropped();
                assert(forall|i: int|
                    0 <= i < self@.traces.len() ==> #[trigger] self@.traces[i] == old(self)@.traces[i + 1]);
                true
            },
            None => false,
        }
    }

    /// Drops the oldest metrics signal.
    fn drop_metrics(&mut self) -> (r: bool)
        requires
            old(self).wf(),
        ensures
            final(self).wf(),
            r == (old(self)@.metrics.len() > 0),
            final(self)@ == (if r {
                old(self)@.without_metrics()
            } else {
                old(self)@
            }),
    {
        match self.metrics.pop() {
            Some(size) => {
                self.current_bytes = self.current_bytes - size;
                self.count_dropped();
                assert(forall|i: int|
                    0 <= i < self@.metrics.len() ==> #[trigger] self@.metrics[i] == old(self)@.metrics[i + 1]);
                true
            },
            None => false,
        }
    }

    /// Drops the oldest log signal.
    fn drop_log(&mut self) -> (r: bool)
        requires
            old(self).wf(),
        ensures
            final(self).wf(),
            r == (old(self)@.logs.len() > 0),
            final(self)@ == (if r {
                old(self)@.without_log()
            } else {
                old(self)@
            }),
    {
        match self.logs.pop() {
            Some(size) => {
                self.current_bytes = self.current_bytes - size;
                self.count_dropped();
                assert(forall|i: int|
                    0 <= i < self@.logs.len() ==> #[trigger] self@.logs[i] == old(self)@.logs[i
                        + 1]);
                true
            },
            None => false,
        }
    }

    /// Drops the oldest signal, preferring the queue the current push targets so
    /// unrelated signal types are evicted only when necessary.
    fn drop_oldest(&mut self, prefer: SignalKind)
        requires
            old(self).wf(),
        ensures
            final(self).wf(),
            final(self)@ == old(self)@.drop_oldest(prefer),
    {
        match prefer {
            SignalKind::Traces => {
                if !self.drop_trace() {
                    if !self.drop_metrics() {
                        self.drop_log();
                    }
                }
            },
            SignalKind::Metrics => {
                if !self.drop_metrics() {
                    if !self.drop_trace() {
                        self.drop_log();
                    }
                }
            },
            SignalKind::Logs => {
                if !self.drop_log() {
                    if !self.drop_trace() {
                        self.drop_metrics();
                    }
                }
            },
        }
    }

    /// Adds a signal to the appropriate queue.
    ///
    /// If the shared budget would be exceeded, the oldest signals are dropped to
    /// make room. A single signal larger than the entire byte budget is rejected
    /// outright, so buffered bytes never exceed `max_queue_bytes`. So is every signal
    /// where the budget is of no entries.
    pub fn add(&mut self, signal: Signal)
        requires
            old(self).wf(),
        ensures
            final(self).wf(),
            final(self)@ == old(self)@.add(signal@),
    {
        let (kind, size): (SignalKind, usize) = match &signal {
            Signal::Traces(req) => (
                SignalKind::Traces,
                otlp::trace_encoded_len(&req.resource_spans),
            ),
            Signal::Metrics(req) => (
                SignalKind::Metrics,
                otlp::metrics_encoded_len(&req.resource_metrics),
            ),
            Signal::Logs(req) => (SignalKind::Logs, otlp::logs_encoded_len(&req.resource_logs)),
        };
        if size > self.config.max_queue_bytes || self.config.max_queue_entries == 0 {
            self.count_dropped();
            return;
        }
        let ghost goal = self@.make_room(kind, size as nat);
        while self.current_bytes > self.config.max_queue_bytes - size || self.total_entries()
            >= self.config.max_queue_entries
            invariant
                self.wf(),
                self@.config == old(self)@.config,
                self@.config.max_queue_entries > 0,
                size <= self@.config.max_queue_bytes,
                self@.make_room(kind, size as nat) == goal,
            decreases self@.entries(),
        {
            proof {
                assert(self@.entries() > 0) by {
                    if self@.entries() == 0 {
                        assert(queue_bytes(self@.traces) == 0);
                        assert(queue_bytes(self@.metrics) == 0);
                        assert(queue_bytes(self@.logs) == 0);
                    }
                }
            }
            self.drop_oldest(kind);
        }
        let ghost room = self@;
        self.current_bytes = self.current_bytes + size;
        match signal {
            Signal::Traces(req) => {
                proof {
                    lemma_queue_bytes_push(self@.traces, (req.resource_spans@, size as nat));
                }
                self.traces.push(req.resource_spans, size);
            },
            Signal::Metrics(req) => {
                proof {
                    lemma_queue_bytes_push(self@.metrics, (req.resource_metrics@, size as nat));
                }
                self.metrics.push(req.resource_metrics, size);
            },
            Signal::Logs(req) => {
                proof {
                    lemma_queue_bytes_push(self@.logs, (req.resource_logs@, size as nat));
                }
                self.logs.push(req.resource_logs, size);
            },
        }
        proof {
            assert(self@ == room.push(signal@));
            assert(room == goal);
        }
    }

    /// Gets the next batch of traces for export.
    ///
    /// Returns `None` if the trace queue is empty.
    pub fn get_trace_batch(&mut self) -> (r: Option<BatchedSignal>)
        requires
            old(self).wf(),
        ensures
            final(self).wf(),
            match r {
                Some(batch) => {
                    let n = old(self)@.next_traces();
                    &&& old(self)@.traces.len() > 0
                    &&& batch@ == Entries::Traces(merged(old(self)@.traces.take(n)))
                    &&& final(self)@ == (AggregatorState {
                        traces: old(self)@.traces.skip(n),
                        ..old(self)@
                    })
                },
                None => old(self)@.traces.len() == 0 && final(self)@ == old(self)@,
            },
    {
        if self.traces.len() == 0 {
            return None;
        }
        proof {
            let s = self@;
            let n = s.next_traces();
            lemma_batch_len(
                s.traces,
                s.config.max_batch_bytes as nat,
                s.config.max_batch_entries as nat,
            );
            lemma_queue_bytes_split(s.traces, n);
            assert(forall|i: int|
                0 <= i < s.traces.skip(n).len() ==> #[trigger] s.traces.skip(n)[i] == s.traces[i
                    + n]);
        }
        let (resource_spans, size) = self.traces.take_batch(
            self.config.max_batch_bytes,
            self.config.max_batch_entries,
        );
        self.current_bytes = self.current_bytes - size;
        Some(BatchedSignal::Traces(ExportTraceServiceRequest { resource_spans }))
    }

    /// Gets the next batch of metrics for export.
    ///
    /// Returns `None` if the metrics queue is empty.
    pub fn get_metrics_batch(&mut self) -> (r: Option<BatchedSignal>)
        requires
            old(self).wf(),
        ensures
            final(self).wf(),
            match r {
                Some(batch) => {
                    let n = old(self)@.next_metrics();
                    &&& old(self)@.metrics.len() > 0
                    &&& batch@ == Entries::Metrics(merged(old(self)@.metrics.take(n)))
                    &&& final(self)@ == (AggregatorState {
                        metrics: old(self)@.metrics.skip(n),
                        ..old(self)@
                    })
                },
                None => old(self)@.metrics.len() == 0 && final(self)@ == old(self)@,
            },
    {
        if self.metrics.len() == 0 {
            return None;
        }
        proof {
            let s = self@;
            let n = s.next_metrics();
            lemma_batch_len(
                s.metrics,
                s.config.max_batch_bytes as nat,
                s.config.max_batch_entries as nat,
            );
            lemma_queue_bytes_split(s.metrics, n);
            assert(forall|i: int|
                0 <= i < s.metrics.skip(n).len() ==> #[trigger] s.metrics.skip(n)[i]
                    == s.metrics[i + n]);
        }
        let (resource_metrics, size) = self.metrics.take_batch(
            self.config.max_batch_bytes,
            self.config.max_batch_entries,
        );
        self.current_bytes = self.current_bytes - size;
        Some(BatchedSignal::Metrics(ExportMetricsServiceRequest { resource_metrics }))
    }

    /// Gets the next batch of logs for export.
    ///
    /// Returns `None` if the logs queue is empty.
    pub fn get_logs_batch(&mut self) -> (r: Option<BatchedSignal>)
        requires
            old(self).wf(),
        ensures
            final(self).wf(),
            match r {
                Some(batch) => {
                    let n = old(self)@.next_logs();
                    &&& old(self)@.logs.len() > 0
                    &&& batch@ == Entries::Logs(merged(old(self)@.logs.take(n)))
                    &&& final(self)@ == (AggregatorState {
                        logs: old(self)@.logs.skip(n),
                        ..old(self)@
                    })
                },
                None => old(self)@.logs.len() == 0 && final(self)@ == old(self)@,
            },
    {
        if self.logs.len() == 0 {
            return None;
        }
        proof {
            let s = self@;
            let n = s.next_logs();
            lemma_batch_len(
                s.logs,
                s.config.max_batch_bytes as nat,
                s.config.max_batch_entries as nat,
            );
            lemma_queue_bytes_split(s.logs, n);
            assert(forall|i: int|
                0 <= i < s.logs.skip(n).len() ==> #[trigger] s.logs.skip(n)[i] == s.logs[i + n]);
        }
        let (resource_logs, size) = self.logs.take_batch(
            self.config.max_batch_bytes,
            self.config.max_batch_entries,
        );
        self.current_bytes = self.current_bytes - size;
        Some(BatchedSignal::Logs(ExportLogsServiceRequest { resource_logs }))
    }

    /// Gets all available batches across all signal types.
    ///
    /// Batches respect the configured batch size limits, so draining a large
    /// backlog produces several bounded batches rather than one oversized request.
    pub fn get_all_batches(&mut self) -> (r: Vec<BatchedSignal>)
        requires
            old(self).wf(),
        ensures
            final(self).wf(),
            final(self)@ == old(self)@.drained(),
            batch_views(r@) == old(self)@.all_batches(),
    {
        let mut all: Vec<BatchedSignal> = Vec::new();
        let ghost s = self@;
        let ghost t = s.trace_batches().map_values(|e: Seq<ResourceSpans>| Entries::Traces(e));
        let ghost m = s.metrics_batches().map_values(
            |e: Seq<ResourceMetrics>| Entries::Metrics(e),
        );
        let ghost l = s.logs_batches().map_values(|e: Seq<ResourceLogs>| Entries::Logs(e));
        let mut done: bool = false;
        proof {
            assert(batch_views(all@) + t =~= t);
        }
        while !done
            invariant
                self.wf(),
                self@ == (AggregatorState { traces: self@.traces, ..s }),
                batch_views(all@) + self@.trace_batches().map_values(
                    |e: Seq<ResourceSpans>| Entries::Traces(e),
                ) == t,
                done ==> self@.traces.len() == 0,
            decreases self@.traces.len(), (if done { 0int } else { 1int }),
        {
            let ghost before = self@;
            let ghost seen = batch_views(all@);
            match self.get_trace_batch() {
                Some(batch) => {
                    proof {
                        lemma_batch_len(
                            before.traces,
                            s.config.max_batch_bytes as nat,
                            s.config.max_batch_entries as nat,
                        );
                        let f = |e: Seq<ResourceSpans>| Entries::Traces(e);
                        let first = merged(before.traces.take(before.next_traces()));
                        assert(before.trace_batches() == seq![first] + self@.trace_batches());
                        assert(seen.push(batch@) + self@.trace_batches().map_values(f) =~= seen
                            + before.trace_batches().map_values(f));
                    }
                    all.push(batch);
                    assert(batch_views(all@) =~= seen.push(batch@));
                },
                None => {
                    done = true;
                },
            }
        }
        proof {
            assert(self@.traces =~= Seq::empty());
            assert(self@.trace_batches() =~= Seq::empty());
            assert(batch_views(all@) =~= t);
            assert(batch_views(all@) + m =~= t + m);
        }
        done = false;
        while !done
            invariant
                self.wf(),
                self@ == (AggregatorState {
                    traces: Seq::empty(),
                    metrics: self@.metrics,
                    ..s
                }),
                batch_views(all@) + self@.metrics_batches().map_values(
                    |e: Seq<ResourceMetrics>| Entries::Metrics(e),
                ) == t + m,
                done ==> self@.metrics.len() == 0,
            decreases self@.metrics.len(), (if done { 0int } else { 1int }),
        {
            let ghost before = self@;
            let ghost seen = batch_views(all@);
            match self.get_metrics_batch() {
                Some(batch) => {
                    proof {
                        lemma_batch_len(
                            before.metrics,
                            s.config.max_batch_bytes as nat,
                            s.config.max_batch_entries as nat,
                        );
                        let f = |e: Seq<ResourceMetrics>| Entries::Metrics(e);
                        let first = merged(before.metrics.take(before.next_metrics()));
                        assert(before.metrics_batches() == seq![first] + self@.metrics_batches());
                        assert(seen.push(batch@) + self@.metrics_batches().map_values(f) =~= seen
                            + before.metrics_batches().map_values(f));
                    }
                    all.push(batch);
                    assert(batch_views(all@) =~= seen.push(batch@));
                },
                None => {
                    done = true;
                },
            }
        }
        proof {
            assert(self@.metrics =~= Seq::empty());
            assert(self@.metrics_batches() =~= Seq::empty());
            assert(batch_views(all@) =~= t + m);
            assert(batch_views(all@) + l =~= t + m + l);
        }
        done = false;
        while !done
            invariant
                self.wf(),
                self@ == (AggregatorState {
                    traces: Seq::empty(),
                    metrics: Seq::empty(),
                    logs: self@.logs,
                    ..s
                }),
                batch_views(all@) + self@.logs_batches().map_values(
                    |e: Seq<ResourceLogs>| Entries::Logs(e),
                ) == t + m + l,
                done ==> self@.logs.len() == 0,
            decreases self@.logs.len(), (if done { 0int } else { 1int }),
        {
            let ghost before = self@;
            let ghost seen = batch_views(all@);
            match self.get_logs_batch() {
                Some(batch) => {
                    proof {
                        lemma_batch_len(
                            before.logs,
                            s.config.max_batch_bytes as nat,
                            s.config.max_batch_entries as nat,
                        );
                        let f = |e: Seq<ResourceLogs>| Entries::Logs(e);
                        let first = merged(before.logs.take(before.next_logs()));
                        assert(before.logs_batches() == seq![first] + self@.logs_batches());
                        assert(seen.push(batch@) + self@.logs_batches().map_values(f) =~= seen
                            + before.logs_batches().map_values(f));
                    }
                    all.push(batch);
                    assert(batch_views(all@) =~= seen.push(batch@));
                },
                None => {
                    done = true;
                },
            }
        }
        proof {
            assert(self@.logs_batches() =~= Seq::empty());
            assert(batch_views(all@) =~= t + m + l);
            assert(self@.logs =~= Seq::empty());
            assert(self@ == s.drained());
        }
        all
    }

    /// Returns the total count of pending items across all queues.
    pub fn pending_count(&self) -> (n: usize)
        requires
            self.wf(),
        ensures
            n == self@.entries(),
    {
        self.total_entries()
    }

    /// Returns the total encoded bytes currently buffered across all queues.
    pub fn pending_bytes(&self) -> (n: usize)
        requires
            self.wf(),
        ensures
            n == self@.bytes(),
    {
        self.current_bytes
    }

    /// Returns whether all queues are empty.
    pub fn is_empty(&self) -> (r: bool)
        requires
            self.wf(),
        ensures
            r == (self@.entries() == 0),
    {
        self.total_entries() == 0
    }

    /// Returns the total count of dropped items across all queues.
    pub fn dropped_count(&self) -> (n: u64)
        ensures
            n == self@.dropped,
    {
        self.dropped
    }
}

/// A list of batches, each as its entries.
pub open spec fn batch_views(all: Seq<BatchedSignal>) -> Seq<Entries> {
    all.map_values(|b: BatchedSignal| b@)
}

/// Making room only ever drops from the front of the queues, and ends with room
/// for the signal.
pub proof fn lemma_make_room(s: AggregatorState, kind: SignalKind, size: nat)
    requires
        s.config.max_queue_entries > 0,
        size <= s.config.max_queue_bytes,
    ensures
        ({
            let r = s.make_room(kind, size);
            &&& !r.over_budget(size)
            &&& r.config == s.config
            &&& is_suffix(r.traces, s.traces)
            &&& is_suffix(r.metrics, s.metrics)
            &&& is_suffix(r.logs, s.logs)
            &&& s.dropped + s.entries() <= u64::MAX ==> r.dropped + r.entries() == s.dropped
                + s.entries()
            &&& !s.over_budget(size) ==> r == s
            &&& kind == SignalKind::Traces && r.traces.len() > 0 ==> r.metrics == s.metrics
                && r.logs == s.logs
            &&& kind == SignalKind::Metrics && r.metrics.len() > 0 ==> r.traces == s.traces
                && r.logs == s.logs
            &&& kind == SignalKind::Logs && r.logs.len() > 0 ==> r.traces == s.traces && r.metrics
                == s.metrics
        }),
    decreases s.entries(),
{
    if s.over_budget(size) && s.entries() > 0 {
        let next = s.drop_oldest(kind);
        lemma_make_room(next, kind, size);
        let r = s.make_room(kind, size);
        assert(r == next.make_room(kind, size));
        lemma_suffix_trans(r.traces, next.traces, s.traces);
        lemma_suffix_trans(r.metrics, next.metrics, s.metrics);
        lemma_suffix_trans(r.logs, next.logs, s.logs);
    } else {
        if s.entries() == 0 {
            assert(queue_bytes(s.traces) == 0);
            assert(queue_bytes(s.metrics) == 0);
            assert(queue_bytes(s.logs) == 0);
        }
        assert(s.traces.skip(0) =~= s.traces);
        assert(s.metrics.skip(0) =~= s.metrics);
        assert(s.logs.skip(0) =~= s.logs);
    }
}

/// Whether `a` is what is left of `b` once some of its first elements are gone.
pub open spec fn is_suffix<A>(a: Seq<A>, b: Seq<A>) -> bool {
    a.len() <= b.len() && a == b.skip(b.len() - a.len())
}

/// One step less, and then more, leaves a suffix again.
proof fn lemma_suffix_trans<A>(a: Seq<A>, b: Seq<A>, c: Seq<A>)
    requires
        is_suffix(a, b),
        b == c || (c.len() > 0 && b == c.skip(1)),
    ensures
        is_suffix(a, c),
{
    assert(a =~= c.skip(c.len() - a.len()));
}

/// The shared budget is never exceeded: whatever signal is offered, buffered
/// bytes and entries stay within their limits.
pub proof fn law_budget_is_never_exceeded(s: AggregatorState, signal: Entries)
    requires
        s.within_budget(),
    ensures
        s.add(signal).within_budget(),
        s.add(signal).config == s.config,
{
    let size = signal.bytes().len();
    if s.can_hold(size) {
        lemma_make_room(s, kind_of(signal), size);
        let r = s.make_room(kind_of(signal), size);
        match signal {
            Entries::Traces(e) => {
                lemma_queue_bytes_push(r.traces, (e, size));
            },
            Entries::Metrics(e) => {
                lemma_queue_bytes_push(r.metrics, (e, size));
            },
            Entries::Logs(e) => {
                lemma_queue_bytes_push(r.logs, (e, size));
            },
        }
    }
}

/// A signal that the whole budget has no room for is rejected and counted, and
/// disturbs nothing that is queued: one larger than the byte budget, or any where the
/// budget is of no entries.
pub proof fn law_oversized_signal_is_rejected(s: AggregatorState, signal: Entries)
    requires
        signal.bytes().len() > s.config.max_queue_bytes || s.config.max_queue_entries == 0,
    ensures
        s.add(signal) == (AggregatorState { dropped: s.dropped_one(), ..s }),
{
}

/// Every signal is accounted for: each one offered is queued or counted as dropped,
/// and so is what had to leave for it.
pub proof fn law_every_signal_is_accounted_for(s: AggregatorState, signal: Entries)
    requires
        s.dropped + s.entries() < u64::MAX,
    ensures
        s.add(signal).dropped + s.add(signal).entries() == s.dropped + s.entries() + 1,
{
    let size = signal.bytes().len();
    if s.can_hold(size) {
        lemma_make_room(s, kind_of(signal), size);
    }
}

/// Where there is room nothing is dropped, and the signal comes last in its queue.
pub proof fn law_room_means_no_drop(s: AggregatorState, signal: Entries)
    requires
        !s.over_budget(signal.bytes().len()),
    ensures
        s.add(signal) == s.push(signal),
{
}

/// The state after signals were offered, one after the other.
pub open spec fn added_all(s: AggregatorState, signals: Seq<Entries>) -> AggregatorState
    decreases signals.len(),
{
    if signals.len() == 0 {
        s
    } else {
        added_all(s, signals.drop_last()).add(signals.last())
    }
}

/// With more signals at the ends of their queues.
pub open spec fn pushed_all(s: AggregatorState, signals: Seq<Entries>) -> AggregatorState
    decreases signals.len(),
{
    if signals.len() == 0 {
        s
    } else {
        pushed_all(s, signals.drop_last()).push(signals.last())
    }
}

/// The size of all these signals.
pub open spec fn signal_bytes(signals: Seq<Entries>) -> nat
    decreases signals.len(),
{
    if signals.len() == 0 {
        0
    } else {
        signal_bytes(signals.drop_last()) + signals.last().bytes().len()
    }
}

/// Where there is room for all signals none is dropped, and each comes last in its
/// queue, in the order in which they were offered.
pub proof fn law_room_for_all_means_no_drop(s: AggregatorState, signals: Seq<Entries>)
    requires
        s.bytes() + signal_bytes(signals) <= s.config.max_queue_bytes,
        s.entries() + signals.len() <= s.config.max_queue_entries,
    ensures
        added_all(s, signals) == pushed_all(s, signals),
        pushed_all(s, signals).dropped == s.dropped,
        pushed_all(s, signals).config == s.config,
        pushed_all(s, signals).entries() == s.entries() + signals.len(),
        pushed_all(s, signals).bytes() == s.bytes() + signal_bytes(signals),
    decreases signals.len(),
{
    if signals.len() > 0 {
        law_room_for_all_means_no_drop(s, signals.drop_last());
        let front = pushed_all(s, signals.drop_last());
        let size = signals.last().bytes().len();
        match signals.last() {
            Entries::Traces(e) => lemma_queue_bytes_push(front.traces, (e, size)),
            Entries::Metrics(e) => lemma_queue_bytes_push(front.metrics, (e, size)),
            Entries::Logs(e) => lemma_queue_bytes_push(front.logs, (e, size)),
        }
    }
}

/// Eviction prefers the kind of the signal that is pushed: another kind loses
/// signals only when no older one of this kind is left.
pub proof fn law_eviction_prefers_pushed_kind(s: AggregatorState, signal: Entries)
    ensures
        match signal {
            Entries::Traces(_) => s.add(signal).traces.len() > 1 ==> s.add(signal).metrics
                == s.metrics && s.add(signal).logs == s.logs,
            Entries::Metrics(_) => s.add(signal).metrics.len() > 1 ==> s.add(signal).traces
                == s.traces && s.add(signal).logs == s.logs,
            Entries::Logs(_) => s.add(signal).logs.len() > 1 ==> s.add(signal).traces
                == s.traces && s.add(signal).metrics == s.metrics,
        },
{
    let size = signal.bytes().len();
    if s.can_hold(size) {
        lemma_make_room(s, kind_of(signal), size);
    }
}

/// Only the oldest signals leave: what is left of each queue is its end, in the
/// same order, and the new signal follows it.
pub proof fn law_oldest_leave_first(s: AggregatorState, signal: Entries)
    requires
        s.can_hold(signal.bytes().len()),
    ensures
        ({
            let r = s.add(signal);
            let size = signal.bytes().len();
            match signal {
                Entries::Traces(e) => {
                    &&& r.traces.len() > 0
                    &&& r.traces.last() == (e, size)
                    &&& is_suffix(r.traces.drop_last(), s.traces)
                    &&& is_suffix(r.metrics, s.metrics)
                    &&& is_suffix(r.logs, s.logs)
                },
                Entries::Metrics(e) => {
                    &&& r.metrics.len() > 0
                    &&& r.metrics.last() == (e, size)
                    &&& is_suffix(r.metrics.drop_last(), s.metrics)
                    &&& is_suffix(r.traces, s.traces)
                    &&& is_suffix(r.logs, s.logs)
                },
                Entries::Logs(e) => {
                    &&& r.logs.len() > 0
                    &&& r.logs.last() == (e, size)
                    &&& is_suffix(r.logs.drop_last(), s.logs)
                    &&& is_suffix(r.traces, s.traces)
                    &&& is_suffix(r.metrics, s.metrics)
                },
            }
        }),
{
    let size = signal.bytes().len();
    lemma_make_room(s, kind_of(signal), size);
    let room = s.make_room(kind_of(signal), size);
    let r = s.add(signal);
    match signal {
        Entries::Traces(e) => {
            assert(r.traces.drop_last() =~= room.traces);
        },
        Entries::Metrics(e) => {
            assert(r.metrics.drop_last() =~= room.metrics);
        },
        Entries::Logs(e) => {
            assert(r.logs.drop_last() =~= room.logs);
        },
    }
}

/// A batch keeps the limits, unless a single signal exceeds them by itself, and
/// takes all that fits.
pub proof fn law_batches_are_bounded<E>(q: Queue<E>, max_bytes: nat, max_entries: nat)
    requires
        q.len() > 0,
    ensures
        ({
            let n = batch_len(q, max_bytes, max_entries);
            &&& 1 <= n <= q.len()
            &&& n > 1 ==> queue_bytes(q.take(n)) <= max_bytes && n <= max_entries
            &&& n < q.len() ==> queue_bytes(q.take(n + 1)) > max_bytes || n + 1 > max_entries
        }),
{
    lemma_batch_len(q, max_bytes, max_entries);
}

/// The entries of a list of batches, one after another.
pub open spec fn concat<E>(parts: Seq<Seq<E>>) -> Seq<E>
    decreases parts.len(),
{
    if parts.len() == 0 {
        Seq::empty()
    } else {
        parts[0] + concat(parts.skip(1))
    }
}

/// Draining loses nothing and keeps the order: the batches hold, one after
/// another, the entries of all queued signals.
pub proof fn law_draining_keeps_every_entry<E>(q: Queue<E>, max_bytes: nat, max_entries: nat)
    ensures
        concat(batches(q, max_bytes, max_entries)) == merged(q),
    decreases q.len(),
{
    if q.len() > 0 {
        let n = batch_len(q, max_bytes, max_entries);
        lemma_batch_len(q, max_bytes, max_entries);
        law_draining_keeps_every_entry(q.skip(n), max_bytes, max_entries);
        lemma_merged_split(q, n);
        let all = batches(q, max_bytes, max_entries);
        let rest = batches(q.skip(n), max_bytes, max_entries);
        assert(all == seq![merged(q.take(n))] + rest);
        assert(all.skip(1) =~= rest);
        assert(all[0] == merged(q.take(n)));
    } else {
        assert(batches(q, max_bytes, max_entries) =~= Seq::empty());
        assert(concat(batches(q, max_bytes, max_entries)) =~= merged(q));
    }
}

/// Draining empties the queues.
pub proof fn law_draining_empties(s: AggregatorState)
    ensures
        s.drained().entries() == 0,
        s.drained().bytes() == 0,
        s.drained().all_batches() == Seq::<Entries>::empty(),
        s.drained().dropped == s.dropped,
{
    let d = s.drained();
    assert(queue_bytes(d.traces) == 0);
    assert(queue_bytes(d.metrics) == 0);
    assert(queue_bytes(d.logs) == 0);
    assert(d.all_batches() =~= Seq::<Entries>::empty());
}

/// Where there is no signal of the kind that is pushed, the oldest of another kind leaves:
/// a trace first, then metrics or a log. One leaves at a time, and is counted.
pub proof fn law_one_signal_leaves_at_a_time(s: AggregatorState, prefer: SignalKind)
    requires
        s.entries() > 0,
        s.dropped < u64::MAX,
    ensures
        ({
            let after = s.drop_oldest(prefer);
            let trace_leaves = s.traces.len() > 0 && (prefer == SignalKind::Traces || (prefer
                == SignalKind::Metrics && s.metrics.len() == 0) || (prefer == SignalKind::Logs
                && s.logs.len() == 0));
            let metrics_leave = s.metrics.len() > 0 && (prefer == SignalKind::Metrics
                || (s.traces.len() == 0 && (prefer == SignalKind::Traces || s.logs.len() == 0)));
            &&& after.entries() + 1 == s.entries()
            &&& after.dropped == s.dropped + 1
            &&& after.config == s.config
            &&& trace_leaves ==> after.traces == s.traces.drop_first() && after.metrics == s.metrics
                && after.logs == s.logs
            &&& metrics_leave ==> after.metrics == s.metrics.drop_first() && after.traces
                == s.traces && after.logs == s.logs
            &&& !trace_leaves && !metrics_leave ==> after.logs == s.logs.drop_first()
                && after.traces == s.traces && after.metrics == s.metrics
        }),
{
    if s.traces.len() > 0 {
        assert(s.traces.skip(1) =~= s.traces.drop_first());
    }
    if s.metrics.len() > 0 {
        assert(s.metrics.skip(1) =~= s.metrics.drop_first());
    }
    if s.logs.len() > 0 {
        assert(s.logs.skip(1) =~= s.logs.drop_first());
    }
}

/// Whether a signal of the given size would exceed the budget.
pub open spec fn exceeds(s: AggregatorState, size: nat) -> bool {
    s.bytes() + size > s.config.max_queue_bytes || s.entries() + 1 > s.config.max_queue_entries
}

/// No more leave than must: the last one that left for a signal left because with it there
/// was no room.
pub proof fn law_no_more_leave_than_must(s: AggregatorState, kind: SignalKind, size: nat)
    ensures
        ({
            let room = s.make_room(kind, size);
            room == s || exists|t: AggregatorState|
                {
                    &&& exceeds(t, size)
                    &&& t.entries() == room.entries() + 1
                    &&& #[trigger] t.drop_oldest(kind) == room
                }
        }),
    decreases s.entries(),
{
    if s.over_budget(size) && s.entries() > 0 {
        let next = s.drop_oldest(kind);
        law_no_more_leave_than_must(next, kind, size);
        if next.make_room(kind, size) == next {
            assert(exceeds(s, size));
            assert(s.drop_oldest(kind) == s.make_room(kind, size));
        }
    }
}

/// A signal is queued by its kind, at the end, with its encoded size, and no other queue
/// changes.
pub proof fn law_a_signal_is_queued_by_its_kind(s: AggregatorState, signal: Entries)
    ensures
        ({
            let after = s.push(signal);
            &&& after.dropped == s.dropped
            &&& after.config == s.config
            &&& signal is Traces ==> after.traces == s.traces.push(
                (signal->Traces_0, signal.bytes().len()),
            ) && after.metrics == s.metrics && after.logs == s.logs
            &&& signal is Metrics ==> after.metrics == s.metrics.push(
                (signal->Metrics_0, signal.bytes().len()),
            ) && after.traces == s.traces && after.logs == s.logs
            &&& signal is Logs ==> after.logs == s.logs.push(
                (signal->Logs_0, signal.bytes().len()),
            ) && after.traces == s.traces && after.metrics == s.metrics
        }),
{
}

/// All signals are drained: the batches of traces come first, then those of metrics and
/// those of logs, and together they hold every entry that is queued, in its order.
pub proof fn law_all_batches_hold_all_signals(s: AggregatorState)
    ensures
        s.all_batches().len() == s.trace_batches().len() + s.metrics_batches().len()
            + s.logs_batches().len(),
        forall|i: int|
            0 <= i < s.trace_batches().len() ==> #[trigger] s.all_batches()[i] == Entries::Traces(
                s.trace_batches()[i],
            ),
        forall|i: int|
            s.trace_batches().len() <= i < s.trace_batches().len() + s.metrics_batches().len()
                ==> #[trigger] s.all_batches()[i] == Entries::Metrics(
                s.metrics_batches()[i - s.trace_batches().len()],
            ),
        forall|i: int|
            s.trace_batches().len() + s.metrics_batches().len() <= i < s.all_batches().len()
                ==> #[trigger] s.all_batches()[i] == Entries::Logs(
                s.logs_batches()[i - s.trace_batches().len() - s.metrics_batches().len()],
            ),
        concat(s.trace_batches()) == merged(s.traces),
        concat(s.metrics_batches()) == merged(s.metrics),
        concat(s.logs_batches()) == merged(s.logs),
        s.entries() > 0 ==> s.all_batches().len() > 0,
{
    let bytes = s.config.max_batch_bytes as nat;
    let entries = s.config.max_batch_entries as nat;
    law_draining_keeps_every_entry(s.traces, bytes, entries);
    law_draining_keeps_every_entry(s.metrics, bytes, entries);
    law_draining_keeps_every_entry(s.logs, bytes, entries);
}

/// The first batch of a queue takes all that fits its limits, and the others are those of
/// what is left.
pub proof fn law_batches_are_drained_in_order<E>(q: Queue<E>, max_bytes: nat, max_entries: nat)
    requires
        q.len() > 0,
    ensures
        ({
            let n = batch_len(q, max_bytes, max_entries);
            let all = batches(q, max_bytes, max_entries);
            &&& all.len() > 0
            &&& all[0] == merged(q.take(n))
            &&& all.skip(1) == batches(q.skip(n), max_bytes, max_entries)
            &&& queue_bytes(q) <= max_bytes && q.len() <= max_entries ==> n == q.len() && all.len()
                == 1
        }),
{
    let n = batch_len(q, max_bytes, max_entries);
    lemma_batch_len(q, max_bytes, max_entries);
    let all = batches(q, max_bytes, max_entries);
    let rest = batches(q.skip(n), max_bytes, max_entries);
    assert(all == seq![merged(q.take(n))] + rest);
    assert(all.skip(1) =~= rest);
    if queue_bytes(q) <= max_bytes && q.len() <= max_entries && n < q.len() {
        lemma_queue_bytes_split(q, n + 1);
    }
}

/// Merged signals hold the entries of each, one after another, and their size is the sum.
pub proof fn law_merging_keeps_every_entry<E>(q: Queue<E>, entries: Seq<E>, size: nat)
    ensures
        merged(q.push((entries, size))) == merged(q) + entries,
        queue_bytes(q.push((entries, size))) == queue_bytes(q) + size,
        merged(Seq::<(Seq<E>, nat)>::empty()).len() == 0,
        queue_bytes(Seq::<(Seq<E>, nat)>::empty()) == 0,
{
    lemma_merged_push(q, (entries, size));
    lemma_queue_bytes_push(q, (entries, size));
}

/// Each kind of signal has its label.
pub proof fn law_each_kind_has_its_label(signal: Entries)
    ensures
        signal is Traces ==> kind_label(signal) == "traces"@ && kind_of(signal)
            == SignalKind::Traces,
        signal is Metrics ==> kind_label(signal) == "metrics"@ && kind_of(signal)
            == SignalKind::Metrics,
        signal is Logs ==> kind_label(signal) == "logs"@ && kind_of(signal) == SignalKind::Logs,
{
}

/// A signal that the budget has room for is the last in its queue when it was added, and
/// nothing has left for it.
pub proof fn law_an_added_signal_is_queued(a: &mut SignalAggregator, signal: Signal)
    requires
        call_ensures(SignalAggregator::add, (a, signal), ()),
        old(a)@.bytes() + signal@.bytes().len() <= old(a)@.config.max_queue_bytes,
        old(a)@.entries() < old(a)@.config.max_queue_entries,
    ensures
        final(a)@.dropped == old(a)@.dropped,
        final(a)@.entries() == old(a)@.entries() + 1,
        signal is Traces ==> final(a)@.traces == old(a)@.traces.push(
            (signal->Traces_0.resource_spans@, signal@.bytes().len()),
        ) && final(a)@.metrics == old(a)@.metrics && final(a)@.logs == old(a)@.logs,
        signal is Metrics ==> final(a)@.metrics == old(a)@.metrics.push(
            (signal->Metrics_0.resource_metrics@, signal@.bytes().len()),
        ) && final(a)@.traces == old(a)@.traces && final(a)@.logs == old(a)@.logs,
        signal is Logs ==> final(a)@.logs == old(a)@.logs.push(
            (signal->Logs_0.resource_logs@, signal@.bytes().len()),
        ) && final(a)@.traces == old(a)@.traces && final(a)@.metrics == old(a)@.metrics,
{
}

/// A batch holds the first signals of its queue, and these leave it; the rest stays, and so
/// do the other kinds.
pub proof fn law_a_batch_takes_the_first_signals(
    a: &mut SignalAggregator,
    b: &mut SignalAggregator,
    c: &mut SignalAggregator,
    traces: Option<BatchedSignal>,
    metrics: Option<BatchedSignal>,
    logs: Option<BatchedSignal>,
)
    requires
        call_ensures(SignalAggregator::get_trace_batch, (a,), traces),
        call_ensures(SignalAggregator::get_metrics_batch, (b,), metrics),
        call_ensures(SignalAggregator::get_logs_batch, (c,), logs),
    ensures
        traces is Some <==> old(a)@.traces.len() > 0,
        traces is Some ==> {
            &&& traces->0@ is Traces
            &&& traces->0@->Traces_0 + merged(final(a)@.traces) == merged(old(a)@.traces)
            &&& final(a)@.traces.len() < old(a)@.traces.len()
        },
        final(a)@.metrics == old(a)@.metrics && final(a)@.logs == old(a)@.logs,
        final(a)@.dropped == old(a)@.dropped,
        metrics is Some <==> old(b)@.metrics.len() > 0,
        metrics is Some ==> {
            &&& metrics->0@ is Metrics
            &&& metrics->0@->Metrics_0 + merged(final(b)@.metrics) == merged(old(b)@.metrics)
            &&& final(b)@.metrics.len() < old(b)@.metrics.len()
        },
        final(b)@.traces == old(b)@.traces && final(b)@.logs == old(b)@.logs,
        final(b)@.dropped == old(b)@.dropped,
        logs is Some <==> old(c)@.logs.len() > 0,
        logs is Some ==> {
            &&& logs->0@ is Logs
            &&& logs->0@->Logs_0 + merged(final(c)@.logs) == merged(old(c)@.logs)
            &&& final(c)@.logs.len() < old(c)@.logs.len()
        },
        final(c)@.traces == old(c)@.traces && final(c)@.metrics == old(c)@.metrics,
        final(c)@.dropped == old(c)@.dropped,
{
    let s = old(a)@;
    lemma_batch_len(
        s.traces,
        s.config.max_batch_bytes as nat,
        s.config.max_batch_entries as nat,
    );
    lemma_merged_split(s.traces, s.next_traces());
    let s = old(b)@;
    lemma_batch_len(
        s.metrics,
        s.config.max_batch_bytes as nat,
        s.config.max_batch_entries as nat,
    );
    lemma_merged_split(s.metrics, s.next_metrics());
    let s = old(c)@;
    lemma_batch_len(s.logs, s.config.max_batch_bytes as nat, s.config.max_batch_entries as nat);
    lemma_merged_split(s.logs, s.next_logs());
}

/// Taking all batches leaves nothing behind, and forgets nothing of what was dropped; the
/// counts tell what is queued.
pub proof fn law_taking_all_leaves_nothing(
    a: &mut SignalAggregator,
    all: Vec<BatchedSignal>,
    count: usize,
    bytes: usize,
    empty: bool,
    dropped: u64,
)
    requires
        call_ensures(SignalAggregator::get_all_batches, (a,), all),
        call_ensures(SignalAggregator::pending_count, (&*final(a),), count),
        call_ensures(SignalAggregator::pending_bytes, (&*final(a),), bytes),
        call_ensures(SignalAggregator::is_empty, (&*final(a),), empty),
        call_ensures(SignalAggregator::dropped_count, (&*final(a),), dropped),
    ensures
        count == 0,
        bytes == 0,
        empty,
        dropped == old(a)@.dropped,
        all@.len() == old(a)@.trace_batches().len() + old(a)@.metrics_batches().len() + old(a)@.logs_batches().len(),
        old(a)@.traces.len() + old(a)@.metrics.len() + old(a)@.logs.len() > 0 ==> all@.len() > 0,
{
    law_draining_empties(old(a)@);
    law_all_batches_hold_all_signals(old(a)@);
    assert(batch_views(all@).len() == all@.len());
}

/// The counts of an aggregator tell what is queued in it.
pub proof fn law_the_counts_tell_what_is_queued(
    a: SignalAggregator,
    count: usize,
    bytes: usize,
    empty: bool,
    dropped: u64,
)
    requires
        call_ensures(SignalAggregator::pending_count, (&a,), count),
        call_ensures(SignalAggregator::pending_bytes, (&a,), bytes),
        call_ensures(SignalAggregator::is_empty, (&a,), empty),
        call_ensures(SignalAggregator::dropped_count, (&a,), dropped),
    ensures
        count == a@.traces.len() + a@.metrics.len() + a@.logs.len(),
        bytes == queue_bytes(a@.traces) + queue_bytes(a@.metrics) + queue_bytes(a@.logs),
        empty <==> count == 0,
        dropped == a@.dropped,
{
}

/// A new aggregator holds nothing and has dropped nothing.
pub proof fn law_a_new_aggregator_is_empty(config: FlushConfig, a: SignalAggregator)
    requires
        call_ensures(SignalAggregator::new, (config,), a),
    ensures
        a@.entries() == 0,
        a@.dropped == 0,
        a@.config == config,
{
}

} // verus!
