//! Adaptive flush management.
//!
//! Tracks how often invocations come and decides when the buffered signals are
//! flushed.
use crate::config;
use crate::config::{FlushConfig, FlushStrategy};
use crate::time;
use crate::time::{epoch_millis, Clock, Duration, Moment};
use std::collections::VecDeque;
use vstd::prelude::*;

verus! {

/// The number of invocations that are remembered, and of consecutive timeouts
/// that escalate the flush strategy.
pub const HISTORY_SIZE: usize = 20;

/// The average interval, in nanoseconds, above which invocations are infrequent.
pub const FREQUENT_THRESHOLD_NANOS: u128 = 120_000_000_000;

/// The time before the deadline, in milliseconds, in which a flush is due.
pub const DEADLINE_BUFFER_MS: u64 = 500;

/// Reason for triggering a flush.
#[non_exhaustive]
#[derive(Debug, Clone, Copy, PartialEq, Eq, Structural)]
pub enum FlushReason {
    /// Flush triggered by shutdown signal.
    Shutdown,
    /// Flush triggered by approaching deadline.
    Deadline,
    /// Flush triggered by buffer size limits.
    BufferFull,
    /// Flush triggered by periodic timer.
    Periodic,
    /// Flush triggered at end of invocation (infrequent pattern).
    InvocationEnd,
    /// Flush triggered by continuous strategy.
    Continuous,
}

/// What the flush decisions depend on.
pub struct FlushState {
    /// The configuration.
    pub config: FlushConfig,
    /// When the last invocations started, the oldest first.
    pub history: Seq<Moment>,
    /// When the last flush succeeded.
    pub last_flush: Option<Moment>,
    /// The number of flushes that failed since then.
    pub timeouts: nat,
}

impl FlushState {
    /// The strategy in force: too many failures in a row escalate it.
    pub open spec fn strategy(self) -> FlushStrategy {
        if self.timeouts >= HISTORY_SIZE {
            FlushStrategy::Continuous
        } else {
            self.config.strategy
        }
    }

    /// The average time between invocations, once there have been two.
    pub open spec fn average_interval(self) -> Option<nat> {
        if self.history.len() < 2 {
            None
        } else {
            Some(
                time::minus(self.history.last()@, self.history.first()@) / (self.history.len() - 1)
                    as nat,
            )
        }
    }

    /// Whether invocations are infrequent, or their frequency is not known.
    pub open spec fn infrequent(self) -> bool {
        match self.average_interval() {
            Some(average) => average > FREQUENT_THRESHOLD_NANOS,
            None => true,
        }
    }

    /// The time from `now` until the interval since the last flush has passed.
    pub open spec fn time_left(self, now: Moment) -> nat {
        match self.last_flush {
            Some(last) => time::minus(self.config.interval@, time::minus(now@, last@)),
            None => 0,
        }
    }

    /// Whether the interval since the last flush has passed.
    pub open spec fn interval_passed(self, now: Moment) -> bool {
        match self.last_flush {
            Some(last) => time::minus(now@, last@) >= self.config.interval@,
            None => true,
        }
    }

    /// The reason to flush during an invocation for the strategy alone.
    pub open spec fn strategy_reason(self, now: Moment) -> Option<FlushReason> {
        match self.strategy() {
            FlushStrategy::Continuous => if self.interval_passed(now) {
                Some(FlushReason::Continuous)
            } else {
                None
            },
            FlushStrategy::Periodic => if self.interval_passed(now) {
                Some(FlushReason::Periodic)
            } else {
                None
            },
            FlushStrategy::End => None,
            FlushStrategy::Default => if !self.infrequent() && self.interval_passed(now) {
                Some(FlushReason::Continuous)
            } else {
                None
            },
        }
    }

    /// The reason to flush now, if there is one.
    pub open spec fn reason(
        self,
        deadline_ms: Option<i64>,
        pending: nat,
        is_shutdown: bool,
        now: Moment,
        now_ms: u64,
    ) -> Option<FlushReason> {
        if is_shutdown {
            Some(FlushReason::Shutdown)
        } else if deadline_ms is Some && deadline_ms->0 - now_ms < DEADLINE_BUFFER_MS {
            Some(FlushReason::Deadline)
        } else if pending == 0 {
            None
        } else if pending >= self.config.max_batch_entries {
            Some(FlushReason::BufferFull)
        } else {
            self.strategy_reason(now)
        }
    }

    /// The reason to flush at the end of an invocation, if there is one.
    pub open spec fn end_reason(self, pending: nat) -> Option<FlushReason> {
        if pending > 0 && (self.strategy() == FlushStrategy::End || (self.strategy()
            == FlushStrategy::Default && self.infrequent())) {
            Some(FlushReason::InvocationEnd)
        } else {
            None
        }
    }
}

/// The last `n` entries of a sequence, or all of them where there are fewer.
pub open spec fn last_entries<A>(s: Seq<A>, n: nat) -> Seq<A> {
    if s.len() <= n {
        s
    } else {
        s.skip(s.len() - n)
    }
}

/// Manages adaptive flush timing based on invocation patterns.
#[derive(Debug)]
pub struct FlushManager {
    config: FlushConfig,
    clock: Clock,
    invocation_timestamps: VecDeque<Moment>,
    last_flush: Option<Moment>,
    consecutive_timeout_count: usize,
}

impl View for FlushManager {
    type V = FlushState;

    closed spec fn view(&self) -> FlushState {
        FlushState {
            config: self.config,
            history: self.invocation_timestamps@,
            last_flush: self.last_flush,
            timeouts: self.consecutive_timeout_count as nat,
        }
    }
}

impl FlushManager {
    /// The history holds no more than it should.
    pub open spec fn wf(&self) -> bool {
        self@.history.len() <= HISTORY_SIZE
    }

    /// The clock that invocations and flushes are timed by.
    pub closed spec fn clock(&self) -> Clock {
        self.clock
    }

    /// Creates a new flush manager with the given configuration.
    pub fn new(config: FlushConfig) -> (m: Self)
        ensures
            m.wf(),
            m@ == (FlushState {
                config,
                history: Seq::empty(),
                last_flush: None,
                timeouts: 0,
            }),
            m.clock().may_be_started(),
    {
        FlushManager::with_clock(config, Clock::start())
    }

    /// Creates a new flush manager that reads the given clock.
    pub fn with_clock(config: FlushConfig, clock: Clock) -> (m: Self)
        ensures
            m.wf(),
            m@ == (FlushState {
                config,
                history: Seq::empty(),
                last_flush: None,
                timeouts: 0,
            }),
            m.clock() == clock,
    {
        FlushManager {
            config,
            clock,
            invocation_timestamps: VecDeque::with_capacity(HISTORY_SIZE),
            last_flush: None,
            consecutive_timeout_count: 0,
        }
    }

    /// Creates a new flush manager with default configuration.
    pub fn with_defaults() -> (m: Self)
        ensures
            m.wf(),
            config::is_default_flush(m@.config, None),
            m@ == (FlushState {
                config: m@.config,
                history: Seq::empty(),
                last_flush: None,
                timeouts: 0,
            }),
            m.clock().may_be_started(),
    {
        FlushManager::new(FlushConfig::default())
    }

    /// Records that an invocation has started.
    pub fn record_invocation(&mut self)
        requires
            old(self).wf(),
        ensures
            final(self).wf(),
            final(self).clock() == old(self).clock(),
            exists|now: Moment|
                old(self).clock().may_show(now) && final(self)@.history == last_entries(
                    #[trigger] old(self)@.history.push(now),
                    HISTORY_SIZE as nat,
                ),
            final(self)@ == (FlushState { history: final(self)@.history, ..old(self)@ }),
    {
        let now = self.clock.now();
        self.record_invocation_at(now);
    }

    /// Records that an invocation started at the given time.
    pub fn record_invocation_at(&mut self, now: Moment)
        requires
            old(self).wf(),
        ensures
            final(self).wf(),
            final(self).clock() == old(self).clock(),
            final(self)@ == (FlushState {
                history: last_entries(old(self)@.history.push(now), HISTORY_SIZE as nat),
                ..old(self)@
            }),
    {
        if self.invocation_timestamps.len() >= HISTORY_SIZE {
            self.invocation_timestamps.pop_front();
        }
        self.invocation_timestamps.push_back(now);
        assert(self@.history =~= last_entries(old(self)@.history.push(now), HISTORY_SIZE as nat));
    }

    /// Records that a flush completed successfully.
    pub fn record_flush(&mut self)
        requires
            old(self).wf(),
        ensures
            final(self).wf(),
            final(self).clock() == old(self).clock(),
            final(self)@.last_flush is Some,
            old(self).clock().may_show(final(self)@.last_flush->0),
            final(self)@ == (FlushState {
                last_flush: final(self)@.last_flush,
                timeouts: 0,
                ..old(self)@
            }),
    {
        let now = self.clock.now();
        self.record_flush_at(now);
    }

    /// Records that a flush completed successfully at the given time.
    pub fn record_flush_at(&mut self, now: Moment)
        requires
            old(self).wf(),
        ensures
            final(self).wf(),
            final(self).clock() == old(self).clock(),
            final(self)@ == (FlushState { last_flush: Some(now), timeouts: 0, ..old(self)@ }),
    {
        self.last_flush = Some(now);
        self.consecutive_timeout_count = 0;
    }

    /// Records that a flush timed out or failed. The count stays at the largest
    /// number that it can hold.
    pub fn record_flush_timeout(&mut self)
        requires
            old(self).wf(),
        ensures
            final(self).wf(),
            final(self).clock() == old(self).clock(),
            final(self)@ == (FlushState {
                timeouts: time::least(old(self)@.timeouts + 1, usize::MAX as nat),
                ..old(self)@
            }),
    {
        if self.consecutive_timeout_count < usize::MAX {
            self.consecutive_timeout_count = self.consecutive_timeout_count + 1;
        }
    }

    /// Determines if a flush should be triggered now.
    ///
    /// `deadline_ms` is the invocation deadline in milliseconds since the epoch,
    /// `pending_count` the number of signals waiting to be flushed.
    pub fn should_flush(
        &self,
        deadline_ms: Option<i64>,
        pending_count: usize,
        is_shutdown: bool,
    ) -> (r: Option<FlushReason>)
        ensures
            exists|now: Moment, now_ms: u64|
                {
                    &&& self.clock().may_show(now)
                    &&& time::may_be_epoch_millis(now_ms)
                    &&& r == #[trigger] self@.reason(
                        deadline_ms,
                        pending_count as nat,
                        is_shutdown,
                        now,
                        now_ms,
                    )
                },
    {
        let now = self.clock.now();
        let now_ms: u64 = epoch_millis();
        self.should_flush_at(deadline_ms, pending_count, is_shutdown, now, now_ms)
    }

    /// Determines if a flush should be triggered at the given time, which is
    /// `now_ms` in milliseconds since the epoch.
    pub fn should_flush_at(
        &self,
        deadline_ms: Option<i64>,
        pending_count: usize,
        is_shutdown: bool,
        now: Moment,
        now_ms: u64,
    ) -> (r: Option<FlushReason>)
        ensures
            r == self@.reason(deadline_ms, pending_count as nat, is_shutdown, now, now_ms),
    {
        if is_shutdown {
            return Some(FlushReason::Shutdown);
        }
        if let Some(deadline) = deadline_ms {
            if Self::is_deadline_approaching(deadline, now_ms) {
                return Some(FlushReason::Deadline);
            }
        }
        if pending_count > 0 && self.is_buffer_full(pending_count) {
            return Some(FlushReason::BufferFull);
        }
        if pending_count == 0 {
            return None;
        }
        match self.effective_strategy() {
            FlushStrategy::Continuous => {
                if self.should_flush_continuous(now) {
                    return Some(FlushReason::Continuous);
                }
            },
            FlushStrategy::Periodic => {
                if self.should_flush_periodic(now) {
                    return Some(FlushReason::Periodic);
                }
            },
            FlushStrategy::End => {
                return None;
            },
            FlushStrategy::Default => {
                if self.is_infrequent_pattern() {
                    return None;
                } else if self.should_flush_continuous(now) {
                    return Some(FlushReason::Continuous);
                }
            },
        }
        None
    }

    /// Determines if a flush should be triggered at the end of an invocation.
    pub fn should_flush_on_invocation_end(&self, pending_count: usize) -> (r: Option<FlushReason>)
        ensures
            r == self@.end_reason(pending_count as nat),
    {
        if pending_count == 0 {
            return None;
        }
        match self.effective_strategy() {
            FlushStrategy::End => Some(FlushReason::InvocationEnd),
            FlushStrategy::Default => if self.is_infrequent_pattern() {
                Some(FlushReason::InvocationEnd)
            } else {
                None
            },
            _ => None,
        }
    }

    /// Returns the effective flush strategy, considering escalation.
    pub fn effective_strategy(&self) -> (s: FlushStrategy)
        ensures
            s == self@.strategy(),
    {
        if self.consecutive_timeout_count >= HISTORY_SIZE {
            return FlushStrategy::Continuous;
        }
        self.config.strategy
    }

    /// Returns the average time between invocations, if available.
    pub fn average_invocation_interval(&self) -> (r: Option<Duration>)
        ensures
            match r {
                Some(d) => self@.average_interval() == Some(d@),
                None => self@.average_interval() is None,
            },
    {
        let n: usize = self.invocation_timestamps.len();
        if n < 2 {
            return None;
        }
        let first = self.invocation_timestamps[0];
        let last = self.invocation_timestamps[n - 1];
        let total = last.since(first);
        Some(Duration { nanos: total.nanos / (n - 1) as u128 })
    }

    /// Returns whether invocations are infrequent (>120s average interval).
    pub fn is_infrequent_pattern(&self) -> (r: bool)
        ensures
            r == self@.infrequent(),
    {
        match self.average_invocation_interval() {
            Some(average) => average.nanos > FREQUENT_THRESHOLD_NANOS,
            None => true,
        }
    }

    /// Whether less than the buffer is left until the deadline.
    fn is_deadline_approaching(deadline_ms: i64, now_ms: u64) -> (r: bool)
        ensures
            r == (deadline_ms - now_ms < DEADLINE_BUFFER_MS),
    {
        let remaining: i128 = deadline_ms as i128 - now_ms as i128;
        remaining < DEADLINE_BUFFER_MS as i128
    }

    /// Whether as many signals are pending as fit in one batch.
    fn is_buffer_full(&self, pending_count: usize) -> (r: bool)
        ensures
            r == (pending_count >= self@.config.max_batch_entries),
    {
        pending_count >= self.config.max_batch_entries
    }

    /// Whether the interval since the last flush has passed.
    fn should_flush_continuous(&self, now: Moment) -> (r: bool)
        ensures
            r == self@.interval_passed(now),
    {
        match self.last_flush {
            Some(last) => now.since(last).nanos >= self.config.interval.nanos,
            None => true,
        }
    }

    /// Whether a periodic flush is due.
    fn should_flush_periodic(&self, now: Moment) -> (r: bool)
        ensures
            r == self@.interval_passed(now),
    {
        self.should_flush_continuous(now)
    }

    /// Returns the configured flush strategy.
    pub fn strategy(&self) -> (s: FlushStrategy)
        ensures
            s == self@.config.strategy,
    {
        self.config.strategy
    }

    /// Returns the configured flush interval.
    pub fn interval(&self) -> (d: Duration)
        ensures
            d == self@.config.interval,
    {
        self.config.interval
    }

    /// Returns the time until the next periodic flush should occur.
    pub fn time_until_next_flush(&self) -> (d: Duration)
        ensures
            exists|now: Moment|
                self.clock().may_show(now) && d@ == #[trigger] self@.time_left(now),
    {
        let now = self.clock.now();
        self.time_until_next_flush_at(now)
    }

    /// Returns the time from `now` until the next periodic flush should occur.
    pub fn time_until_next_flush_at(&self, now: Moment) -> (d: Duration)
        ensures
            d@ == self@.time_left(now),
    {
        match self.last_flush {
            Some(last) => {
                let elapsed = now.since(last);
                if elapsed.nanos >= self.config.interval.nanos {
                    Duration::zero()
                } else {
                    self.config.interval.saturating_sub(elapsed)
                }
            },
            None => Duration::zero(),
        }
    }

    /// Returns the number of consecutive flush timeouts.
    pub fn consecutive_timeout_count(&self) -> (n: usize)
        ensures
            n == self@.timeouts,
    {
        self.consecutive_timeout_count
    }

    /// Returns the number of invocations in the history.
    pub fn invocation_history_len(&self) -> (n: usize)
        ensures
            n == self@.history.len(),
    {
        self.invocation_timestamps.len()
    }
}

/// A shutdown flushes, whatever the strategy and however little is pending.
pub proof fn law_shutdown_always_flushes(
    s: FlushState,
    deadline_ms: Option<i64>,
    pending: nat,
    now: Moment,
    now_ms: u64,
)
    ensures
        s.reason(deadline_ms, pending, true, now, now_ms) == Some(FlushReason::Shutdown),
{
}

/// With nothing pending, only a shutdown or a deadline is a reason to flush.
pub proof fn law_nothing_pending_no_flush(
    s: FlushState,
    deadline_ms: Option<i64>,
    now: Moment,
    now_ms: u64,
)
    ensures
        s.end_reason(0) is None,
        s.reason(deadline_ms, 0, false, now, now_ms) is Some ==> deadline_ms is Some
            && deadline_ms->0 - now_ms < DEADLINE_BUFFER_MS,
{
}

/// As many pending signals as fill a batch are flushed at once, whatever the
/// strategy.
pub proof fn law_full_buffer_flushes(
    s: FlushState,
    deadline_ms: Option<i64>,
    pending: nat,
    now: Moment,
    now_ms: u64,
)
    requires
        pending > 0,
        pending >= s.config.max_batch_entries,
    ensures
        s.reason(deadline_ms, pending, false, now, now_ms) is Some,
{
}

/// Once twenty flushes in a row have failed, pending signals are flushed
/// continuously, whatever strategy is configured, until one succeeds.
pub proof fn law_timeouts_escalate(s: FlushState, pending: nat, now: Moment, now_ms: u64)
    requires
        s.timeouts >= 20,
        0 < pending < s.config.max_batch_entries,
    ensures
        s.reason(None, pending, false, now, now_ms) == (if s.interval_passed(now) {
            Some(FlushReason::Continuous)
        } else {
            None
        }),
        s.end_reason(pending) is None,
        (FlushState { last_flush: Some(now), timeouts: 0, ..s }).strategy() == s.config.strategy,
{
}

/// What is flushed at the end of an invocation is not flushed in the midst of it
/// for the strategy's sake: the strategy asks for one or the other.
pub proof fn law_end_or_midway(s: FlushState, pending: nat, now: Moment)
    ensures
        s.end_reason(pending) is Some ==> s.strategy_reason(now) is None,
        s.strategy_reason(now) is Some ==> s.end_reason(pending) is None,
{
}

/// The time until the next flush is zero exactly when the interval has passed.
pub proof fn law_time_left_is_zero_when_due(s: FlushState, now: Moment)
    ensures
        s.time_left(now) == 0 <==> s.interval_passed(now),
        s.time_left(now) <= s.config.interval@,
{
}

/// Right after a flush nothing is flushed again for the strategy's sake until
/// the interval has passed.
pub proof fn law_no_flush_within_the_interval(s: FlushState, at: Moment, now: Moment)
    requires
        at@ <= now@ < at@ + s.config.interval@,
    ensures
        (FlushState { last_flush: Some(at), timeouts: 0, ..s }).strategy_reason(now) is None,
{
}

/// The history never holds more than twenty invocations: a new one comes last,
/// and the oldest leaves a history that is full.
pub proof fn law_history_is_bounded(history: Seq<Moment>, now: Moment)
    requires
        history.len() <= HISTORY_SIZE,
    ensures
        last_entries(history.push(now), HISTORY_SIZE as nat).len() <= HISTORY_SIZE,
        last_entries(history.push(now), HISTORY_SIZE as nat).last() == now,
        history.len() < HISTORY_SIZE ==> last_entries(history.push(now), HISTORY_SIZE as nat)
            == history.push(now),
        history.len() == HISTORY_SIZE ==> last_entries(history.push(now), HISTORY_SIZE as nat)
            == history.drop_first().push(now),
{
    assert(history.push(now).skip(1) =~= history.drop_first().push(now) || history.len() == 0);
}

/// Fewer than twenty failed flushes in a row change nothing: the strategy in force is the
/// configured one. With strategy `End` the end of an invocation flushes what is pending,
/// and the midst of it does not.
pub proof fn law_few_failures_keep_the_strategy(s: FlushState, pending: nat, now: Moment)
    requires
        s.timeouts < 20,
    ensures
        s.strategy() == s.config.strategy,
        s.config.strategy == FlushStrategy::End && pending > 0 ==> s.end_reason(pending) == Some(
            FlushReason::InvocationEnd,
        ) && s.strategy_reason(now) is None,
        s.config.strategy == FlushStrategy::Periodic || s.config.strategy
            == FlushStrategy::Continuous ==> s.end_reason(pending) is None,
{
}

/// Twenty failed flushes in a row make any strategy continuous.
pub proof fn law_twenty_failures_escalate(s: FlushState)
    requires
        s.timeouts >= 20,
    ensures
        s.strategy() == FlushStrategy::Continuous,
{
}

/// A deadline that is less than half a second away is a reason to flush, with or without
/// signals and ahead of any other but a shutdown. One that is further away is none.
pub proof fn law_a_near_deadline_flushes(
    s: FlushState,
    deadline_ms: i64,
    pending: nat,
    now: Moment,
    now_ms: u64,
)
    ensures
        deadline_ms < now_ms + 500 <==> s.reason(Some(deadline_ms), pending, false, now, now_ms)
            == Some(FlushReason::Deadline),
        deadline_ms >= now_ms + 500 ==> s.reason(Some(deadline_ms), pending, false, now, now_ms)
            == s.reason(None, pending, false, now, now_ms),
{
}

/// Only a full batch is flushed for its size: with fewer signals the strategy alone
/// decides.
pub proof fn law_a_batch_is_full_at_its_limit(s: FlushState, pending: nat, now: Moment, now_ms: u64)
    requires
        pending > 0,
    ensures
        pending >= s.config.max_batch_entries <==> s.reason(None, pending, false, now, now_ms)
            == Some(FlushReason::BufferFull),
        pending < s.config.max_batch_entries ==> s.reason(None, pending, false, now, now_ms)
            == s.strategy_reason(now),
{
}

/// Nothing was ever flushed, or the last flush is at least the interval ago: then the
/// interval has passed, and not otherwise.
pub proof fn law_the_interval_counts_from_the_last_flush(s: FlushState, now: Moment)
    ensures
        s.last_flush is None ==> s.interval_passed(now) && s.time_left(now) == 0,
        s.last_flush is Some && now@ >= s.last_flush->0@ + s.config.interval@ ==> s.interval_passed(
            now,
        ) && s.time_left(now) == 0,
        s.last_flush is Some && s.last_flush->0@ <= now@ < s.last_flush->0@ + s.config.interval@
            ==> !s.interval_passed(now) && now@ + s.time_left(now) == s.last_flush->0@
            + s.config.interval@,
{
}

/// In the midst of an invocation the strategies flush once the interval has passed since
/// the last flush: `Periodic` and `Continuous` always, `Default` where invocations are
/// frequent, and `End` never.
pub proof fn law_strategies_flush_midway(s: FlushState, now: Moment)
    requires
        s.timeouts < 20,
        s.last_flush is None || now@ >= s.last_flush->0@ + s.config.interval@,
    ensures
        s.config.strategy == FlushStrategy::Periodic ==> s.strategy_reason(now) == Some(
            FlushReason::Periodic,
        ),
        s.config.strategy == FlushStrategy::Continuous ==> s.strategy_reason(now) == Some(
            FlushReason::Continuous,
        ),
        s.config.strategy == FlushStrategy::End ==> s.strategy_reason(now) is None,
        s.config.strategy == FlushStrategy::Default && s.infrequent() ==> s.strategy_reason(
            now,
        ) is None,
        s.config.strategy == FlushStrategy::Default && !s.infrequent() ==> s.strategy_reason(now)
            == Some(FlushReason::Continuous),
{
}

/// By default every pending signal is flushed in one place: at the end of the invocation
/// where invocations are infrequent, in the midst of it where they are frequent.
pub proof fn law_default_follows_the_frequency(s: FlushState, pending: nat)
    requires
        s.timeouts < 20,
        s.config.strategy == FlushStrategy::Default,
        pending > 0,
    ensures
        s.infrequent() ==> s.end_reason(pending) == Some(FlushReason::InvocationEnd),
        !s.infrequent() ==> s.end_reason(pending) is None,
{
}

/// The average interval is the time from the first to the last invocation, shared among
/// the gaps between them; it is not known before the second.
pub proof fn law_average_shares_the_time_among_the_gaps(s: FlushState)
    ensures
        s.history.len() < 2 <==> s.average_interval() is None,
        s.history.len() >= 2 && s.history.first()@ <= s.history.last()@ ==> ({
            let gaps = (s.history.len() - 1) as nat;
            let average = s.average_interval()->0;
            average * gaps <= s.history.last()@ - s.history.first()@ < (average + 1) * gaps
        }),
{
    if s.history.len() >= 2 && s.history.first()@ <= s.history.last()@ {
        let gaps = s.history.len() - 1;
        let span = s.history.last()@ - s.history.first()@;
        vstd::arithmetic::div_mod::lemma_fundamental_div_mod(span, gaps);
        vstd::arithmetic::div_mod::lemma_mod_bound(span, gaps);
        let average = span / gaps;
        assert(gaps * average == average * gaps) by (nonlinear_arith);
        assert((average + 1) * gaps == average * gaps + gaps) by (nonlinear_arith);
    }
}

/// Invocations are frequent where they come every two minutes or more often, on average;
/// one alone says nothing, and counts as infrequent.
pub proof fn law_frequent_means_every_two_minutes(s: FlushState)
    ensures
        s.history.len() < 2 ==> s.infrequent(),
        s.history.len() >= 2 ==> s.infrequent() == (s.average_interval()->0 > 120_000_000_000),
{
}

/// Every invocation that is recorded comes last in the history, of which the last twenty
/// are kept; nothing else changes.
pub proof fn law_a_recorded_invocation_comes_last(m: &mut FlushManager, now: Moment)
    requires
        call_ensures(FlushManager::record_invocation_at, (m, now), ()),
        old(m)@.history.len() <= 20,
    ensures
        final(m)@.history.len() > 0,
        final(m)@.history.last() == now,
        old(m)@.history.len() < 20 ==> final(m)@.history.drop_last() == old(m)@.history,
        old(m)@.history.len() == 20 ==> final(m)@.history.drop_last() == old(m)@.history.drop_first(),
        final(m)@.config == old(m)@.config,
        final(m)@.last_flush == old(m)@.last_flush,
        final(m)@.timeouts == old(m)@.timeouts,
{
    let history = old(m)@.history;
    let after = final(m)@.history;
    if history.len() < 20 {
        assert(after.drop_last() =~= history);
    } else {
        assert(after.drop_last() =~= history.drop_first());
    }
}

/// A flush that succeeds starts the interval anew and clears the count of failures.
pub proof fn law_a_recorded_flush_starts_the_interval(m: &mut FlushManager, now: Moment)
    requires
        call_ensures(FlushManager::record_flush_at, (m, now), ()),
    ensures
        final(m)@.last_flush == Some(now),
        final(m)@.timeouts == 0,
        final(m)@.time_left(now) == final(m)@.config.interval@,
        final(m)@.strategy() == old(m)@.config.strategy,
        final(m)@.config == old(m)@.config,
        final(m)@.history == old(m)@.history,
{
}

/// A flush that fails adds one to the count of failures, and leaves the interval as it is.
pub proof fn law_a_recorded_failure_is_counted(m: &mut FlushManager)
    requires
        call_ensures(FlushManager::record_flush_timeout, (m,), ()),
        old(m)@.timeouts < usize::MAX,
    ensures
        final(m)@.timeouts == old(m)@.timeouts + 1,
        final(m)@.last_flush == old(m)@.last_flush,
        final(m)@.config == old(m)@.config,
        final(m)@.history == old(m)@.history,
{
}

/// A manager flushes what is pending for one reason at a time: for a shutdown before
/// anything else, then for a deadline within half a second, then for a full batch, and
/// then as its strategy asks.
pub proof fn law_a_manager_gives_its_reason(
    m: FlushManager,
    deadline_ms: Option<i64>,
    pending: usize,
    is_shutdown: bool,
    now: Moment,
    now_ms: u64,
    r: Option<FlushReason>,
)
    requires
        call_ensures(
            FlushManager::should_flush_at,
            (&m, deadline_ms, pending, is_shutdown, now, now_ms),
            r,
        ),
    ensures
        ({
            let near = deadline_ms is Some && deadline_ms->0 < now_ms + 500;
            let passed = m@.last_flush is None || now@ >= m@.last_flush->0@ + m@.config.interval@;
            let waiting = m@.last_flush is Some && m@.last_flush->0@ <= now@ < m@.last_flush->0@
                + m@.config.interval@;
            let strategy = if m@.timeouts >= 20 {
                FlushStrategy::Continuous
            } else {
                m@.config.strategy
            };
            &&& r == Some(FlushReason::Shutdown) <==> is_shutdown
            &&& r == Some(FlushReason::Deadline) <==> !is_shutdown && near
            &&& r == Some(FlushReason::BufferFull) <==> !is_shutdown && !near && pending > 0
                && pending >= m@.config.max_batch_entries
            &&& !is_shutdown && !near && pending == 0 ==> r is None
            &&& !is_shutdown && !near && 0 < pending < m@.config.max_batch_entries ==> {
                &&& strategy == FlushStrategy::End || waiting ==> r is None
                &&& strategy == FlushStrategy::Periodic && passed ==> r == Some(
                    FlushReason::Periodic,
                )
                &&& strategy == FlushStrategy::Continuous && passed ==> r == Some(
                    FlushReason::Continuous,
                )
                &&& strategy == FlushStrategy::Default && passed ==> r == (if m@.infrequent() {
                    None
                } else {
                    Some(FlushReason::Continuous)
                })
            }
        }),
{
}

/// At the end of an invocation a manager flushes what is pending with strategy `End`, and
/// by default where invocations are infrequent; with no other, and not while failures
/// make it flush continuously.
pub proof fn law_a_manager_flushes_at_the_end(
    m: FlushManager,
    pending: usize,
    r: Option<FlushReason>,
)
    requires
        call_ensures(FlushManager::should_flush_on_invocation_end, (&m, pending), r),
    ensures
        r == Some(FlushReason::InvocationEnd) <==> pending > 0 && m@.timeouts < 20 && (
        m@.config.strategy == FlushStrategy::End || (m@.config.strategy == FlushStrategy::Default
            && m@.infrequent())),
        r is Some ==> r == Some(FlushReason::InvocationEnd),
{
}

/// What a manager tells of itself is what was recorded.
pub proof fn law_a_manager_tells_what_was_recorded(
    m: FlushManager,
    now: Moment,
    strategy: FlushStrategy,
    left: Duration,
    failures: usize,
    invocations: usize,
    infrequent: bool,
    average: Option<Duration>,
)
    requires
        call_ensures(FlushManager::effective_strategy, (&m,), strategy),
        call_ensures(FlushManager::time_until_next_flush_at, (&m, now), left),
        call_ensures(FlushManager::consecutive_timeout_count, (&m,), failures),
        call_ensures(FlushManager::invocation_history_len, (&m,), invocations),
        call_ensures(FlushManager::is_infrequent_pattern, (&m,), infrequent),
        call_ensures(FlushManager::average_invocation_interval, (&m,), average),
    ensures
        m@.timeouts < 20 ==> strategy == m@.config.strategy,
        m@.timeouts >= 20 ==> strategy == FlushStrategy::Continuous,
        m@.last_flush is None ==> left@ == 0,
        m@.last_flush is Some && m@.last_flush->0@ <= now@ < m@.last_flush->0@
            + m@.config.interval@ ==> now@ + left@ == m@.last_flush->0@ + m@.config.interval@,
        m@.last_flush is Some && now@ >= m@.last_flush->0@ + m@.config.interval@ ==> left@ == 0,
        failures == m@.timeouts,
        invocations == m@.history.len(),
        infrequent == (m@.history.len() < 2 || average->0@ > 120_000_000_000),
        average is None <==> m@.history.len() < 2,
{
}

} // verus!
