//! Invocation completion tracking.
//!
//! The lifecycle handler holds the `/next` poll open until the invocation is
//! known to be complete, which keeps the execution environment thawed while
//! telemetry is exported. Completion is signalled by a handler wrapper or by the
//! `platform.runtimeDone` event; where neither comes in time, a deadline ends
//! the hold. After a hold has timed out, holding is disabled until a signal is
//! next seen within its invocation's window.
use crate::text;
use crate::text::equal;
use crate::time;
use crate::time::{Clock, Moment};
use std::collections::VecDeque;
use vstd::prelude::*;

verus! {

/// Maximum number of completed request IDs remembered for duplicate and
/// early-signal detection.
pub const RECENTLY_COMPLETED_CAPACITY: usize = 16;

/// The source that signalled invocation completion.
#[non_exhaustive]
#[derive(Debug, Clone, Copy, PartialEq, Eq, Structural)]
pub enum CompletionSource {
    /// A handler wrapper called `POST /invocation/complete`.
    Wrapper,
    /// The `platform.runtimeDone` telemetry event was processed.
    RuntimeDone,
}

/// The outcome of waiting for invocation completion.
#[non_exhaustive]
#[derive(Debug, Clone, Copy, PartialEq, Eq, Structural)]
pub enum CompletionOutcome {
    /// A completion signal arrived before the hold deadline.
    Completed(CompletionSource),
    /// No completion signal arrived before the hold deadline.
    DeadlineExpired,
}

/// A completion signal.
#[derive(Debug, Clone, Copy, PartialEq, Eq, Structural)]
pub struct Completion {
    /// Its source.
    pub source: CompletionSource,
    /// Whether it came within its invocation's window, or ahead of it.
    pub timely: bool,
}

/// An invocation that completed and was replaced, while some still wait for it.
#[derive(Debug, Clone, Copy, PartialEq, Eq, Structural)]
pub struct Finished {
    /// Its number.
    pub generation: u64,
    /// Its completion signal.
    pub completion: Completion,
    /// The number of waits for it that are not over.
    pub waits: u64,
}

/// The invocation in flight, as the contracts see it.
pub struct InvocationState {
    /// Its request ID.
    pub request_id: Seq<char>,
    /// The latest time until which its completion is waited for.
    pub hold_deadline: Moment,
    /// The signal of its completion, if one came.
    pub completed: Option<Completion>,
    /// The number of waits for it that are not over.
    pub waits: u64,
}

/// The tracker, as the contracts see it.
pub struct TrackerState {
    /// The invocation in flight.
    pub current: Option<InvocationState>,
    /// The number that tells this invocation from the ones before.
    pub generation: u64,
    /// The invocations before that completed and are still waited for.
    pub kept: Seq<Finished>,
    /// The request IDs that completed last, the oldest first.
    pub recent: Seq<(Seq<char>, Completion)>,
    /// The holds that timed out since a signal was last seen in time.
    pub hold_timeouts: nat,
}

/// Whether the request ID is among the remembered ones.
pub open spec fn remembers(recent: Seq<(Seq<char>, Completion)>, id: Seq<char>) -> bool {
    exists|i: int| 0 <= i < recent.len() && (#[trigger] recent[i]).0 == id
}

/// The completion that is remembered for a request ID.
pub open spec fn remembered(
    recent: Seq<(Seq<char>, Completion)>,
    id: Seq<char>,
) -> Option<Completion> {
    if remembers(recent, id) {
        Some(recent[choose|i: int| 0 <= i < recent.len() && (#[trigger] recent[i]).0 == id].1)
    } else {
        None
    }
}

/// No request ID is remembered twice.
pub open spec fn distinct_ids(recent: Seq<(Seq<char>, Completion)>) -> bool {
    forall|i: int, j: int|
        0 <= i < j < recent.len() ==> (#[trigger] recent[i]).0 != (#[trigger] recent[j]).0
}

/// The remembered IDs with one more. One that is known already changes nothing;
/// where the memory is full, the oldest is forgotten.
pub open spec fn remember(
    recent: Seq<(Seq<char>, Completion)>,
    id: Seq<char>,
    completion: Completion,
) -> Seq<(Seq<char>, Completion)> {
    if remembers(recent, id) {
        recent
    } else if recent.len() >= RECENTLY_COMPLETED_CAPACITY {
        recent.drop_first().push((id, completion))
    } else {
        recent.push((id, completion))
    }
}

/// The completion that is kept for the invocation with the given number.
pub open spec fn kept_completion(kept: Seq<Finished>, generation: u64) -> Option<Completion>
    decreases kept.len(),
{
    if kept.len() == 0 {
        None
    } else if kept.last().generation == generation {
        Some(kept.last().completion)
    } else {
        kept_completion(kept.drop_last(), generation)
    }
}

/// What is kept after a wait for the invocation with the given number was over. With
/// its last wait an invocation is forgotten.
pub open spec fn kept_after(kept: Seq<Finished>, generation: u64) -> Seq<Finished>
    decreases kept.len(),
{
    if kept.len() == 0 {
        kept
    } else if kept.last().generation == generation {
        if kept.last().waits > 1 {
            kept.drop_last().push(
                Finished { waits: (kept.last().waits - 1) as u64, ..kept.last() },
            )
        } else {
            kept.drop_last()
        }
    } else {
        kept_after(kept.drop_last(), generation).push(kept.last())
    }
}

impl TrackerState {
    /// The memory is bounded and holds no request ID twice.
    pub open spec fn wf(self) -> bool {
        &&& self.recent.len() <= RECENTLY_COMPLETED_CAPACITY
        &&& distinct_ids(self.recent)
    }

    /// Whether a signal is for the invocation in flight: it names that one, or
    /// none.
    pub open spec fn concerns_current(self, id: Option<Seq<char>>) -> bool {
        self.current is Some && (id is None || id->0 == self.current->0.request_id)
    }

    /// What is kept when the invocation in flight is replaced.
    pub open spec fn kept_by_begin(self) -> Seq<Finished> {
        if self.current is Some && self.current->0.completed is Some && self.current->0.waits > 0 {
            self.kept.push(
                Finished {
                    generation: self.generation,
                    completion: self.current->0.completed->0,
                    waits: self.current->0.waits,
                },
            )
        } else {
            self.kept
        }
    }

    /// The completion of the invocation with the given number, which is the one in
    /// flight or one before that is waited for.
    pub open spec fn completion_of(self, generation: u64) -> Option<Completion> {
        if self.current is Some && generation == self.generation {
            self.current->0.completed
        } else {
            kept_completion(self.kept, generation)
        }
    }

    /// The state after a wait for the invocation in flight has begun.
    pub open spec fn waited_for(self) -> TrackerState {
        match self.current {
            Some(current) => TrackerState {
                current: Some(
                    InvocationState {
                        waits: if current.waits < u64::MAX {
                            (current.waits + 1) as u64
                        } else {
                            u64::MAX
                        },
                        ..current
                    },
                ),
                ..self
            },
            None => self,
        }
    }

    /// The state after a wait for the invocation with the given number is over.
    pub open spec fn wait_over(self, generation: u64) -> TrackerState {
        if self.current is Some && generation == self.generation {
            let current = self.current->0;
            TrackerState {
                current: Some(
                    InvocationState {
                        waits: if current.waits > 0 {
                            (current.waits - 1) as u64
                        } else {
                            0
                        },
                        ..current
                    },
                ),
                ..self
            }
        } else {
            TrackerState { kept: kept_after(self.kept, generation), ..self }
        }
    }

    /// The state after an invocation has begun.
    pub open spec fn begin(self, id: Seq<char>, hold_deadline: Moment) -> TrackerState {
        TrackerState {
            current: Some(
                InvocationState {
                    request_id: id,
                    hold_deadline,
                    completed: remembered(self.recent, id),
                    waits: 0,
                },
            ),
            generation: if self.generation < u64::MAX {
                (self.generation + 1) as u64
            } else {
                0
            },
            kept: self.kept_by_begin(),
            ..self
        }
    }

    /// The state after a completion signal has come at `now`.
    pub open spec fn complete(
        self,
        id: Option<Seq<char>>,
        source: CompletionSource,
        now: Moment,
    ) -> TrackerState {
        if self.concerns_current(id) {
            let current = self.current->0;
            if current.completed is Some {
                self
            } else {
                let completion = Completion { source, timely: now@ < current.hold_deadline@ };
                TrackerState {
                    current: Some(InvocationState { completed: Some(completion), ..current }),
                    recent: remember(self.recent, current.request_id, completion),
                    hold_timeouts: if completion.timely {
                        0
                    } else {
                        self.hold_timeouts
                    },
                    ..self
                }
            }
        } else {
            match id {
                Some(id) => TrackerState {
                    recent: remember(self.recent, id, Completion { source, timely: true }),
                    ..self
                },
                None => self,
            }
        }
    }

    /// What waiting has come to at `now`, for whoever began to wait in the given
    /// generation; nothing yet, where the wait goes on. A completion counts also
    /// where another invocation has begun since.
    pub open spec fn wait_outcome(self, generation: u64, now: Moment) -> Option<
        CompletionOutcome,
    > {
        if self.completion_of(generation) is Some {
            Some(CompletionOutcome::Completed(self.completion_of(generation)->0.source))
        } else if self.current is None || generation != self.generation {
            Some(CompletionOutcome::DeadlineExpired)
        } else if now@ >= self.current->0.hold_deadline@ {
            Some(CompletionOutcome::DeadlineExpired)
        } else {
            None
        }
    }

    /// The state after the wait has been looked at: a completion that was timely
    /// restores holding, an expiry counts against it, and either ends the wait.
    pub open spec fn after_wait(self, generation: u64, now: Moment) -> TrackerState {
        if self.completion_of(generation) is Some {
            let seen = self.wait_over(generation);
            if self.completion_of(generation)->0.timely {
                TrackerState { hold_timeouts: 0, ..seen }
            } else {
                seen
            }
        } else if self.current is None || generation != self.generation {
            self
        } else if now@ >= self.current->0.hold_deadline@ {
            TrackerState {
                hold_timeouts: time::least(self.hold_timeouts + 1, u32::MAX as nat),
                ..self.wait_over(generation)
            }
        } else {
            self
        }
    }

    /// Whether `/next` should be held.
    pub open spec fn should_hold(self) -> bool {
        self.hold_timeouts == 0
    }
}

/// The invocation in flight.
#[derive(Debug)]
struct CurrentInvocation {
    request_id: String,
    hold_deadline: Moment,
    completed: Option<Completion>,
    waits: u64,
}

/// Tracks the in-flight invocation and its completion signals.
///
/// Lambda guarantees a single in-flight invocation per execution environment, so
/// the tracker holds one current invocation plus a small memory of recently
/// completed request IDs, to absorb signals that race ahead of the INVOKE event
/// or arrive twice. What completed and was replaced is kept as long as someone waits
/// for it.
#[derive(Debug)]
pub struct CompletionTracker {
    clock: Clock,
    current: Option<CurrentInvocation>,
    generation: u64,
    kept: Vec<Finished>,
    recently_completed: VecDeque<(String, Completion)>,
    consecutive_hold_timeouts: u32,
}

/// An entry of the memory, as the contracts see it.
pub open spec fn entry_view(e: (String, Completion)) -> (Seq<char>, Completion) {
    (e.0@, e.1)
}

impl View for CompletionTracker {
    type V = TrackerState;

    closed spec fn view(&self) -> TrackerState {
        TrackerState {
            current: match self.current {
                Some(c) => Some(
                    InvocationState {
                        request_id: c.request_id@,
                        hold_deadline: c.hold_deadline,
                        completed: c.completed,
                        waits: c.waits,
                    },
                ),
                None => None,
            },
            generation: self.generation,
            kept: self.kept@,
            recent: self.recently_completed@.map_values(
                |e: (String, Completion)| entry_view(e),
            ),
            hold_timeouts: self.consecutive_hold_timeouts as nat,
        }
    }
}

impl CompletionTracker {
    /// The clock that hold deadlines are set on.
    pub closed spec fn clock(&self) -> Clock {
        self.clock
    }

    /// Creates a new tracker with no invocation in flight.
    pub fn new() -> (t: Self)
        ensures
            t@.wf(),
            t@ == (TrackerState {
                current: None,
                generation: 0,
                kept: Seq::empty(),
                recent: Seq::empty(),
                hold_timeouts: 0,
            }),
            t.clock().may_be_started(),
    {
        CompletionTracker::with_clock(Clock::start())
    }

    /// Creates a new tracker that reads the given clock.
    pub fn with_clock(clock: Clock) -> (t: Self)
        ensures
            t@.wf(),
            t@ == (TrackerState {
                current: None,
                generation: 0,
                kept: Seq::empty(),
                recent: Seq::empty(),
                hold_timeouts: 0,
            }),
            t.clock() == clock,
    {
        let t = CompletionTracker {
            clock,
            current: None,
            generation: 0,
            kept: Vec::new(),
            recently_completed: VecDeque::new(),
            consecutive_hold_timeouts: 0,
        };
        assert(t@.recent =~= Seq::empty());
        assert(t@.kept =~= Seq::empty());
        t
    }

    /// Reads the clock that hold deadlines are set on.
    pub fn now(&self) -> (now: Moment)
        ensures
            self.clock().may_show(now),
    {
        self.clock.now()
    }

    /// The completion that is remembered for a request ID.
    fn find(&self, id: &str) -> (r: Option<Completion>)
        requires
            self@.wf(),
        ensures
            r == remembered(self@.recent, id@),
    {
        let mut i: usize = 0;
        while i < self.recently_completed.len()
            invariant
                self@.wf(),
                i <= self.recently_completed@.len(),
                forall|j: int| 0 <= j < i ==> (#[trigger] self@.recent[j]).0 != id@,
            decreases self.recently_completed@.len() - i,
        {
            let ghost recent = self@.recent;
            assert(recent[i as int] == entry_view(self.recently_completed@[i as int]));
            if equal(self.recently_completed[i].0.as_str(), id) {
                proof {
                    let j = choose|j: int| 0 <= j < recent.len() && (#[trigger] recent[j]).0 == id@;
                    if i < j {
                        assert(recent[i as int].0 != recent[j].0);
                    } else if j < i {
                        assert(recent[j].0 != recent[i as int].0);
                    }
                }
                return Some(self.recently_completed[i].1);
            }
            i = i + 1;
        }
        None
    }

    /// Remembers a completed request ID.
    fn remember_completed(&mut self, request_id: String, completion: Completion)
        requires
            old(self)@.wf(),
        ensures
            final(self)@.wf(),
            final(self).clock() == old(self).clock(),
            final(self)@ == (TrackerState {
                recent: remember(old(self)@.recent, request_id@, completion),
                ..old(self)@
            }),
    {
        let ghost before = self@.recent;
        if self.find(request_id.as_str()).is_some() {
            return;
        }
        if self.recently_completed.len() >= RECENTLY_COMPLETED_CAPACITY {
            self.recently_completed.pop_front();
            proof {
                assert(self@.recent =~= before.drop_first());
            }
        }
        let ghost kept = self@.recent;
        self.recently_completed.push_back((request_id, completion));
        proof {
            assert(self@.recent =~= kept.push((request_id@, completion)));
            lemma_remember(before, request_id@, completion);
        }
    }

    /// Keeps the completion of the invocation in flight for those who wait for it.
    fn keep_finished(&mut self)
        ensures
            final(self)@ == (TrackerState { kept: old(self)@.kept_by_begin(), ..old(self)@ }),
            final(self).clock() == old(self).clock(),
    {
        if let Some(current) = &self.current {
            if let Some(completion) = current.completed {
                if current.waits > 0 {
                    self.kept.push(
                        Finished {
                            generation: self.generation,
                            completion,
                            waits: current.waits,
                        },
                    );
                }
            }
        }
    }

    /// Where the completion of the invocation with the given number is kept; the
    /// number of all that are kept, where it is not.
    fn kept_position(&self, generation: u64) -> (i: usize)
        ensures
            i <= self@.kept.len(),
            i < self@.kept.len() ==> self@.kept[i as int].generation == generation && forall|j: int|
                i < j < self@.kept.len() ==> (#[trigger] self@.kept[j]).generation != generation,
            i == self@.kept.len() ==> forall|j: int|
                0 <= j < self@.kept.len() ==> (#[trigger] self@.kept[j]).generation != generation,
    {
        let mut i: usize = self.kept.len();
        while i > 0
            invariant
                i <= self@.kept.len(),
                self@.kept == self.kept@,
                forall|j: int|
                    i <= j < self@.kept.len() ==> (#[trigger] self@.kept[j]).generation
                        != generation,
            decreases i,
        {
            if self.kept[i - 1].generation == generation {
                return i - 1;
            }
            i = i - 1;
        }
        self.kept.len()
    }

    /// The completion of the invocation with the given number, which is the one in
    /// flight or one before that is waited for.
    fn find_completion(&self, generation: u64) -> (r: Option<Completion>)
        ensures
            r == self@.completion_of(generation),
    {
        if let Some(current) = &self.current {
            if generation == self.generation {
                return current.completed;
            }
        }
        let i: usize = self.kept_position(generation);
        proof {
            lemma_kept(self@.kept, generation, i as int);
        }
        if i < self.kept.len() {
            Some(self.kept[i].completion)
        } else {
            None
        }
    }

    /// Ends a wait for the invocation with the given number.
    fn end_wait(&mut self, generation: u64)
        ensures
            final(self)@ == old(self)@.wait_over(generation),
            final(self).clock() == old(self).clock(),
    {
        if generation == self.generation {
            if let Some(current) = self.current.take() {
                let waits: u64 = if current.waits > 0 {
                    current.waits - 1
                } else {
                    0
                };
                self.current = Some(CurrentInvocation { waits, ..current });
                return;
            }
        }
        let i: usize = self.kept_position(generation);
        proof {
            lemma_kept(self@.kept, generation, i as int);
        }
        if i < self.kept.len() {
            let finished = self.kept[i];
            if finished.waits > 1 {
                self.kept.set(i, Finished { waits: finished.waits - 1, ..finished });
            } else {
                self.kept.remove(i);
            }
        }
    }

    /// Begins tracking an invocation.
    ///
    /// `hold_deadline` is the latest time the caller is prepared to wait for
    /// completion; it also tells whether later signals came within their
    /// invocation's window. If a completion signal for this request ID already
    /// arrived, the invocation starts already complete.
    pub fn begin(&mut self, request_id: &str, hold_deadline: Moment)
        requires
            old(self)@.wf(),
        ensures
            final(self)@.wf(),
            final(self).clock() == old(self).clock(),
            final(self)@ == old(self)@.begin(request_id@, hold_deadline),
    {
        let completed = self.find(request_id);
        self.keep_finished();
        self.current = Some(
            CurrentInvocation {
                request_id: request_id.to_owned(),
                hold_deadline,
                completed,
                waits: 0,
            },
        );
        self.generation = if self.generation < u64::MAX {
            self.generation + 1
        } else {
            0
        };
    }

    /// Records a completion signal.
    ///
    /// A signal without a request ID completes the current invocation. A request
    /// ID that matches neither the current invocation nor a recently completed
    /// one is remembered, so that a later [`begin`](Self::begin) for it starts
    /// already complete. Duplicate signals change nothing; the first source wins.
    pub fn complete(&mut self, request_id: Option<&str>, source: CompletionSource)
        requires
            old(self)@.wf(),
        ensures
            final(self)@.wf(),
            final(self).clock() == old(self).clock(),
            exists|now: Moment|
                old(self).clock().may_show(now) && final(self)@ == #[trigger] old(self)@.complete(
                    text::opt_str_view(request_id),
                    source,
                    now,
                ),
    {
        let now = self.clock.now();
        self.complete_at(request_id, source, now);
    }

    /// Records a completion signal that came at the given time.
    pub fn complete_at(
        &mut self,
        request_id: Option<&str>,
        source: CompletionSource,
        now: Moment,
    )
        requires
            old(self)@.wf(),
        ensures
            final(self)@.wf(),
            final(self).clock() == old(self).clock(),
            final(self)@ == old(self)@.complete(text::opt_str_view(request_id), source, now),
    {
        let concerned: Option<(String, Moment, Option<Completion>, u64)> = match &self.current {
            Some(current) => {
                let matches_current = match request_id {
                    None => true,
                    Some(id) => equal(current.request_id.as_str(), id),
                };
                if matches_current {
                    Some(
                        (
                            current.request_id.clone(),
                            current.hold_deadline,
                            current.completed,
                            current.waits,
                        ),
                    )
                } else {
                    None
                }
            },
            None => None,
        };
        match concerned {
            Some((id, hold_deadline, completed, waits)) => {
                if completed.is_some() {
                    return;
                }
                let completion = Completion { source, timely: !hold_deadline.reached(now) };
                self.current = Some(
                    CurrentInvocation {
                        request_id: id.clone(),
                        hold_deadline,
                        completed: Some(completion),
                        waits,
                    },
                );
                if completion.timely {
                    self.consecutive_hold_timeouts = 0;
                }
                self.remember_completed(id, completion);
            },
            None => {
                if let Some(id) = request_id {
                    self.remember_completed(id.to_owned(), Completion { source, timely: true });
                }
            },
        }
    }

    /// The time until which the completion of the invocation in flight is waited for.
    pub fn hold_until(&self) -> (r: Option<Moment>)
        ensures
            r == (match self@.current {
                Some(current) => Some(current.hold_deadline),
                None => None,
            }),
    {
        match &self.current {
            Some(current) => Some(current.hold_deadline),
            None => None,
        }
    }

    /// Begins to wait for the invocation in flight. Gives the number to pass to
    /// [`poll_completion`](Self::poll_completion), which ends the wait when it comes
    /// to an outcome, and the time until which the wait may last; nothing where no
    /// invocation is tracked.
    pub fn start_wait(&mut self) -> (r: Option<(u64, Moment)>)
        requires
            old(self)@.wf(),
        ensures
            final(self)@.wf(),
            final(self).clock() == old(self).clock(),
            final(self)@ == old(self)@.waited_for(),
            r == (match old(self)@.current {
                Some(current) => Some((old(self)@.generation, current.hold_deadline)),
                None => None,
            }),
    {
        match self.current.take() {
            Some(current) => {
                let hold_deadline = current.hold_deadline;
                let waits: u64 = if current.waits < u64::MAX {
                    current.waits + 1
                } else {
                    u64::MAX
                };
                self.current = Some(CurrentInvocation { waits, ..current });
                Some((self.generation, hold_deadline))
            },
            None => None,
        }
    }

    /// Looks whether the current invocation has completed or its hold deadline
    /// has expired.
    ///
    /// Comes to an outcome at once where the invocation is complete, where it was
    /// replaced by another since the wait began, and where no invocation is
    /// tracked. An invocation that completed before it was replaced is complete for
    /// whoever waits for it. An expiry is recorded against signal health (see
    /// [`should_hold`](Self::should_hold)), but not that of an invocation that was
    /// replaced.
    pub fn poll_completion(&mut self, generation: u64, now: Moment) -> (r: Option<
        CompletionOutcome,
    >)
        requires
            old(self)@.wf(),
        ensures
            final(self)@.wf(),
            r == old(self)@.wait_outcome(generation, now),
            final(self).clock() == old(self).clock(),
            final(self)@ == old(self)@.after_wait(generation, now),
    {
        let finished = self.find_completion(generation);
        if let Some(completion) = finished {
            self.end_wait(generation);
            if completion.timely {
                self.consecutive_hold_timeouts = 0;
            }
            return Some(CompletionOutcome::Completed(completion.source));
        }
        let hold_deadline = match &self.current {
            Some(current) => current.hold_deadline,
            None => {
                return Some(CompletionOutcome::DeadlineExpired);
            },
        };
        if generation != self.generation {
            return Some(CompletionOutcome::DeadlineExpired);
        }
        if hold_deadline.reached(now) {
            self.end_wait(generation);
            if self.consecutive_hold_timeouts < u32::MAX {
                self.consecutive_hold_timeouts = self.consecutive_hold_timeouts + 1;
            }
            Some(CompletionOutcome::DeadlineExpired)
        } else {
            None
        }
    }

    /// Returns whether the lifecycle handler should hold `/next` waiting for
    /// completion signals.
    ///
    /// Holding is disabled after a hold deadline expires and enabled again once a
    /// completion signal is seen within its invocation's window, so degraded
    /// environments pay the hold cost at most once.
    pub fn should_hold(&self) -> (r: bool)
        ensures
            r == self@.should_hold(),
    {
        self.consecutive_hold_timeouts == 0
    }

    /// The number of request IDs that are remembered.
    pub fn recently_completed_len(&self) -> (n: usize)
        ensures
            n == self@.recent.len(),
    {
        self.recently_completed.len()
    }
}

impl Default for CompletionTracker {
    fn default() -> (t: Self)
        ensures
            t@.wf(),
            t@ == (TrackerState {
                current: None,
                generation: 0,
                kept: Seq::empty(),
                recent: Seq::empty(),
                hold_timeouts: 0,
            }),
            t.clock().may_be_started(),
    {
        CompletionTracker::new()
    }
}

/// What is kept for a number is its last entry, and the end of a wait changes that
/// entry alone.
proof fn lemma_kept(kept: Seq<Finished>, generation: u64, i: int)
    requires
        0 <= i <= kept.len(),
        i < kept.len() ==> kept[i].generation == generation && forall|j: int|
            i < j < kept.len() ==> (#[trigger] kept[j]).generation != generation,
        i == kept.len() ==> forall|j: int|
            0 <= j < kept.len() ==> (#[trigger] kept[j]).generation != generation,
    ensures
        kept_completion(kept, generation) == (if i < kept.len() {
            Some(kept[i].completion)
        } else {
            None
        }),
        kept_after(kept, generation) == (if i == kept.len() {
            kept
        } else if kept[i].waits > 1 {
            kept.update(i, Finished { waits: (kept[i].waits - 1) as u64, ..kept[i] })
        } else {
            kept.remove(i)
        }),
    decreases kept.len(),
{
    if kept.len() > 0 {
        let front = kept.drop_last();
        if i == kept.len() - 1 {
            assert(kept.remove(i) =~= front);
            assert(front.push(Finished { waits: (kept[i].waits - 1) as u64, ..kept[i] })
                =~= kept.update(i, Finished { waits: (kept[i].waits - 1) as u64, ..kept[i] }));
        } else {
            let k = if i == kept.len() {
                front.len() as int
            } else {
                i
            };
            assert forall|j: int| 0 <= j < front.len() implies #[trigger] front[j] == kept[j] by {}
            lemma_kept(front, generation, k);
            assert(front.push(kept.last()) =~= kept);
            if i < kept.len() {
                assert(front.remove(i).push(kept.last()) =~= kept.remove(i));
                let changed = Finished { waits: (kept[i].waits - 1) as u64, ..kept[i] };
                assert(front.update(i, changed).push(kept.last()) =~= kept.update(i, changed));
            }
        }
    }
}

/// The memory stays bounded and without duplicates, and knows a request ID that
/// it was told.
pub proof fn lemma_remember(
    recent: Seq<(Seq<char>, Completion)>,
    id: Seq<char>,
    completion: Completion,
)
    requires
        recent.len() <= RECENTLY_COMPLETED_CAPACITY,
        distinct_ids(recent),
    ensures
        remember(recent, id, completion).len() <= RECENTLY_COMPLETED_CAPACITY,
        distinct_ids(remember(recent, id, completion)),
        remembers(remember(recent, id, completion), id),
        !remembers(recent, id) ==> remembered(remember(recent, id, completion), id) == Some(
            completion,
        ),
        remembers(recent, id) ==> remembered(remember(recent, id, completion), id)
            == remembered(recent, id),
{
    if !remembers(recent, id) {
        let after = remember(recent, id, completion);
        let kept = after.drop_last();
        assert(after.last() == (id, completion));
        assert forall|i: int| 0 <= i < kept.len() implies (#[trigger] after[i]).0 != id by {
            if recent.len() >= RECENTLY_COMPLETED_CAPACITY {
                assert(after[i] == recent[i + 1]);
            } else {
                assert(after[i] == recent[i]);
            }
        }
        assert forall|i: int, j: int| 0 <= i < j < after.len() implies (#[trigger] after[i]).0 != (
        #[trigger] after[j]).0 by {
            if j < kept.len() {
                if recent.len() >= RECENTLY_COMPLETED_CAPACITY {
                    assert(after[i] == recent[i + 1] && after[j] == recent[j + 1]);
                } else {
                    assert(after[i] == recent[i] && after[j] == recent[j]);
                }
            }
        }
        assert(after[after.len() - 1].0 == id);
    }
}

/// A completion signal that comes twice changes nothing the second time, whatever
/// its source: the first source wins.
pub proof fn law_duplicate_signals_are_idempotent(
    s: TrackerState,
    id: Option<Seq<char>>,
    first: CompletionSource,
    second: CompletionSource,
    t1: Moment,
    t2: Moment,
)
    requires
        s.wf(),
    ensures
        s.complete(id, first, t1).complete(id, second, t2) == s.complete(id, first, t1),
{
    if id is Some {
        lemma_remember(s.recent, id->0, Completion { source: first, timely: true });
    }
}

/// A signal that comes ahead of its invocation's INVOKE event is not lost: the
/// invocation starts complete, by the source that signalled first.
pub proof fn law_early_signal_completes_at_begin(
    s: TrackerState,
    id: Seq<char>,
    source: CompletionSource,
    now: Moment,
    hold_deadline: Moment,
)
    requires
        s.wf(),
        !s.concerns_current(Some(id)),
    ensures
        ({
            let begun = s.complete(Some(id), source, now).begin(id, hold_deadline);
            &&& begun.current->0.completed == (if remembers(s.recent, id) {
                remembered(s.recent, id)
            } else {
                Some(Completion { source, timely: true })
            })
            &&& begun.current->0.completed is Some
        }),
{
    lemma_remember(s.recent, id, Completion { source, timely: true });
}

/// A signal without a request ID completes the invocation in flight.
pub proof fn law_signal_without_id_completes_current(
    s: TrackerState,
    source: CompletionSource,
    now: Moment,
)
    requires
        s.current is Some,
        s.current->0.completed is None,
    ensures
        s.complete(None, source, now).current->0.completed is Some,
        s.complete(None, source, now).current->0.completed->0.source == source,
{
}

/// A signal for another request leaves the invocation in flight as it is.
pub proof fn law_other_signal_leaves_current(
    s: TrackerState,
    id: Seq<char>,
    source: CompletionSource,
    now: Moment,
)
    requires
        s.current is Some,
        id != s.current->0.request_id,
    ensures
        s.complete(Some(id), source, now).current == s.current,
        s.complete(Some(id), source, now).hold_timeouts == s.hold_timeouts,
{
}

/// Holding is paid for at most once: an expired wait disables it.
pub proof fn law_expiry_disables_holding(s: TrackerState, now: Moment)
    requires
        s.current is Some,
        s.current->0.completed is None,
        now@ >= s.current->0.hold_deadline@,
    ensures
        s.wait_outcome(s.generation, now) == Some(CompletionOutcome::DeadlineExpired),
        !s.after_wait(s.generation, now).should_hold(),
{
}

/// A signal within its invocation's window restores holding.
pub proof fn law_timely_signal_restores_holding(
    s: TrackerState,
    source: CompletionSource,
    now: Moment,
)
    requires
        s.current is Some,
        s.current->0.completed is None,
        now@ < s.current->0.hold_deadline@,
    ensures
        s.complete(Some(s.current->0.request_id), source, now).should_hold(),
{
}

/// A signal after its invocation's window does not restore holding, neither when it
/// comes nor when a wait sees it.
pub proof fn law_late_signal_does_not_restore_holding(
    s: TrackerState,
    id: Option<Seq<char>>,
    source: CompletionSource,
    now: Moment,
    seen: Moment,
)
    requires
        s.current is Some,
        s.current->0.completed is None,
        s.concerns_current(id),
        now@ >= s.current->0.hold_deadline@,
        !s.should_hold(),
    ensures
        !s.complete(id, source, now).should_hold(),
        !s.complete(id, source, now).after_wait(s.generation, seen).should_hold(),
{
}

/// Only a timely completion restores holding: no wait does so by itself.
pub proof fn law_only_timely_completions_restore_holding(
    s: TrackerState,
    generation: u64,
    now: Moment,
)
    requires
        !s.should_hold(),
        s.after_wait(generation, now).should_hold(),
    ensures
        s.completion_of(generation) is Some,
        s.completion_of(generation)->0.timely,
{
}

/// Whoever waits for an invocation that another one has replaced before it completed
/// is released at once, and nothing is held against signal health.
pub proof fn law_replaced_wait_is_not_penalised(
    s: TrackerState,
    id: Seq<char>,
    hold_deadline: Moment,
    now: Moment,
)
    requires
        s.current is Some,
        s.current->0.completed is None,
        kept_completion(s.kept, s.generation) is None,
    ensures
        ({
            let begun = s.begin(id, hold_deadline);
            &&& begun.wait_outcome(s.generation, now) == Some(CompletionOutcome::DeadlineExpired)
            &&& begun.after_wait(s.generation, now) == begun
        }),
{
}

/// The state after some more invocations have begun.
pub open spec fn after_begins(s: TrackerState, begun: Seq<(Seq<char>, Moment)>) -> TrackerState
    decreases begun.len(),
{
    if begun.len() == 0 {
        s
    } else {
        after_begins(s, begun.drop_last()).begin(begun.last().0, begun.last().1)
    }
}

/// A completion is kept for those who wait for it: however many invocations begin
/// since (short of their numbers running out), the wait ends in it.
pub proof fn law_a_completion_is_kept_for_its_waits(
    s: TrackerState,
    begun: Seq<(Seq<char>, Moment)>,
    now: Moment,
)
    requires
        s.current is Some,
        s.current->0.completed is Some,
        s.current->0.waits > 0,
        s.generation + begun.len() <= u64::MAX,
    ensures
        after_begins(s, begun).completion_of(s.generation) == s.current->0.completed,
        after_begins(s, begun).wait_outcome(s.generation, now) == Some(
            CompletionOutcome::Completed(s.current->0.completed->0.source),
        ),
        after_begins(s, begun).generation == s.generation + begun.len(),
        after_begins(s, begun).current is Some,
    decreases begun.len(),
{
    if begun.len() > 0 {
        let front = after_begins(s, begun.drop_last());
        law_a_completion_is_kept_for_its_waits(s, begun.drop_last(), now);
        let kept = front.kept_by_begin();
        if kept.len() > front.kept.len() {
            assert(kept.drop_last() =~= front.kept);
        }
    }
}

/// A signal that names the invocation in flight completes it, and it alone: by its source,
/// in time where it came before the hold deadline. It leaves everything else of the
/// invocation as it is, and the request ID is remembered.
pub proof fn law_a_named_signal_completes_its_invocation(
    s: TrackerState,
    source: CompletionSource,
    now: Moment,
)
    requires
        s.wf(),
        s.current is Some,
        s.current->0.completed is None,
    ensures
        ({
            let id = s.current->0.request_id;
            let after = s.complete(Some(id), source, now);
            &&& after.current is Some
            &&& after.current->0.completed is Some
            &&& after.current->0.completed->0.source == source
            &&& after.current->0.completed->0.timely == (now@ < s.current->0.hold_deadline@)
            &&& after.current->0.request_id == id
            &&& after.current->0.hold_deadline == s.current->0.hold_deadline
            &&& after.current->0.waits == s.current->0.waits
            &&& after.generation == s.generation
            &&& after.kept == s.kept
            &&& exists|i: int| 0 <= i < after.recent.len() && (#[trigger] after.recent[i]).0 == id
            &&& after.hold_timeouts == (if now@ < s.current->0.hold_deadline@ {
                0
            } else {
                s.hold_timeouts
            })
            &&& s.complete(None, source, now) == after
        }),
{
    let completion = Completion { source, timely: now@ < s.current->0.hold_deadline@ };
    lemma_remember(s.recent, s.current->0.request_id, completion);
    let after = s.complete(Some(s.current->0.request_id), source, now);
    assert(remembers(after.recent, s.current->0.request_id));
}

/// A wait goes on as long as no signal has come and the deadline has not; a signal ends it
/// at once, also after the deadline.
pub proof fn law_a_wait_ends_by_signal_or_deadline(s: TrackerState, now: Moment)
    requires
        s.current is Some,
    ensures
        s.current->0.completed is None && now@ < s.current->0.hold_deadline@ ==> s.wait_outcome(
            s.generation,
            now,
        ) is None && s.after_wait(s.generation, now) == s,
        s.current->0.completed is None && now@ >= s.current->0.hold_deadline@ ==> s.wait_outcome(
            s.generation,
            now,
        ) == Some(CompletionOutcome::DeadlineExpired),
        s.current->0.completed is Some ==> s.wait_outcome(s.generation, now) == Some(
            CompletionOutcome::Completed(s.current->0.completed->0.source),
        ),
{
}

/// An expired wait counts one against holding, and a completed one none: a timely
/// completion clears the count. Nothing else of the invocation changes but the wait.
pub proof fn law_waits_keep_the_count(s: TrackerState, now: Moment)
    requires
        s.current is Some,
    ensures
        ({
            let after = s.after_wait(s.generation, now);
            &&& s.current->0.completed is None && now@ >= s.current->0.hold_deadline@
                && s.hold_timeouts < u32::MAX ==> after.hold_timeouts == s.hold_timeouts + 1
            &&& s.current->0.completed is Some && s.current->0.completed->0.timely
                ==> after.hold_timeouts == 0
            &&& s.current->0.completed is Some && !s.current->0.completed->0.timely
                ==> after.hold_timeouts == s.hold_timeouts
            &&& after.recent == s.recent
            &&& after.generation == s.generation
            &&& after.kept == s.kept
            &&& after.current is Some
            &&& after.current->0.completed == s.current->0.completed
            &&& after.current->0.request_id == s.current->0.request_id
            &&& after.current->0.hold_deadline == s.current->0.hold_deadline
            &&& after.should_hold() == (after.hold_timeouts == 0)
        }),
{
}

/// A wait with nothing in flight, or for an invocation that nothing is known of, is over
/// at once and counts for nothing.
pub proof fn law_a_wait_for_nothing_is_over(s: TrackerState, generation: u64, now: Moment)
    requires
        s.current is None || generation != s.generation,
        forall|i: int| 0 <= i < s.kept.len() ==> (#[trigger] s.kept[i]).generation != generation,
    ensures
        s.wait_outcome(generation, now) == Some(CompletionOutcome::DeadlineExpired),
        s.after_wait(generation, now) == s,
{
    lemma_kept(s.kept, generation, s.kept.len() as int);
}

/// An invocation begins under its own request ID and deadline, with a number of its own
/// and nobody waiting; it is complete exactly where its ID is remembered. Neither what is
/// remembered nor the signal health changes.
pub proof fn law_beginning_replaces_the_invocation(
    s: TrackerState,
    id: Seq<char>,
    hold_deadline: Moment,
)
    ensures
        ({
            let after = s.begin(id, hold_deadline);
            &&& after.current is Some
            &&& after.current->0.request_id == id
            &&& after.current->0.hold_deadline == hold_deadline
            &&& after.current->0.waits == 0
            &&& after.current->0.completed is Some <==> exists|i: int|
                0 <= i < s.recent.len() && (#[trigger] s.recent[i]).0 == id
            &&& after.generation != s.generation
            &&& s.generation < u64::MAX ==> after.generation == s.generation + 1
            &&& after.recent == s.recent
            &&& after.hold_timeouts == s.hold_timeouts
            &&& after.should_hold() == s.should_hold()
        }),
{
}

/// A begun invocation that is remembered is complete by what is remembered of it.
pub proof fn law_a_remembered_invocation_is_complete(
    s: TrackerState,
    i: int,
    hold_deadline: Moment,
    now: Moment,
)
    requires
        s.wf(),
        0 <= i < s.recent.len(),
    ensures
        ({
            let after = s.begin(s.recent[i].0, hold_deadline);
            &&& after.current->0.completed == Some(s.recent[i].1)
            &&& after.wait_outcome(after.generation, now) == Some(
                CompletionOutcome::Completed(s.recent[i].1.source),
            )
        }),
{
    let id = s.recent[i].0;
    let k = choose|k: int| 0 <= k < s.recent.len() && (#[trigger] s.recent[k]).0 == id;
    if k < i {
        assert(s.recent[k].0 != s.recent[i].0);
    } else if i < k {
        assert(s.recent[i].0 != s.recent[k].0);
    }
}

/// The last sixteen request IDs are remembered: a new one comes last, and only where there
/// are sixteen does one leave, the oldest.
pub proof fn law_sixteen_completions_are_remembered(
    recent: Seq<(Seq<char>, Completion)>,
    id: Seq<char>,
    completion: Completion,
)
    requires
        recent.len() <= 16,
        forall|i: int| 0 <= i < recent.len() ==> (#[trigger] recent[i]).0 != id,
    ensures
        ({
            let after = remember(recent, id, completion);
            &&& after.last() == (id, completion)
            &&& recent.len() < 16 ==> after.drop_last() == recent
            &&& recent.len() == 16 ==> after.drop_last() == recent.subrange(1, 16)
            &&& after.len() <= 16
        }),
{
    let after = remember(recent, id, completion);
    if recent.len() < 16 {
        assert(after.drop_last() =~= recent);
    } else {
        assert(after.drop_last() =~= recent.subrange(1, 16));
    }
}

/// A signal without a request ID means nothing where nothing is in flight; one with an ID
/// that is not in flight is remembered, as one ahead of its invocation, and in time.
pub proof fn law_signals_for_nothing_in_flight(
    s: TrackerState,
    id: Seq<char>,
    source: CompletionSource,
    now: Moment,
)
    requires
        s.wf(),
    ensures
        s.current is None ==> s.complete(None, source, now) == s,
        !(s.current is Some && s.current->0.request_id == id) && (forall|i: int|
            0 <= i < s.recent.len() ==> (#[trigger] s.recent[i]).0 != id) ==> ({
            let after = s.complete(Some(id), source, now);
            &&& after.recent.last() == (id, Completion { source, timely: true })
            &&& after.current == s.current
            &&& after.hold_timeouts == s.hold_timeouts
            &&& after.generation == s.generation
            &&& after.kept == s.kept
        }),
{
}

/// Beginning to wait adds one to those who wait, and ending a wait takes one away; neither
/// touches anything else.
pub proof fn law_waits_are_counted(s: TrackerState)
    requires
        s.current is Some,
        s.current->0.waits < u64::MAX,
    ensures
        s.waited_for().current is Some,
        s.waited_for().current->0.waits == s.current->0.waits + 1,
        s.waited_for().wait_over(s.generation) == s,
        s.waited_for().current->0.completed == s.current->0.completed,
        s.waited_for().current->0.request_id == s.current->0.request_id,
        s.waited_for().current->0.hold_deadline == s.current->0.hold_deadline,
        s.waited_for().generation == s.generation,
        s.waited_for().recent == s.recent,
        s.waited_for().kept == s.kept,
        s.waited_for().hold_timeouts == s.hold_timeouts,
{
}

/// A kept completion is there for as many waits as wait for it, and for no more.
pub proof fn law_a_kept_completion_serves_each_wait(kept: Seq<Finished>, f: Finished, other: u64)
    requires
        forall|i: int| 0 <= i < kept.len() ==> (#[trigger] kept[i]).generation != f.generation,
        other != f.generation,
    ensures
        kept_completion(kept.push(f), f.generation) == Some(f.completion),
        f.waits > 1 ==> kept_after(kept.push(f), f.generation) == kept.push(
            Finished { waits: (f.waits - 1) as u64, ..f },
        ),
        f.waits <= 1 ==> kept_after(kept.push(f), f.generation) == kept,
        kept_completion(kept.push(f), other) == kept_completion(kept, other),
{
    assert(kept.push(f).drop_last() =~= kept);
}

/// A signal that is recorded for the invocation in flight completes it, whether it names it
/// or names none; one for another leaves it as it is.
pub proof fn law_a_recorded_signal_completes_the_invocation(
    t: &mut CompletionTracker,
    request_id: Option<&str>,
    source: CompletionSource,
    now: Moment,
)
    requires
        call_ensures(CompletionTracker::complete_at, (t, request_id, source, now), ()),
        old(t)@.current is Some,
        old(t)@.current->0.completed is None,
    ensures
        final(t)@.current is Some,
        final(t)@.current->0.request_id == old(t)@.current->0.request_id,
        final(t)@.generation == old(t)@.generation,
        request_id is None || request_id->0@ == old(t)@.current->0.request_id ==> {
            &&& final(t)@.current->0.completed is Some
            &&& final(t)@.current->0.completed->0.source == source
            &&& final(t)@.current->0.completed->0.timely == (now@
                < old(t)@.current->0.hold_deadline@)
        },
        request_id is Some && request_id->0@ != old(t)@.current->0.request_id
            ==> final(t)@.current == old(t)@.current,
{
}

/// What a wait comes to: the source of the completion as soon as there is one, an expiry at
/// the deadline, which disables holding, and nothing before.
pub proof fn law_a_poll_tells_how_the_wait_stands(
    t: &mut CompletionTracker,
    now: Moment,
    r: Option<CompletionOutcome>,
)
    requires
        old(t)@.current is Some,
        call_ensures(CompletionTracker::poll_completion, (t, old(t)@.generation, now), r),
    ensures
        old(t)@.current->0.completed is Some ==> r == Some(
            CompletionOutcome::Completed(old(t)@.current->0.completed->0.source),
        ),
        old(t)@.current->0.completed is None && now@ < old(t)@.current->0.hold_deadline@
            ==> r is None && final(t)@ == old(t)@,
        old(t)@.current->0.completed is None && now@ >= old(t)@.current->0.hold_deadline@ ==> r
            == Some(CompletionOutcome::DeadlineExpired) && final(t)@.hold_timeouts > 0,
        old(t)@.current->0.completed is Some && old(t)@.current->0.completed->0.timely
            ==> final(t)@.hold_timeouts == 0,
{
}

/// An invocation that begins is the one in flight, and a wait is for it, until its hold
/// deadline.
pub proof fn law_a_wait_is_for_the_invocation_in_flight(
    t: &mut CompletionTracker,
    u: &mut CompletionTracker,
    request_id: &str,
    hold_deadline: Moment,
    r: Option<(u64, Moment)>,
)
    requires
        call_ensures(CompletionTracker::begin, (t, request_id, hold_deadline), ()),
        call_ensures(CompletionTracker::start_wait, (u,), r),
        *old(u) == *final(t),
    ensures
        final(t)@.current is Some,
        final(t)@.current->0.request_id == request_id@,
        final(t)@.hold_timeouts == old(t)@.hold_timeouts,
        r == Some((final(u)@.generation, hold_deadline)),
        final(u)@.current is Some,
        final(u)@.current->0.waits == 1,
        final(u)@.current->0.request_id == request_id@,
{
}

/// A tracker holds exactly where no hold has expired since a signal was last seen in time.
pub proof fn law_a_tracker_holds_while_signals_come(t: CompletionTracker, r: bool)
    requires
        call_ensures(CompletionTracker::should_hold, (&t,), r),
    ensures
        r <==> t@.hold_timeouts == 0,
{
}

/// What completed an invocation is kept for those that still wait for it when the next one
/// begins, as many times as there are of them; where nobody waits, nothing is kept.
pub proof fn law_a_waited_for_completion_is_kept(s: TrackerState)
    ensures
        s.current is Some && s.current->0.completed is Some && s.current->0.waits > 0 ==> {
            &&& s.kept_by_begin().len() == s.kept.len() + 1
            &&& s.kept_by_begin().drop_last() == s.kept
            &&& s.kept_by_begin().last().generation == s.generation
            &&& s.kept_by_begin().last().completion == s.current->0.completed->0
            &&& s.kept_by_begin().last().waits == s.current->0.waits
        },
        s.current is None || s.current->0.completed is None || s.current->0.waits == 0
            ==> s.kept_by_begin() == s.kept,
{
    if s.current is Some && s.current->0.completed is Some && s.current->0.waits > 0 {
        assert(s.kept_by_begin().drop_last() =~= s.kept);
    }
}

/// Taking what is kept for one invocation leaves what is kept for every other.
pub proof fn law_taking_a_kept_completion_leaves_the_others(
    kept: Seq<Finished>,
    generation: u64,
    other: u64,
)
    requires
        other != generation,
    ensures
        kept_completion(kept_after(kept, generation), other) == kept_completion(kept, other),
        kept_after(kept, generation).len() + 1 >= kept.len(),
    decreases kept.len(),
{
    if kept.len() > 0 {
        law_taking_a_kept_completion_leaves_the_others(kept.drop_last(), generation, other);
        let rest = kept_after(kept.drop_last(), generation);
        let used = Finished { waits: (kept.last().waits - 1) as u64, ..kept.last() };
        assert(rest.push(kept.last()).drop_last() =~= rest);
        assert(kept.drop_last().push(used).drop_last() =~= kept.drop_last());
    }
}

/// A new tracker follows no invocation, remembers none, and holds.
pub proof fn law_a_new_tracker_follows_nothing(clock: Clock, t: CompletionTracker)
    requires
        call_ensures(CompletionTracker::with_clock, (clock,), t),
    ensures
        t@.current is None,
        t@.recent.len() == 0,
        t@.kept.len() == 0,
        t@.should_hold(),
{
}

} // verus!
