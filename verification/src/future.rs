//! The order of events at the end of an invocation: the handler ends, its outcome
//! is recorded, the span ends, the providers are flushed, and the result is
//! returned.
use crate::layer::OtelTracingLayer;
use vstd::prelude::*;

verus! {

/// Where an invocation stands.
#[derive(Debug, Clone, Copy, PartialEq, Eq, Structural)]
pub enum Phase {
    /// The handler runs.
    Running,
    /// The handler has ended, and the providers are flushed.
    Flushing,
    /// The result has been returned.
    Finished,
}

/// What to do next.
#[derive(Debug, Clone, PartialEq, Eq)]
pub enum Step<R> {
    /// Wait until polled again.
    Wait,
    /// End the span, begin to flush, and poll the flush.
    Flush,
    /// End the span, where that is still to be done, and return this result.
    Return(R),
}

/// Wraps the future of a handler and manages the lifecycle of its span.
///
/// The result is not returned until the flush completes (or times out), so that
/// spans are not lost when Lambda freezes the execution environment.
///
/// `R` is the type of what the handler returns.
#[derive(Debug, Clone, PartialEq, Eq)]
pub struct OtelTracingFuture<R> {
    /// Where the invocation stands.
    pub phase: Phase,
    /// Whether the providers are flushed at the end.
    pub flushes: bool,
    /// What the handler returned, while the providers are flushed.
    pub pending_result: Option<R>,
}

impl<R> OtelTracingFuture<R> {
    /// A result is kept as long as the providers are flushed.
    pub open spec fn wf(self) -> bool {
        self.pending_result is Some <==> self.phase == Phase::Flushing
    }

    /// A handler begins to run under a layer: it ends in a flush where the layer
    /// asks for one and names a provider to flush.
    pub fn new<E>(layer: &OtelTracingLayer<E>) -> (f: Self)
        ensures
            f.wf(),
            f.phase == Phase::Running,
            f.flushes == (layer.flush_on_end && (layer.tracer_provider is Some
                || layer.logger_provider is Some)),
    {
        OtelTracingFuture {
            phase: Phase::Running,
            flushes: layer.flush_on_end && (layer.tracer_provider.is_some()
                || layer.logger_provider.is_some()),
            pending_result: None,
        }
    }

    /// The handler was polled, and gave this where it was ready.
    pub fn after_handler(&mut self, polled: Option<R>) -> (step: Step<R>)
        requires
            old(self).wf(),
            old(self).phase == Phase::Running,
        ensures
            final(self).wf(),
            (*final(self), step) == handler_polled(*old(self), polled),
    {
        match polled {
            Some(result) => {
                if self.flushes {
                    self.phase = Phase::Flushing;
                    self.pending_result = Some(result);
                    Step::Flush
                } else {
                    self.phase = Phase::Finished;
                    Step::Return(result)
                }
            },
            None => Step::Wait,
        }
    }

    /// The flush was polled.
    pub fn after_flush(&mut self, ready: bool) -> (step: Step<R>)
        requires
            old(self).wf(),
            old(self).phase == Phase::Flushing,
        ensures
            final(self).wf(),
            (*final(self), step) == flush_polled(*old(self), ready),
    {
        if ready {
            match self.pending_result.take() {
                Some(result) => {
                    self.phase = Phase::Finished;
                    Step::Return(result)
                },
                None => Step::Wait,
            }
        } else {
            Step::Wait
        }
    }
}

/// Where the invocation stands after its handler was polled, and what to do.
pub open spec fn handler_polled<R>(f: OtelTracingFuture<R>, polled: Option<R>) -> (
    OtelTracingFuture<R>,
    Step<R>,
) {
    match polled {
        Some(result) => if f.flushes {
            (
                OtelTracingFuture {
                    phase: Phase::Flushing,
                    pending_result: Some(result),
                    ..f
                },
                Step::Flush,
            )
        } else {
            (OtelTracingFuture { phase: Phase::Finished, ..f }, Step::Return(result))
        },
        None => (f, Step::Wait),
    }
}

/// Where the invocation stands after its flush was polled, and what to do.
pub open spec fn flush_polled<R>(f: OtelTracingFuture<R>, ready: bool) -> (
    OtelTracingFuture<R>,
    Step<R>,
) {
    if ready {
        (
            OtelTracingFuture { phase: Phase::Finished, pending_result: None, ..f },
            Step::Return(f.pending_result->0),
        )
    } else {
        (f, Step::Wait)
    }
}

/// Where the invocation stands after one poll, and what to do: of the handler, which
/// returns `result`, while it runs, of the flush while that lasts.
pub open spec fn polled<R>(f: OtelTracingFuture<R>, ready: bool, result: R) -> (
    OtelTracingFuture<R>,
    Step<R>,
) {
    match f.phase {
        Phase::Running => handler_polled(
            f,
            if ready {
                Some(result)
            } else {
                None
            },
        ),
        Phase::Flushing => flush_polled(f, ready),
        Phase::Finished => (f, Step::Wait),
    }
}

/// Where the invocation stands after a run of polls, where the handler returns
/// `result`.
pub open spec fn after_polls<R>(
    f: OtelTracingFuture<R>,
    polls: Seq<bool>,
    result: R,
) -> OtelTracingFuture<R>
    decreases polls.len(),
{
    if polls.len() == 0 {
        f
    } else {
        polled(after_polls(f, polls.drop_last(), result), polls.last(), result).0
    }
}

/// The number of polls that found what they asked for ready.
pub open spec fn ready_count(polls: Seq<bool>) -> nat
    decreases polls.len(),
{
    if polls.len() == 0 {
        0
    } else {
        ready_count(polls.drop_last()) + if polls.last() {
            1nat
        } else {
            0
        }
    }
}

/// The result is not returned before the flush completes: where a flush is owed, the
/// invocation is finished only after the handler and the flush have both been ready;
/// and it is finished as soon as they have.
pub proof fn law_no_return_before_the_flush<R>(
    f: OtelTracingFuture<R>,
    polls: Seq<bool>,
    result: R,
)
    requires
        f.wf(),
        f.phase == Phase::Running,
    ensures
        after_polls(f, polls, result).wf(),
        after_polls(f, polls, result).flushes == f.flushes,
        after_polls(f, polls, result).phase == (if ready_count(polls) == 0 {
            Phase::Running
        } else if f.flushes && ready_count(polls) == 1 {
            Phase::Flushing
        } else {
            Phase::Finished
        }),
        after_polls(f, polls, result).phase == Phase::Flushing ==> after_polls(
            f,
            polls,
            result,
        ).pending_result == Some(result),
    decreases polls.len(),
{
    if polls.len() > 0 {
        law_no_return_before_the_flush(f, polls.drop_last(), result);
    }
}

/// What the handler returned is what comes out: the poll that finishes the
/// invocation returns it, and no other poll returns anything.
pub proof fn law_the_handlers_result_comes_out<R>(
    f: OtelTracingFuture<R>,
    polls: Seq<bool>,
    ready: bool,
    result: R,
)
    requires
        f.wf(),
        f.phase == Phase::Running,
    ensures
        ({
            let before = after_polls(f, polls, result);
            let (after, step) = polled(before, ready, result);
            if before.phase != Phase::Finished && after.phase == Phase::Finished {
                step == Step::Return(result)
            } else {
                step !is Return
            }
        }),
{
    law_no_return_before_the_flush(f, polls, result);
}

/// A handler that is not ready leaves everything as it is. One that is ready is flushed
/// after where that is owed, its result being kept, and returned at once where it is not.
pub proof fn law_a_ready_handler_is_flushed_or_returned<R>(f: OtelTracingFuture<R>, result: R)
    ensures
        handler_polled(f, None) == (f, Step::<R>::Wait),
        f.flushes ==> {
            let (after, step) = handler_polled(f, Some(result));
            &&& step == Step::<R>::Flush
            &&& after.phase == Phase::Flushing
            &&& after.pending_result == Some(result)
        },
        !f.flushes ==> {
            let (after, step) = handler_polled(f, Some(result));
            &&& step == Step::Return(result)
            &&& after.phase == Phase::Finished
        },
{
}

/// A flush that is not over keeps the result back; one that is over gives it out, once.
pub proof fn law_a_flush_keeps_the_result_back<R>(f: OtelTracingFuture<R>, result: R)
    requires
        f.pending_result == Some(result),
    ensures
        flush_polled(f, false) == (f, Step::<R>::Wait),
        flush_polled(f, true).1 == Step::Return(result),
        flush_polled(f, true).0.phase == Phase::Finished,
        flush_polled(f, true).0.pending_result is None,
{
}

/// A flush is owed exactly where the layer asks for one and names a provider.
pub proof fn law_a_flush_is_owed_where_there_is_a_provider<E, R>(
    layer: OtelTracingLayer<E>,
    f: OtelTracingFuture<R>,
)
    requires
        call_ensures(OtelTracingFuture::<R>::new::<E>, (&layer,), f),
    ensures
        f.phase == Phase::Running,
        f.pending_result is None,
        f.flushes <==> layer.flush_on_end && (layer.tracer_provider is Some
            || layer.logger_provider is Some),
{
}

} // verus!
