//! Spans of time, points in time, and the clocks they are read from.
//!
//! The decisions of the library take the time as an argument, so that they are
//! proved for every value a clock may show.
use vstd::prelude::*;

verus! {

/// The nanoseconds in a millisecond.
pub const NANOS_PER_MILLI: u128 = 1_000_000;

/// The nanoseconds in a second.
pub const NANOS_PER_SEC: u128 = 1_000_000_000;

/// A span of time.
#[derive(Clone, Copy, Debug, PartialEq, Eq, PartialOrd, Ord, Hash, Structural)]
pub struct Duration {
    /// Its length in nanoseconds.
    pub nanos: u128,
}

impl View for Duration {
    type V = nat;

    open spec fn view(&self) -> nat {
        self.nanos as nat
    }
}

/// The smaller of two numbers.
pub open spec fn least(a: nat, b: nat) -> nat {
    if a <= b {
        a
    } else {
        b
    }
}

/// The larger of two numbers.
pub open spec fn greatest(a: nat, b: nat) -> nat {
    if a >= b {
        a
    } else {
        b
    }
}

/// `a - b`, or zero where `b` is larger.
pub open spec fn minus(a: nat, b: nat) -> nat {
    if a >= b {
        (a - b) as nat
    } else {
        0
    }
}

impl Duration {
    /// No time at all.
    pub fn zero() -> (d: Duration)
        ensures
            d@ == 0,
    {
        Duration { nanos: 0 }
    }

    /// The given number of milliseconds.
    pub fn from_millis(millis: u64) -> (d: Duration)
        ensures
            d@ == millis * 1_000_000,
    {
        Duration { nanos: millis as u128 * NANOS_PER_MILLI }
    }

    /// The given number of seconds.
    pub fn from_secs(secs: u64) -> (d: Duration)
        ensures
            d@ == secs * 1_000_000_000,
    {
        Duration { nanos: secs as u128 * NANOS_PER_SEC }
    }

    /// The whole milliseconds in the span.
    pub fn as_millis(self) -> (millis: u128)
        ensures
            millis == self@ / 1_000_000,
    {
        self.nanos / NANOS_PER_MILLI
    }

    /// Whether the span is empty.
    pub fn is_zero(self) -> (r: bool)
        ensures
            r == (self@ == 0),
    {
        self.nanos == 0
    }

    /// What is left of the span once `other` is taken away.
    pub fn saturating_sub(self, other: Duration) -> (d: Duration)
        ensures
            d@ == minus(self@, other@),
    {
        if self.nanos >= other.nanos {
            Duration { nanos: self.nanos - other.nanos }
        } else {
            Duration { nanos: 0 }
        }
    }

    /// The shorter of two spans.
    pub fn shorter(self, other: Duration) -> (d: Duration)
        ensures
            d@ == least(self@, other@),
    {
        if self.nanos <= other.nanos {
            self
        } else {
            other
        }
    }

    /// The longer of two spans.
    pub fn longer(self, other: Duration) -> (d: Duration)
        ensures
            d@ == greatest(self@, other@),
    {
        if self.nanos >= other.nanos {
            self
        } else {
            other
        }
    }

    /// The span divided into `parts` equal ones, rounded down to a nanosecond.
    pub fn divided_by(self, parts: u32) -> (d: Duration)
        requires
            parts > 0,
        ensures
            d@ == self@ / (parts as nat),
    {
        Duration { nanos: self.nanos / parts as u128 }
    }

    /// Twice the span, or the longest one where that cannot be held.
    pub fn doubled(self) -> (d: Duration)
        ensures
            d@ == least(2 * self@, u128::MAX as nat),
    {
        if self.nanos <= u128::MAX / 2 {
            Duration { nanos: self.nanos * 2 }
        } else {
            Duration { nanos: u128::MAX }
        }
    }
}

/// A point in time on a monotonic clock.
#[derive(Clone, Copy, Debug, PartialEq, Eq, PartialOrd, Ord, Hash, Structural)]
pub struct Moment {
    /// The nanoseconds since the clock was started.
    pub nanos: u128,
}

impl View for Moment {
    type V = nat;

    open spec fn view(&self) -> nat {
        self.nanos as nat
    }
}

impl Moment {
    /// The time from `earlier` to this point, zero where `earlier` is later.
    pub fn since(self, earlier: Moment) -> (d: Duration)
        ensures
            d@ == minus(self@, earlier@),
    {
        if self.nanos >= earlier.nanos {
            Duration { nanos: self.nanos - earlier.nanos }
        } else {
            Duration { nanos: 0 }
        }
    }

    /// The point that lies `span` after this one, or the last one that can be held.
    pub fn after(self, span: Duration) -> (m: Moment)
        ensures
            m@ == least(self@ + span@, u128::MAX as nat),
    {
        if self.nanos <= u128::MAX - span.nanos {
            Moment { nanos: self.nanos + span.nanos }
        } else {
            Moment { nanos: u128::MAX }
        }
    }

    /// Whether this point has been reached at `now`.
    pub fn reached(self, now: Moment) -> (r: bool)
        ensures
            r == (now@ >= self@),
    {
        now.nanos >= self.nanos
    }
}

/// The opaque points in time of the standard library.
#[verifier::external_type_specification]
#[verifier::external_body]
pub struct ExInstant(std::time::Instant);

/// Whether some call of `Instant::now` may give this point in time.
pub uninterp spec fn may_be_present(instant: std::time::Instant) -> bool;

/// Whether some call of `Instant::elapsed` may find that so many nanoseconds have
/// passed since a point in time. Two calls may differ, so that many numbers may be
/// found for one point.
pub uninterp spec fn may_have_passed(since: std::time::Instant, nanos: u128) -> bool;

/// Whether the wall clock may show so many nanoseconds since the Unix epoch at some
/// call.
pub uninterp spec fn may_be_wall_time(nanos: u128) -> bool;

/// `Instant::now`: the current point in time. Which one that is rests on when the
/// call is made, and is left unsaid.
#[verifier::external_body]
fn instant_now() -> (instant: std::time::Instant)
    ensures
        may_be_present(instant),
{
    std::time::Instant::now()
}

/// `Instant::elapsed`: the time since `origin` in nanoseconds. What is claimed is
/// that it was counted from `origin`. How much it is rests on when the call is made,
/// and is left unsaid.
#[verifier::external_body]
fn elapsed_nanos(origin: &std::time::Instant) -> (nanos: u128)
    ensures
        may_have_passed(*origin, nanos),
{
    origin.elapsed().as_nanos()
}

/// `SystemTime::elapsed` of the Unix epoch: the wall clock in nanoseconds, zero
/// where it stands before the epoch. What it shows rests on when the call is made,
/// and is left unsaid.
#[verifier::external_body]
fn nanos_since_epoch() -> (nanos: u128)
    ensures
        may_be_wall_time(nanos),
{
    match std::time::UNIX_EPOCH.elapsed() {
        Ok(elapsed) => elapsed.as_nanos(),
        Err(_) => 0,
    }
}

/// A monotonic clock.
#[derive(Clone, Copy, Debug)]
pub struct Clock {
    origin: std::time::Instant,
}

impl Clock {
    /// Whether a clock that is started may count from the origin of this one.
    pub closed spec fn may_be_started(self) -> bool {
        may_be_present(self.origin)
    }

    /// Whether this clock may show the given time.
    pub closed spec fn may_show(self, now: Moment) -> bool {
        may_have_passed(self.origin, now.nanos)
    }

    /// Starts a clock.
    pub fn start() -> (c: Clock)
        ensures
            c.may_be_started(),
    {
        Clock { origin: instant_now() }
    }

    /// Reads the clock.
    pub fn now(&self) -> (now: Moment)
        ensures
            self.may_show(now),
    {
        Moment { nanos: elapsed_nanos(&self.origin) }
    }
}

/// What 64 bits hold of a number.
pub open spec fn wrapped(n: nat) -> nat {
    n % 0x1_0000_0000_0000_0000
}

/// Whether the wall clock may show so many milliseconds since the Unix epoch, as far
/// as 64 bits hold them.
pub open spec fn may_be_epoch_millis(millis: u64) -> bool {
    exists|n: u128| #[trigger]
        may_be_wall_time(n) && millis == wrapped(n as nat / NANOS_PER_MILLI as nat)
}

/// Whether the wall clock may show so many nanoseconds since the Unix epoch, as far
/// as 64 bits hold them.
pub open spec fn may_be_epoch_nanos(nanos: u64) -> bool {
    exists|n: u128| #[trigger] may_be_wall_time(n) && nanos == wrapped(n as nat)
}

/// The low 64 bits of a number.
pub fn low_bits(n: u128) -> (r: u64)
    ensures
        r == wrapped(n as nat),
{
    assert(n as u64 == n % 0x1_0000_0000_0000_0000u128) by (bit_vector);
    n as u64
}

/// The whole milliseconds in a number of nanoseconds, as far as 64 bits hold them.
pub fn whole_millis(nanos: u128) -> (millis: u64)
    ensures
        millis == wrapped(nanos as nat / NANOS_PER_MILLI as nat),
{
    low_bits(nanos / NANOS_PER_MILLI)
}

/// The milliseconds since the Unix epoch.
pub(crate) fn epoch_millis() -> (millis: u64)
    ensures
        may_be_epoch_millis(millis),
{
    whole_millis(nanos_since_epoch())
}

/// The nanoseconds since the Unix epoch.
pub(crate) fn epoch_nanos() -> (nanos: u64)
    ensures
        may_be_epoch_nanos(nanos),
{
    low_bits(nanos_since_epoch())
}

/// The smaller of two numbers is one of them and no larger than either, the larger one no
/// smaller; a difference is zero where it would be less.
pub proof fn law_bounds_are_of_their_numbers(a: nat, b: nat)
    ensures
        least(a, b) <= a && least(a, b) <= b && (least(a, b) == a || least(a, b) == b),
        greatest(a, b) >= a && greatest(a, b) >= b && (greatest(a, b) == a || greatest(a, b) == b),
        a >= b ==> minus(a, b) + b == a,
        a <= b ==> minus(a, b) == 0,
{
}

/// The wall clock is told as it is, as far as 64 bits reach: in whole milliseconds, and in
/// nanoseconds.
pub proof fn law_the_wall_clock_is_told_as_it_is(millis: u64, nanos: u64)
    requires
        may_be_epoch_millis(millis),
        may_be_epoch_nanos(nanos),
    ensures
        exists|n: u128| #[trigger]
            may_be_wall_time(n) && (n < 18_446_744_073_709_551_616_000_000 ==> millis * 1_000_000
                <= n < (millis + 1) * 1_000_000),
        exists|n: u128| #[trigger]
            may_be_wall_time(n) && (n < 18_446_744_073_709_551_616 ==> nanos == n),
{
    let a = choose|n: u128| #[trigger]
        may_be_wall_time(n) && millis == wrapped(n as nat / NANOS_PER_MILLI as nat);
    assert(may_be_wall_time(a));
    if a < 18_446_744_073_709_551_616_000_000 {
        assert(a as nat / 1_000_000 < 0x1_0000_0000_0000_0000);
        assert(wrapped(a as nat / 1_000_000) == a as nat / 1_000_000);
    }
    let b = choose|n: u128| #[trigger] may_be_wall_time(n) && nanos == wrapped(n as nat);
    assert(may_be_wall_time(b));
}

/// Spans and points in time are counted in nanoseconds, and never wrap round.
pub proof fn law_time_is_counted_in_nanoseconds(
    millis: u64,
    secs: u64,
    a: Duration,
    b: Duration,
    at: Moment,
    later: Moment,
    since: Duration,
    reached: bool,
)
    requires
        call_ensures(Duration::from_millis, (millis,), a),
        call_ensures(Duration::from_secs, (secs,), b),
        call_ensures(Moment::after, (at, a), later),
        call_ensures(Moment::since, (later, at), since),
        call_ensures(Moment::reached, (at, later), reached),
        at@ + a@ <= u128::MAX,
    ensures
        a@ == millis * 1_000_000,
        b@ == secs * 1_000_000_000,
        later@ == at@ + a@,
        since@ == a@,
        reached,
{
}

/// Of two spans one is the longer and one the shorter, and a doubled one is twice as long.
pub proof fn law_spans_are_compared(
    a: Duration,
    b: Duration,
    longer: Duration,
    shorter: Duration,
    doubled: Duration,
)
    requires
        call_ensures(Duration::longer, (a, b), longer),
        call_ensures(Duration::shorter, (a, b), shorter),
        call_ensures(Duration::doubled, (a,), doubled),
    ensures
        longer@ >= a@ && longer@ >= b@ && (longer@ == a@ || longer@ == b@),
        shorter@ <= a@ && shorter@ <= b@ && (shorter@ == a@ || shorter@ == b@),
        a@ + a@ <= u128::MAX ==> doubled@ == a@ + a@,
        a@ + a@ > u128::MAX ==> doubled@ == u128::MAX,
{
}

} // verus!
