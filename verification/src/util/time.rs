//! Spans of time, and how long ago something was.

use vstd::prelude::*;

verus! {

/// A span of time.
#[derive(Debug, Clone, Copy, PartialEq, Eq, Structural)]
pub struct Duration {
    /// Whole seconds.
    pub secs: u64,
    /// Nanoseconds beyond the whole seconds.
    pub nanos: u32,
}

impl Duration {
    /// The span in nanoseconds.
    pub open spec fn total(self) -> int {
        self.secs * 1_000_000_000 + self.nanos
    }

    /// Whether the nanoseconds stay below one second.
    pub open spec fn is_canonical(self) -> bool {
        self.nanos < 1_000_000_000
    }

    /// That many seconds.
    pub fn from_secs(secs: u64) -> (span: Duration)
        ensures
            span == (Duration { secs, nanos: 0 }),
    {
        Duration { secs, nanos: 0 }
    }

    /// That many milliseconds.
    pub fn from_millis(millis: u64) -> (span: Duration)
        ensures
            span.is_canonical(),
            span.total() == millis * 1_000_000,
    {
        Duration { secs: millis / 1000, nanos: ((millis % 1000) * 1_000_000) as u32 }
    }

    /// Whether this span is longer than another.
    pub fn exceeds(self, other: Duration) -> (longer: bool)
        ensures
            longer == (self.total() > other.total()),
    {
        self.secs as u128 * 1_000_000_000 + self.nanos as u128 > other.secs as u128 * 1_000_000_000
            + other.nanos as u128
    }
}

impl View for Duration {
    type V = Duration;

    open spec fn view(&self) -> Duration {
        *self
    }
}

/// A moment of the machine's steady clock.
#[verifier::external_type_specification]
#[verifier::external_body]
pub struct ExInstant(std::time::Instant);

/// The present moment, from `std::time::Instant::now`; nothing is claimed of it.
#[verifier::external_body]
fn now() -> std::time::Instant {
    std::time::Instant::now()
}

/// How long ago a moment was, from `std::time::Instant::elapsed`, in seconds and
/// nanoseconds.
///
/// Taken on trust: that the nanoseconds stay below one second. How long it was
/// depends on the clock alone.
#[verifier::external_body]
fn elapsed_parts(since: &std::time::Instant) -> (parts: (u64, u32))
    ensures
        parts.1 < 1_000_000_000,
{
    let span = since.elapsed();
    (span.as_secs(), span.subsec_nanos())
}

/// Whether a moment is a reading of the clock: one that [`now`] gives.
pub closed spec fn is_reading(moment: std::time::Instant) -> bool {
    call_ensures(now, (), moment)
}

/// Whether the clock gives that span, in its seconds and nanoseconds, as the time
/// since a moment.
pub closed spec fn is_time_since(since: std::time::Instant, span: Duration) -> bool {
    call_ensures(elapsed_parts, (&since,), (span.secs, span.nanos))
}

/// Reads the clock.
pub(crate) fn read_clock() -> (moment: std::time::Instant)
    ensures
        is_reading(moment),
{
    let clock = now;
    clock()
}

/// How long ago a moment was: what the clock gives as the time since then.
pub fn elapsed(since: &std::time::Instant) -> (span: Duration)
    ensures
        span.is_canonical(),
        is_time_since(*since, span),
{
    let clock = elapsed_parts;
    let (secs, nanos) = clock(since);
    Duration { secs, nanos }
}

} // verus!
