//! Time, as the vault's timers see it.
//!
//! A [`Clock`] counts from the moment it was started, on the operating system's
//! monotonic clock. Its readings are plain values, so every decision that
//! depends on time is a function of the reading.

use vstd::prelude::*;

use std::time::Instant as SystemInstant;

verus! {

/// Nanoseconds in a second.
pub const NANOS_PER_SEC: u128 = 1_000_000_000;

/// Nanoseconds in a millisecond.
pub const NANOS_PER_MILLI: u128 = 1_000_000;

#[verifier::external_type_specification]
#[verifier::external_body]
pub struct ExSystemInstant(SystemInstant);

/// `std::time::Instant::now` reads the monotonic clock. Nothing is claimed of
/// the reading.
pub assume_specification[ SystemInstant::now ]() -> SystemInstant;

/// `std::time::Instant::elapsed` is the time since an earlier reading. Nothing
/// is claimed of it.
pub assume_specification[ SystemInstant::elapsed ](since: &SystemInstant) -> std::time::Duration;

/// `std::time::Duration::as_nanos` is a span in nanoseconds. Nothing is claimed
/// of it.
pub assume_specification[ std::time::Duration::as_nanos ](span: &std::time::Duration) -> u128;

/// A span of time, in nanoseconds.
#[derive(Debug, Clone, Copy, PartialEq, Eq, Structural)]
pub struct Duration {
    pub nanos: u128,
}

/// A reading of a [`Clock`]: the nanoseconds since it was started.
#[derive(Debug, Clone, Copy, PartialEq, Eq, Structural)]
pub struct Instant {
    pub nanos: u128,
}

/// The number of nanoseconds in a span or a reading that cannot grow past the
/// largest one.
pub open spec fn saturated(nanos: int) -> u128 {
    if nanos < 0 {
        0
    } else if nanos > u128::MAX {
        u128::MAX
    } else {
        nanos as u128
    }
}

impl Duration {
    /// A span of whole seconds.
    pub fn from_secs(secs: u64) -> (d: Duration)
        ensures
            d.nanos == secs * NANOS_PER_SEC,
    {
        Duration { nanos: (secs as u128) * NANOS_PER_SEC }
    }

    /// A span of whole milliseconds.
    pub fn from_millis(millis: u64) -> (d: Duration)
        ensures
            d.nanos == millis * NANOS_PER_MILLI,
    {
        Duration { nanos: (millis as u128) * NANOS_PER_MILLI }
    }

    /// This span less the other, or nothing if the other is longer.
    pub fn saturating_sub(self, other: Duration) -> (d: Duration)
        ensures
            d.nanos == saturated(self.nanos - other.nanos),
    {
        if self.nanos < other.nanos {
            Duration { nanos: 0 }
        } else {
            Duration { nanos: self.nanos - other.nanos }
        }
    }
}

impl Instant {
    /// The time from `earlier` to this reading, or nothing if `earlier` is
    /// later.
    pub fn saturating_duration_since(self, earlier: Instant) -> (d: Duration)
        ensures
            d.nanos == saturated(self.nanos - earlier.nanos),
    {
        if self.nanos < earlier.nanos {
            Duration { nanos: 0 }
        } else {
            Duration { nanos: self.nanos - earlier.nanos }
        }
    }

    /// The reading that comes `span` after this one.
    pub fn after(self, span: Duration) -> (t: Instant)
        ensures
            t.nanos == saturated(self.nanos + span.nanos),
    {
        if span.nanos > u128::MAX - self.nanos {
            Instant { nanos: u128::MAX }
        } else {
            Instant { nanos: self.nanos + span.nanos }
        }
    }
}

/// A monotonic clock.
#[derive(Debug, Clone, Copy)]
pub struct Clock {
    start: SystemInstant,
}

impl Clock {
    /// The moment that the clock counts from.
    pub closed spec fn origin(&self) -> SystemInstant {
        self.start
    }

    /// Whether the clock counts from a moment that the operating system's clock
    /// gave.
    pub closed spec fn is_started(&self) -> bool {
        call_ensures(SystemInstant::now, (), self.start)
    }

    /// Whether the clock can show `now`: the operating system's clock can give
    /// that many nanoseconds as the time since the start.
    pub closed spec fn shows(&self, now: Instant) -> bool {
        exists|span: std::time::Duration|
            #[trigger] call_ensures(SystemInstant::elapsed, (&self.start,), span) && call_ensures(
                std::time::Duration::as_nanos,
                (&span,),
                now.nanos,
            )
    }

    /// Start a clock now.
    pub fn start() -> (clock: Clock)
        ensures
            clock.is_started(),
    {
        Clock { start: SystemInstant::now() }
    }

    /// Read the clock. Two readings may differ.
    pub fn now(&self) -> (now: Instant)
        ensures
            self.shows(now),
    {
        Instant { nanos: self.start.elapsed().as_nanos() }
    }
}

/// A clock is started at a moment that the operating system's clock gave, and a
/// reading is the whole time that has passed since, in nanoseconds.
pub proof fn a_reading_is_the_time_since_the_start(clock: Clock, now: Instant)
    ensures
        clock.is_started() <==> call_ensures(SystemInstant::now, (), clock.origin()),
        clock.shows(now) <==> exists|span: std::time::Duration|
            #[trigger] call_ensures(SystemInstant::elapsed, (&clock.origin(),), span)
                && call_ensures(std::time::Duration::as_nanos, (&span,), now.nanos),
{
    if clock.shows(now) {
        let span = choose|span: std::time::Duration|
            #[trigger] call_ensures(SystemInstant::elapsed, (&clock.start,), span) && call_ensures(
                std::time::Duration::as_nanos,
                (&span,),
                now.nanos,
            );
        assert(call_ensures(SystemInstant::elapsed, (&clock.origin(),), span));
    }
    if exists|span: std::time::Duration|
        #[trigger] call_ensures(SystemInstant::elapsed, (&clock.origin(),), span) && call_ensures(
            std::time::Duration::as_nanos,
            (&span,),
            now.nanos,
        ) {
        let span = choose|span: std::time::Duration|
            #[trigger] call_ensures(SystemInstant::elapsed, (&clock.origin(),), span)
                && call_ensures(std::time::Duration::as_nanos, (&span,), now.nanos);
        assert(call_ensures(SystemInstant::elapsed, (&clock.start,), span));
    }
}

} // verus!
