//! When the vault is locked for want of activity.

use vstd::prelude::*;

use crate::autolock;
use crate::autolock::{AutoLock, InputEvent};
use crate::clock;
use crate::clock::{Duration, Instant};

verus! {

/// Whether the user did something: pressed a key or a button, typed, pasted,
/// copied, cut, moved the pointer or turned the wheel.
pub open spec fn is_input(event: InputEvent) -> bool {
    ||| event == (InputEvent::Key { pressed: true })
    ||| event == (InputEvent::PointerButton { pressed: true })
    ||| event == InputEvent::Text
    ||| event == InputEvent::Paste
    ||| event == InputEvent::Copy
    ||| event == InputEvent::Cut
    ||| event == InputEvent::PointerMoved
    ||| event == InputEvent::MouseWheel
}

/// Activity is what the user does, and nothing that the window system reports
/// of its own accord, nor letting go of a key or a button. A frame has activity
/// exactly if one of its events is such.
pub proof fn activity_is_input(event: InputEvent, events: Seq<InputEvent>)
    ensures
        event.is_activity() <==> is_input(event),
        autolock::has_activity(events) <==> exists|i: int|
            0 <= i < events.len() && is_input(#[trigger] events[i]),
{
    if exists|i: int| 0 <= i < events.len() && is_input(#[trigger] events[i]) {
        let i = choose|i: int| 0 <= i < events.len() && is_input(#[trigger] events[i]);
        assert(events[i].is_activity());
    }
    if autolock::has_activity(events) {
        let i = choose|i: int| 0 <= i < events.len() && (#[trigger] events[i]).is_activity();
        assert(is_input(events[i]));
    }
}

/// The vault must be locked from the moment on that lies the timeout past the
/// last activity, and what is left before is the time to that moment. A reading
/// before the last activity counts as that activity. The usual timeout is three
/// minutes.
pub proof fn the_timeout_counts_from_the_last_activity(timer: AutoLock, now: Instant)
    ensures
        timer.expired_at(now) <==> timer.limit().nanos == 0 || now.nanos >= timer.last().nanos
            + timer.limit().nanos,
        timer.last().nanos <= now.nanos <= timer.last().nanos + timer.limit().nanos ==> now.nanos
            + timer.left_at(now) == timer.last().nanos + timer.limit().nanos,
        now.nanos <= timer.last().nanos ==> timer.left_at(now) == timer.limit().nanos,
        now.nanos >= timer.last().nanos + timer.limit().nanos ==> timer.left_at(now) == 0,
        autolock::DEFAULT_TIMEOUT == 180,
{
}

/// Times add and subtract as numbers, and stop at nothing and at the largest
/// time.
pub proof fn times_saturate(nanos: int)
    ensures
        0 <= nanos <= u128::MAX ==> clock::saturated(nanos) == nanos,
        nanos < 0 ==> clock::saturated(nanos) == 0,
        nanos > u128::MAX ==> clock::saturated(nanos) == u128::MAX,
        clock::NANOS_PER_SEC == 1_000_000_000,
        clock::NANOS_PER_MILLI == 1_000_000,
{
}

/// A span of seconds or milliseconds has that many nanoseconds. A time after
/// another is the sum, the time since another is the difference, and neither
/// leaves the range.
pub proof fn times_are_numbers(
    count: u64,
    seconds: Duration,
    millis: Duration,
    early: Instant,
    late: Instant,
    span: Duration,
    after: Instant,
    since: Duration,
)
    requires
        call_ensures(Duration::from_secs, (count,), seconds),
        call_ensures(Duration::from_millis, (count,), millis),
        call_ensures(Instant::after, (early, span), after),
        call_ensures(Instant::saturating_duration_since, (late, early), since),
    ensures
        seconds.nanos == count * 1_000_000_000,
        millis.nanos == count * 1_000_000,
        early.nanos + span.nanos <= u128::MAX ==> after.nanos == early.nanos + span.nanos,
        early.nanos + span.nanos > u128::MAX ==> after.nanos == u128::MAX,
        late.nanos >= early.nanos ==> since.nanos == late.nanos - early.nanos,
        late.nanos < early.nanos ==> since.nanos == 0,
{
}

/// Asked at a reading, the timer answers whether the timeout has passed since the
/// last activity, and how much of it is left.
pub proof fn the_timer_answers(timer: &AutoLock, now: Instant, lock: bool, left: Duration)
    requires
        call_ensures(AutoLock::should_lock_at, (timer, now), lock),
        call_ensures(AutoLock::remaining_at, (timer, now), left),
    ensures
        lock <==> timer.limit().nanos == 0 || now.nanos >= timer.last().nanos
            + timer.limit().nanos,
        lock <==> left.nanos == 0,
        timer.last().nanos <= now.nanos && !lock ==> now.nanos + left.nanos == timer.last().nanos
            + timer.limit().nanos,
{
}

} // verus!
