//! Inactivity-based auto-lock.

use vstd::prelude::*;

use crate::clock::{Clock, Duration, Instant};

verus! {

/// Auto-lock timeout, in seconds: three minutes of inactivity.
pub const DEFAULT_TIMEOUT: u64 = 180;

/// Monotonic inactivity timer.
pub struct AutoLock {
    clock: Clock,
    timeout: Duration,
    last_activity: Instant,
}

impl AutoLock {
    /// How long the vault may stay idle.
    pub closed spec fn limit(&self) -> Duration {
        self.timeout
    }

    /// When the user was last active.
    pub closed spec fn last(&self) -> Instant {
        self.last_activity
    }

    /// The clock that the timer reads.
    pub closed spec fn source(&self) -> Clock {
        self.clock
    }

    /// How long the user has been idle at `now`; nothing if the last activity
    /// is later than `now`.
    pub open spec fn idle_at(&self, now: Instant) -> int {
        if now.nanos < self.last().nanos {
            0
        } else {
            now.nanos - self.last().nanos
        }
    }

    /// Whether the vault must be locked at `now`: the idle time has reached the
    /// timeout.
    pub open spec fn expired_at(&self, now: Instant) -> bool {
        self.idle_at(now) >= self.limit().nanos
    }

    /// The time that is left at `now` before the vault must be locked.
    pub open spec fn left_at(&self, now: Instant) -> int {
        if self.idle_at(now) >= self.limit().nanos {
            0
        } else {
            self.limit().nanos - self.idle_at(now)
        }
    }

    /// A timer with the default timeout, started now.
    pub fn new() -> (timer: Self)
        ensures
            timer.limit().nanos == DEFAULT_TIMEOUT * 1_000_000_000,
            timer.source().is_started(),
            timer.source().shows(timer.last()),
    {
        Self::with_timeout(Duration::from_secs(DEFAULT_TIMEOUT))
    }

    /// A timer with the given timeout, started now.
    pub fn with_timeout(timeout: Duration) -> (timer: Self)
        ensures
            timer.limit() == timeout,
            timer.source().is_started(),
            timer.source().shows(timer.last()),
    {
        let clock = Clock::start();
        let last_activity = clock.now();
        AutoLock { clock, timeout, last_activity }
    }

    /// The clock that the timer reads.
    pub fn clock(&self) -> (clock: &Clock)
        ensures
            *clock == self.source(),
    {
        &self.clock
    }

    /// Record activity now, as the clock shows it.
    pub fn note_activity(&mut self)
        ensures
            old(self).source().shows(final(self).last()),
            final(self).limit() == old(self).limit(),
            final(self).source() == old(self).source(),
    {
        let now = self.clock.now();
        self.note_activity_at(now);
    }

    /// Record activity at `now`.
    pub fn note_activity_at(&mut self, now: Instant)
        ensures
            final(self).last() == now,
            final(self).limit() == old(self).limit(),
            final(self).source() == old(self).source(),
    {
        self.last_activity = now;
    }

    /// Whether the vault must be locked now. The answer is that of
    /// [`AutoLock::should_lock_at`] for the reading of the clock.
    pub fn should_lock(&self) -> (r: bool)
        ensures
            exists|now: Instant| self.source().shows(now) && r == #[trigger] self.expired_at(now),
    {
        let now = self.clock.now();
        self.should_lock_at(now)
    }

    /// Whether the vault must be locked at `now`.
    pub fn should_lock_at(&self, now: Instant) -> (r: bool)
        ensures
            r == self.expired_at(now),
    {
        now.saturating_duration_since(self.last_activity).nanos >= self.timeout.nanos
    }

    /// The time that is left now. The answer is that of
    /// [`AutoLock::remaining_at`] for the reading of the clock.
    pub fn remaining(&self) -> (d: Duration)
        ensures
            exists|now: Instant| self.source().shows(now) && d.nanos == #[trigger] self.left_at(now),
    {
        let now = self.clock.now();
        self.remaining_at(now)
    }

    /// The time that is left at `now`.
    pub fn remaining_at(&self, now: Instant) -> (d: Duration)
        ensures
            d.nanos == self.left_at(now),
    {
        let elapsed = now.saturating_duration_since(self.last_activity);
        self.timeout.saturating_sub(elapsed)
    }

    /// The timeout.
    pub fn timeout(&self) -> (d: Duration)
        ensures
            d == self.limit(),
    {
        self.timeout
    }
}

impl Default for AutoLock {
    fn default() -> (timer: Self)
        ensures
            timer.limit().nanos == DEFAULT_TIMEOUT * 1_000_000_000,
            timer.source().is_started(),
            timer.source().shows(timer.last()),
    {
        Self::new()
    }
}

/// An input event of one frame, reduced to what the inactivity timer asks of
/// it.
#[derive(Debug, Clone, Copy, PartialEq, Eq, Structural)]
pub enum InputEvent {
    /// A key went down (or repeated) or up.
    Key { pressed: bool },
    /// Text was typed.
    Text,
    /// Text was pasted.
    Paste,
    Copy,
    Cut,
    PointerMoved,
    /// A pointer button went down or up.
    PointerButton { pressed: bool },
    MouseWheel,
    /// Anything that the window system reports on its own account.
    Other,
}

impl InputEvent {
    /// Whether the event is genuine user input: anything that the user does on
    /// purpose, but no release of a key or a button.
    pub open spec fn is_activity(self) -> bool {
        match self {
            InputEvent::Key { pressed } => pressed,
            InputEvent::PointerButton { pressed } => pressed,
            InputEvent::Other => false,
            _ => true,
        }
    }
}

/// Whether a single event is genuine user input, which resets the inactivity
/// timer.
pub fn is_user_activity_event(event: &InputEvent) -> (r: bool)
    ensures
        r == event.is_activity(),
{
    match event {
        InputEvent::Key { pressed } => *pressed,
        InputEvent::Text => true,
        InputEvent::Paste => true,
        InputEvent::Copy => true,
        InputEvent::Cut => true,
        InputEvent::PointerMoved => true,
        InputEvent::PointerButton { pressed } => *pressed,
        InputEvent::MouseWheel => true,
        InputEvent::Other => false,
    }
}

/// Whether some event of a frame is user activity.
pub open spec fn has_activity(events: Seq<InputEvent>) -> bool {
    exists|i: int| 0 <= i < events.len() && (#[trigger] events[i]).is_activity()
}

/// Whether the events of a frame contain any user activity.
pub fn user_activity_in(events: &[InputEvent]) -> (r: bool)
    ensures
        r == has_activity(events@),
{
    let mut i: usize = 0;
    while i < events.len()
        invariant
            i <= events@.len(),
            forall|j: int| 0 <= j < i ==> !(#[trigger] events@[j]).is_activity(),
        decreases events@.len() - i,
    {
        if is_user_activity_event(&events[i]) {
            assert(events@[i as int].is_activity());
            return true;
        }
        i += 1;
    }
    false
}

/// The vault is locked exactly when no time is left.
pub proof fn locks_when_nothing_remains(timer: AutoLock, now: Instant)
    ensures
        timer.expired_at(now) <==> timer.left_at(now) == 0,
{
}

/// Once the timeout has been reached it stays reached, until there is activity.
pub proof fn stays_expired(timer: AutoLock, now: Instant, later: Instant)
    requires
        timer.expired_at(now),
        now.nanos <= later.nanos,
    ensures
        timer.expired_at(later),
{
}

/// Activity gives back the whole timeout: after it, the vault is not locked
/// before the timeout has passed again, and is locked from then on.
pub proof fn activity_resets(timer: AutoLock, now: Instant)
    requires
        now.nanos >= timer.last().nanos,
    ensures
        timer.left_at(timer.last()) == timer.limit().nanos,
        timer.expired_at(now) <==> now.nanos - timer.last().nanos >= timer.limit().nanos,
{
}

/// A timer read before its last activity counts no idle time.
pub proof fn clock_behind_activity_counts_nothing(timer: AutoLock, now: Instant)
    requires
        now.nanos <= timer.last().nanos,
    ensures
        timer.left_at(now) == timer.limit().nanos,
        timer.expired_at(now) <==> timer.limit().nanos == 0,
{
}

} // verus!
