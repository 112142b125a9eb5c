//! Clipboard handling with conditional auto-clear.
//!
//! A copied secret is placed on the clipboard, a copy of it is retained, and a
//! deadline is set. Once the deadline has passed, the clipboard is read and
//! compared, in constant time, with the retained copy: if and only if they are
//! equal the clipboard is cleared, and the retained copy is wiped either way.
//! Text that is not the retained copy is therefore never cleared.

use vstd::prelude::*;

use crate::clipboard_port::ClipboardPort;
use crate::clock::{Clock, Duration, Instant};
use crate::error::{Error, Result};
use crate::security::SecureBuffer;

pub use crate::clipboard_port::ClipboardCall;

verus! {

/// How long a copied secret stays on the clipboard before an attempt to clear
/// it, in seconds.
pub const CLEAR_AFTER: u64 = 20;

/// Minimal clipboard abstraction. A method that an implementation leaves out
/// reports that the clipboard is not available. No method may panic.
pub trait ClipboardBackend {
    /// The text that is on the clipboard.
    fn get_text(&mut self) -> (r: Result<String>)
        default_ensures
            r == Err::<String, Error>(Error::Clipboard),
        opens_invariants none
        no_unwind
    {
        Err(Error::Clipboard)
    }

    /// Replace what is on the clipboard.
    fn set_text(&mut self, text: String) -> (r: Result<()>)
        default_ensures
            r == Err::<(), Error>(Error::Clipboard),
        opens_invariants none
        no_unwind
    {
        Err(Error::Clipboard)
    }

    /// Remove what is on the clipboard.
    fn clear(&mut self) -> (r: Result<()>)
        default_ensures
            r == Err::<(), Error>(Error::Clipboard),
        opens_invariants none
        no_unwind
    {
        Err(Error::Clipboard)
    }
}

/// Clipboard for when there is none: every operation reports that the clipboard
/// is unavailable.
pub struct NullClipboard;

impl ClipboardBackend for NullClipboard {

}

/// Whether a clipboard read gave exactly the retained secret.
pub open spec fn is_secret(read: Result<Seq<char>>, secret: Seq<u8>) -> bool {
    read matches Ok(text) && vstd::utf8::encode_utf8(text) == secret
}

/// The calls of a conditional clear whose read came out as `read`: the
/// clipboard is cleared only if the read gave the secret.
pub open spec fn conditional_clear(read: Result<Seq<char>>, secret: Seq<u8>) -> Seq<ClipboardCall> {
    if is_secret(read, secret) {
        seq![ClipboardCall::GetText { read }, ClipboardCall::Clear]
    } else {
        seq![ClipboardCall::GetText { read }]
    }
}

/// What a guard amounts to.
pub ghost struct GuardView {
    /// The calls that were made to the clipboard, oldest first.
    pub history: Seq<ClipboardCall>,
    /// The retained secret.
    pub secret: Seq<u8>,
    /// When to attempt the clear, if one is pending.
    pub deadline: Option<Instant>,
    /// How long to wait after a copy.
    pub clear_after: Duration,
    /// The clock that the guard reads.
    pub clock: Clock,
    /// Whether there is no clipboard.
    pub missing: bool,
}

impl GuardView {
    /// A guard with nothing pending that has not touched the clipboard, with the
    /// usual delay.
    pub open spec fn idle(clock: Clock, missing: bool) -> GuardView {
        GuardView {
            history: Seq::empty(),
            secret: Seq::empty(),
            deadline: None,
            clear_after: Duration { nanos: (CLEAR_AFTER * 1_000_000_000) as u128 },
            clock,
            missing,
        }
    }

    /// Whether the clipboard can answer with `outcome` when a text is placed on
    /// it. One that is missing takes none.
    pub open spec fn answers(self, outcome: Result<()>) -> bool {
        self.missing ==> outcome == Err::<(), Error>(Error::Clipboard)
    }

    /// Whether a clear is due at `now`.
    pub open spec fn due_at(self, now: Instant) -> bool {
        self.deadline matches Some(deadline) && now.nanos >= deadline.nanos
    }

    /// The guard after copying `value` at `now`, for the outcome that the
    /// clipboard gave. A refusal leaves the timer as it was and nothing
    /// retained.
    pub open spec fn copied(self, value: Seq<char>, outcome: Result<()>, now: Instant) -> GuardView {
        let history = self.history.push(ClipboardCall::SetText { text: value, outcome });
        match outcome {
            Ok(_) => GuardView {
                history,
                secret: vstd::utf8::encode_utf8(value),
                deadline: Some(
                    Instant { nanos: crate::clock::saturated(now.nanos + self.clear_after.nanos) },
                ),
                ..self
            },
            Err(_) => GuardView { history, secret: Seq::empty(), ..self },
        }
    }

    /// The guard after a conditional clear whose read came out as `read`:
    /// nothing is pending or retained any more.
    pub open spec fn cleared(self, read: Result<Seq<char>>) -> GuardView {
        GuardView {
            history: self.history + conditional_clear(read, self.secret),
            secret: crate::security::zeros(self.secret.len()),
            deadline: None,
            ..self
        }
    }

    /// Whether `after` can be what polling at `now` makes of the guard: nothing
    /// changes before the deadline; from then on there is one conditional
    /// clear, whatever the clipboard answers.
    pub open spec fn polled(self, after: GuardView, now: Instant) -> bool {
        if self.due_at(now) {
            exists|read: Result<Seq<char>>| after == #[trigger] self.cleared(read)
        } else {
            after == self
        }
    }

    /// The guard after a cancellation.
    pub open spec fn cancelled(self) -> GuardView {
        GuardView {
            secret: crate::security::zeros(self.secret.len()),
            deadline: None,
            ..self
        }
    }
}

/// Owns the clipboard and the state needed for conditional clearing.
pub struct ClipboardGuard {
    backend: ClipboardPort,
    secret: SecureBuffer,
    deadline: Option<Instant>,
    clear_after: Duration,
    clock: Clock,
}

impl View for ClipboardGuard {
    type V = GuardView;

    closed spec fn view(&self) -> GuardView {
        GuardView {
            history: self.backend@,
            secret: self.secret@,
            deadline: self.deadline,
            clear_after: self.clear_after,
            clock: self.clock,
            missing: self.backend.is_missing(),
        }
    }
}

impl ClipboardGuard {
    /// A guard over the given clipboard, with nothing pending.
    pub fn with_backend(backend: Box<dyn ClipboardBackend>) -> (guard: Self)
        ensures
            guard@ == GuardView::idle(guard@.clock, false),
            guard@.clock.is_started(),
    {
        Self::over(ClipboardPort::new(backend))
    }

    /// A guard for when there is no clipboard: every copy is refused with
    /// [`Error::Clipboard`].
    pub fn without_clipboard() -> (guard: Self)
        ensures
            guard@ == GuardView::idle(guard@.clock, true),
            guard@.clock.is_started(),
    {
        Self::over(ClipboardPort::missing())
    }

    /// A guard over the way to a clipboard, with nothing pending.
    fn over(backend: ClipboardPort) -> (guard: Self)
        requires
            backend@ == Seq::<ClipboardCall>::empty(),
        ensures
            guard@ == GuardView::idle(guard@.clock, backend.is_missing()),
            guard@.clock.is_started(),
    {
        ClipboardGuard {
            backend,
            secret: SecureBuffer::new(),
            deadline: None,
            clear_after: Duration::from_secs(CLEAR_AFTER),
            clock: Clock::start(),
        }
    }

    /// Change how long to wait after a copy before attempting to clear.
    pub fn set_clear_after(&mut self, clear_after: Duration)
        ensures
            final(self)@ == (GuardView { clear_after, ..old(self)@ }),
    {
        self.clear_after = clear_after;
    }

    /// The retained secret.
    pub fn secret(&self) -> (s: &SecureBuffer)
        ensures
            s@ == self@.secret,
    {
        &self.secret
    }

    /// When the clear will be attempted, if one is pending.
    pub fn deadline(&self) -> (d: Option<Instant>)
        ensures
            d == self@.deadline,
    {
        self.deadline
    }

    /// The clock that the guard reads.
    pub fn clock(&self) -> (clock: &Clock)
        ensures
            *clock == self@.clock,
    {
        &self.clock
    }

    /// Place `value` on the clipboard and start the clear timer now.
    ///
    /// Any previous secret is wiped first. If the clipboard refuses, its error
    /// is returned, nothing is retained and the timer is left as it was.
    pub fn copy(&mut self, value: &str) -> (r: Result<()>)
        ensures
            old(self)@.answers(r),
            exists|now: Instant|
                old(self)@.clock.shows(now) && final(self)@ == #[trigger] old(self)@.copied(
                    value@,
                    r,
                    now,
                ),
    {
        let outcome = self.place(value);
        let now = self.clock.now();
        self.settle(value, outcome, now);
        assert(self@ == old(self)@.copied(value@, outcome, now));
        outcome
    }

    /// Place `value` on the clipboard and start the clear timer at `now`.
    pub fn copy_at(&mut self, value: &str, now: Instant) -> (r: Result<()>)
        ensures
            old(self)@.answers(r),
            final(self)@ == old(self)@.copied(value@, r, now),
    {
        let outcome = self.place(value);
        self.settle(value, outcome, now);
        outcome
    }

    /// Wipe and drop the previous secret and place `value` on the clipboard.
    fn place(&mut self, value: &str) -> (outcome: Result<()>)
        ensures
            old(self)@.answers(outcome),
            final(self)@ == (GuardView {
                history: old(self)@.history.push(
                    ClipboardCall::SetText { text: value@, outcome },
                ),
                secret: Seq::empty(),
                ..old(self)@
            }),
    {
        self.secret.wipe();
        self.secret = SecureBuffer::new();
        self.backend.set_text(value.to_owned())
    }

    /// Retain what was placed and start the timer at `now`, unless the
    /// clipboard refused it.
    fn settle(&mut self, value: &str, outcome: Result<()>, now: Instant)
        ensures
            final(self)@ == (match outcome {
                Ok(_) => GuardView {
                    secret: vstd::utf8::encode_utf8(value@),
                    deadline: Some(
                        Instant {
                            nanos: crate::clock::saturated(
                                now.nanos + old(self)@.clear_after.nanos,
                            ),
                        },
                    ),
                    ..old(self)@
                },
                Err(_) => old(self)@,
            }),
    {
        if outcome.is_ok() {
            self.secret = SecureBuffer::from_slice(value.as_bytes());
            self.deadline = Some(now.after(self.clear_after));
        }
    }

    /// Advance the auto-clear state machine now. Safe to call every frame.
    pub fn poll(&mut self)
        ensures
            exists|now: Instant|
                old(self)@.clock.shows(now) && #[trigger] old(self)@.polled(final(self)@, now),
    {
        let now = self.clock.now();
        self.poll_at(now);
        assert(old(self)@.polled(self@, now));
    }

    /// Advance the auto-clear state machine at `now`.
    pub fn poll_at(&mut self, now: Instant)
        ensures
            old(self)@.polled(final(self)@, now),
    {
        if let Some(deadline) = self.deadline {
            if now.nanos >= deadline.nanos {
                self.try_clear();
            }
        }
    }

    /// Cancel any pending clear and wipe the retained secret. The clipboard is
    /// not touched.
    pub fn cancel(&mut self)
        ensures
            final(self)@ == old(self)@.cancelled(),
    {
        self.secret.wipe();
        self.deadline = None;
    }

    /// Whether what was read from the clipboard is still the secret that the
    /// guard put there. An unreadable clipboard is not.
    pub fn still_ours(&self, read: &Result<String>) -> (r: bool)
        ensures
            r == is_secret(crate::error::viewed(*read), self@.secret),
        opens_invariants none
        no_unwind
    {
        match read {
            Ok(text) => self.secret.holds(text),
            Err(_) => false,
        }
    }

    /// The conditional clear itself. If the clipboard cannot be read it is not
    /// touched: clearing blind could lose another application's data.
    fn try_clear(&mut self)
        ensures
            exists|read: Result<Seq<char>>| final(self)@ == #[trigger] old(self)@.cleared(read),
        opens_invariants none
        no_unwind
    {
        let current = self.backend.get_text();
        let ghost read = crate::error::viewed(current);
        if self.still_ours(&current) {
            // A failure here is not actionable.
            let _ = self.backend.clear();
        }
        self.secret.wipe();
        self.deadline = None;
        assert(self@.history =~= old(self)@.cleared(read).history);
        assert(self@ == old(self)@.cleared(read));
    }

    /// On the way out, attempt a pending clear early, so that a secret is not
    /// left behind. Nothing happens if nothing is pending.
    pub fn shutdown(&mut self)
        ensures
            old(self)@.deadline is None ==> final(self)@ == old(self)@,
            old(self)@.deadline is Some ==> exists|read: Result<Seq<char>>|
                final(self)@ == #[trigger] old(self)@.cleared(read),
        opens_invariants none
        no_unwind
    {
        if let Some(_) = self.deadline {
            self.try_clear();
        }
    }
}

impl Drop for ClipboardGuard {
    fn drop(&mut self)
        ensures
            old(self)@.deadline is None ==> final(self)@ == old(self)@,
            old(self)@.deadline is Some ==> exists|read: Result<Seq<char>>|
                final(self)@ == #[trigger] old(self)@.cleared(read),
        opens_invariants none
        no_unwind
    {
        self.shutdown();
    }
}

/// A conditional clear empties the clipboard exactly when it still holds the
/// secret, and never puts anything on it.
pub proof fn clears_only_its_own(read: Result<Seq<char>>, secret: Seq<u8>)
    ensures
        conditional_clear(read, secret).contains(ClipboardCall::Clear) <==> is_secret(read, secret),
        forall|i: int|
            0 <= i < conditional_clear(read, secret).len() ==> !(#[trigger] conditional_clear(
                read,
                secret,
            )[i] is SetText),
{
    if is_secret(read, secret) {
        assert(conditional_clear(read, secret)[1] == ClipboardCall::Clear);
    }
}

/// A copied secret is due when the delay of the guard has passed and not
/// before; a poll that finds it due makes one conditional clear for it and
/// leaves nothing pending and nothing retained.
pub proof fn copied_secret_is_dropped_on_time(
    guard: GuardView,
    after: GuardView,
    value: Seq<char>,
    start: Instant,
    now: Instant,
)
    requires
        start.nanos + guard.clear_after.nanos <= u128::MAX,
        guard.copied(value, Ok(()), start).polled(after, now),
    ensures
        ({
            let copied = guard.copied(value, Ok(()), start);
            let due = now.nanos - start.nanos >= guard.clear_after.nanos;
            &&& copied.due_at(now) <==> due
            &&& !due ==> after == copied
            &&& due ==> after.deadline is None && after.secret == crate::security::zeros(
                vstd::utf8::encode_utf8(value).len(),
            ) && exists|read: Result<Seq<char>>|
                after.history == copied.history + #[trigger] conditional_clear(
                    read,
                    vstd::utf8::encode_utf8(value),
                )
        }),
{
    let copied = guard.copied(value, Ok(()), start);
    if copied.due_at(now) {
        let read = choose|read: Result<Seq<char>>| after == #[trigger] copied.cleared(read);
        assert(after.history == copied.history + conditional_clear(read, copied.secret));
    }
}

/// After a refused copy nothing is taken for the guard's own, even if a clear is
/// still pending from an earlier copy: a clipboard that holds any text at all is
/// not cleared.
pub proof fn refused_copy_claims_nothing(
    guard: GuardView,
    value: Seq<char>,
    error: Error,
    start: Instant,
    text: Seq<char>,
)
    requires
        text.len() > 0,
    ensures
        ({
            let refused = guard.copied(value, Err(error), start);
            &&& refused.secret.len() == 0
            &&& !is_secret(Ok(text), refused.secret)
            &&& !conditional_clear(Ok(text), refused.secret).contains(ClipboardCall::Clear)
        }),
{
    let refused = guard.copied(value, Err(error), start);
    let none = Seq::<char>::empty();
    vstd::utf8::encode_utf8_decode_utf8(text);
    vstd::utf8::encode_utf8_decode_utf8(none);
    if is_secret(Ok(text), refused.secret) {
        assert(vstd::utf8::encode_utf8(none).len() == 0);
        assert(vstd::utf8::encode_utf8(text) =~= vstd::utf8::encode_utf8(none));
    }
    clears_only_its_own(Ok(text), refused.secret);
}

/// Cancelling makes no call to the clipboard, and neither does any later poll:
/// nothing is pending, and every byte of the retained secret is zero.
pub proof fn cancelling_leaves_the_clipboard_alone(guard: GuardView, now: Instant, after: GuardView)
    requires
        guard.cancelled().polled(after, now),
    ensures
        guard.cancelled().history == guard.history,
        after == guard.cancelled(),
        forall|i: int|
            0 <= i < after.secret.len() ==> #[trigger] after.secret[i] == 0,
{
}

/// Once a poll has found a secret due, no later poll makes a call until the next
/// copy.
pub proof fn a_secret_is_dealt_with_once(
    guard: GuardView,
    now: Instant,
    after: GuardView,
    later: Instant,
    then: GuardView,
)
    requires
        guard.due_at(now),
        guard.polled(after, now),
        after.polled(then, later),
    ensures
        then == after,
{
}

/// A second copy replaces the first: the first secret is not retained, and the
/// delay starts again.
pub proof fn second_copy_replaces_first(
    guard: GuardView,
    first: Seq<char>,
    second: Seq<char>,
    start: Instant,
    later: Instant,
)
    ensures
        ({
            let twice = guard.copied(first, Ok(()), start).copied(second, Ok(()), later);
            let once = guard.copied(second, Ok(()), later);
            &&& twice.secret == once.secret
            &&& twice.deadline == once.deadline
        }),
{
}

} // verus!
