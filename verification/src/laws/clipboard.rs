//! What happens to a copied secret.

use vstd::prelude::*;

use crate::clipboard;
use crate::clipboard::{ClipboardCall, ClipboardGuard, GuardView};
use crate::clock::{Clock, Instant};
use crate::error::{Error, Result};

verus! {

/// Texts with the same bytes are the same.
proof fn bytes_tell_texts_apart(a: Seq<char>, b: Seq<char>)
    ensures
        vstd::utf8::encode_utf8(a) == vstd::utf8::encode_utf8(b) ==> a == b,
{
    vstd::utf8::encode_utf8_decode_utf8(a);
    vstd::utf8::encode_utf8_decode_utf8(b);
}

/// The clipboard is read once, and cleared exactly if it still holds the text
/// that was copied, character for character.
pub proof fn only_the_copied_text_is_cleared(read: Result<Seq<char>>, value: Seq<char>)
    ensures
        clipboard::is_secret(read, vstd::utf8::encode_utf8(value)) <==> read == Ok::<
            Seq<char>,
            Error,
        >(value),
        clipboard::conditional_clear(read, vstd::utf8::encode_utf8(value)) == (if read == Ok::<
            Seq<char>,
            Error,
        >(value) {
            seq![ClipboardCall::GetText { read }, ClipboardCall::Clear]
        } else {
            seq![ClipboardCall::GetText { read }]
        }),
{
    if let Ok(text) = read {
        bytes_tell_texts_apart(text, value);
    }
}

/// A copy hands exactly the value to the clipboard. If it was taken, the value is
/// retained and the clear set for the delay from now; if not, nothing is retained
/// and the timer stays. Nothing else changes.
pub proof fn a_copy_places_the_value(
    guard: GuardView,
    value: Seq<char>,
    outcome: Result<()>,
    now: Instant,
)
    ensures
        ({
            let after = guard.copied(value, outcome, now);
            &&& after.history.len() == guard.history.len() + 1
            &&& after.history.drop_last() == guard.history
            &&& after.history.last() == (ClipboardCall::SetText { text: value, outcome })
            &&& after.clear_after == guard.clear_after
            &&& after.clock == guard.clock
            &&& after.missing == guard.missing
            &&& outcome is Ok ==> after.secret == vstd::utf8::encode_utf8(value)
                && after.deadline is Some
            &&& outcome is Ok && now.nanos + guard.clear_after.nanos <= u128::MAX
                ==> after.deadline->0.nanos == now.nanos + guard.clear_after.nanos
            &&& outcome is Ok && now.nanos + guard.clear_after.nanos > u128::MAX
                ==> after.deadline->0.nanos == u128::MAX
            &&& outcome is Err ==> after.secret.len() == 0 && after.deadline == guard.deadline
        }),
{
    assert(guard.copied(value, outcome, now).history.drop_last() =~= guard.history);
}

/// Before the deadline a poll does nothing. From then on it makes one conditional
/// clear for the retained bytes, wipes them and forgets the deadline.
pub proof fn a_poll_waits_for_the_deadline(guard: GuardView, after: GuardView, now: Instant)
    requires
        guard.polled(after, now),
    ensures
        guard.deadline is None ==> after == guard,
        guard.deadline matches Some(deadline) ==> (now.nanos < deadline.nanos ==> after == guard),
        guard.deadline matches Some(deadline) ==> (now.nanos >= deadline.nanos ==> {
            &&& after.deadline is None
            &&& after.secret.len() == guard.secret.len()
            &&& forall|i: int| 0 <= i < after.secret.len() ==> #[trigger] after.secret[i] == 0
            &&& after.clear_after == guard.clear_after
            &&& after.clock == guard.clock
            &&& after.missing == guard.missing
            &&& exists|read: Result<Seq<char>>|
                after.history == guard.history + #[trigger] clipboard::conditional_clear(
                    read,
                    guard.secret,
                )
        }),
{
    if guard.due_at(now) {
        let read = choose|read: Result<Seq<char>>| after == #[trigger] guard.cleared(read);
        assert(after.history == guard.history + clipboard::conditional_clear(read, guard.secret));
    }
}

/// From copy to clear: twenty seconds after a copy with the usual delay, and not
/// before, the clipboard is read once; it is cleared exactly if it holds the
/// copied text, and left alone otherwise.
pub proof fn a_copied_text_is_cleared_on_time(
    clock: Clock,
    value: Seq<char>,
    start: Instant,
    now: Instant,
    after: GuardView,
)
    requires
        start.nanos <= now.nanos,
        start.nanos + 20_000_000_000 <= u128::MAX,
        GuardView::idle(clock, false).copied(value, Ok(()), start).polled(after, now),
    ensures
        ({
            let placed = ClipboardCall::SetText { text: value, outcome: Ok(()) };
            &&& now.nanos - start.nanos < 20_000_000_000 ==> after.history == seq![placed]
                && after.secret == vstd::utf8::encode_utf8(value)
            &&& now.nanos - start.nanos >= 20_000_000_000 ==> exists|read: Result<Seq<char>>|
                after.history == #[trigger] cleared_history(placed, read, value)
            &&& now.nanos - start.nanos >= 20_000_000_000 ==> forall|i: int|
                0 <= i < after.secret.len() ==> #[trigger] after.secret[i] == 0
        }),
{
    let guard = GuardView::idle(clock, false);
    let copied = guard.copied(value, Ok(()), start);
    let placed = ClipboardCall::SetText { text: value, outcome: Ok(()) };
    a_copy_places_the_value(guard, value, Ok(()), start);
    a_poll_waits_for_the_deadline(copied, after, now);
    assert(copied.history =~= seq![placed]);
    if now.nanos - start.nanos >= 20_000_000_000 {
        let read = choose|read: Result<Seq<char>>|
            after.history == copied.history + #[trigger] clipboard::conditional_clear(
                read,
                copied.secret,
            );
        only_the_copied_text_is_cleared(read, value);
        assert(after.history =~= cleared_history(placed, read, value));
    }
}

/// The calls of a copy and of the clear that followed it.
pub open spec fn cleared_history(
    placed: ClipboardCall,
    read: Result<Seq<char>>,
    value: Seq<char>,
) -> Seq<ClipboardCall> {
    if read == Ok::<Seq<char>, Error>(value) {
        seq![placed, ClipboardCall::GetText { read }, ClipboardCall::Clear]
    } else {
        seq![placed, ClipboardCall::GetText { read }]
    }
}

/// A conditional clear, early or due, ends with nothing pending and nothing
/// retained.
pub proof fn a_clear_leaves_nothing(guard: GuardView, read: Result<Seq<char>>)
    ensures
        guard.cleared(read).history == guard.history + clipboard::conditional_clear(
            read,
            guard.secret,
        ),
        guard.cleared(read).deadline is None,
        guard.cleared(read).secret.len() == guard.secret.len(),
        forall|i: int|
            0 <= i < guard.secret.len() ==> #[trigger] guard.cleared(read).secret[i] == 0,
        guard.cleared(read).clear_after == guard.clear_after,
        guard.cleared(read).clock == guard.clock,
        guard.cleared(read).missing == guard.missing,
{
}

/// A cancellation makes no call, wipes what is retained and forgets the deadline.
pub proof fn a_cancellation_only_forgets(guard: GuardView)
    ensures
        guard.cancelled().history == guard.history,
        guard.cancelled().deadline is None,
        guard.cancelled().secret.len() == guard.secret.len(),
        forall|i: int|
            0 <= i < guard.secret.len() ==> #[trigger] guard.cancelled().secret[i] == 0,
        guard.cancelled().clear_after == guard.clear_after,
        guard.cancelled().clock == guard.clock,
        guard.cancelled().missing == guard.missing,
{
}

/// A new guard has called nothing, retains nothing, waits for nothing, and will
/// wait twenty seconds after a copy.
pub proof fn a_new_guard_is_idle(clock: Clock, missing: bool)
    ensures
        GuardView::idle(clock, missing).history.len() == 0,
        GuardView::idle(clock, missing).secret.len() == 0,
        GuardView::idle(clock, missing).deadline is None,
        GuardView::idle(clock, missing).clear_after.nanos == 20_000_000_000,
        GuardView::idle(clock, missing).clock == clock,
        GuardView::idle(clock, missing).missing == missing,
{
}

/// A copy at a moment places exactly the value; a poll at a moment waits for the
/// deadline; a cancellation makes no call.
pub proof fn a_guard_does_as_asked()
    ensures
        forall|guard: &mut ClipboardGuard, value: &str, now: Instant, r: Result<()>|
            #[trigger] call_ensures(ClipboardGuard::copy_at, (guard, value, now), r) ==> {
                &&& final(guard)@.history == (*guard)@.history.push(
                    ClipboardCall::SetText { text: value@, outcome: r },
                )
                &&& r is Ok ==> final(guard)@.secret == vstd::utf8::encode_utf8(value@)
                &&& r is Ok && now.nanos + (*guard)@.clear_after.nanos <= u128::MAX
                    ==> final(guard)@.deadline == Some(
                    Instant { nanos: (now.nanos + (*guard)@.clear_after.nanos) as u128 },
                )
                &&& r is Err ==> final(guard)@.secret.len() == 0 && final(guard)@.deadline
                    == (*guard)@.deadline
                &&& (*guard)@.missing ==> r == Err::<(), Error>(Error::Clipboard)
            },
        forall|guard: &mut ClipboardGuard, now: Instant, done: ()|
            #[trigger] call_ensures(ClipboardGuard::poll_at, (guard, now), done) ==> {
                &&& (*guard)@.deadline is None ==> final(guard)@ == (*guard)@
                &&& (*guard)@.deadline is Some && now.nanos < (*guard)@.deadline->0.nanos
                    ==> final(guard)@ == (*guard)@
                &&& (*guard)@.deadline is Some && now.nanos >= (*guard)@.deadline->0.nanos ==> {
                    &&& final(guard)@.deadline is None
                    &&& exists|read: Result<Seq<char>>|
                        final(guard)@.history == (*guard)@.history
                            + #[trigger] clipboard::conditional_clear(read, (*guard)@.secret)
                }
            },
        forall|guard: &mut ClipboardGuard, done: ()|
            #[trigger] call_ensures(ClipboardGuard::cancel, (guard,), done) ==> {
                &&& final(guard)@.history == (*guard)@.history
                &&& final(guard)@.deadline is None
                &&& forall|i: int|
                    0 <= i < final(guard)@.secret.len() ==> #[trigger] final(guard)@.secret[i] == 0
            },
        forall|guard: &ClipboardGuard, read: &Result<String>, ours: bool|
            #[trigger] call_ensures(ClipboardGuard::still_ours, (guard, read), ours) ==> (ours
                <==> (*read is Ok && vstd::utf8::encode_utf8((*read)->Ok_0@) == guard@.secret)),
{
    assert forall|guard: &mut ClipboardGuard, now: Instant, done: ()|
        #[trigger] call_ensures(ClipboardGuard::poll_at, (guard, now), done) && (
        *guard)@.deadline is Some && now.nanos >= (*guard)@.deadline->0.nanos implies final(guard)@.deadline is None && exists|read: Result<Seq<char>>|
        final(guard)@.history == (*guard)@.history + #[trigger] clipboard::conditional_clear(
            read,
            (*guard)@.secret,
        ) by {
        a_poll_waits_for_the_deadline((*guard)@, final(guard)@, now);
    }
}

} // verus!
