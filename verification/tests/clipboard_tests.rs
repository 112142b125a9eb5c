use std::sync::{Arc, Mutex};

use offline_vault::clipboard::{ClipboardBackend, ClipboardGuard, NullClipboard, CLEAR_AFTER};
use offline_vault::clock::{Duration, Instant};
use offline_vault::error::Error;

#[derive(Clone, Default)]
struct State {
    content: Arc<Mutex<Option<String>>>,
    set_calls: Arc<Mutex<u32>>,
    clear_calls: Arc<Mutex<u32>>,
    /// When true, `get_text` returns `Err(Error::Clipboard)`, emulating a
    /// clipboard that is temporarily unavailable.
    fail_get: Arc<Mutex<bool>>,
}

impl State {
    fn content(&self) -> Option<String> {
        self.content.lock().unwrap().clone()
    }
    fn clear_calls(&self) -> u32 {
        *self.clear_calls.lock().unwrap()
    }
    fn set_calls(&self) -> u32 {
        *self.set_calls.lock().unwrap()
    }
    fn set_fail_get(&self, v: bool) {
        *self.fail_get.lock().unwrap() = v;
    }
}

struct MockClipboard {
    state: State,
}

impl ClipboardBackend for MockClipboard {
    fn get_text(&mut self) -> Result<String, Error> {
        if *self.state.fail_get.lock().unwrap() {
            return Err(Error::Clipboard);
        }
        self.state
            .content
            .lock()
            .unwrap()
            .clone()
            .ok_or(Error::Clipboard)
    }
    fn set_text(&mut self, text: String) -> Result<(), Error> {
        *self.state.content.lock().unwrap() = Some(text);
        *self.state.set_calls.lock().unwrap() += 1;
        Ok(())
    }
    fn clear(&mut self) -> Result<(), Error> {
        *self.state.content.lock().unwrap() = None;
        *self.state.clear_calls.lock().unwrap() += 1;
        Ok(())
    }
}

fn guard_with_mock_backend() -> (ClipboardGuard, State) {
    let state = State::default();
    let backend = Box::new(MockClipboard {
        state: state.clone(),
    });
    (ClipboardGuard::with_backend(backend), state)
}

fn mock() -> (MockClipboard, State) {
    let state = State::default();
    (
        MockClipboard {
            state: state.clone(),
        },
        state,
    )
}

fn short_guard(state: State, ms: u64) -> ClipboardGuard {
    let mut guard = ClipboardGuard::with_backend(Box::new(MockClipboard { state }));
    guard.set_clear_after(Duration::from_millis(ms));
    guard
}

/// Let the time pass until the pending clear of the guard is due.
fn wait_until_due(guard: &ClipboardGuard) {
    let deadline = guard.deadline().unwrap();
    while guard.clock().now().nanos < deadline.nanos {}
}

/// Backend that takes one text and refuses every later one.
struct TakesOnce {
    inner: MockClipboard,
}

impl ClipboardBackend for TakesOnce {
    fn get_text(&mut self) -> Result<String, Error> {
        self.inner.get_text()
    }
    fn set_text(&mut self, text: String) -> Result<(), Error> {
        if self.inner.state.set_calls() > 0 {
            return Err(Error::Clipboard);
        }
        self.inner.set_text(text)
    }
    fn clear(&mut self) -> Result<(), Error> {
        self.inner.clear()
    }
}

/// Backend whose `set_text` always fails.
struct FailingSetBackend;

impl ClipboardBackend for FailingSetBackend {
    fn get_text(&mut self) -> Result<String, Error> {
        Err(Error::Clipboard)
    }
    fn set_text(&mut self, _text: String) -> Result<(), Error> {
        Err(Error::Clipboard)
    }
    fn clear(&mut self) -> Result<(), Error> {
        Err(Error::Clipboard)
    }
}

#[test]
fn copy_stores_secret_and_sets_deadline() {
    let (_mock, state) = mock();
    let mut guard = short_guard(state.clone(), 1000);
    guard.copy("hunter2hunter2").unwrap();
    assert_eq!(
        state.content(),
        Some("hunter2hunter2".to_string())
    );
    assert_eq!(guard.secret().as_slice(), b"hunter2hunter2");
    assert!(guard.deadline().is_some());
}

#[test]
fn clipboard_poll_before_deadline_does_nothing() {
    let (_mock, state) = mock();
    let mut guard = short_guard(state.clone(), 60_000);
    guard.copy("secret").unwrap();
    guard.poll();
    assert_eq!(
        state.content(),
        Some("secret".to_string())
    );
    assert_eq!(state.clear_calls(), 0);
}

#[test]
fn poll_after_deadline_clears_when_unchanged() {
    let (_mock, state) = mock();
    let mut guard = short_guard(state.clone(), 5);
    guard.copy("secret").unwrap();
    wait_until_due(&guard);
    guard.poll();
    assert!(state.content().is_none());
    assert_eq!(state.clear_calls(), 1);
    // The retained secret has been wiped.
    assert!(guard.secret().as_slice().iter().all(|&b| b == 0));
}

#[test]
fn poll_after_deadline_does_not_clear_if_replaced() {
    let (_mock, state) = mock();
    let mut guard = short_guard(state.clone(), 5);
    guard.copy("ours").unwrap();
    // Another app replaces the clipboard before the deadline.
    *state.content.lock().unwrap() = Some("theirs".to_string());
    wait_until_due(&guard);
    guard.poll();
    // We must not have cleared the other app's data.
    assert_eq!(
        state.content(),
        Some("theirs".to_string())
    );
    assert_eq!(state.clear_calls(), 0);
    // Our retained copy is still wiped.
    assert!(guard.secret().as_slice().iter().all(|&b| b == 0));
}

#[test]
fn poll_after_deadline_does_not_clear_if_emptied() {
    let (_mock, state) = mock();
    let mut guard = short_guard(state.clone(), 5);
    guard.copy("ours").unwrap();
    // Someone else clears the clipboard.
    *state.content.lock().unwrap() = None;
    wait_until_due(&guard);
    guard.poll();
    // `get_text` returns Err in the mock; we must not panic and must not
    // call clear again.
    assert_eq!(state.clear_calls(), 0);
    assert!(guard.secret().as_slice().iter().all(|&b| b == 0));
}

#[test]
fn clipboard_second_copy_replaces_first() {
    let (_mock, state) = mock();
    let mut guard = short_guard(state.clone(), 60_000);
    guard.copy("first").unwrap();
    guard.copy("second").unwrap();
    assert_eq!(
        state.content(),
        Some("second".to_string())
    );
    assert_eq!(guard.secret().as_slice(), b"second");
}

#[test]
fn cancel_wipes_secret_and_clears_deadline() {
    let (_mock, state) = mock();
    let mut guard = short_guard(state.clone(), 60_000);
    guard.copy("secret").unwrap();
    guard.cancel();
    assert!(guard.secret().as_slice().iter().all(|&b| b == 0));
    assert!(guard.deadline().is_none());
    // Clipboard content is left alone by cancel().
    assert_eq!(
        state.content(),
        Some("secret".to_string())
    );
}

#[test]
fn drop_attempts_conditional_clear() {
    let (_mock, state) = mock();
    {
        let mut guard = short_guard(state.clone(), 60_000);
        guard.copy("secret").unwrap();
        // Drop runs while the clipboard still contains our secret.
    }
    assert!(state.content().is_none());
}

#[test]
fn clear_after_is_20_seconds() {
    // This is a security-relevant constant. If it changes, this test forces
    // a review.
    assert_eq!(Duration::from_secs(CLEAR_AFTER), Duration::from_secs(20));
}

#[test]
fn copy_places_value_on_clipboard() {
    let (mut guard, state) = guard_with_mock_backend();
    guard.copy("pending-secret").unwrap();
    assert_eq!(state.content(), Some("pending-secret".to_string()));
    assert_eq!(state.set_calls(), 1);
    assert_eq!(state.clear_calls(), 0);
}

#[test]
fn clipboard_tests_second_copy_replaces_first() {
    let (mut guard, state) = guard_with_mock_backend();
    guard.copy("first").unwrap();
    guard.copy("second").unwrap();
    assert_eq!(state.content(), Some("second".to_string()));
    assert_eq!(state.set_calls(), 2);
    // No clear should have run: no deadline has elapsed.
    assert_eq!(state.clear_calls(), 0);
}

#[test]
fn copy_does_not_clear_previously_pending_on_second_call() {
    // A second `copy` replaces the retained secret and the clipboard
    // contents, but it must not invoke `clear` on the backend.
    let (mut guard, state) = guard_with_mock_backend();
    guard.copy("one").unwrap();
    guard.copy("two").unwrap();
    assert_eq!(state.clear_calls(), 0);
}

#[test]
fn clipboard_tests_poll_before_deadline_does_nothing() {
    // The deadline is CLEAR_AFTER (20 seconds). Polling immediately must be
    // a no-op: the clipboard still holds our value and no clear was called.
    let (mut guard, state) = guard_with_mock_backend();
    guard.copy("still-here").unwrap();
    guard.poll();
    assert_eq!(state.content(), Some("still-here".to_string()));
    assert_eq!(state.clear_calls(), 0);
}

#[test]
fn repeated_poll_before_deadline_is_idempotent() {
    let (mut guard, state) = guard_with_mock_backend();
    guard.copy("value").unwrap();
    for _ in 0..8 {
        guard.poll();
    }
    assert_eq!(state.content(), Some("value".to_string()));
    assert_eq!(state.clear_calls(), 0);
}

#[test]
fn cancel_does_not_touch_clipboard() {
    // `cancel` drops our copy of the secret but leaves whatever is on the
    // clipboard alone. This is deliberate: another application may have
    // replaced it since our copy, and clearing blind would risk clobbering
    // their data.
    let (mut guard, state) = guard_with_mock_backend();
    guard.copy("ours").unwrap();
    guard.cancel();
    assert_eq!(state.content(), Some("ours".to_string()));
    assert_eq!(state.clear_calls(), 0);
}

#[test]
fn cancel_is_safe_without_a_prior_copy() {
    let (mut guard, _state) = guard_with_mock_backend();
    guard.cancel();
    // No panic, no backend call.
}

#[test]
fn cancel_after_copy_then_poll_does_not_clear() {
    let (mut guard, state) = guard_with_mock_backend();
    guard.copy("ours").unwrap();
    guard.cancel();
    guard.poll();
    // The deadline was cleared by `cancel`, so `poll` has nothing to do.
    assert_eq!(state.content(), Some("ours".to_string()));
    assert_eq!(state.clear_calls(), 0);
}

#[test]
fn copy_propagates_backend_error() {
    let mut guard = ClipboardGuard::with_backend(Box::new(FailingSetBackend));
    let err = guard.copy("value").unwrap_err();
    assert!(matches!(err, Error::Clipboard));
}

#[test]
fn drop_with_no_pending_copy_is_a_noop() {
    let state = State::default();
    {
        let _guard = ClipboardGuard::with_backend(Box::new(MockClipboard {
            state: state.clone(),
        }));
    }
    assert_eq!(state.clear_calls(), 0);
    assert_eq!(state.set_calls(), 0);
}

#[test]
fn drop_after_cancel_does_not_clear() {
    let state = State::default();
    {
        let mut guard = ClipboardGuard::with_backend(Box::new(MockClipboard {
            state: state.clone(),
        }));
        guard.copy("value").unwrap();
        guard.cancel();
    }
    // `cancel` cleared the deadline, so `Drop` must not attempt a clear.
    assert_eq!(state.clear_calls(), 0);
    assert_eq!(state.content(), Some("value".to_string()));
}

#[test]
fn guard_accepts_any_boxed_backend() {
    // Compile-time exercise of the trait-object form used by `App`.
    let state = State::default();
    let backend: Box<dyn ClipboardBackend> = Box::new(MockClipboard {
        state: state.clone(),
    });
    let mut guard = ClipboardGuard::with_backend(backend);
    guard.copy("x").unwrap();
    assert_eq!(state.content(), Some("x".to_string()));
}

#[test]
fn failing_get_backend_is_tolerated_by_poll() {
    // When the clipboard is temporarily unreadable, `poll` must not panic
    // and must not attempt a blind clear. Since the deadline has not
    // elapsed here, we only assert that the call is safe.
    let (mut guard, state) = guard_with_mock_backend();
    guard.copy("ours").unwrap();
    state.set_fail_get(true);
    guard.poll();
    assert_eq!(state.clear_calls(), 0);
}

#[test]
fn clear_is_due_exactly_at_the_deadline() {
    let (mut guard, state) = guard_with_mock_backend();
    let start = Instant { nanos: 1_000 };
    guard.copy_at("secret", start).unwrap();
    assert_eq!(guard.deadline(), Some(start.after(Duration::from_secs(20))));

    guard.poll_at(Instant { nanos: 20_000_000_999 });
    assert_eq!(state.content(), Some("secret".to_string()));
    assert_eq!(guard.secret().as_slice(), b"secret");

    guard.poll_at(Instant { nanos: 20_000_001_000 });
    assert_eq!(state.content(), None);
    assert_eq!(state.clear_calls(), 1);
    assert_eq!(guard.secret().as_slice(), &[0u8; 6]);
    assert_eq!(guard.deadline(), None);

    // Nothing is left to clear.
    guard.poll_at(Instant { nanos: 90_000_000_000 });
    assert_eq!(state.clear_calls(), 1);
}

#[test]
fn refused_copy_starts_no_timer() {
    let mut guard = ClipboardGuard::with_backend(Box::new(FailingSetBackend));
    assert_eq!(guard.copy_at("value", Instant { nanos: 5 }), Err(Error::Clipboard));
    assert_eq!(guard.deadline(), None);
    assert!(guard.secret().is_empty());
}

#[test]
fn refused_copy_keeps_the_timer_and_drops_the_previous_secret() {
    let (inner, state) = mock();
    let mut guard = ClipboardGuard::with_backend(Box::new(TakesOnce { inner }));
    guard.copy_at("first", Instant { nanos: 5 }).unwrap();
    let deadline = guard.deadline();
    assert!(deadline.is_some());
    assert_eq!(
        guard.copy_at("second", Instant { nanos: 7 }),
        Err(Error::Clipboard)
    );
    assert_eq!(guard.deadline(), deadline);
    assert!(guard.secret().is_empty());

    // Whatever is on the clipboard at the deadline is not taken for ours.
    for text in ["\0\0\0\0\0", "second", "first"] {
        *state.content.lock().unwrap() = Some(text.to_string());
        assert!(!guard.still_ours(&Ok(text.to_string())));
    }
    *state.content.lock().unwrap() = Some("\0\0\0\0\0".to_string());
    guard.poll_at(deadline.unwrap());
    assert_eq!(state.content(), Some("\0\0\0\0\0".to_string()));
    assert_eq!(state.clear_calls(), 0);
    assert_eq!(guard.deadline(), None);
}

#[test]
fn still_ours_needs_the_same_text() {
    let (mut guard, _state) = guard_with_mock_backend();
    guard.copy("pässword").unwrap();
    assert!(guard.still_ours(&Ok("pässword".to_string())));
    assert!(!guard.still_ours(&Ok("password".to_string())));
    assert!(!guard.still_ours(&Err(Error::Clipboard)));
    guard.cancel();
}

#[test]
fn shutdown_clears_a_pending_secret_once() {
    let (mut guard, state) = guard_with_mock_backend();
    guard.copy("secret").unwrap();
    guard.shutdown();
    assert_eq!(state.content(), None);
    assert_eq!(state.clear_calls(), 1);
    guard.shutdown();
    drop(guard);
    assert_eq!(state.clear_calls(), 1);
}

#[test]
fn null_clipboard_is_unavailable() {
    let mut null = NullClipboard;
    assert_eq!(null.get_text(), Err(Error::Clipboard));
    assert_eq!(null.set_text("x".to_string()), Err(Error::Clipboard));
    assert_eq!(null.clear(), Err(Error::Clipboard));
    let mut guard = ClipboardGuard::with_backend(Box::new(NullClipboard));
    assert_eq!(guard.copy("x"), Err(Error::Clipboard));
    let mut guard = ClipboardGuard::without_clipboard();
    assert_eq!(guard.copy("x"), Err(Error::Clipboard));
    assert_eq!(guard.deadline(), None);
    assert!(guard.secret().is_empty());
}
