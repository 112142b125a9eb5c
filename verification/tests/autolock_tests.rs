use offline_vault::autolock::{
    is_user_activity_event, user_activity_in, AutoLock, InputEvent, DEFAULT_TIMEOUT,
};
use offline_vault::clock::{Clock, Duration, Instant};

fn key_press() -> InputEvent {
    InputEvent::Key { pressed: true }
}

fn key_release() -> InputEvent {
    InputEvent::Key { pressed: false }
}

#[test]
fn fresh_timer_does_not_lock_immediately() {
    let al = AutoLock::with_timeout(Duration::from_secs(180));
    assert!(!al.should_lock());
}

#[test]
fn locks_exactly_at_the_timeout_boundary() {
    let clock = Clock::start();
    let start = clock.now();
    let mut al = AutoLock::with_timeout(Duration::from_secs(180));
    al.note_activity_at(start);
    assert!(!al.should_lock_at(start.after(Duration::from_secs(179))));
    assert!(al.should_lock_at(start.after(Duration::from_secs(180))));
    assert!(al.should_lock_at(start.after(Duration::from_secs(181))));
}

#[test]
fn activity_resets_the_timer() {
    let clock = Clock::start();
    let start = clock.now();
    let mut al = AutoLock::with_timeout(Duration::from_secs(180));
    al.note_activity_at(start);
    let almost = start.after(Duration::from_secs(179));
    assert!(!al.should_lock_at(almost));
    al.note_activity_at(almost);
    assert!(!al.should_lock_at(almost.after(Duration::from_secs(179))));
    assert!(al.should_lock_at(almost.after(Duration::from_secs(180))));
}

#[test]
fn remaining_saturates_at_zero() {
    let clock = Clock::start();
    let start = clock.now();
    let mut al = AutoLock::with_timeout(Duration::from_secs(180));
    al.note_activity_at(start);
    assert_eq!(al.remaining_at(start), Duration::from_secs(180));
    assert_eq!(
        al.remaining_at(start.after(Duration::from_secs(60))),
        Duration::from_secs(120)
    );
    assert_eq!(
        al.remaining_at(start.after(Duration::from_secs(500))),
        Duration { nanos: 0 }
    );
}

#[test]
fn timeout_is_reported_verbatim() {
    let al = AutoLock::with_timeout(Duration::from_secs(42));
    assert_eq!(al.timeout(), Duration::from_secs(42));
}

#[test]
fn key_press_counts_as_activity() {
    assert!(is_user_activity_event(&key_press()));
}

#[test]
fn key_auto_repeat_counts_as_activity() {
    let ev = InputEvent::Key { pressed: true };
    assert!(is_user_activity_event(&ev));
}

#[test]
fn key_release_does_not_count() {
    assert!(!is_user_activity_event(&key_release()));
}

#[test]
fn text_paste_copy_cut_count_as_activity() {
    assert!(is_user_activity_event(&InputEvent::Text));
    assert!(is_user_activity_event(&InputEvent::Paste));
    assert!(is_user_activity_event(&InputEvent::Copy));
    assert!(is_user_activity_event(&InputEvent::Cut));
}

#[test]
fn pointer_movement_counts_as_activity() {
    assert!(is_user_activity_event(&InputEvent::PointerMoved));
}

#[test]
fn pointer_button_press_counts_but_release_does_not() {
    let press = InputEvent::PointerButton { pressed: true };
    let release = InputEvent::PointerButton { pressed: false };
    assert!(is_user_activity_event(&press));
    assert!(!is_user_activity_event(&release));
}

#[test]
fn scroll_counts_as_activity() {
    let ev = InputEvent::MouseWheel;
    assert!(is_user_activity_event(&ev));
}

#[test]
fn framework_events_do_not_count() {
    assert!(!is_user_activity_event(&InputEvent::Other));
    assert!(!is_user_activity_event(&InputEvent::Other));
}

#[test]
fn input_state_with_no_events_has_no_activity() {
    let input: Vec<InputEvent> = Vec::new();
    assert!(!user_activity_in(&input));
}

#[test]
fn input_state_with_a_key_press_has_activity() {
    let mut input: Vec<InputEvent> = Vec::new();
    input.push(key_press());
    assert!(user_activity_in(&input));
}

#[test]
fn input_state_with_only_framework_events_has_no_activity() {
    let mut input: Vec<InputEvent> = Vec::new();
    input.push(InputEvent::Other);
    input.push(InputEvent::Other);
    assert!(!user_activity_in(&input));
}

#[test]
fn default_timeout_is_three_minutes() {
    assert_eq!(Duration::from_secs(DEFAULT_TIMEOUT), Duration::from_secs(3 * 60));
    assert_eq!(AutoLock::new().timeout(), Duration::from_secs(180));
    assert_eq!(AutoLock::default().timeout(), Duration::from_secs(180));
}

#[test]
fn clock_behind_the_last_activity_does_not_lock() {
    let mut al = AutoLock::with_timeout(Duration::from_secs(180));
    al.note_activity_at(Instant { nanos: 1_000_000_000_000 });
    assert!(!al.should_lock_at(Instant { nanos: 0 }));
    assert_eq!(al.remaining_at(Instant { nanos: 0 }), Duration::from_secs(180));
}

#[test]
fn remaining_is_at_most_the_timeout() {
    let mut al = AutoLock::with_timeout(Duration::from_secs(180));
    al.note_activity();
    assert!(al.remaining().nanos <= Duration::from_secs(180).nanos);
    assert!(al.clock().now().nanos <= al.clock().now().nanos);
    // Without a timeout the vault is always due.
    assert!(AutoLock::with_timeout(Duration::from_secs(0)).should_lock());
}

#[test]
fn spans_are_counted_in_nanoseconds() {
    assert_eq!(Duration::from_secs(2).nanos, 2_000_000_000);
    assert_eq!(Duration::from_millis(15).nanos, 15_000_000);
    assert_eq!(
        Duration::from_secs(2).saturating_sub(Duration::from_millis(500)),
        Duration::from_millis(1500)
    );
    assert_eq!(
        Duration::from_millis(1).saturating_sub(Duration::from_secs(1)).nanos,
        0
    );
    let t = Instant { nanos: 7 };
    assert_eq!(t.after(Duration { nanos: 5 }), Instant { nanos: 12 });
    assert_eq!(t.after(Duration { nanos: u128::MAX }).nanos, u128::MAX);
    assert_eq!(
        Instant { nanos: 12 }.saturating_duration_since(t),
        Duration { nanos: 5 }
    );
    assert_eq!(t.saturating_duration_since(Instant { nanos: 12 }).nanos, 0);
}

#[test]
fn activity_among_other_events_counts() {
    assert!(user_activity_in(&[InputEvent::Other, key_release(), InputEvent::MouseWheel]));
    assert!(!user_activity_in(&[InputEvent::Other, key_release()]));
}
