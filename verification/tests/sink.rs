use clicker::clock::{Clock, VirtualClock};
use clicker::shared::Button;
use clicker::sink::{ClickSink, RecordingSink, SinkError};
use std::sync::Arc;

#[test]
fn records_button_position_and_time() {
    let clock = Arc::new(VirtualClock::new(500));
    let mut s = RecordingSink::new(clock.clone());
    s.emit(Button::Right, Some((10, 20))).unwrap();
    assert_eq!(s.clicks().len(), 1);
    assert_eq!(s.clicks()[0].button, Button::Right);
    assert_eq!(s.clicks()[0].pos, Some((10, 20)));
    assert_eq!(s.clicks()[0].at_ns, 500);
}

#[test]
fn batch_records_each_click_and_returns_the_count() {
    let clock = Arc::new(VirtualClock::new(0));
    let mut s = RecordingSink::new(clock.clone());
    assert_eq!(s.emit_batch(Button::Left, None, 4).unwrap(), 4);
    assert_eq!(s.clicks().len(), 4);
    assert_eq!(s.total(), 4);
}

#[test]
fn per_emit_cost_advances_the_clock() {
    let clock = Arc::new(VirtualClock::new(0));
    let mut s = RecordingSink::with_cost(clock.clone(), 1_000);
    s.emit_batch(Button::Left, None, 3).unwrap();
    assert_eq!(clock.now_ns(), 3_000);
}

#[test]
fn fail_after_reports_a_blocked_error() {
    let clock = Arc::new(VirtualClock::new(0));
    let mut s = RecordingSink::new(clock.clone());
    s.fail_after(2);
    assert!(s.emit(Button::Left, None).is_ok());
    assert!(s.emit(Button::Left, None).is_ok());
    let err = s.emit(Button::Left, None).unwrap_err();
    assert!(matches!(err, SinkError::Blocked { .. }));
}

#[test]
fn zero_count_batch_is_a_noop() {
    let clock = Arc::new(VirtualClock::new(0));
    let mut s = RecordingSink::new(clock.clone());
    assert_eq!(s.emit_batch(Button::Left, None, 0).unwrap(), 0);
    assert_eq!(s.clicks().len(), 0);
}

// --- further cases ---

#[test]
fn a_batch_crossing_the_threshold_records_what_fits_then_blocks() {
    let clock = Arc::new(VirtualClock::new(0));
    let mut s = RecordingSink::new(clock.clone());
    s.fail_after(3);
    let r = s.emit_batch(Button::Middle, None, 5);
    assert_eq!(r, Err(SinkError::Blocked { inserted: 0, expected: 10, last_error: 5 }));
    assert_eq!(s.total(), 3);
}

#[test]
fn press_and_release_record_the_hold() {
    let clock = Arc::new(VirtualClock::new(100));
    let mut s = RecordingSink::new(clock.clone());
    s.press(Button::Left, Some((1, 2))).unwrap();
    clock.advance(250);
    s.release(Button::Left).unwrap();
    assert_eq!(s.total(), 1);
    assert_eq!(s.clicks()[0].at_ns, 100, "a held click is timed at its press");
    assert_eq!(s.holds(), &[250]);
    // A release with nothing held records nothing.
    s.release(Button::Left).unwrap();
    assert_eq!(s.total(), 1);
}

#[test]
fn press_is_blocked_past_the_threshold() {
    let clock = Arc::new(VirtualClock::new(0));
    let mut s = RecordingSink::new(clock.clone());
    s.fail_after(0);
    assert_eq!(
        s.press(Button::Left, None),
        Err(SinkError::Blocked { inserted: 0, expected: 2, last_error: 5 })
    );
}
