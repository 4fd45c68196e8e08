use clicker::clock::VirtualClock;
use clicker::probe::{intervals_of, ring_order, EmitProbe, ProbedSink};
use clicker::shared::Button;
use clicker::sink::{ClickSink, RecordingSink};
use std::sync::Arc;

#[test]
fn records_in_order_below_capacity() {
    let p = EmitProbe::new(8);
    for t in [10u64, 20, 30] {
        p.record(t);
    }
    assert_eq!(p.snapshot(), vec![10, 20, 30]);
    assert_eq!(p.intervals(), vec![10, 10]);
}

#[test]
fn keeps_the_most_recent_records_when_it_wraps() {
    let p = EmitProbe::new(4);
    for t in [1u64, 2, 3, 4, 5, 6] {
        p.record(t);
    }
    assert_eq!(p.snapshot(), vec![3, 4, 5, 6]);
}

#[test]
fn reset_clears_the_record_count() {
    let p = EmitProbe::new(4);
    p.record(1);
    p.reset();
    assert_eq!(p.written(), 0);
    assert!(p.snapshot().is_empty());
}

#[test]
fn zero_capacity_is_clamped_rather_than_panicking() {
    let p = EmitProbe::new(0);
    p.record(5);
    assert_eq!(p.capacity(), 1);
}

#[test]
fn probed_sink_timestamps_and_delegates() {
    let clock = Arc::new(VirtualClock::new(0));
    let probe = Arc::new(EmitProbe::new(16));
    let inner = RecordingSink::with_cost(clock.clone(), 100);
    let mut s = ProbedSink::new(inner, clock.clone(), probe.clone());

    s.emit(Button::Left, None).unwrap();
    s.emit(Button::Left, None).unwrap();

    assert_eq!(s.inner().total(), 2);
    assert_eq!(probe.snapshot(), vec![0, 100]);
}

// --- further cases ---

#[test]
fn ring_order_lists_the_surviving_slots_oldest_first() {
    assert_eq!(ring_order(3, 8), vec![0, 1, 2]);
    assert_eq!(ring_order(6, 4), vec![2, 3, 0, 1]);
    assert_eq!(ring_order(8, 4), vec![0, 1, 2, 3]);
    assert_eq!(ring_order(0, 1), Vec::<usize>::new());
}

#[test]
fn intervals_saturate_at_zero() {
    assert_eq!(intervals_of(&vec![5, 3, 10]), vec![0, 7]);
    assert_eq!(intervals_of(&vec![5]), Vec::<u64>::new());
    assert_eq!(intervals_of(&vec![]), Vec::<u64>::new());
}

#[test]
fn a_batch_is_stamped_once_per_click_with_one_time() {
    let clock = Arc::new(VirtualClock::new(7));
    let probe = Arc::new(EmitProbe::new(8));
    let inner = RecordingSink::new(clock.clone());
    let mut s = ProbedSink::new(inner, clock.clone(), probe.clone());
    assert_eq!(s.emit_batch(Button::Left, None, 3), Ok(3));
    assert_eq!(probe.snapshot(), vec![7, 7, 7]);
    assert_eq!(probe.intervals(), vec![0, 0]);
}
