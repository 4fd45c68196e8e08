use clicker::clock::{Clock, QpcClock, VirtualClock};
use clicker::wait::{wait_step, InstantWaiter, WaitStep, Waiter, IDLE_POLL_NS};
use std::sync::Arc;

#[test]
fn virtual_clock_advances_only_when_told() {
    let c = VirtualClock::new(1_000);
    assert_eq!(c.now_ns(), 1_000);
    c.advance(500);
    assert_eq!(c.now_ns(), 1_500);
}

#[test]
fn set_at_least_never_moves_time_backwards() {
    let c = VirtualClock::new(5_000);
    c.set_at_least(1_000);
    assert_eq!(c.now_ns(), 5_000);
    c.set_at_least(9_000);
    assert_eq!(c.now_ns(), 9_000);
}

#[test]
fn arc_forwards_to_inner_clock() {
    let c = Arc::new(VirtualClock::new(42));
    assert_eq!(c.now_ns(), 42);
    fn takes_clock<C: Clock>(c: &C) -> u64 {
        c.now_ns()
    }
    assert_eq!(takes_clock(&c), 42);
}

#[test]
fn instant_waiter_jumps_the_clock_to_the_target() {
    let clock = Arc::new(VirtualClock::new(0));
    let mut w = InstantWaiter::new(clock.clone());
    w.wait_until(5_000_000, &clock);
    assert_eq!(clock.now_ns(), 5_000_000);
}

#[test]
fn instant_waiter_never_rewinds() {
    let clock = Arc::new(VirtualClock::new(9_000));
    let mut w = InstantWaiter::new(clock.clone());
    w.wait_until(1_000, &clock);
    assert_eq!(clock.now_ns(), 9_000);
}

#[test]
fn idle_advances_by_the_documented_poll_period() {
    let clock = Arc::new(VirtualClock::new(0));
    let mut w = InstantWaiter::new(clock.clone());
    w.idle();
    assert_eq!(clock.now_ns(), IDLE_POLL_NS);
}

// --- further cases ---

#[test]
fn wait_tiers_follow_the_remaining_time() {
    assert_eq!(wait_step(10, 10), WaitStep::Done);
    assert_eq!(wait_step(11, 10), WaitStep::Done);
    // 5ms left: timer, waking 1.5ms early.
    assert_eq!(wait_step(0, 5_000_000), WaitStep::Timer { sleep_ns: 3_500_000 });
    // exactly 2ms left: yield.
    assert_eq!(wait_step(0, 2_000_000), WaitStep::Yield);
    assert_eq!(wait_step(0, 50_001), WaitStep::Yield);
    // 50us or less: spin.
    assert_eq!(wait_step(0, 50_000), WaitStep::Spin);
    assert_eq!(wait_step(0, 1), WaitStep::Spin);
}

#[test]
fn counter_ticks_convert_to_nanoseconds() {
    let c = QpcClock::from_frequency(10_000_000);
    assert_eq!(c.ns_from_ticks(0), 0);
    assert_eq!(c.ns_from_ticks(10_000_000), 1_000_000_000);
    assert_eq!(c.ns_from_ticks(123), 12_300);
    // Far beyond where a 64-bit product would overflow.
    assert_eq!(c.ns_from_ticks(100_000_000_000), 10_000_000_000_000);
    // A nonsensical frequency report is replaced by 1 Hz, never a division by zero.
    let d = QpcClock::from_frequency(0);
    assert_eq!(d.ns_from_ticks(3), 3_000_000_000);
}
