use clicker::clock::{Clock, VirtualClock};
use clicker::engine::{
    batch_for, idle_state, plan, settle, start_state, Action, Engine, LoopState, Outcome,
};
use clicker::shared::{Button, Config, EngineState, PositionMode, SharedState};
use clicker::sink::{RecordingSink, SinkError};
use clicker::wait::{Waiter, IDLE_POLL_NS};
use std::sync::Arc;

/// Instant waiter that, once the engine goes idle, either restarts the run
/// (while restarts remain) or requests shutdown, so a whole run completes on
/// one thread.
struct StopWhenIdle<'a> {
    clock: Arc<VirtualClock>,
    shared: &'a SharedState,
    restarts: u32,
}

impl Waiter for StopWhenIdle<'_> {
    fn wait_until<C: Clock>(&mut self, target_ns: u64, _clock: &C) {
        self.clock.set_at_least(target_ns);
    }
    fn idle(&mut self) {
        self.clock.advance(IDLE_POLL_NS);
        if self.restarts > 0 {
            self.restarts -= 1;
            self.shared.set_engine_state(EngineState::Idle);
            self.shared.set_running(true);
        } else {
            self.shared.request_shutdown();
        }
    }
}

fn harness<'a>(
    shared: &'a SharedState,
    cost_ns: u64,
    restarts: u32,
) -> Engine<Arc<VirtualClock>, StopWhenIdle<'a>, RecordingSink> {
    let clock = Arc::new(VirtualClock::new(0));
    let waiter = StopWhenIdle { clock: clock.clone(), shared, restarts };
    let sink = RecordingSink::with_cost(clock.clone(), cost_ns);
    Engine::new(clock, waiter, sink)
}

#[test]
fn emits_exactly_the_click_limit() {
    let shared = SharedState::new();
    shared.set_interval_ns(1_000_000);
    shared.set_limit_clicks(10);
    shared.set_running(true);
    let mut eng = harness(&shared, 0, 0);
    eng.run(&shared);

    assert_eq!(eng.sink().total(), 10);
    assert_eq!(shared.clicks_emitted(), 10);
    assert_eq!(shared.engine_state(), EngineState::StoppedByLimit);
    assert!(!shared.running());
}

#[test]
fn intervals_are_drift_free() {
    let shared = SharedState::new();
    shared.set_interval_ns(1_000_000);
    shared.set_limit_clicks(100);
    shared.set_running(true);
    let mut eng = harness(&shared, 37, 0); // odd per-click cost
    eng.run(&shared);

    let clicks = eng.sink().clicks();
    assert_eq!(clicks.len(), 100);
    for (i, c) in clicks.iter().enumerate() {
        assert_eq!(c.at_ns, i as u64 * 1_000_000, "click {i} drifted");
    }
}

#[test]
fn time_limit_stops_the_run() {
    let shared = SharedState::new();
    shared.set_interval_ns(1_000_000);
    shared.set_limit_ns(10_000_000); // 10ms => 10 clicks at 1ms
    shared.set_running(true);
    let mut eng = harness(&shared, 0, 0);
    eng.run(&shared);

    assert_eq!(eng.sink().total(), 10);
}

#[test]
fn unthrottled_mode_batches_and_throttled_mode_does_not() {
    let shared = SharedState::new();
    shared.set_interval_ns(0); // unthrottled
    shared.set_batch_size(8);
    shared.set_limit_clicks(64);
    shared.set_running(true);
    let mut eng = harness(&shared, 100, 0);
    eng.run(&shared);

    assert_eq!(eng.sink().total(), 64);
}

#[test]
fn batch_is_clamped_so_the_limit_is_never_overshot() {
    let shared = SharedState::new();
    shared.set_interval_ns(0);
    shared.set_batch_size(16);
    shared.set_limit_clicks(10); // not a multiple of the batch size
    shared.set_running(true);
    let mut eng = harness(&shared, 0, 0);
    eng.run(&shared);

    assert_eq!(eng.sink().total(), 10, "batching must not overshoot the limit");
}

#[test]
fn throttled_mode_ignores_batch_size() {
    let shared = SharedState::new();
    shared.set_interval_ns(1_000_000);
    shared.set_batch_size(8);
    shared.set_limit_clicks(5);
    shared.set_running(true);
    let mut eng = harness(&shared, 0, 0);
    eng.run(&shared);

    let clicks = eng.sink().clicks();
    assert_eq!(clicks.len(), 5);
    assert_eq!(clicks[1].at_ns - clicks[0].at_ns, 1_000_000);
}

#[test]
fn limits_reset_across_stop_and_restart() {
    let shared = SharedState::new();
    shared.set_interval_ns(1_000_000);
    shared.set_limit_clicks(5);
    shared.set_running(true);
    let mut eng = harness(&shared, 0, 1);
    eng.run(&shared);

    // 5 per run, twice. If limits were evaluated against the monotonic
    // counter, the second run would emit zero.
    assert_eq!(eng.sink().total(), 10);
    assert_eq!(shared.clicks_emitted(), 10, "counter must stay monotonic across runs");
}

#[test]
fn blocked_sink_sets_error_state_and_stops() {
    let shared = SharedState::new();
    shared.set_interval_ns(1_000_000);
    shared.set_running(true);
    let clock = Arc::new(VirtualClock::new(0));
    let waiter = StopWhenIdle { clock: clock.clone(), shared: &shared, restarts: 0 };
    let mut sink = RecordingSink::new(clock.clone());
    sink.fail_after(3);
    let mut eng = Engine::new(clock, waiter, sink);
    eng.run(&shared);

    assert_eq!(eng.sink().total(), 3);
    assert_eq!(shared.engine_state(), EngineState::Error);
    assert!(!shared.running(), "a blocked sink must clear running");
}

#[test]
fn idle_engine_emits_nothing_and_still_shuts_down() {
    let shared = SharedState::new();
    shared.set_running(false);
    let mut eng = harness(&shared, 0, 0);
    eng.run(&shared);

    assert_eq!(eng.sink().total(), 0);
    assert!(shared.shutdown());
}

#[test]
fn fixed_point_mode_passes_coordinates_through() {
    let shared = SharedState::new();
    shared.set_interval_ns(1_000_000);
    shared.set_position_mode(PositionMode::FixedPoint);
    shared.set_fixed_point(300, 400);
    shared.set_button(Button::Middle);
    shared.set_limit_clicks(1);
    shared.set_running(true);
    let mut eng = harness(&shared, 0, 0);
    eng.run(&shared);

    assert_eq!(eng.sink().clicks()[0].pos, Some((300, 400)));
    assert_eq!(eng.sink().clicks()[0].button, Button::Middle);
}

// --- further cases ---

fn cfg(interval_ns: u64, batch_size: u16, limit_clicks: u64) -> Config {
    Config {
        interval_ns,
        button: Button::Left,
        position: None,
        limit_clicks,
        limit_ns: 0,
        batch_size,
        duty_pct: 0,
        randomize_pct: 0,
        click_kind: 0,
        key_vk: 0x20,
        sequence: false,
        stop_when_complete: false,
    }
}

#[test]
fn batch_size_follows_mode_and_remaining_limit() {
    assert_eq!(batch_for(&cfg(1_000, 8, 0), 0), 1, "throttled runs never batch");
    assert_eq!(batch_for(&cfg(0, 8, 0), 0), 8);
    assert_eq!(batch_for(&cfg(0, 0, 0), 0), 1, "a zero batch size means one");
    assert_eq!(batch_for(&cfg(0, 16, 10), 4), 6, "clamped to the clicks left");
    assert_eq!(batch_for(&cfg(0, 16, 10), 10), 0);
    assert_eq!(batch_for(&cfg(0, 16, 10), 12), 0);
}

#[test]
fn the_counter_continues_from_its_previous_value() {
    let shared = SharedState::new();
    shared.store_clicks(1_000);
    shared.set_interval_ns(1_000_000);
    shared.set_limit_clicks(3);
    shared.set_running(true);
    let mut eng = harness(&shared, 0, 0);
    eng.run(&shared);
    assert_eq!(shared.clicks_emitted(), 1_003);
    assert_eq!(eng.into_sink().total(), 3);
}

#[test]
fn the_first_running_iteration_starts_a_run() {
    let s = start_state(7);
    let p = plan(s, 5_000, &cfg(1_000_000, 1, 3));
    assert!(p.started);
    assert_eq!(
        p.state,
        LoopState { deadline_ns: 5_000, run_start_ns: 5_000, clicks_this_run: 0, total_clicks: 7, was_running: true }
    );
    assert_eq!(
        p.action,
        Action::Emit { button: Button::Left, position: None, count: 1, next_deadline_ns: 1_005_000 }
    );
}

#[test]
fn an_early_wake_waits_and_a_late_one_fires() {
    let s = LoopState { deadline_ns: 2_000_000, run_start_ns: 0, clicks_this_run: 1, total_clicks: 1, was_running: true };
    let p = plan(s, 1_500_000, &cfg(1_000_000, 1, 0));
    assert!(!p.started);
    assert_eq!(p.action, Action::Wait { until_ns: 2_000_000 });
    let p = plan(s, 2_000_037, &cfg(1_000_000, 1, 0));
    assert_eq!(
        p.action,
        Action::Emit { button: Button::Left, position: None, count: 1, next_deadline_ns: 3_000_000 }
    );
}

#[test]
fn an_unthrottled_batch_is_clamped_to_the_clicks_left() {
    let s = LoopState { deadline_ns: 0, run_start_ns: 0, clicks_this_run: 4, total_clicks: 4, was_running: true };
    let mut c = cfg(0, 16, 10);
    c.button = Button::Right;
    c.position = Some((3, 4));
    let p = plan(s, 10, &c);
    assert_eq!(
        p.action,
        Action::Emit { button: Button::Right, position: Some((3, 4)), count: 6, next_deadline_ns: 10 }
    );
    let (after, out) = settle(p.state, 10, Ok(6));
    assert_eq!(after.clicks_this_run, 10);
    assert_eq!(out, Outcome::Emitted { total: 10 });
    let p = plan(after, 11, &c);
    assert_eq!(p.action, Action::Stop);
    assert!(!p.state.was_running);
}

#[test]
fn a_restart_resets_the_run_but_not_the_total() {
    let s = LoopState { deadline_ns: 9, run_start_ns: 1, clicks_this_run: 5, total_clicks: 5, was_running: false };
    let p = plan(idle_state(s), 100, &cfg(1_000_000, 1, 5));
    assert!(p.started);
    assert_eq!(p.state.clicks_this_run, 0);
    assert_eq!(p.state.total_clicks, 5);
    assert_eq!(p.state.run_start_ns, 100);
}

#[test]
fn a_refused_emission_ends_the_run() {
    let s = LoopState { deadline_ns: 0, run_start_ns: 0, clicks_this_run: 3, total_clicks: 8, was_running: true };
    let err = SinkError::Blocked { inserted: 0, expected: 2, last_error: 5 };
    let (after, out) = settle(s, 1_000, Err(err));
    assert_eq!(out, Outcome::Blocked);
    assert!(!after.was_running);
    assert_eq!(after.total_clicks, 8);
    assert_eq!(after.clicks_this_run, 3);
    assert_eq!(after.deadline_ns, 0);
}
