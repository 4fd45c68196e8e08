use clicker::hotkey::stop_now;
use clicker::shared::{
    accepted_batch_size, accepted_pct, accepted_points_len, Button, EngineState, PositionMode, SharedState, MAX_POINTS,
};

#[test]
fn snapshot_reflects_writes() {
    let s = SharedState::new();
    s.set_interval_ns(1_000_000);
    s.set_button(Button::Right);
    s.set_position_mode(PositionMode::FixedPoint);
    s.set_fixed_point(640, 480);
    s.set_limit_clicks(50);
    s.set_batch_size(8);

    let cfg = s.snapshot();
    assert_eq!(cfg.interval_ns, 1_000_000);
    assert_eq!(cfg.button, Button::Right);
    assert_eq!(cfg.position, Some((640, 480)));
    assert_eq!(cfg.limit_clicks, 50);
    assert_eq!(cfg.batch_size, 8);
}

#[test]
fn follow_cursor_yields_no_position() {
    let s = SharedState::new();
    s.set_fixed_point(100, 100);
    s.set_position_mode(PositionMode::FollowCursor);
    assert_eq!(s.snapshot().position, None);
}

#[test]
fn defaults_are_idle_and_stopped() {
    let s = SharedState::new();
    assert!(!s.running());
    assert!(!s.shutdown());
    assert_eq!(s.engine_state(), EngineState::Idle);
    assert_eq!(s.clicks_emitted(), 0);
    assert_eq!(s.snapshot().batch_size, 1);
}

#[test]
fn unknown_enum_bytes_degrade_to_defaults() {
    assert_eq!(Button::from_u8(200), Button::Left);
    assert_eq!(EngineState::from_u8(200), EngineState::Idle);
}

#[test]
fn stop_now_clears_running_immediately() {
    let s = SharedState::new();
    s.set_running(true);
    stop_now(&s);
    assert!(!s.running());
    assert_eq!(s.engine_state(), EngineState::Idle);
}

// --- further cases ---

#[test]
fn sequence_mode_yields_no_fixed_position() {
    let s = SharedState::new();
    s.set_fixed_point(7, 8);
    s.set_position_mode(PositionMode::Sequence);
    let cfg = s.snapshot();
    assert!(cfg.sequence);
    assert_eq!(cfg.position, None);
}

#[test]
fn setters_clamp_batch_duty_and_jitter() {
    let s = SharedState::new();
    s.set_batch_size(0);
    s.set_duty_pct(200);
    s.set_randomize_pct(96);
    let cfg = s.snapshot();
    assert_eq!(cfg.batch_size, 1);
    assert_eq!(cfg.duty_pct, 95);
    assert_eq!(cfg.randomize_pct, 95);
}

#[test]
fn codes_round_trip_through_the_control_block() {
    for b in [Button::Left, Button::Middle, Button::Right] {
        assert_eq!(Button::from_u8(b.code()), b);
    }
    for m in [PositionMode::FollowCursor, PositionMode::FixedPoint, PositionMode::Sequence] {
        assert_eq!(PositionMode::from_u8(m.code()), m);
    }
    let s = SharedState::new();
    for st in [EngineState::Idle, EngineState::Running, EngineState::StoppedByLimit, EngineState::Error] {
        s.set_engine_state(st);
        assert_eq!(s.engine_state(), st);
    }
    assert_eq!(PositionMode::from_u8(9), PositionMode::FollowCursor);
}

#[test]
fn points_are_truncated_and_read_back() {
    let s = SharedState::new();
    let pts: Vec<(i32, i32)> = (0..(MAX_POINTS as i32 + 10)).map(|i| (i, -i)).collect();
    s.set_points(&pts);
    assert_eq!(s.points_len(), MAX_POINTS);
    assert_eq!(s.point(0), (0, 0));
    assert_eq!(s.point(5), (5, -5));
    assert_eq!(s.point(MAX_POINTS - 1), (MAX_POINTS as i32 - 1, -(MAX_POINTS as i32 - 1)));
    assert_eq!(s.point(MAX_POINTS), (0, 0));
    s.set_points(&[(1, 2)]);
    assert_eq!(s.points_len(), 1);
    assert_eq!(s.point(1), (0, 0), "beyond the stored length reads as the origin");
}

#[test]
fn key_and_kind_setters_round_trip() {
    let s = SharedState::new();
    assert_eq!(s.key_vk(), 0x20);
    s.set_key_vk(0x41);
    s.set_click_kind(1);
    s.set_stop_when_complete(true);
    assert_eq!(s.key_vk(), 0x41);
    assert_eq!(s.click_kind(), 1);
    assert!(s.snapshot().stop_when_complete);
    s.store_clicks(42);
    assert_eq!(s.clicks_emitted(), 42);
    s.request_shutdown();
    assert!(s.shutdown());
}

#[test]
fn accepted_values_are_clamped() {
    assert_eq!(accepted_batch_size(0), 1);
    assert_eq!(accepted_batch_size(16), 16);
    assert_eq!(accepted_pct(96), 95);
    assert_eq!(accepted_pct(40), 40);
    assert_eq!(accepted_points_len(3), 3);
    assert_eq!(accepted_points_len(MAX_POINTS + 10), MAX_POINTS);
}
