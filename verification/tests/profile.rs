use clicker::profile::{
    apply_to_shared, default_key_vk, settle_load, strip_bom, LoadNote, Profile, CPS_MAX,
    DEFAULT_TOGGLE_VK, SCHEMA_VERSION, VK_F8,
};
use clicker::shared::{Button, PositionMode, SharedState};

#[test]
fn missing_file_yields_defaults() {
    let (p, note) = settle_load(None);
    assert_eq!(note, LoadNote::Missing);
    assert_eq!(p, Profile::default());
}

#[test]
fn corrupt_file_yields_defaults() {
    let (p, note) = settle_load(Some((None, None)));
    assert_eq!(note, LoadNote::Corrupt);
    assert_eq!(p, Profile::default());
}

#[test]
fn future_schema_is_ignored() {
    let mut p = Profile::default();
    p.schema = SCHEMA_VERSION + 5;
    p.cps = 50;
    let (back, note) = settle_load(Some((Some(p.schema), Some(p))));
    assert_eq!(note, LoadNote::FutureSchema);
    assert_eq!(back, Profile::default());
}

#[test]
fn out_of_range_values_are_clamped() {
    let mut p = Profile::default();
    p.cps = 999_999;
    p.duty_pct = 200;
    p.randomize_pct = 96;
    let (back, note) = settle_load(Some((Some(p.schema), Some(p))));
    assert_eq!(note, LoadNote::Loaded);
    assert_eq!(back.cps, CPS_MAX);
    assert_eq!(back.duty_pct, 95);
    assert_eq!(back.randomize_pct, 95);
    let mut p = Profile::default();
    p.cps = 0;
    assert_eq!(p.sanitized().cps, 1);
}

#[test]
fn a_hotkey_may_not_shadow_the_emergency_stop() {
    let mut p = Profile::default();
    p.toggle_vk = VK_F8;
    p.hold_vk = VK_F8;
    let (back, _) = settle_load(Some((Some(p.schema), Some(p))));
    assert_ne!(back.toggle_vk, VK_F8, "toggle must not bind F8");
    assert_eq!(back.hold_vk, 0, "hold on F8 must be disabled");
}

#[test]
fn zero_toggle_falls_back_to_default() {
    let mut p = Profile::default();
    p.toggle_vk = 0;
    let (back, _) = settle_load(Some((Some(p.schema), Some(p))));
    assert_eq!(back.toggle_vk, DEFAULT_TOGGLE_VK);
}

#[test]
fn a_sane_profile_survives_loading_unchanged() {
    let mut p = Profile::default();
    p.cps = 750;
    p.button = Button::Right;
    p.position_mode = PositionMode::FixedPoint;
    p.fixed_x = 640;
    p.high_priority = true;
    let (back, note) = settle_load(Some((Some(p.schema), Some(p.clone()))));
    assert_eq!(note, LoadNote::Loaded);
    assert_eq!(back, p);
    assert_eq!(back.clone().sanitized(), back, "sanitising is idempotent");
}

#[test]
fn defaults_are_the_documented_ones() {
    let p = Profile::default();
    assert_eq!(p.schema, 1);
    assert_eq!(p.cps, 100);
    assert_eq!(p.toggle_vk, 0x75);
    assert_eq!(p.hold_vk, 0);
    assert_eq!(p.key_vk, 0x20);
    assert_eq!(default_key_vk(), 0x20);
}

#[test]
fn a_utf8_bom_is_stripped() {
    assert_eq!(strip_bom(&[0xEF, 0xBB, 0xBF, b'{', b'}']), b"{}");
    assert_eq!(strip_bom(b"{}"), b"{}");
    assert_eq!(strip_bom(&[0xEF, 0xBB]), &[0xEF, 0xBB]);
}

#[test]
fn applying_a_profile_configures_the_engine() {
    let s = SharedState::new();
    let mut p = Profile::default();
    p.cps = 500;
    p.button = Button::Middle;
    p.position_mode = PositionMode::FixedPoint;
    p.fixed_x = 3;
    p.fixed_y = 4;
    p.limit_clicks = 9;
    p.limit_ns = 11;
    apply_to_shared(&s, &p);
    let cfg = s.snapshot();
    assert_eq!(cfg.interval_ns, 2_000_000);
    assert_eq!(cfg.button, Button::Middle);
    assert_eq!(cfg.position, Some((3, 4)));
    assert_eq!(cfg.limit_clicks, 9);
    assert_eq!(cfg.limit_ns, 11);
}

#[test]
fn a_future_schema_wins_over_an_unreadable_shape() {
    // `{"schema":2}`: the schema reads on its own, the whole profile does not.
    let (p, note) = settle_load(Some((Some(SCHEMA_VERSION + 1), None)));
    assert_eq!(note, LoadNote::FutureSchema);
    assert_eq!(p, Profile::default());
    // A current schema with an unreadable shape is corrupt.
    let (_, note) = settle_load(Some((Some(SCHEMA_VERSION), None)));
    assert_eq!(note, LoadNote::Corrupt);
}
