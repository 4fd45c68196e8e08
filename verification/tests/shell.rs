use clicker::render::{hit_region, is_device_lost, HitRegion, ShellPoint};

fn at(top: bool, bottom: bool, left: bool, right: bool) -> ShellPoint {
    ShellPoint {
        top,
        bottom,
        left,
        right,
        in_caption: top,
        within_one_button: false,
        within_two_buttons: false,
        within_three_buttons: false,
    }
}

fn caption(bands: u8) -> ShellPoint {
    ShellPoint {
        top: false,
        bottom: false,
        left: false,
        right: false,
        in_caption: true,
        within_one_button: bands >= 1,
        within_two_buttons: bands >= 1 && bands <= 2,
        within_three_buttons: bands >= 1 && bands <= 3,
    }
}

#[test]
fn corners_win_over_edges() {
    assert_eq!(hit_region(at(true, false, true, false), false), HitRegion::TopLeft);
    assert_eq!(hit_region(at(true, false, false, true), false), HitRegion::TopRight);
    assert_eq!(hit_region(at(false, true, true, false), false), HitRegion::BottomLeft);
    assert_eq!(hit_region(at(false, true, false, true), false), HitRegion::BottomRight);
}

#[test]
fn edges_are_reachable() {
    assert_eq!(hit_region(at(true, false, false, false), false), HitRegion::Top);
    assert_eq!(hit_region(at(false, true, false, false), false), HitRegion::Bottom);
    assert_eq!(hit_region(at(false, false, true, false), false), HitRegion::Left);
    assert_eq!(hit_region(at(false, false, false, true), false), HitRegion::Right);
    assert_eq!(hit_region(at(false, false, false, false), false), HitRegion::Client);
}

#[test]
fn caption_buttons_run_close_max_min_from_the_right() {
    let mut close = caption(1);
    close.within_two_buttons = true;
    close.within_three_buttons = true;
    assert_eq!(hit_region(close, false), HitRegion::CloseButton);
    let mut max = caption(2);
    max.within_one_button = false;
    assert_eq!(hit_region(max, false), HitRegion::MaxButton);
    let min = ShellPoint { within_one_button: false, within_two_buttons: false, ..caption(3) };
    assert_eq!(hit_region(min, false), HitRegion::MinButton);
    assert_eq!(hit_region(caption(0), false), HitRegion::Caption);
}

#[test]
fn maximized_windows_have_no_resize_edges() {
    let mut p = at(true, false, true, false);
    assert_eq!(hit_region(p, true), HitRegion::Caption);
    p.in_caption = false;
    assert_eq!(hit_region(p, true), HitRegion::Client);
    assert!(HitRegion::MaxButton.is_system_managed());
}

#[test]
fn device_lost_codes_are_recognised() {
    for hr in [0x887A0005u32, 0x887A0007, 0x887A0006, 0x887A0020, 0x8899000C] {
        assert!(is_device_lost(hr as i32), "{hr:#x} should be treated as device-lost");
    }
}

#[test]
fn ordinary_errors_are_not_mistaken_for_device_loss() {
    // E_FAIL
    assert!(!is_device_lost(0x80004005u32 as i32));
    assert!(!is_device_lost(0));
}
