//! Mouse-input geometry and the accounting of an injected batch.
//!
//! Building the input records and calling the injection API is the host's
//! job; the coordinate mapping and the reading of the API's answer are here.

use vstd::prelude::*;
use crate::shared::Button;
use crate::sink::SinkError;

verus! {

/// Maximum clicks per injection call. The host's buffer is `2 * MAX_BATCH`
/// input records, allocated once at construction and never grown.
pub const MAX_BATCH: usize = 32;

/// The virtual desktop: the bounding rectangle of every monitor.
#[derive(Copy, Clone, Debug, PartialEq, Eq, Structural)]
pub struct VirtualScreen {
    pub left: i32,
    pub top: i32,
    pub width: i32,
    pub height: i32,
}

/// `offset * 65535 / max(extent - 1, 1)`, clamped to `0..=65535`.
pub open spec fn spec_normalize_axis(offset: int, extent: int) -> int {
    let denom = if extent - 1 < 1 { 1 } else { extent - 1 };
    let scaled = offset * 65535;
    if scaled < 0 {
        0
    } else if scaled / denom > 65535 {
        65535
    } else {
        scaled / denom
    }
}

fn normalize_axis(p: i32, origin: i32, extent: i32) -> (n: i32)
    requires
        i32::MIN <= p - origin <= i32::MAX,
        extent > i32::MIN,
    ensures
        n == spec_normalize_axis(p - origin, extent as int),
        0 <= n <= 65535,
{
    let denom: i64 = if extent - 1 < 1 { 1 } else { (extent - 1) as i64 };
    let scaled: i64 = ((p - origin) as i64) * 65535;
    if scaled < 0 {
        0
    } else {
        let q = (scaled as u64) / (denom as u64);
        if q > 65535 {
            65535
        } else {
            q as i32
        }
    }
}

/// Map a virtual-desktop pixel to the 0..=65535 absolute range the injection
/// API expects for absolute, virtual-desk coordinates. A degenerate (1-pixel)
/// screen never divides by zero.
pub fn normalize_abs(x: i32, y: i32, vs: VirtualScreen) -> (r: (i32, i32))
    requires
        i32::MIN <= x - vs.left <= i32::MAX,
        i32::MIN <= y - vs.top <= i32::MAX,
        vs.width > i32::MIN,
        vs.height > i32::MIN,
    ensures
        r.0 == spec_normalize_axis(x - vs.left, vs.width as int),
        r.1 == spec_normalize_axis(y - vs.top, vs.height as int),
        0 <= r.0 <= 65535,
        0 <= r.1 <= 65535,
{
    (normalize_axis(x, vs.left, vs.width), normalize_axis(y, vs.top, vs.height))
}

/// The screen's origin maps to 0 and its far corner to full scale.
pub proof fn lemma_corners_map_to_the_ends(vs: VirtualScreen)
    requires
        vs.width > 1,
        vs.height > 1,
    ensures
        spec_normalize_axis(0, vs.width as int) == 0,
        spec_normalize_axis(vs.width - 1, vs.width as int) == 65535,
        spec_normalize_axis(vs.height - 1, vs.height as int) == 65535,
{
    assert((vs.width - 1) * 65535 / (vs.width - 1) == 65535) by (nonlinear_arith)
        requires
            vs.width - 1 > 0,
    ;
    assert((vs.height - 1) * 65535 / (vs.height - 1) == 65535) by (nonlinear_arith)
        requires
            vs.height - 1 > 0,
    ;
}

/// Mouse-event flag bits of the injection API.
pub const MOUSEEVENTF_MOVE: u32 = 0x0001;
pub const MOUSEEVENTF_LEFTDOWN: u32 = 0x0002;
pub const MOUSEEVENTF_LEFTUP: u32 = 0x0004;
pub const MOUSEEVENTF_RIGHTDOWN: u32 = 0x0008;
pub const MOUSEEVENTF_RIGHTUP: u32 = 0x0010;
pub const MOUSEEVENTF_MIDDLEDOWN: u32 = 0x0020;
pub const MOUSEEVENTF_MIDDLEUP: u32 = 0x0040;
pub const MOUSEEVENTF_VIRTUALDESK: u32 = 0x4000;
pub const MOUSEEVENTF_ABSOLUTE: u32 = 0x8000;

/// The press and release flags of a button.
pub open spec fn spec_down_up_flags(b: Button) -> (u32, u32) {
    match b {
        Button::Left => (MOUSEEVENTF_LEFTDOWN, MOUSEEVENTF_LEFTUP),
        Button::Middle => (MOUSEEVENTF_MIDDLEDOWN, MOUSEEVENTF_MIDDLEUP),
        Button::Right => (MOUSEEVENTF_RIGHTDOWN, MOUSEEVENTF_RIGHTUP),
    }
}

pub fn down_up_flags(b: Button) -> (r: (u32, u32))
    ensures
        r == spec_down_up_flags(b),
{
    match b {
        Button::Left => (MOUSEEVENTF_LEFTDOWN, MOUSEEVENTF_LEFTUP),
        Button::Middle => (MOUSEEVENTF_MIDDLEDOWN, MOUSEEVENTF_MIDDLEUP),
        Button::Right => (MOUSEEVENTF_RIGHTDOWN, MOUSEEVENTF_RIGHTUP),
    }
}

/// One mouse event as the injection API takes it.
#[derive(Copy, Clone, Debug, PartialEq, Eq, Structural)]
pub struct MouseEvent {
    pub dx: i32,
    pub dy: i32,
    pub flags: u32,
}

/// The two events of one click. A positioned click ORs an absolute,
/// virtual-desk move onto the press rather than adding a third event, so it
/// is still two events; a follow-cursor click carries no move at all and
/// lands where the cursor already is. The release never moves.
pub fn click_events(button: Button, pos: Option<(i32, i32)>, vs: VirtualScreen) -> (r: (MouseEvent, MouseEvent))
    requires
        pos matches Some((x, y)) ==> (i32::MIN <= x - vs.left <= i32::MAX && i32::MIN <= y - vs.top
            <= i32::MAX),
        vs.width > i32::MIN,
        vs.height > i32::MIN,
    ensures
        r.1 == (MouseEvent { dx: 0, dy: 0, flags: spec_down_up_flags(button).1 }),
        pos is None ==> r.0 == (MouseEvent { dx: 0, dy: 0, flags: spec_down_up_flags(button).0 }),
        pos matches Some((x, y)) ==> r.0 == (MouseEvent {
            dx: spec_normalize_axis(x - vs.left, vs.width as int) as i32,
            dy: spec_normalize_axis(y - vs.top, vs.height as int) as i32,
            flags: spec_down_up_flags(button).0 | MOUSEEVENTF_MOVE | MOUSEEVENTF_ABSOLUTE
                | MOUSEEVENTF_VIRTUALDESK,
        }),
{
    let (down, up) = down_up_flags(button);
    let press = match pos {
        Some((x, y)) => {
            let (nx, ny) = normalize_abs(x, y, vs);
            MouseEvent {
                dx: nx,
                dy: ny,
                flags: down | MOUSEEVENTF_MOVE | MOUSEEVENTF_ABSOLUTE | MOUSEEVENTF_VIRTUALDESK,
            }
        },
        None => MouseEvent { dx: 0, dy: 0, flags: down },
    };
    (press, MouseEvent { dx: 0, dy: 0, flags: up })
}

/// Clicks actually sent for a request of `count`: at most `MAX_BATCH`.
pub fn clamp_batch(count: u16) -> (n: usize)
    ensures
        n == (if count as usize > MAX_BATCH {
            MAX_BATCH
        } else {
            count as usize
        }),
{
    if count as usize > MAX_BATCH {
        MAX_BATCH
    } else {
        count as usize
    }
}

/// Read the injection API's answer for a batch of `clicks` clicks (two
/// events each): every event accepted means every click was emitted; a short
/// count means the input was blocked, reported with the system's error code.
pub fn batch_outcome(clicks: usize, inserted: u32, last_error: u32) -> (r: Result<u16, SinkError>)
    requires
        clicks <= MAX_BATCH,
    ensures
        inserted == clicks * 2 ==> r == Ok::<u16, SinkError>(clicks as u16),
        inserted != clicks * 2 ==> r == Err::<u16, SinkError>(
            SinkError::Blocked { inserted, expected: (clicks * 2) as u32, last_error },
        ),
{
    let events = clicks * 2;
    if inserted as usize != events {
        return Err(SinkError::Blocked { inserted, expected: events as u32, last_error });
    }
    Ok(clicks as u16)
}

} // verus!
