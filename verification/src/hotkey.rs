//! The emergency stop's effect on the control block, the recognition of the
//! messages that drive it and the interface's hotkeys, and their errors. The
//! hotkey threads and their windows belong to the host.

use vstd::prelude::*;
use crate::shared::{EngineState, SharedState};

verus! {

/// `VK_F8`: the emergency-stop key.
pub const DEFAULT_PANIC_VK: u32 = 0x77;

/// Identifier the emergency-stop hotkey is registered under.
pub const HOTKEY_ID: i32 = 0xC10C;

/// Identifier the interface's start/stop hotkey is registered under.
pub const TOGGLE_HOTKEY_ID: i32 = 0xC10D;

/// Window messages and raw-input constants the hotkey paths read.
pub const WM_HOTKEY: u32 = 0x0312;
pub const WM_KEYDOWN: u32 = 0x0100;
pub const WM_SYSKEYDOWN: u32 = 0x0104;
pub const RIM_TYPEKEYBOARD: u32 = 1;

#[derive(Copy, Clone, Debug, PartialEq, Eq, Structural)]
pub enum HotkeyError {
    /// The key is already claimed by another process.
    Register(u32),
    WindowCreation(u32),
}

/// Clear `running` directly on the shared atomic and publish `Idle`. No queue,
/// no channel, no round-trip through render or layout code.
pub fn stop_now(shared: &SharedState) {
    shared.set_running(false);
    shared.set_engine_state(EngineState::Idle);
}

/// Whether a message pulled from the hotkey thread's queue is the emergency
/// stop: a hotkey message whose parameter, read as the registration's
/// 32-bit identifier, is the stop's.
pub fn is_panic_hotkey(message: u32, wparam: usize) -> (r: bool)
    ensures
        r == (message == WM_HOTKEY && wparam as i32 == HOTKEY_ID),
{
    message == WM_HOTKEY && #[verifier::truncate] (wparam as i32) == HOTKEY_ID
}

/// Read a raw-input record's header type and keyboard fields: a keyboard
/// record gives its virtual key and whether it is a press (key-down or
/// system-key-down); any other record gives nothing.
pub fn raw_key_event(record_type: u32, vkey: u16, message: u32) -> (r: Option<(u32, bool)>)
    ensures
        record_type != RIM_TYPEKEYBOARD ==> r is None,
        record_type == RIM_TYPEKEYBOARD ==> r == Some(
            (vkey as u32, message == WM_KEYDOWN || message == WM_SYSKEYDOWN),
        ),
{
    if record_type != RIM_TYPEKEYBOARD {
        return None;
    }
    let pressed = message == WM_KEYDOWN || message == WM_SYSKEYDOWN;
    Some((vkey as u32, pressed))
}

} // verus!
