//! Interaction state of push-button-like widgets.

use vstd::prelude::*;
use crate::render::Elevation;

verus! {

/// Interaction state, orthogonal to focus. Focus is tracked separately by the
/// `FocusRing` and drawn as an accent ring on top, because a widget can be
/// focused *and* hovered/pressed at the same time.
#[derive(Copy, Clone, Debug, PartialEq, Eq, Structural)]
pub enum WidgetState {
    Idle,
    Hover,
    Pressed,
    Disabled,
}

impl WidgetState {
    /// Rendering elevation: pressed reads inset, disabled flat, anything else
    /// raised.
    pub fn elevation(self) -> (e: Elevation)
        ensures
            e == (match self {
                WidgetState::Pressed => Elevation::Inset,
                WidgetState::Disabled => Elevation::Flat,
                _ => Elevation::Raised,
            }),
    {
        match self {
            WidgetState::Pressed => Elevation::Inset,
            WidgetState::Disabled => Elevation::Flat,
            _ => Elevation::Raised,
        }
    }
}

#[derive(Copy, Clone, Debug, PartialEq, Eq, Structural)]
pub enum KeyCode {
    Space,
    Enter,
    Left,
    Right,
    Up,
    Down,
    Tab,
    Backspace,
    Digit(u8),
    Other,
}

/// The neutral event vocabulary the window layer produces. Pointer events
/// carry no coordinates here: the state machine never reads them, and the
/// host keeps the widget-local position for the value math that does.
#[derive(Copy, Clone, Debug, PartialEq, Eq, Structural)]
pub enum WidgetEvent {
    PointerEnter,
    PointerLeave,
    PointerDown,
    PointerUp,
    FocusGained,
    FocusLost,
    Key(KeyCode),
}

#[derive(Copy, Clone, Debug, PartialEq, Eq, Structural)]
pub enum Action {
    Fire,
    ValueChanged,
}

/// The transition table. A disabled widget ignores everything (only a host
/// call re-enables it). Enter hovers, leave un-hovers; a press registers with
/// or without a prior hover; release after a press fires and returns to
/// hover; leaving while pressed abandons the press (a later release must not
/// fire). Space and Enter fire from any non-disabled state without changing
/// it. Focus events and anything else change nothing.
pub open spec fn spec_transition(state: WidgetState, ev: WidgetEvent) -> (WidgetState, Option<Action>) {
    if state == WidgetState::Disabled {
        (WidgetState::Disabled, None)
    } else {
        match (state, ev) {
            (WidgetState::Idle, WidgetEvent::PointerEnter) => (WidgetState::Hover, None),
            (WidgetState::Hover, WidgetEvent::PointerLeave) => (WidgetState::Idle, None),
            (WidgetState::Idle, WidgetEvent::PointerDown) => (WidgetState::Pressed, None),
            (WidgetState::Hover, WidgetEvent::PointerDown) => (WidgetState::Pressed, None),
            (WidgetState::Pressed, WidgetEvent::PointerUp) => (WidgetState::Hover, Some(Action::Fire)),
            (WidgetState::Pressed, WidgetEvent::PointerLeave) => (WidgetState::Idle, None),
            (_, WidgetEvent::Key(KeyCode::Space)) => (state, Some(Action::Fire)),
            (_, WidgetEvent::Key(KeyCode::Enter)) => (state, Some(Action::Fire)),
            _ => (state, None),
        }
    }
}

/// Pure state transition shared by push-button-like widgets. Widgets with
/// richer behaviour (slider drag, field editing) layer their value math on top
/// and interpret `Action` themselves.
pub fn transition(state: WidgetState, ev: WidgetEvent) -> (r: (WidgetState, Option<Action>))
    ensures
        r == spec_transition(state, ev),
{
    if state == WidgetState::Disabled {
        return (WidgetState::Disabled, None);
    }
    match (state, ev) {
        (WidgetState::Idle, WidgetEvent::PointerEnter) => (WidgetState::Hover, None),
        (WidgetState::Hover, WidgetEvent::PointerLeave) => (WidgetState::Idle, None),
        (WidgetState::Idle, WidgetEvent::PointerDown) | (
            WidgetState::Hover,
            WidgetEvent::PointerDown,
        ) => (WidgetState::Pressed, None),
        (WidgetState::Pressed, WidgetEvent::PointerUp) => (WidgetState::Hover, Some(Action::Fire)),
        // Drag-off: pointer left while pressed. A later release must not fire.
        (WidgetState::Pressed, WidgetEvent::PointerLeave) => (WidgetState::Idle, None),
        // Keyboard activation fires from any non-disabled state; focus is
        // tracked externally, so a focused-but-unhovered widget is `Idle` here.
        (_, WidgetEvent::Key(KeyCode::Space)) | (_, WidgetEvent::Key(KeyCode::Enter)) => (
            state,
            Some(Action::Fire),
        ),
        _ => (state, None),
    }
}

/// Disabled is absorbing: no event leaves it or fires.
pub proof fn lemma_disabled_ignores_everything(ev: WidgetEvent)
    ensures
        spec_transition(WidgetState::Disabled, ev) == (WidgetState::Disabled, None::<Action>),
{
}

/// Only a release of a press, or Space/Enter, fires; nothing else does.
pub proof fn lemma_what_fires(state: WidgetState, ev: WidgetEvent)
    ensures
        spec_transition(state, ev).1 is Some <==> state != WidgetState::Disabled && ((state
            == WidgetState::Pressed && ev == WidgetEvent::PointerUp) || ev == WidgetEvent::Key(
            KeyCode::Space,
        ) || ev == WidgetEvent::Key(KeyCode::Enter)),
        spec_transition(state, ev).1 is Some ==> spec_transition(state, ev).1 == Some(Action::Fire),
{
}

/// Releasing after dragging off a pressed widget does not fire.
pub proof fn lemma_release_after_leaving_does_not_fire()
    ensures
        spec_transition(
            spec_transition(WidgetState::Pressed, WidgetEvent::PointerLeave).0,
            WidgetEvent::PointerUp,
        ) == (WidgetState::Idle, None::<Action>),
{
}

/// Keyboard activation never changes the interaction state, and focus events
/// change nothing at all.
pub proof fn lemma_keys_and_focus_keep_state(state: WidgetState, k: KeyCode)
    ensures
        spec_transition(state, WidgetEvent::Key(k)).0 == state,
        spec_transition(state, WidgetEvent::FocusGained) == (state, None::<Action>),
        spec_transition(state, WidgetEvent::FocusLost) == (state, None::<Action>),
{
}

} // verus!
