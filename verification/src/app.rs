//! Application state: mediates every write the interface makes to the engine
//! configuration, and decides what each pointer event, widget event and key
//! press does.
//!
//! The model holds plain values only. The host keeps what belongs to the
//! screen (palette, DPI scale, surface cache, text renderer, the numeric
//! field's text) beside it, translates window messages into calls here, and
//! repaints when told to.

use vstd::prelude::*;
use crate::render::Theme;
use crate::shared::{EngineState, PositionMode, SharedState};
use crate::widget::focus::{focuses_on, steps_to, FocusRing};
use crate::widget::layout::WidgetId;
use crate::widget::model::{spec_transition, transition, Action, KeyCode, WidgetEvent, WidgetState};
use crate::widget::value::{clamp_cps, cps_to_interval_ns, step_cps, CPS_HARD_MAX, CPS_MIN, CPS_SLIDER_MAX};
use std::sync::Arc;

verus! {

/// Write the engine's period for a target CPS. The only path that sets
/// `interval_ns` from the interface, so the derivation lives in one place.
pub fn apply_cps(shared: &Arc<SharedState>, cps: u32) {
    shared.set_interval_ns(cps_to_interval_ns(cps));
}

/// Start or stop the engine. Starting first clears a prior `StoppedByLimit`
/// or `Error` state so a fresh run starts clean.
pub fn set_run(shared: &SharedState, run: bool) {
    if run {
        shared.set_engine_state(EngineState::Idle);
    }
    shared.set_running(run);
}

pub open spec fn flipped_mode(m: PositionMode) -> PositionMode {
    if m == PositionMode::FollowCursor {
        PositionMode::FixedPoint
    } else {
        PositionMode::FollowCursor
    }
}

/// The position-mode toggle: follow-cursor becomes fixed-point, anything else
/// becomes follow-cursor.
pub fn flip_mode(m: PositionMode) -> (r: PositionMode)
    ensures
        r == flipped_mode(m),
{
    if m == PositionMode::FollowCursor {
        PositionMode::FixedPoint
    } else {
        PositionMode::FollowCursor
    }
}

pub open spec fn flipped_theme(t: Theme) -> Theme {
    match t {
        Theme::Light => Theme::Dark,
        Theme::Dark => Theme::Light,
    }
}

/// The rate the interface starts at.
pub const INITIAL_CPS: u32 = 100;

/// Virtual-key codes the window reacts to.
pub const VK_TAB: u32 = 0x09;
pub const VK_RETURN: u32 = 0x0D;
pub const VK_SPACE: u32 = 0x20;
pub const VK_LEFT: u32 = 0x25;
pub const VK_RIGHT: u32 = 0x27;
pub const VK_T: u32 = 0x54;

/// The tab order: every interactive widget, enabled; the readout is display
/// only and takes no focus.
pub open spec fn tab_order() -> Seq<(WidgetId, bool)> {
    seq![
        (WidgetId::StartStop, true),
        (WidgetId::ModeToggle, true),
        (WidgetId::RateSlider, true),
        (WidgetId::IntervalField, true),
    ]
}

/// `rate` clamped into the interface's accepted range.
pub open spec fn accepted_cps(rate: u32) -> u32 {
    if rate < CPS_MIN {
        CPS_MIN
    } else if rate > CPS_HARD_MAX {
        CPS_HARD_MAX
    } else {
        rate
    }
}

/// The step the arrow keys take on a focused slider: 10 CPS up or down, on
/// the slider's range.
pub open spec fn stepped_cps(rate: u32, up: bool) -> u32 {
    let target: int = if up {
        rate + 10
    } else {
        rate - 10
    };
    (if target < CPS_MIN {
        CPS_MIN as int
    } else if target > CPS_SLIDER_MAX {
        CPS_SLIDER_MAX as int
    } else {
        target
    }) as u32
}

pub struct App {
    pub shared: Arc<SharedState>,
    /// Interaction state per widget, indexed by `WidgetId::slot`.
    pub states: [WidgetState; 5],
    pub focus: FocusRing<WidgetId>,
    pub cps: u32,
    pub mode: PositionMode,
    pub theme: Theme,
    /// The widget under the pointer.
    pub hovered: Option<WidgetId>,
    /// The widget a button press started on, until the release.
    pub pressed: Option<WidgetId>,
    /// The click counter at the previous readout sample.
    pub last_clicks: u64,
    pub last_cps: u32,
}

impl App {
    /// The interaction state of `id`.
    pub open spec fn state_of(&self, id: WidgetId) -> WidgetState {
        self.states@[id.spec_slot()]
    }

    /// The widget the focus ring points at, if any.
    pub open spec fn focused_id(&self) -> Option<WidgetId> {
        match self.focus.cursor() {
            Some(i) => Some(self.focus.entries()[i].0),
            None => None,
        }
    }

    /// `after` is `self` with widget `id` in state `s` and every other widget
    /// as it was.
    pub open spec fn restated(&self, after: &App, id: WidgetId, s: WidgetState) -> bool {
        &&& after.state_of(id) == s
        &&& forall|w: WidgetId| w != id ==> #[trigger] after.state_of(w) == self.state_of(w)
    }

    /// `after` is `self` with event `ev` fed to widget `id`, which returned
    /// `r`: its state moves by the transition table, the others keep theirs,
    /// and a fire on the mode toggle flips the position mode. A fire on the
    /// start/stop button acts on the engine, which the model does not hold;
    /// nothing else changes.
    pub open spec fn dispatched(&self, after: &App, id: WidgetId, ev: WidgetEvent, r: Option<Action>) -> bool {
        let (s, a) = spec_transition(self.state_of(id), ev);
        let fired_mode = a == Some(Action::Fire) && id == WidgetId::ModeToggle;
        &&& r == a
        &&& self.restated(after, id, s)
        &&& *after == (App {
            states: after.states,
            mode: if fired_mode {
                flipped_mode(self.mode)
            } else {
                self.mode
            },
            ..*self
        })
    }

    /// `after` is `self` after a key press with virtual-key code `vk`, Shift
    /// held or not; `repaint` says whether the window must be redrawn.
    /// Tab moves focus forwards (backwards with Shift); `T` flips the theme;
    /// Left and Right step a focused rate slider by 10 CPS; Space and Enter
    /// activate the focused widget as a Space press. Anything else, and an
    /// arrow or activation with nothing suitable focused, changes nothing.
    pub open spec fn key_pressed(&self, after: &App, vk: u32, shift: bool, repaint: bool) -> bool {
        if vk == VK_TAB {
            &&& repaint
            &&& after.focus.entries() == self.focus.entries()
            &&& steps_to(self.focus.entries(), self.focus.cursor(), after.focus.cursor(), !shift)
            &&& *after == (App { focus: after.focus, ..*self })
        } else if vk == VK_T {
            repaint && *after == (App { theme: flipped_theme(self.theme), ..*self })
        } else if vk == VK_LEFT || vk == VK_RIGHT {
            if self.focused_id() == Some(WidgetId::RateSlider) {
                repaint && *after == (App { cps: stepped_cps(self.cps, vk == VK_RIGHT), ..*self })
            } else {
                !repaint && *after == *self
            }
        } else if vk == VK_SPACE || vk == VK_RETURN {
            match self.focused_id() {
                Some(id) => repaint && exists|a: Option<Action>|
                    self.dispatched(after, id, WidgetEvent::Key(KeyCode::Space), a),
                None => !repaint && *after == *self,
            }
        } else {
            !repaint && *after == *self
        }
    }

    /// The model the interface starts from: 100 CPS written to the engine,
    /// follow-cursor, every widget idle but the display-only readout, which
    /// is disabled, nothing focused, hovered or pressed.
    pub fn new(shared: Arc<SharedState>, theme: Theme) -> (r: App)
        ensures
            r.shared == shared,
            r.cps == INITIAL_CPS,
            r.mode == PositionMode::FollowCursor,
            r.theme == theme,
            forall|w: WidgetId| #[trigger] r.state_of(w) == (if w == WidgetId::CpsReadout {
                WidgetState::Disabled
            } else {
                WidgetState::Idle
            }),
            r.focus.entries() == tab_order(),
            r.focus.cursor() is None,
            r.hovered is None,
            r.pressed is None,
            r.last_clicks == 0,
            r.last_cps == 0,
    {
        apply_cps(&shared, INITIAL_CPS);
        let focus = FocusRing::new(
            vec![
                (WidgetId::StartStop, true),
                (WidgetId::ModeToggle, true),
                (WidgetId::RateSlider, true),
                (WidgetId::IntervalField, true),
            ],
        );
        assert(focus.entries() =~= tab_order());
        App {
            shared,
            states: [
                WidgetState::Idle,
                WidgetState::Idle,
                WidgetState::Idle,
                WidgetState::Idle,
                WidgetState::Disabled,
            ],
            focus,
            cps: INITIAL_CPS,
            mode: PositionMode::FollowCursor,
            theme,
            hovered: None,
            pressed: None,
            last_clicks: 0,
            last_cps: 0,
        }
    }

    pub fn state(&self, id: WidgetId) -> (r: WidgetState)
        ensures
            r == self.state_of(id),
    {
        self.states[id.slot()]
    }

    pub fn set_state(&mut self, id: WidgetId, s: WidgetState)
        ensures
            old(self).restated(final(self), id, s),
            *final(self) == (App { states: final(self).states, ..*old(self) }),
    {
        let i = id.slot();
        self.states[i] = s;
        assert forall|w: WidgetId| w != id implies #[trigger] self.state_of(w) == old(self).state_of(w) by {
            assert(w.spec_slot() != id.spec_slot());
        }
    }

    /// Set the target rate, clamped into `CPS_MIN..=CPS_HARD_MAX`, and write
    /// the derived period to the engine.
    pub fn set_cps(&mut self, cps: u32)
        ensures
            *final(self) == (App { cps: accepted_cps(cps), ..*old(self) }),
    {
        self.cps = clamp_cps(cps);
        apply_cps(&self.shared, self.cps);
    }

    pub fn is_running(&self) -> bool {
        self.shared.running()
    }

    /// Flip the engine between running and stopped; starting clears a prior
    /// terminal state first.
    pub fn toggle_running(&mut self)
        ensures
            *final(self) == *old(self),
    {
        let now = !self.shared.running();
        set_run(&self.shared, now);
    }

    pub fn set_mode(&mut self, mode: PositionMode)
        ensures
            *final(self) == (App { mode, ..*old(self) }),
    {
        self.mode = mode;
        self.shared.set_position_mode(mode);
    }

    /// Take a readout sample of the click counter: the clicks since the
    /// previous sample (zero if the counter went backwards).
    pub fn sample_clicks(&mut self, now_clicks: u64) -> (delta: u64)
        ensures
            delta == (if now_clicks >= old(self).last_clicks {
                now_clicks - old(self).last_clicks
            } else {
                0
            }),
            *final(self) == (App { last_clicks: now_clicks, ..*old(self) }),
    {
        let delta = now_clicks.saturating_sub(self.last_clicks);
        self.last_clicks = now_clicks;
        delta
    }

    pub fn toggle_theme(&mut self)
        ensures
            *final(self) == (App { theme: flipped_theme(old(self).theme), ..*old(self) }),
    {
        self.theme = match self.theme {
            Theme::Light => Theme::Dark,
            Theme::Dark => Theme::Light,
        };
    }

    /// Feed one event to a widget's model and apply the resulting action: a
    /// fire on start/stop toggles the engine, a fire on the mode toggle flips
    /// the position mode.
    pub fn dispatch(&mut self, id: WidgetId, ev: WidgetEvent) -> (r: Option<Action>)
        ensures
            old(self).dispatched(final(self), id, ev, r),
    {
        let (next, action) = transition(self.state(id), ev);
        self.set_state(id, next);
        let ghost mid = *self;
        match action {
            Some(Action::Fire) => match id {
                WidgetId::StartStop => self.toggle_running(),
                WidgetId::ModeToggle => {
                    let m = flip_mode(self.mode);
                    self.set_mode(m);
                },
                _ => {},
            },
            _ => {},
        }
        assert(old(self).restated(&mid, id, next));
        assert forall|w: WidgetId| #[trigger] self.state_of(w) == mid.state_of(w) by {
            assert(self.states == mid.states);
        }
        action
    }

    /// Move focus to a clicked widget. Focus is orthogonal to interaction
    /// state: only the ring moves.
    pub fn focus_widget(&mut self, id: WidgetId)
        ensures
            final(self).focus.entries() == old(self).focus.entries(),
            focuses_on(old(self).focus.entries(), old(self).focus.cursor(), final(self).focus.cursor(), id),
            *final(self) == (App { focus: final(self).focus, ..*old(self) }),
    {
        self.focus.focus(id);
    }

    /// The pointer moved onto `hit` (a widget, or none). On a change of
    /// widget, the old one gets a leave and the new one an enter. Returns
    /// whether the hovered widget changed.
    pub fn pointer_move(&mut self, hit: Option<WidgetId>) -> (changed: bool)
        ensures
            changed == (hit != old(self).hovered),
            !changed ==> *final(self) == *old(self),
            changed ==> final(self).hovered == hit,
            changed ==> forall|w: WidgetId| #[trigger] final(self).state_of(w) == (if hit == Some(w) {
                spec_transition(old(self).state_of(w), WidgetEvent::PointerEnter).0
            } else if old(self).hovered == Some(w) {
                spec_transition(old(self).state_of(w), WidgetEvent::PointerLeave).0
            } else {
                old(self).state_of(w)
            }),
            changed ==> *final(self) == (App { states: final(self).states, hovered: hit, ..*old(self) }),
    {
        let same = match (hit, self.hovered) {
            (Some(a), Some(b)) => a == b,
            (None, None) => true,
            _ => false,
        };
        if same {
            return false;
        }
        assert(hit != old(self).hovered);
        if let Some(old_id) = self.hovered {
            let _ = self.dispatch(old_id, WidgetEvent::PointerLeave);
        }
        let ghost left = *self;
        assert forall|w: WidgetId| #[trigger] left.state_of(w) == (if old(self).hovered == Some(w) {
            spec_transition(old(self).state_of(w), WidgetEvent::PointerLeave).0
        } else {
            old(self).state_of(w)
        }) by {}
        if let Some(new_id) = hit {
            let _ = self.dispatch(new_id, WidgetEvent::PointerEnter);
        }
        assert forall|w: WidgetId| #[trigger] self.state_of(w) == (if hit == Some(w) {
            spec_transition(left.state_of(w), WidgetEvent::PointerEnter).0
        } else {
            left.state_of(w)
        }) by {}
        let ghost entered = *self;
        self.hovered = hit;
        assert(self.states == entered.states);
        assert forall|w: WidgetId| #[trigger] self.state_of(w) == (if hit == Some(w) {
            spec_transition(old(self).state_of(w), WidgetEvent::PointerEnter).0
        } else if old(self).hovered == Some(w) {
            spec_transition(old(self).state_of(w), WidgetEvent::PointerLeave).0
        } else {
            old(self).state_of(w)
        }) by {
            assert(self.state_of(w) == entered.state_of(w));
            assert(left.state_of(w) == (if old(self).hovered == Some(w) {
                spec_transition(old(self).state_of(w), WidgetEvent::PointerLeave).0
            } else {
                old(self).state_of(w)
            }));
        }
        true
    }

    /// A button press on widget `id`: the press is captured by `id`, focus
    /// moves there, and the widget sees a pointer-down.
    pub fn pointer_down(&mut self, id: WidgetId)
        ensures
            final(self).pressed == Some(id),
            final(self).focus.entries() == old(self).focus.entries(),
            focuses_on(old(self).focus.entries(), old(self).focus.cursor(), final(self).focus.cursor(), id),
            old(self).restated(final(self), id, spec_transition(old(self).state_of(id), WidgetEvent::PointerDown).0),
            *final(self) == (App { states: final(self).states, focus: final(self).focus, pressed: Some(id), ..*old(self) }),
    {
        self.pressed = Some(id);
        self.focus_widget(id);
        let _ = self.dispatch(id, WidgetEvent::PointerDown);
    }

    /// The button was released: the widget that captured the press, if any,
    /// sees a pointer-up (which fires if it is still pressed) and the capture
    /// ends. Returns that widget and what it did.
    pub fn pointer_up(&mut self) -> (r: Option<(WidgetId, Option<Action>)>)
        ensures
            final(self).pressed is None,
            match old(self).pressed {
                Some(id) => r matches Some((rid, a)) && rid == id && (App { pressed: None, ..*old(self) }).dispatched(
                    final(self),
                    id,
                    WidgetEvent::PointerUp,
                    a,
                ),
                None => r is None && *final(self) == *old(self),
            },
    {
        match self.pressed {
            Some(id) => {
                self.pressed = None;
                let a = self.dispatch(id, WidgetEvent::PointerUp);
                Some((id, a))
            },
            None => None,
        }
    }

    /// Tab and Shift+Tab: move focus around the ring.
    pub fn key_tab(&mut self, shift: bool)
        ensures
            old(self).key_pressed(final(self), VK_TAB, shift, true),
    {
        if shift {
            self.focus.prev();
        } else {
            self.focus.next();
        }
    }

    /// Left/Right: step the rate by 10 CPS, only while the slider has focus.
    /// Returns whether anything changed.
    pub fn key_arrow(&mut self, right: bool) -> (changed: bool)
        ensures
            old(self).key_pressed(final(self), if right { VK_RIGHT } else { VK_LEFT }, false, changed),
    {
        match self.focus.focused() {
            Some(WidgetId::RateSlider) => {
                let next = step_cps(self.cps, right);
                self.set_cps(next);
                true
            },
            _ => false,
        }
    }

    /// Space/Enter: activate the focused widget, if any. Returns whether
    /// anything was activated.
    pub fn key_fire(&mut self) -> (fired: bool)
        ensures
            old(self).key_pressed(final(self), VK_SPACE, false, fired),
    {
        match self.focus.focused() {
            Some(id) => {
                let _ = self.dispatch(id, WidgetEvent::Key(KeyCode::Space));
                true
            },
            None => false,
        }
    }

    /// One key press, by virtual-key code. Returns whether to repaint.
    pub fn key_down(&mut self, vk: u32, shift: bool) -> (repaint: bool)
        ensures
            old(self).key_pressed(final(self), vk, shift, repaint),
    {
        if vk == VK_TAB {
            self.key_tab(shift);
            true
        } else if vk == VK_T {
            self.toggle_theme();
            true
        } else if vk == VK_LEFT || vk == VK_RIGHT {
            self.key_arrow(vk == VK_RIGHT)
        } else if vk == VK_SPACE || vk == VK_RETURN {
            self.key_fire()
        } else {
            false
        }
    }
}

/// A disabled widget (the display-only readout is one from the start) never
/// reacts: whatever event it is fed, it stays disabled, fires nothing, and
/// leaves the position mode alone.
pub proof fn lemma_disabled_widget_never_reacts(
    before: App,
    after: App,
    id: WidgetId,
    ev: WidgetEvent,
    r: Option<Action>,
)
    requires
        before.state_of(id) == WidgetState::Disabled,
        before.dispatched(&after, id, ev, r),
    ensures
        after.state_of(id) == WidgetState::Disabled,
        r is None,
        after.mode == before.mode,
{
}

} // verus!
