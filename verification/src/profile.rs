//! Persisted settings.
//!
//! A profile file is never trusted: every field is clamped or defaulted on
//! load, and a corrupt, missing, or future-schema file yields defaults plus a
//! note rather than an error. A hand-edited file can never feed the engine a
//! bad value, and a bad file never crashes startup. Reading the file and
//! decoding its JSON are the host's job; deciding what a decoded (or
//! undecodable, or absent) file means is here.

use vstd::prelude::*;
use crate::shared::{last_stored, lemma_later_stores_decide, Button, ConfigField, ConfigWrites, PositionMode, SharedState};
use crate::widget::value::cps_to_interval_ns;

verus! {

/// Bump when the on-disk shape changes incompatibly. A file with a higher
/// schema than we understand is ignored (defaults used).
pub const SCHEMA_VERSION: u32 = 1;

/// Clamp bounds, matching the interface's slider/field range.
pub const CPS_MIN: u32 = 1;

pub const CPS_MAX: u32 = 4000;

/// `VK_F8`, reserved for the emergency stop; a profile may not bind it.
pub const VK_F8: u32 = 0x77;

/// Default global toggle key: `VK_F6`.
pub const DEFAULT_TOGGLE_VK: u32 = 0x75;

/// Longest hold or jitter, in percent of the interval.
pub const PCT_MAX: u8 = 95;

#[derive(Clone, Debug, PartialEq, Eq, Structural)]
pub struct Profile {
    pub schema: u32,
    pub cps: u32,
    pub button: Button,
    pub position_mode: PositionMode,
    pub fixed_x: i32,
    pub fixed_y: i32,
    pub limit_clicks: u64,
    pub limit_ns: u64,
    /// Global start/stop hotkey virtual-key.
    pub toggle_vk: u32,
    /// Hold-to-click trigger virtual-key; `0` disables hold mode.
    pub hold_vk: u32,
    pub high_priority: bool,
    /// Fraction of the interval the button is held per click, in percent.
    pub duty_pct: u8,
    /// Interval jitter, in percent.
    pub randomize_pct: u8,
    /// 0 = mouse button, 1 = keyboard key.
    pub click_kind: u8,
    /// Virtual-key pressed in keyboard mode.
    pub key_vk: u32,
}

/// Keyboard-mode key when a file does not name one: Space.
pub fn default_key_vk() -> (vk: u32)
    ensures
        vk == 0x20,
{
    0x20
}

pub open spec fn spec_default_profile() -> Profile {
    Profile {
        schema: SCHEMA_VERSION,
        cps: 100,
        button: Button::Left,
        position_mode: PositionMode::FollowCursor,
        fixed_x: 0,
        fixed_y: 0,
        limit_clicks: 0,
        limit_ns: 0,
        toggle_vk: DEFAULT_TOGGLE_VK,
        hold_vk: 0,
        high_priority: false,
        duty_pct: 0,
        randomize_pct: 0,
        click_kind: 0,
        key_vk: 0x20,
    }
}

impl Default for Profile {
    /// 100 CPS, left button, follow-cursor, no limits, F6 toggle, hold off.
    fn default() -> (p: Self)
        ensures
            p == spec_default_profile(),
    {
        Profile {
            schema: SCHEMA_VERSION,
            cps: 100,
            button: Button::Left,
            position_mode: PositionMode::FollowCursor,
            fixed_x: 0,
            fixed_y: 0,
            limit_clicks: 0,
            limit_ns: 0,
            toggle_vk: DEFAULT_TOGGLE_VK,
            hold_vk: 0,
            high_priority: false,
            duty_pct: 0,
            randomize_pct: 0,
            click_kind: 0,
            key_vk: default_key_vk(),
        }
    }
}

/// The validated form of a profile: CPS clamped into `1..=4000`; a toggle key
/// of F8 or none reset to F6; a hold key of F8 disabled; hold and jitter
/// capped at 95%; schema set to the current version. Everything else kept.
pub open spec fn spec_sanitized(p: Profile) -> Profile {
    Profile {
        schema: SCHEMA_VERSION,
        cps: if p.cps < CPS_MIN {
            CPS_MIN
        } else if p.cps > CPS_MAX {
            CPS_MAX
        } else {
            p.cps
        },
        toggle_vk: if p.toggle_vk == VK_F8 || p.toggle_vk == 0 {
            DEFAULT_TOGGLE_VK
        } else {
            p.toggle_vk
        },
        hold_vk: if p.hold_vk == VK_F8 {
            0
        } else {
            p.hold_vk
        },
        duty_pct: if p.duty_pct > PCT_MAX {
            PCT_MAX
        } else {
            p.duty_pct
        },
        randomize_pct: if p.randomize_pct > PCT_MAX {
            PCT_MAX
        } else {
            p.randomize_pct
        },
        ..p
    }
}

/// A profile every one of whose values the engine accepts as is.
pub open spec fn is_sane(p: Profile) -> bool {
    &&& p.schema == SCHEMA_VERSION
    &&& CPS_MIN <= p.cps <= CPS_MAX
    &&& p.toggle_vk != VK_F8 && p.toggle_vk != 0
    &&& p.hold_vk != VK_F8
    &&& p.duty_pct <= PCT_MAX
    &&& p.randomize_pct <= PCT_MAX
}

impl Profile {
    /// Clamp/validate every field so no hand-edited value reaches the engine.
    pub fn sanitized(self) -> (p: Self)
        ensures
            p == spec_sanitized(self),
    {
        let mut p = self;
        p.cps = if p.cps < CPS_MIN {
            CPS_MIN
        } else if p.cps > CPS_MAX {
            CPS_MAX
        } else {
            p.cps
        };
        // A hotkey may not shadow the emergency stop.
        if p.toggle_vk == VK_F8 || p.toggle_vk == 0 {
            p.toggle_vk = DEFAULT_TOGGLE_VK;
        }
        if p.hold_vk == VK_F8 {
            p.hold_vk = 0;  // disable rather than fight F8
        }
        if p.duty_pct > PCT_MAX {
            p.duty_pct = PCT_MAX;
        }
        if p.randomize_pct > PCT_MAX {
            p.randomize_pct = PCT_MAX;
        }
        p.schema = SCHEMA_VERSION;
        p
    }
}

/// Sanitising always yields a sane profile, leaves a sane one unchanged, and
/// so is idempotent; the defaults are sane.
pub proof fn lemma_sanitize_laws(p: Profile)
    ensures
        is_sane(spec_sanitized(p)),
        is_sane(p) ==> spec_sanitized(p) == p,
        spec_sanitized(spec_sanitized(p)) == spec_sanitized(p),
        is_sane(spec_default_profile()),
{
}

/// What happened when loading; surfaced to the user as a non-fatal notice.
#[derive(Copy, Clone, Debug, PartialEq, Eq, Structural)]
pub enum LoadNote {
    /// The file was read, decoded, and sanitized.
    Loaded,
    Missing,
    Corrupt,
    FutureSchema,
}

/// The UTF-8 byte-order mark some editors prepend.
pub open spec fn has_bom(b: Seq<u8>) -> bool {
    b.len() >= 3 && b[0] == 0xEF && b[1] == 0xBB && b[2] == 0xBF
}

/// Drop a leading UTF-8 BOM: a hand-edit in an editor that adds one should
/// not read as corrupt.
pub fn strip_bom(bytes: &[u8]) -> (rest: &[u8])
    ensures
        has_bom(bytes@) ==> rest@ == bytes@.subrange(3, bytes@.len() as int),
        !has_bom(bytes@) ==> rest@ == bytes@,
{
    if bytes.len() >= 3 && bytes[0] == 0xEF && bytes[1] == 0xBB && bytes[2] == 0xBF {
        let (_, rest) = bytes.split_at(3);
        rest
    } else {
        bytes
    }
}

/// The load outcome for a profile file. `None` means there is no file.
/// Otherwise the file was read and decoded twice: `schema` is its `schema`
/// field read on its own (`None` if even that does not decode), `profile` the
/// whole file as a profile (`None` if it does not decode). A schema newer than
/// this build understands is a clean fallback whatever the rest of the file
/// looks like; otherwise an undecodable file is corrupt, and a decoded one is
/// sanitized. Always a usable (sane) profile.
pub open spec fn spec_settle_load(file: Option<(Option<u32>, Option<Profile>)>) -> (Profile, LoadNote) {
    match file {
        None => (spec_default_profile(), LoadNote::Missing),
        Some((schema, profile)) => if schema matches Some(v) && v > SCHEMA_VERSION {
            (spec_default_profile(), LoadNote::FutureSchema)
        } else {
            match profile {
                None => (spec_default_profile(), LoadNote::Corrupt),
                Some(p) => if p.schema > SCHEMA_VERSION {
                    (spec_default_profile(), LoadNote::FutureSchema)
                } else {
                    (spec_sanitized(p), LoadNote::Loaded)
                },
            }
        },
    }
}

/// Decide what a read-and-decode attempt yields (see [`spec_settle_load`]): a
/// missing file, a corrupt file, or a file from a newer schema all give the
/// defaults with a note; a decoded current file gives its sanitized contents.
pub fn settle_load(file: Option<(Option<u32>, Option<Profile>)>) -> (r: (Profile, LoadNote))
    ensures
        r == spec_settle_load(file),
        is_sane(r.0),
{
    match file {
        None => (Profile::default(), LoadNote::Missing),
        Some((schema, profile)) => {
            if let Some(v) = schema {
                if v > SCHEMA_VERSION {
                    return (Profile::default(), LoadNote::FutureSchema);
                }
            }
            match profile {
                None => (Profile::default(), LoadNote::Corrupt),
                Some(p) => {
                    if p.schema > SCHEMA_VERSION {
                        (Profile::default(), LoadNote::FutureSchema)
                    } else {
                        (p.sanitized(), LoadNote::Loaded)
                    }
                },
            }
        },
    }
}

/// The stores that apply a profile, in order: the period for its rate
/// (never unthrottled), its button and position mode, its fixed point, and
/// exactly its click and time limits, zero (no limit) included.
pub open spec fn profile_writes(p: Profile) -> Seq<(ConfigField, int)> {
    seq![
        (ConfigField::IntervalNs, 1_000_000_000int / (if p.cps < 1 { 1int } else { p.cps as int })),
        (ConfigField::Button, p.button.spec_code() as int),
        (ConfigField::PositionMode, p.position_mode.spec_code() as int),
        (ConfigField::FixedX, p.fixed_x as int),
        (ConfigField::FixedY, p.fixed_y as int),
        (ConfigField::LimitClicks, p.limit_clicks as int),
        (ConfigField::LimitNs, p.limit_ns as int),
    ]
}

/// Push a profile's engine settings into the control block. Every field is
/// stored unconditionally, so nothing a previous profile left there survives;
/// the returned log holds the receipts of exactly those stores.
pub fn apply_to_shared(s: &SharedState, p: &Profile) -> (w: ConfigWrites)
    ensures
        w.target() == *s,
        w.made() == profile_writes(*p),
{
    let mut w = ConfigWrites::new(s);
    w.note(s.set_interval_ns(cps_to_interval_ns(p.cps)));
    w.note(s.set_button(p.button));
    w.note(s.set_position_mode(p.position_mode));
    let (x, y) = s.set_fixed_point(p.fixed_x, p.fixed_y);
    w.note(x);
    w.note(y);
    w.note(s.set_limit_clicks(p.limit_clicks));
    w.note(s.set_limit_ns(p.limit_ns));
    w
}

/// Applying a profile decides every engine field it carries, whatever the
/// control block held: after any earlier stores `before`, the period holds
/// one second divided by the profile's rate (at least one), the button and
/// position mode their codes, the fixed point its coordinates, and the click
/// and time limits exactly the profile's limits, zero ("no limit") included.
pub proof fn lemma_applied_profile_overrides_earlier_stores(before: Seq<(ConfigField, int)>, p: Profile)
    ensures
        last_stored(before + profile_writes(p), ConfigField::IntervalNs) == Some(
            1_000_000_000int / (if p.cps < 1 { 1int } else { p.cps as int }),
        ),
        last_stored(before + profile_writes(p), ConfigField::Button) == Some(p.button.spec_code() as int),
        last_stored(before + profile_writes(p), ConfigField::PositionMode) == Some(
            p.position_mode.spec_code() as int,
        ),
        last_stored(before + profile_writes(p), ConfigField::FixedX) == Some(p.fixed_x as int),
        last_stored(before + profile_writes(p), ConfigField::FixedY) == Some(p.fixed_y as int),
        last_stored(before + profile_writes(p), ConfigField::LimitClicks) == Some(p.limit_clicks as int),
        last_stored(before + profile_writes(p), ConfigField::LimitNs) == Some(p.limit_ns as int),
{
    let ws = profile_writes(p);
    reveal_with_fuel(last_stored, 8);
    lemma_later_stores_decide(before, ws, ConfigField::IntervalNs);
    lemma_later_stores_decide(before, ws, ConfigField::Button);
    lemma_later_stores_decide(before, ws, ConfigField::PositionMode);
    lemma_later_stores_decide(before, ws, ConfigField::FixedX);
    lemma_later_stores_decide(before, ws, ConfigField::FixedY);
    lemma_later_stores_decide(before, ws, ConfigField::LimitClicks);
    lemma_later_stores_decide(before, ws, ConfigField::LimitNs);
}

} // verus!
