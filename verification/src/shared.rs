//! The control block shared between the host thread and the engine thread.
//!
//! Every field is an atomic; there is no lock anywhere in this type by design.
//! The values behind the atomics are written by another thread, so nothing
//! here can promise what a load returns: the contracts state only what holds
//! of every outcome. The conversions from stored bytes back to enums are exact.

use vstd::prelude::*;
use core::sync::atomic::{AtomicBool, AtomicI32, AtomicU16, AtomicU32, AtomicU64, AtomicU8, AtomicUsize, Ordering};

verus! {

/// Mouse button to click.
#[derive(Copy, Clone, Debug, PartialEq, Eq, Structural)]
pub enum Button {
    Left,
    Middle,
    Right,
}

impl Button {
    /// The byte stored in the control block for this button.
    pub open spec fn spec_code(self) -> u8 {
        match self {
            Button::Left => 0,
            Button::Middle => 1,
            Button::Right => 2,
        }
    }

    pub fn code(self) -> (r: u8)
        ensures
            r == self.spec_code(),
    {
        match self {
            Button::Left => 0,
            Button::Middle => 1,
            Button::Right => 2,
        }
    }

    pub open spec fn spec_from_u8(v: u8) -> Button {
        if v == 1 {
            Button::Middle
        } else if v == 2 {
            Button::Right
        } else {
            Button::Left
        }
    }

    /// Saturating conversion. A corrupt byte degrades to `Left` rather than
    /// panicking; this runs in the hot loop and must never fail.
    pub fn from_u8(v: u8) -> (r: Self)
        ensures
            r == Button::spec_from_u8(v),
    {
        match v {
            1 => Button::Middle,
            2 => Button::Right,
            _ => Button::Left,
        }
    }
}

/// Where clicks land.
#[derive(Copy, Clone, Debug, PartialEq, Eq, Structural)]
pub enum PositionMode {
    FollowCursor,
    FixedPoint,
    /// Click a sequence of points in order, one per click.
    Sequence,
}

impl PositionMode {
    pub open spec fn spec_code(self) -> u8 {
        match self {
            PositionMode::FollowCursor => 0,
            PositionMode::FixedPoint => 1,
            PositionMode::Sequence => 2,
        }
    }

    pub fn code(self) -> (r: u8)
        ensures
            r == self.spec_code(),
    {
        match self {
            PositionMode::FollowCursor => 0,
            PositionMode::FixedPoint => 1,
            PositionMode::Sequence => 2,
        }
    }

    pub open spec fn spec_from_u8(v: u8) -> PositionMode {
        if v == 1 {
            PositionMode::FixedPoint
        } else if v == 2 {
            PositionMode::Sequence
        } else {
            PositionMode::FollowCursor
        }
    }

    /// Saturating conversion; an unknown byte means follow-cursor.
    pub fn from_u8(v: u8) -> (r: Self)
        ensures
            r == PositionMode::spec_from_u8(v),
    {
        match v {
            1 => PositionMode::FixedPoint,
            2 => PositionMode::Sequence,
            _ => PositionMode::FollowCursor,
        }
    }
}

/// Maximum click points in a sequence. Fixed so the storage is allocated once
/// with the control block and the hot loop never allocates.
pub const MAX_POINTS: usize = 64;

/// What the engine is doing, as last published by the engine thread.
#[derive(Copy, Clone, Debug, PartialEq, Eq, Structural)]
pub enum EngineState {
    Idle,
    Running,
    StoppedByLimit,
    Error,
}

impl EngineState {
    pub open spec fn spec_code(self) -> u8 {
        match self {
            EngineState::Idle => 0,
            EngineState::Running => 1,
            EngineState::StoppedByLimit => 2,
            EngineState::Error => 3,
        }
    }

    pub fn code(self) -> (r: u8)
        ensures
            r == self.spec_code(),
    {
        match self {
            EngineState::Idle => 0,
            EngineState::Running => 1,
            EngineState::StoppedByLimit => 2,
            EngineState::Error => 3,
        }
    }

    pub open spec fn spec_from_u8(v: u8) -> EngineState {
        if v == 1 {
            EngineState::Running
        } else if v == 2 {
            EngineState::StoppedByLimit
        } else if v == 3 {
            EngineState::Error
        } else {
            EngineState::Idle
        }
    }

    /// Saturating conversion; an unknown byte means idle.
    pub fn from_u8(v: u8) -> (r: Self)
        ensures
            r == EngineState::spec_from_u8(v),
    {
        match v {
            1 => EngineState::Running,
            2 => EngineState::StoppedByLimit,
            3 => EngineState::Error,
            _ => EngineState::Idle,
        }
    }
}

/// Decoding a stored code gives back the value that was encoded.
pub proof fn lemma_codes_round_trip(b: Button, m: PositionMode, s: EngineState)
    ensures
        Button::spec_from_u8(b.spec_code()) == b,
        PositionMode::spec_from_u8(m.spec_code()) == m,
        EngineState::spec_from_u8(s.spec_code()) == s,
{
}

/// One consistent read of every config field, taken once per loop iteration.
#[derive(Copy, Clone, Debug, PartialEq, Eq)]
pub struct Config {
    pub interval_ns: u64,
    pub button: Button,
    pub position: Option<(i32, i32)>,
    pub limit_clicks: u64,
    pub limit_ns: u64,
    pub batch_size: u16,
    /// Fraction of the interval the button is held down, in percent (0 = a
    /// press/release with no hold). Only honoured at `batch_size == 1`.
    pub duty_pct: u8,
    /// Interval jitter, in percent. 0 = perfectly regular.
    pub randomize_pct: u8,
    /// 0 = click a mouse button, 1 = press a keyboard key (`key_vk`).
    pub click_kind: u8,
    /// Virtual-key pressed in keyboard mode.
    pub key_vk: u32,
    /// True when the position mode is `Sequence`: the engine walks the point list.
    pub sequence: bool,
    /// Stop after one full pass through the point sequence.
    pub stop_when_complete: bool,
}

/// The position fields of `cfg` are those of the stored mode byte `code`: a
/// fixed position exactly in fixed-point mode, `sequence` exactly in sequence
/// mode.
pub open spec fn mode_fields_agree(cfg: Config, code: u8) -> bool {
    &&& (cfg.position is Some <==> PositionMode::spec_from_u8(code) == PositionMode::FixedPoint)
    &&& (cfg.sequence <==> PositionMode::spec_from_u8(code) == PositionMode::Sequence)
}

/// The batch size the control block accepts: at least one click.
pub fn accepted_batch_size(v: u16) -> (r: u16)
    ensures
        r == (if v < 1 { 1 } else { v }),
{
    if v < 1 { 1 } else { v }
}

/// A hold or jitter percentage the control block accepts: at most 95, so a
/// release always follows a press and every period stays positive.
pub fn accepted_pct(v: u8) -> (r: u8)
    ensures
        r == (if v > 95 { 95 } else { v }),
{
    if v > 95 { 95 } else { v }
}

/// How many of `len` points the control block keeps: at most `MAX_POINTS`.
pub fn accepted_points_len(len: usize) -> (n: usize)
    ensures
        n == (if len < MAX_POINTS { len } else { MAX_POINTS }),
{
    if len < MAX_POINTS { len } else { MAX_POINTS }
}

/// The configuration snapshots one reader has taken, in order. Only
/// [`SharedState::snapshot_into`] adds to it, and only what the snapshot
/// returned, so a configuration in this log was read from the control block.
pub struct ConfigReads {
    reads: Ghost<Seq<Config>>,
    sources: Ghost<Seq<SharedState>>,
}

impl ConfigReads {
    /// The control block each snapshot was taken from.
    pub closed spec fn sources(&self) -> Seq<SharedState> {
        self.sources@
    }

    /// The snapshots taken so far, oldest first.
    pub closed spec fn taken(&self) -> Seq<Config> {
        self.reads@
    }

    pub fn new() -> (r: Self)
        ensures
            r.taken() == Seq::<Config>::empty(),
            r.sources() == Seq::<SharedState>::empty(),
    {
        ConfigReads { reads: Ghost(Seq::empty()), sources: Ghost(Seq::empty()) }
    }
}

/// A configuration field of the control block.
#[derive(Copy, Clone, Debug, PartialEq, Eq, Structural)]
pub enum ConfigField {
    IntervalNs,
    Button,
    PositionMode,
    FixedX,
    FixedY,
    LimitClicks,
    LimitNs,
}

/// A setter's receipt: the field it stored into and the value it stored
/// there. Only the setters of [`SharedState`] make one.
pub struct Stored {
    target: Ghost<SharedState>,
    field: Ghost<ConfigField>,
    value: Ghost<int>,
}

impl Stored {
    /// The control block the store went to.
    pub closed spec fn target(&self) -> SharedState {
        self.target@
    }

    pub closed spec fn field(&self) -> ConfigField {
        self.field@
    }

    pub closed spec fn value(&self) -> int {
        self.value@
    }
}

fn receipt_u64(target: Ghost<SharedState>, field: ConfigField, v: u64) -> (r: Stored)
    ensures
        r.target() == target@ && r.field() == field && r.value() == v,
{
    Stored { target, field: Ghost(field), value: Ghost(v as int) }
}

fn receipt_i32(target: Ghost<SharedState>, field: ConfigField, v: i32) -> (r: Stored)
    ensures
        r.target() == target@ && r.field() == field && r.value() == v,
{
    Stored { target, field: Ghost(field), value: Ghost(v as int) }
}

fn receipt_u8(target: Ghost<SharedState>, field: ConfigField, v: u8) -> (r: Stored)
    ensures
        r.target() == target@ && r.field() == field && r.value() == v,
{
    Stored { target, field: Ghost(field), value: Ghost(v as int) }
}

/// What a sequence of stores leaves in field `f`: the value of the last store
/// into `f`, or `None` where none went there.
pub open spec fn last_stored(ws: Seq<(ConfigField, int)>, f: ConfigField) -> Option<int>
    decreases ws.len(),
{
    if ws.len() == 0 {
        None
    } else if ws.last().0 == f {
        Some(ws.last().1)
    } else {
        last_stored(ws.drop_last(), f)
    }
}

/// Stores made later decide a field that they write: whatever `before`
/// stored into `f` is overridden by `after` wherever `after` stores into `f`.
pub proof fn lemma_later_stores_decide(before: Seq<(ConfigField, int)>, after: Seq<(ConfigField, int)>, f: ConfigField)
    requires
        last_stored(after, f) is Some,
    ensures
        last_stored(before + after, f) == last_stored(after, f),
    decreases after.len(),
{
    let ws = before + after;
    assert(ws.last() == after.last());
    if after.last().0 != f {
        assert(ws.drop_last() == before + after.drop_last());
        lemma_later_stores_decide(before, after.drop_last(), f);
    }
}

/// The stores one writer made into a control block, oldest first. Only
/// receipts from the setters can be added.
pub struct ConfigWrites {
    target: Ghost<SharedState>,
    writes: Ghost<Seq<(ConfigField, int)>>,
}

impl ConfigWrites {
    /// The control block the stores went to.
    pub closed spec fn target(&self) -> SharedState {
        self.target@
    }

    pub closed spec fn made(&self) -> Seq<(ConfigField, int)> {
        self.writes@
    }

    /// An empty log of stores into `target`.
    pub fn new(target: &SharedState) -> (w: Self)
        ensures
            w.target() == *target,
            w.made() == Seq::<(ConfigField, int)>::empty(),
    {
        ConfigWrites { target: Ghost(*target), writes: Ghost(Seq::empty()) }
    }

    /// Add a receipt of a store into this log's control block.
    pub fn note(&mut self, r: Stored)
        requires
            r.target() == old(self).target(),
        ensures
            final(self).target() == old(self).target(),
            final(self).made() == old(self).made().push((r.field(), r.value())),
    {
        self.writes = Ghost(self.writes@.push((r.field@, r.value@)));
    }
}

/// Shared between the host thread and the engine thread.
#[derive(Debug)]
pub struct SharedState {
    running: AtomicBool,
    shutdown: AtomicBool,
    interval_ns: AtomicU64,
    button: AtomicU8,
    position_mode: AtomicU8,
    fixed_x: AtomicI32,
    fixed_y: AtomicI32,
    limit_clicks: AtomicU64,
    limit_ns: AtomicU64,
    clicks_emitted: AtomicU64,
    engine_state: AtomicU8,
    batch_size: AtomicU16,
    duty_pct: AtomicU8,
    randomize_pct: AtomicU8,
    click_kind: AtomicU8,
    key_vk: AtomicU32,
    points: Vec<AtomicI32>,
    points_len: AtomicUsize,
    stop_when_complete: AtomicBool,
}

impl SharedState {
    /// The point storage always holds `MAX_POINTS` coordinate pairs.
    #[verifier::type_invariant]
    spec fn points_sized(self) -> bool {
        self.points@.len() == MAX_POINTS * 2
    }

    /// Defaults: stopped, idle, 100 CPS, left button, follow-cursor, no limits,
    /// batch of one, Space as the keyboard key, an empty point sequence.
    pub fn new() -> (s: Self) {
        let mut points: Vec<AtomicI32> = Vec::new();
        let mut i: usize = 0;
        while i < MAX_POINTS * 2
            invariant
                i <= MAX_POINTS * 2,
                points@.len() == i,
            decreases MAX_POINTS * 2 - i,
        {
            points.push(AtomicI32::new(0));
            i = i + 1;
        }
        SharedState {
            running: AtomicBool::new(false),
            shutdown: AtomicBool::new(false),
            interval_ns: AtomicU64::new(10_000_000),  // 100 CPS
            button: AtomicU8::new(Button::Left.code()),
            position_mode: AtomicU8::new(PositionMode::FollowCursor.code()),
            fixed_x: AtomicI32::new(0),
            fixed_y: AtomicI32::new(0),
            limit_clicks: AtomicU64::new(0),
            limit_ns: AtomicU64::new(0),
            clicks_emitted: AtomicU64::new(0),
            engine_state: AtomicU8::new(EngineState::Idle.code()),
            batch_size: AtomicU16::new(1),
            duty_pct: AtomicU8::new(0),
            randomize_pct: AtomicU8::new(0),
            click_kind: AtomicU8::new(0),
            key_vk: AtomicU32::new(0x20),  // Space
            points,
            points_len: AtomicUsize::new(0),
            stop_when_complete: AtomicBool::new(false),
        }
    }

    /// Single `Relaxed` read of every config field. These are hints that may be
    /// one click stale, which is acceptable and cheaper than acquiring.
    ///
    /// For the mode byte it loaded, a fixed position is reported exactly in
    /// fixed-point mode and `sequence` holds exactly in sequence mode.
    pub fn snapshot(&self) -> (cfg: Config)
        ensures
            exists|code: u8| #[trigger] mode_fields_agree(cfg, code),
    {
        let code = self.position_mode.load(Ordering::Relaxed);
        let mode = PositionMode::from_u8(code);
        let position = match mode {
            PositionMode::FixedPoint => Some(
                (self.fixed_x.load(Ordering::Relaxed), self.fixed_y.load(Ordering::Relaxed)),
            ),
            _ => None,
        };
        let cfg = Config {
            interval_ns: self.interval_ns.load(Ordering::Relaxed),
            button: Button::from_u8(self.button.load(Ordering::Relaxed)),
            position,
            limit_clicks: self.limit_clicks.load(Ordering::Relaxed),
            limit_ns: self.limit_ns.load(Ordering::Relaxed),
            batch_size: self.batch_size.load(Ordering::Relaxed),
            duty_pct: self.duty_pct.load(Ordering::Relaxed),
            randomize_pct: self.randomize_pct.load(Ordering::Relaxed),
            click_kind: self.click_kind.load(Ordering::Relaxed),
            key_vk: self.key_vk.load(Ordering::Relaxed),
            sequence: mode == PositionMode::Sequence,
            stop_when_complete: self.stop_when_complete.load(Ordering::Relaxed),
        };
        assert(mode_fields_agree(cfg, code));
        cfg
    }

    /// A [`SharedState::snapshot`], noted in the reader's log.
    pub fn snapshot_into(&self, reads: &mut ConfigReads) -> (cfg: Config)
        ensures
            exists|code: u8| #[trigger] mode_fields_agree(cfg, code),
            final(reads).taken() == old(reads).taken().push(cfg),
            final(reads).sources() == old(reads).sources().push(*self),
    {
        let cfg = self.snapshot();
        reads.reads = Ghost(reads.reads@.push(cfg));
        reads.sources = Ghost(reads.sources@.push(*self));
        cfg
    }

    // --- ordered flags: Acquire/Release carries meaning here ---
    pub fn running(&self) -> bool {
        self.running.load(Ordering::Acquire)
    }

    pub fn set_running(&self, v: bool) {
        self.running.store(v, Ordering::Release);
    }

    pub fn shutdown(&self) -> bool {
        self.shutdown.load(Ordering::Acquire)
    }

    pub fn request_shutdown(&self) {
        self.shutdown.store(true, Ordering::Release);
    }

    pub fn engine_state(&self) -> EngineState {
        EngineState::from_u8(self.engine_state.load(Ordering::Acquire))
    }

    pub fn set_engine_state(&self, s: EngineState) {
        self.engine_state.store(s.code(), Ordering::Release);
    }

    // --- counter: the engine is the sole writer, the host a pure reader ---
    pub fn clicks_emitted(&self) -> u64 {
        self.clicks_emitted.load(Ordering::Relaxed)
    }

    /// Plain store, never `fetch_add`. The engine owns this value; a locked
    /// read-modify-write per click is wasted work at ceiling rates.
    pub fn store_clicks(&self, v: u64) {
        self.clicks_emitted.store(v, Ordering::Relaxed);
    }

    // --- config setters ---
    pub fn set_interval_ns(&self, v: u64) -> (r: Stored)
        ensures
            r.target() == *self,
            r.field() == ConfigField::IntervalNs && r.value() == v,
    {
        self.interval_ns.store(v, Ordering::Relaxed);
        receipt_u64(Ghost(*self), ConfigField::IntervalNs, v)
    }

    pub fn set_button(&self, b: Button) -> (r: Stored)
        ensures
            r.target() == *self,
            r.field() == ConfigField::Button && r.value() == b.spec_code(),
    {
        let code = b.code();
        self.button.store(code, Ordering::Relaxed);
        receipt_u8(Ghost(*self), ConfigField::Button, code)
    }

    pub fn set_position_mode(&self, m: PositionMode) -> (r: Stored)
        ensures
            r.target() == *self,
            r.field() == ConfigField::PositionMode && r.value() == m.spec_code(),
    {
        let code = m.code();
        self.position_mode.store(code, Ordering::Relaxed);
        receipt_u8(Ghost(*self), ConfigField::PositionMode, code)
    }

    pub fn set_fixed_point(&self, x: i32, y: i32) -> (r: (Stored, Stored))
        ensures
            r.0.target() == *self && r.1.target() == *self,
            r.0.field() == ConfigField::FixedX && r.0.value() == x,
            r.1.field() == ConfigField::FixedY && r.1.value() == y,
    {
        self.fixed_x.store(x, Ordering::Relaxed);
        self.fixed_y.store(y, Ordering::Relaxed);
        (receipt_i32(Ghost(*self), ConfigField::FixedX, x), receipt_i32(Ghost(*self), ConfigField::FixedY, y))
    }

    pub fn set_limit_clicks(&self, v: u64) -> (r: Stored)
        ensures
            r.target() == *self,
            r.field() == ConfigField::LimitClicks && r.value() == v,
    {
        self.limit_clicks.store(v, Ordering::Relaxed);
        receipt_u64(Ghost(*self), ConfigField::LimitClicks, v)
    }

    pub fn set_limit_ns(&self, v: u64) -> (r: Stored)
        ensures
            r.target() == *self,
            r.field() == ConfigField::LimitNs && r.value() == v,
    {
        self.limit_ns.store(v, Ordering::Relaxed);
        receipt_u64(Ghost(*self), ConfigField::LimitNs, v)
    }

    /// A batch is at least one click.
    pub fn set_batch_size(&self, v: u16) {
        self.batch_size.store(accepted_batch_size(v), Ordering::Relaxed);
    }

    /// Capped at 95 percent so a release always follows a press.
    pub fn set_duty_pct(&self, v: u8) {
        self.duty_pct.store(accepted_pct(v), Ordering::Relaxed);
    }

    /// Capped at 95 percent so every period stays positive.
    pub fn set_randomize_pct(&self, v: u8) {
        self.randomize_pct.store(accepted_pct(v), Ordering::Relaxed);
    }

    pub fn set_click_kind(&self, v: u8) {
        self.click_kind.store(v, Ordering::Relaxed);
    }

    pub fn set_key_vk(&self, v: u32) {
        self.key_vk.store(v, Ordering::Relaxed);
    }

    pub fn set_stop_when_complete(&self, v: bool) {
        self.stop_when_complete.store(v, Ordering::Relaxed);
    }

    /// Replace the click-point sequence (truncated to `MAX_POINTS`).
    pub fn set_points(&self, pts: &[(i32, i32)]) {
        proof {
            use_type_invariant(self);
        }
        let n = accepted_points_len(pts.len());
        let mut i: usize = 0;
        while i < n
            invariant
                n <= MAX_POINTS,
                n <= pts@.len(),
                i <= n,
                self.points@.len() == MAX_POINTS * 2,
            decreases n - i,
        {
            let (x, y) = pts[i];
            self.points[i * 2].store(x, Ordering::Relaxed);
            self.points[i * 2 + 1].store(y, Ordering::Relaxed);
            i = i + 1;
        }
        self.points_len.store(n, Ordering::Relaxed);
    }

    pub fn points_len(&self) -> usize {
        self.points_len.load(Ordering::Relaxed)
    }

    /// The `i`-th point, or `(0, 0)` if out of range.
    pub fn point(&self, i: usize) -> (r: (i32, i32))
        ensures
            i >= MAX_POINTS ==> r == (0i32, 0i32),
    {
        proof {
            use_type_invariant(self);
        }
        // The stored length never exceeds `MAX_POINTS`; checking both keeps the
        // index in bounds whatever another thread stored.
        if i >= self.points_len() || i >= MAX_POINTS {
            return (0, 0);
        }
        (self.points[i * 2].load(Ordering::Relaxed), self.points[i * 2 + 1].load(Ordering::Relaxed))
    }

    pub fn key_vk(&self) -> u32 {
        self.key_vk.load(Ordering::Relaxed)
    }

    pub fn click_kind(&self) -> u8 {
        self.click_kind.load(Ordering::Relaxed)
    }
}

} // verus!
