//! Emit-side timing probe.
//!
//! The bench's receiver can only observe when the *message loop* consumed a
//! click, which is bounded by that loop's own cadence. To characterise the
//! engine's own emission timing, the timestamp has to be taken on the emit
//! side, inside the hot loop. The probe therefore obeys the hot-loop rules: it
//! allocates nothing and locks nothing after construction. It is a
//! fixed-capacity ring of atomics written with `Relaxed` stores.

use vstd::prelude::*;
use crate::clock::Clock;
use crate::shared::Button;
use crate::sink::{ClickSink, SinkError};
use core::sync::atomic::{AtomicU64, AtomicUsize, Ordering};
use std::sync::Arc;

verus! {

/// Ring slots, oldest record first, after `written` records went into a ring of
/// `cap` slots: record number `j` lands in slot `j % cap`, so only the last
/// `cap` records survive.
pub open spec fn ring_slot(written: int, cap: int, k: int) -> int {
    if written <= cap {
        k
    } else {
        (written - cap + k) % cap
    }
}

/// The slots of the surviving records, oldest first: `min(written, cap)` of
/// them, the k-th being where record number `written - min(written, cap) + k`
/// was stored.
pub fn ring_order(written: usize, cap: usize) -> (slots: Vec<usize>)
    requires
        cap > 0,
    ensures
        slots@.len() == (if written <= cap { written } else { cap }),
        forall|k: int| 0 <= k < slots@.len() ==> #[trigger] slots@[k] == ring_slot(written as int, cap as int, k),
        forall|k: int| 0 <= k < slots@.len() ==> #[trigger] slots@[k] < cap,
{
    let mut slots: Vec<usize> = Vec::new();
    if written <= cap {
        let mut k: usize = 0;
        while k < written
            invariant
                k <= written,
                written <= cap,
                slots@.len() == k,
                forall|j: int| 0 <= j < k ==> #[trigger] slots@[j] == j,
            decreases written - k,
        {
            slots.push(k);
            k = k + 1;
        }
    } else {
        let start = written % cap;
        let mut k: usize = 0;
        while k < cap
            invariant
                cap > 0,
                written > cap,
                start == written % cap,
                k <= cap,
                slots@.len() == k,
                forall|j: int| 0 <= j < k ==> #[trigger] slots@[j] == ring_slot(written as int, cap as int, j),
                forall|j: int| 0 <= j < k ==> #[trigger] slots@[j] < cap,
            decreases cap - k,
        {
            // (start + k) % cap, computed without overflowing usize.
            let slot = if k < cap - start { start + k } else { k - (cap - start) };
            proof {
                lemma_slot(written as int, cap as int, start as int, k as int, slot as int);
            }
            slots.push(slot);
            k = k + 1;
        }
    }
    slots
}

proof fn lemma_slot(written: int, cap: int, start: int, k: int, slot: int)
    requires
        cap > 0,
        written > cap,
        start == written % cap,
        0 <= k < cap,
        slot == (if k < cap - start { start + k } else { k - (cap - start) }),
    ensures
        slot == (written - cap + k) % cap,
        0 <= slot < cap,
{
    vstd::arithmetic::div_mod::lemma_fundamental_div_mod(written, cap);
    let q = written / cap;
    assert(written - cap + k == (q - 1) * cap + (start + k)) by (nonlinear_arith)
        requires
            written == cap * q + start,
    ;
    if k < cap - start {
        vstd::arithmetic::div_mod::lemma_fundamental_div_mod_converse(written - cap + k, cap, q - 1, start + k);
    } else {
        assert(written - cap + k == q * cap + (k - (cap - start))) by (nonlinear_arith)
            requires
                written - cap + k == (q - 1) * cap + (start + k),
        ;
        vstd::arithmetic::div_mod::lemma_fundamental_div_mod_converse(written - cap + k, cap, q, k - (cap - start));
    }
}

/// The slot that survives at position `k` holds record number
/// `written - cap + k`: a wrapped ring keeps exactly the most recent `cap`
/// records, oldest first.
pub proof fn lemma_ring_keeps_the_most_recent(written: int, cap: int, k: int)
    requires
        cap > 0,
        written > cap,
        0 <= k < cap,
    ensures
        ring_slot(written, cap, k) == (written - cap + k) % cap,
        0 <= ring_slot(written, cap, k) < cap,
{
}

/// Consecutive differences, saturating at zero.
pub open spec fn spec_intervals(t: Seq<u64>) -> Seq<u64> {
    Seq::new(
        if t.len() == 0 { 0nat } else { (t.len() - 1) as nat },
        |i: int| if t[i + 1] >= t[i] { (t[i + 1] - t[i]) as u64 } else { 0u64 },
    )
}

/// Consecutive differences of `t`, saturating at zero.
pub fn intervals_of(t: &Vec<u64>) -> (d: Vec<u64>)
    ensures
        d@ == spec_intervals(t@),
{
    let mut d: Vec<u64> = Vec::new();
    if t.len() == 0 {
        return d;
    }
    let mut i: usize = 0;
    while i < t.len() - 1
        invariant
            t@.len() >= 1,
            i + 1 <= t@.len(),
            d@.len() == i,
            forall|j: int| 0 <= j < i ==> #[trigger] d@[j] == spec_intervals(t@)[j],
        decreases t@.len() - i,
    {
        d.push(t[i + 1].saturating_sub(t[i]));
        i = i + 1;
    }
    assert(d@ =~= spec_intervals(t@));
    d
}

/// The smaller of a record count and a capacity: how many records a ring of
/// that capacity holds.
pub open spec fn min_len(written: usize, cap: nat) -> nat {
    if written <= cap {
        written as nat
    } else {
        cap
    }
}

/// Fixed-capacity ring buffer of emission timestamps.
///
/// The engine writes; any other thread may read via [`EmitProbe::snapshot`].
#[derive(Debug)]
pub struct EmitProbe {
    buf: Vec<AtomicU64>,
    /// Total records written, monotonic. Wraps into `buf` modulo capacity.
    written: AtomicUsize,
}

impl EmitProbe {
    #[verifier::type_invariant]
    spec fn has_a_slot(self) -> bool {
        self.buf@.len() >= 1
    }

    /// Number of slots in the ring.
    pub closed spec fn slots(&self) -> nat {
        self.buf@.len()
    }

    /// A zero capacity is clamped to one slot rather than panicking.
    pub fn new(capacity: usize) -> (p: Self)
        ensures
            p.slots() == (if capacity < 1 { 1 } else { capacity }),
    {
        let cap = if capacity < 1 { 1 } else { capacity };
        let mut buf: Vec<AtomicU64> = Vec::with_capacity(cap);
        let mut i: usize = 0;
        while i < cap
            invariant
                i <= cap,
                buf@.len() == i,
            decreases cap - i,
        {
            buf.push(AtomicU64::new(0));
            i = i + 1;
        }
        EmitProbe { buf, written: AtomicUsize::new(0) }
    }

    pub fn capacity(&self) -> (c: usize)
        ensures
            c == self.slots(),
            c >= 1,
    {
        proof {
            use_type_invariant(self);
        }
        self.buf.len()
    }

    /// Record one emission timestamp. Hot path: one relaxed read-modify-write
    /// on the index and one relaxed store.
    pub fn record(&self, t_ns: u64) {
        proof {
            use_type_invariant(self);
        }
        let i = self.written.fetch_add(1, Ordering::Relaxed);
        self.buf[i % self.buf.len()].store(t_ns, Ordering::Relaxed);
    }

    pub fn written(&self) -> usize {
        self.written.load(Ordering::Relaxed)
    }

    pub fn reset(&self) {
        self.written.store(0, Ordering::Relaxed);
    }

    /// Timestamps in write order, oldest first. If more records were written
    /// than the ring holds, only the most recent `capacity()` survive.
    pub fn snapshot(&self) -> (t: Vec<u64>)
        ensures
            t@.len() <= self.slots(),
            exists|written: usize| t@.len() == #[trigger] min_len(written, self.slots()),
    {
        proof {
            use_type_invariant(self);
        }
        let written = self.written();
        let slots = ring_order(written, self.buf.len());
        let mut out: Vec<u64> = Vec::new();
        let mut k: usize = 0;
        while k < slots.len()
            invariant
                k <= slots@.len(),
                out@.len() == k,
                slots@.len() <= self.buf@.len(),
                forall|j: int| 0 <= j < slots@.len() ==> #[trigger] slots@[j] < self.buf@.len(),
            decreases slots@.len() - k,
        {
            out.push(self.buf[slots[k]].load(Ordering::Relaxed));
            k = k + 1;
        }
        assert(out@.len() == min_len(written, self.slots()));
        out
    }

    /// Consecutive differences of [`EmitProbe::snapshot`].
    pub fn intervals(&self) -> (d: Vec<u64>)
        ensures
            exists|t: Seq<u64>| t.len() <= self.slots() && d@ == spec_intervals(t),
    {
        let t = self.snapshot();
        let d = intervals_of(&t);
        assert(t@.len() <= self.slots() && d@ == spec_intervals(t@));
        d
    }
}

/// Wraps a [`ClickSink`], timestamping each emitted click into an [`EmitProbe`]
/// before delegating. Used by the bench to measure engine-side timing without
/// the receiver's message loop in the path.
#[derive(Debug)]
pub struct ProbedSink<S, C> {
    inner: S,
    clock: C,
    probe: Arc<EmitProbe>,
}

impl<S, C> ProbedSink<S, C> {
    pub closed spec fn wrapped(&self) -> S {
        self.inner
    }

    /// The clock emissions are timestamped against.
    pub closed spec fn clock_of(&self) -> C {
        self.clock
    }

    /// The probe timestamps are recorded into.
    pub closed spec fn probe_of(&self) -> Arc<EmitProbe> {
        self.probe
    }

    pub fn new(inner: S, clock: C, probe: Arc<EmitProbe>) -> (p: Self)
        ensures
            p.wrapped() == inner,
            p.clock_of() == clock,
            p.probe_of() == probe,
    {
        ProbedSink { inner, clock, probe }
    }

    /// The wrapped sink.
    pub fn inner(&self) -> (s: &S)
        ensures
            *s == self.wrapped(),
    {
        &self.inner
    }
}

impl<S: ClickSink, C: Clock> ClickSink for ProbedSink<S, C> {
    /// The wrapped sink does exactly what its own batch emission does, and
    /// the result is its result; the clock and the probe stay the same ones.
    open spec fn batch_emitted(
        &self,
        after: &Self,
        button: Button,
        pos: Option<(i32, i32)>,
        count: u16,
        r: Result<u16, SinkError>,
    ) -> bool {
        &&& self.wrapped().batch_emitted(&after.wrapped(), button, pos, count, r)
        &&& after.probe_of() == self.probe_of()
        &&& after.clock_of() == self.clock_of()
    }

    /// Timestamp before delegating: this measures when the engine decided to
    /// fire, which is the quantity the schedule is responsible for.
    fn emit_batch(&mut self, button: Button, pos: Option<(i32, i32)>, count: u16) -> (r: Result<
        u16,
        SinkError,
    >) {
        let t = self.clock.now_ns();
        let mut i: u16 = 0;
        while i < count
            invariant
                i <= count,
                *self == *old(self),
            decreases count - i,
        {
            self.probe.record(t);
            i = i + 1;
        }
        self.inner.emit_batch(button, pos, count)
    }
}

} // verus!
