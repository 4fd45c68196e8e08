//! Click sinks: the trait the engine emits through, and the recording sink
//! that makes the engine testable in virtual time.

use vstd::prelude::*;
use crate::clock::{Clock, VirtualClock};
use crate::shared::Button;
use std::sync::Arc;

verus! {

/// The error an access-denied injection reports.
pub const ERROR_ACCESS_DENIED: u32 = 5;

#[derive(Copy, Clone, Debug, PartialEq, Eq, Structural)]
pub enum SinkError {
    /// Fewer events were accepted than submitted. Most often UIPI refusing to
    /// inject into a higher-integrity target, or a locked workstation /
    /// secure desktop. Never treat this as a silent no-op.
    Blocked { inserted: u32, expected: u32, last_error: u32 },
}

pub trait ClickSink: Sized {
    /// What one batch emission does to this sink: `after` is the sink after a
    /// call of [`ClickSink::emit_batch`] from `self` with these arguments that
    /// returned `r`. Each sink in this library defines it by what it records
    /// or forwards; a sink that does not (one that only sends to the system)
    /// promises nothing beyond the count bound.
    open spec fn batch_emitted(
        &self,
        after: &Self,
        button: Button,
        pos: Option<(i32, i32)>,
        count: u16,
        r: Result<u16, SinkError>,
    ) -> bool {
        true
    }

    /// Emit `count` complete clicks. Returns how many were emitted, which is
    /// never more than were asked for.
    fn emit_batch(&mut self, button: Button, pos: Option<(i32, i32)>, count: u16) -> (r: Result<
        u16,
        SinkError,
    >)
        ensures
            r matches Ok(n) ==> n <= count,
            old(self).batch_emitted(final(self), button, pos, count, r),
    ;

    /// One complete click: a batch of one, succeeding exactly when the batch
    /// does and reporting its error otherwise.
    fn emit(&mut self, button: Button, pos: Option<(i32, i32)>) -> (r: Result<(), SinkError>)
        default_ensures
            exists|b: Result<u16, SinkError>|
                old(self).batch_emitted(final(self), button, pos, 1, b) && (b is Ok ==> r is Ok)
                    && (b matches Err(e) ==> r == Err::<(), SinkError>(e)),
    {
        match self.emit_batch(button, pos, 1) {
            Ok(_) => Ok(()),
            Err(e) => Err(e),
        }
    }

    /// Press the button down without releasing. Paired with [`ClickSink::release`]
    /// by a duty-cycle path so the button is held for a fraction of the
    /// interval. The default is a full click (no real hold), which lets sinks
    /// that do not support holding degrade gracefully.
    fn press(&mut self, button: Button, pos: Option<(i32, i32)>) -> (r: Result<(), SinkError>)
        default_ensures
            exists|b: Result<u16, SinkError>|
                old(self).batch_emitted(final(self), button, pos, 1, b) && (b is Ok ==> r is Ok)
                    && (b matches Err(e) ==> r == Err::<(), SinkError>(e)),
    {
        match self.emit_batch(button, pos, 1) {
            Ok(_) => Ok(()),
            Err(e) => Err(e),
        }
    }

    /// Release a previously pressed button. Default: nothing (the default
    /// `press` already completed the click), which always succeeds.
    fn release(&mut self, _button: Button) -> (r: Result<(), SinkError>)
        default_ensures
            r == Ok::<(), SinkError>(()),
            *final(self) == *old(self),
    {
        Ok(())
    }
}

#[derive(Copy, Clone, Debug, PartialEq, Eq)]
pub struct RecordedClick {
    pub button: Button,
    pub pos: Option<(i32, i32)>,
    pub at_ns: u64,
}

/// Test sink. Timestamps every click against a `VirtualClock` and can model
/// per-emit syscall cost, so engine tests see realistic time advancement.
#[derive(Debug)]
pub struct RecordingSink {
    clock: Arc<VirtualClock>,
    cost_ns: u64,
    clicks: Vec<RecordedClick>,
    fail_after: Option<u64>,
    pending_down: Option<(Button, Option<(i32, i32)>, u64)>,
    holds: Vec<u64>,
}

/// How many of `count` requested clicks a recording sink that has already
/// recorded `recorded` clicks accepts before it starts failing.
pub open spec fn accepted(fail_after: Option<u64>, recorded: int, count: int) -> int {
    match fail_after {
        None => count,
        Some(limit) => if recorded >= limit {
            0
        } else if limit - recorded < count {
            limit - recorded
        } else {
            count
        },
    }
}

impl RecordingSink {
    /// The clock clicks are timestamped against.
    pub closed spec fn clock(&self) -> Arc<VirtualClock> {
        self.clock
    }

    /// Every click recorded so far, in order.
    pub closed spec fn recorded(&self) -> Seq<RecordedClick> {
        self.clicks@
    }

    /// The failure threshold set by `fail_after`, if any.
    pub closed spec fn failure_threshold(&self) -> Option<u64> {
        self.fail_after
    }

    /// Modelled cost of one click, in virtual nanoseconds.
    pub closed spec fn cost(&self) -> u64 {
        self.cost_ns
    }

    /// Hold durations recorded by the press/release path.
    pub closed spec fn hold_durations(&self) -> Seq<u64> {
        self.holds@
    }

    /// The button currently held down by `press`, if any.
    pub closed spec fn held(&self) -> Option<(Button, Option<(i32, i32)>, u64)> {
        self.pending_down
    }

    pub fn new(clock: Arc<VirtualClock>) -> (s: Self)
        ensures
            s.clock() == clock,
            s.recorded().len() == 0,
            s.failure_threshold() is None,
            s.cost() == 0,
            s.hold_durations().len() == 0,
            s.held() is None,
    {
        Self::with_cost(clock, 0)
    }

    pub fn with_cost(clock: Arc<VirtualClock>, cost_ns: u64) -> (s: Self)
        ensures
            s.clock() == clock,
            s.recorded().len() == 0,
            s.failure_threshold() is None,
            s.cost() == cost_ns,
            s.hold_durations().len() == 0,
            s.held() is None,
    {
        RecordingSink {
            clock,
            cost_ns,
            clicks: Vec::new(),
            fail_after: None,
            pending_down: None,
            holds: Vec::new(),
        }
    }

    /// Durations, in ns, that the button was held between press and release
    /// (duty-cycle path only). Empty for the fast batched path.
    pub fn holds(&self) -> (h: &[u64])
        ensures
            h@ == self.hold_durations(),
    {
        self.holds.as_slice()
    }

    /// After `n` successful clicks, every subsequent emit returns `Blocked`.
    pub fn fail_after(&mut self, n: u64)
        ensures
            final(self).failure_threshold() == Some(n),
            final(self).recorded() == old(self).recorded(),
            final(self).cost() == old(self).cost(),
            final(self).hold_durations() == old(self).hold_durations(),
            final(self).held() == old(self).held(),
    {
        self.fail_after = Some(n);
    }

    pub fn clicks(&self) -> (c: &[RecordedClick])
        ensures
            c@ == self.recorded(),
    {
        self.clicks.as_slice()
    }

    /// Clicks recorded so far.
    pub fn total(&self) -> (t: u64)
        ensures
            t == self.recorded().len(),
    {
        self.clicks.len() as u64
    }
}

impl ClickSink for RecordingSink {
    /// The first `accepted(..)` of the requested clicks are appended with this
    /// button and position; the request succeeds with `count` if all fit and
    /// otherwise reports `Blocked`. Threshold, cost, holds, held button and
    /// clock are untouched.
    open spec fn batch_emitted(
        &self,
        after: &Self,
        button: Button,
        pos: Option<(i32, i32)>,
        count: u16,
        r: Result<u16, SinkError>,
    ) -> bool {
        let k = accepted(self.failure_threshold(), self.recorded().len() as int, count as int);
        &&& after.recorded().len() == self.recorded().len() + k
        &&& after.recorded().subrange(0, self.recorded().len() as int) == self.recorded()
        &&& forall|i: int|
            self.recorded().len() <= i < after.recorded().len() ==> (#[trigger] after.recorded()[i]).button
                == button && after.recorded()[i].pos == pos
        &&& r == (if k == count {
            Ok::<u16, SinkError>(count)
        } else {
            Err(SinkError::Blocked { inserted: 0, expected: (count * 2) as u32, last_error: ERROR_ACCESS_DENIED })
        })
        &&& after.failure_threshold() == self.failure_threshold()
        &&& after.cost() == self.cost()
        &&& after.hold_durations() == self.hold_durations()
        &&& after.held() == self.held()
        &&& after.clock() == self.clock()
    }

    /// Records each click until the failure threshold is reached; a request
    /// that crosses it records what fits and then reports `Blocked`.
    fn emit_batch(&mut self, button: Button, pos: Option<(i32, i32)>, count: u16) -> (r: Result<
        u16,
        SinkError,
    >)
    {
        let ghost old_clicks = self.clicks@;
        let mut i: u16 = 0;
        while i < count
            invariant
                i <= count,
                self.fail_after == old(self).fail_after,
                self.cost_ns == old(self).cost_ns,
                self.holds@ == old(self).holds@,
                self.pending_down == old(self).pending_down,
                self.clock == old(self).clock,
                old_clicks == old(self).clicks@,
                self.clicks@.len() == old_clicks.len() + i,
                self.clicks@.subrange(0, old_clicks.len() as int) == old_clicks,
                forall|j: int|
                    old_clicks.len() <= j < self.clicks@.len() ==> (#[trigger] self.clicks@[j]).button == button
                        && self.clicks@[j].pos == pos,
                i as int == accepted(self.fail_after, old_clicks.len() as int, i as int),
            decreases count - i,
        {
            if let Some(limit) = self.fail_after {
                if self.clicks.len() as u64 >= limit {
                    return Err(
                        SinkError::Blocked {
                            inserted: 0,
                            expected: count as u32 * 2,
                            last_error: ERROR_ACCESS_DENIED,
                        },
                    );
                }
            }
            let at_ns = self.clock.now_ns();
            self.clicks.push(RecordedClick { button, pos, at_ns });
            if self.cost_ns > 0 {
                self.clock.advance(self.cost_ns);
            }
            i = i + 1;
        }
        Ok(count)
    }

    /// Hold the button; blocked once the failure threshold is reached.
    fn press(&mut self, button: Button, pos: Option<(i32, i32)>) -> (r: Result<(), SinkError>)
        ensures
            ({
                let blocked = old(self).failure_threshold() matches Some(limit)
                    && old(self).recorded().len() >= limit;
                &&& blocked ==> r == Err::<(), SinkError>(
                    SinkError::Blocked { inserted: 0, expected: 2, last_error: ERROR_ACCESS_DENIED },
                ) && final(self).held() == old(self).held()
                &&& !blocked ==> r is Ok && (final(self).held() matches Some((b, p, _)) && b == button
                    && p == pos)
            }),
            final(self).recorded() == old(self).recorded(),
            final(self).failure_threshold() == old(self).failure_threshold(),
            final(self).cost() == old(self).cost(),
            final(self).hold_durations() == old(self).hold_durations(),
    {
        if let Some(limit) = self.fail_after {
            if self.clicks.len() as u64 >= limit {
                return Err(
                    SinkError::Blocked { inserted: 0, expected: 2, last_error: ERROR_ACCESS_DENIED },
                );
            }
        }
        let now = self.clock.now_ns();
        self.pending_down = Some((button, pos, now));
        Ok(())
    }

    /// Complete a held click: it is recorded at the moment it was pressed, and
    /// the hold duration is recorded alongside.
    fn release(&mut self, _button: Button) -> (r: Result<(), SinkError>)
        ensures
            r is Ok,
            final(self).held() is None,
            final(self).failure_threshold() == old(self).failure_threshold(),
            final(self).cost() == old(self).cost(),
            old(self).held() is None ==> final(self).recorded() == old(self).recorded()
                && final(self).hold_durations() == old(self).hold_durations(),
            old(self).held() matches Some((b, p, down)) ==> final(self).recorded()
                == old(self).recorded().push(RecordedClick { button: b, pos: p, at_ns: down })
                && final(self).hold_durations().len() == old(self).hold_durations().len() + 1,
    {
        match self.pending_down.take() {
            Some((button, pos, down_ns)) => {
                let now = self.clock.now_ns();
                self.clicks.push(RecordedClick { button, pos, at_ns: down_ns });
                self.holds.push(now.saturating_sub(down_ns));
                if self.cost_ns > 0 {
                    self.clock.advance(self.cost_ns);
                }
            },
            None => {},
        }
        Ok(())
    }
}

} // verus!
