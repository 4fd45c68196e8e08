//! Waiting for a deadline: the tier policy and the test waiter.

use vstd::prelude::*;
use crate::clock::{Clock, VirtualClock};
use std::sync::Arc;

verus! {

/// Idle poll period. Idle is not the hot path; this bounds start latency to
/// 1ms without spinning a core.
pub const IDLE_POLL_NS: u64 = 1_000_000;

/// Above this remaining time, use the high-resolution waitable timer.
pub const TIER_TIMER_NS: u64 = 2_000_000;  // 2ms

/// Above this remaining time, yield. Below it, spin.
pub const TIER_YIELD_NS: u64 = 50_000;  // 50us

/// Margin left for the timer to wake early rather than late.
pub const TIMER_MARGIN_NS: u64 = 1_500_000;

pub trait Waiter {
    /// Block until `clock.now_ns() >= target_ns`.
    fn wait_until<C: Clock>(&mut self, target_ns: u64, clock: &C);

    /// Called when the engine is not running. Must not spin.
    fn idle(&mut self);
}

/// One step of the three-tier hybrid wait.
#[derive(Copy, Clone, Debug, PartialEq, Eq, Structural)]
pub enum WaitStep {
    /// The target has been reached.
    Done,
    /// More than 2ms remain: sleep on the high-resolution timer for this long,
    /// deliberately waking early so the finer tiers close the gap.
    Timer { sleep_ns: u64 },
    /// Between 50us and 2ms remain: yield the time slice.
    Yield,
    /// Under 50us remain: spin with a pause hint.
    Spin,
}

/// Pick the wait tier from the time remaining until `target_ns`.
pub fn wait_step(now_ns: u64, target_ns: u64) -> (s: WaitStep)
    ensures
        now_ns >= target_ns ==> s == WaitStep::Done,
        now_ns < target_ns && target_ns - now_ns > TIER_TIMER_NS ==> s == (WaitStep::Timer {
            sleep_ns: (target_ns - now_ns - TIMER_MARGIN_NS) as u64,
        }),
        now_ns < target_ns && TIER_YIELD_NS < target_ns - now_ns <= TIER_TIMER_NS ==> s
            == WaitStep::Yield,
        now_ns < target_ns && target_ns - now_ns <= TIER_YIELD_NS ==> s == WaitStep::Spin,
{
    if now_ns >= target_ns {
        return WaitStep::Done;
    }
    let remaining = target_ns - now_ns;
    if remaining > TIER_TIMER_NS {
        WaitStep::Timer { sleep_ns: remaining - TIMER_MARGIN_NS }
    } else if remaining > TIER_YIELD_NS {
        WaitStep::Yield
    } else {
        WaitStep::Spin
    }
}

/// A timer sleep always ends before the target, at least the margin early, so
/// the waiter never oversleeps a deadline by relying on the coarse tier.
pub proof fn lemma_timer_sleep_ends_early(now_ns: u64, target_ns: u64, sleep_ns: u64)
    requires
        now_ns < target_ns,
        target_ns - now_ns > TIER_TIMER_NS,
        sleep_ns == target_ns - now_ns - TIMER_MARGIN_NS,
    ensures
        now_ns + sleep_ns + TIMER_MARGIN_NS == target_ns,
        sleep_ns > 0,
{
}

/// Test waiter: "waiting" is jumping the virtual clock forward. No sleeping,
/// so engine tests are deterministic and finish instantly.
#[derive(Debug)]
pub struct InstantWaiter {
    clock: Arc<VirtualClock>,
}

impl InstantWaiter {
    /// The virtual clock that waiting moves forward.
    pub closed spec fn clock(&self) -> Arc<VirtualClock> {
        self.clock
    }

    pub fn new(clock: Arc<VirtualClock>) -> (w: Self)
        ensures
            w.clock() == clock,
    {
        InstantWaiter { clock }
    }
}

impl Waiter for InstantWaiter {
    fn wait_until<C: Clock>(&mut self, target_ns: u64, _clock: &C) {
        self.clock.set_at_least(target_ns);
    }

    fn idle(&mut self) {
        self.clock.advance(IDLE_POLL_NS);
    }
}

} // verus!
