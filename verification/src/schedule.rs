//! The pure timing brain: given where the run stands and the configuration,
//! fire now, wait, or stop. No clock, no I/O, no allocation.

use vstd::prelude::*;
use crate::shared::Config;

verus! {

/// How many periods late counts as a stall rather than jitter.
pub const SNAP_PERIODS: u64 = 4;

/// Lower bound on the snap-forward threshold. Load-bearing: at 10_000 CPS a
/// bare `interval * 4` is 400us, so ordinary scheduler noise would trip
/// snap-forward on nearly every iteration and it would stop meaning
/// "recovered from a stall".
pub const SNAP_FLOOR_NS: u64 = 2_000_000;  // 2ms

#[derive(Copy, Clone, Debug, PartialEq, Eq, Structural)]
pub enum StopReason {
    ClickLimit,
    TimeLimit,
}

#[derive(Copy, Clone, Debug, PartialEq, Eq, Structural)]
pub enum Decision {
    /// Emit now. `next_deadline_ns` becomes the deadline for the next iteration.
    Fire { next_deadline_ns: u64 },
    /// Not yet. Sleep/spin until `until_ns`.
    Wait { until_ns: u64 },
    /// A configured limit tripped.
    Stop(StopReason),
}

/// Everything the decision depends on that is not configuration.
#[derive(Copy, Clone, Debug, PartialEq, Eq, Structural)]
pub struct RunState {
    pub now_ns: u64,
    pub deadline_ns: u64,
    /// Clicks emitted since the current idle->running edge, not since process start.
    pub clicks_this_run: u64,
    /// Nanoseconds since the current idle->running edge.
    pub elapsed_ns: u64,
}

/// `a + b`, saturating at `u64::MAX`.
pub open spec fn sat_add(a: u64, b: u64) -> u64 {
    if a + b > u64::MAX {
        u64::MAX
    } else {
        (a + b) as u64
    }
}

/// How late a wake may be before it counts as a stall: four periods, but never
/// less than the 2ms floor (the product saturates rather than overflowing).
pub open spec fn snap_threshold(interval_ns: u64) -> int {
    let periods = if interval_ns * SNAP_PERIODS > u64::MAX {
        u64::MAX as int
    } else {
        interval_ns * SNAP_PERIODS
    };
    if periods > SNAP_FLOOR_NS {
        periods
    } else {
        SNAP_FLOOR_NS as int
    }
}

/// The decision table. Limits come first, so `limit_clicks = N` emits exactly
/// N clicks; unthrottled mode (`interval_ns == 0`) fires at once; otherwise
/// wait for the deadline, then advance it by exactly one interval, unless the
/// wake was a stall, in which case the backlog is dropped and the next
/// deadline is one interval from now.
pub open spec fn spec_decide(run: RunState, cfg: Config) -> Decision {
    if cfg.limit_clicks != 0 && run.clicks_this_run >= cfg.limit_clicks {
        Decision::Stop(StopReason::ClickLimit)
    } else if cfg.limit_ns != 0 && run.elapsed_ns >= cfg.limit_ns {
        Decision::Stop(StopReason::TimeLimit)
    } else if cfg.interval_ns == 0 {
        Decision::Fire { next_deadline_ns: run.now_ns }
    } else if run.now_ns < run.deadline_ns {
        Decision::Wait { until_ns: run.deadline_ns }
    } else if run.now_ns - run.deadline_ns > snap_threshold(cfg.interval_ns) {
        Decision::Fire { next_deadline_ns: sat_add(run.now_ns, cfg.interval_ns) }
    } else {
        Decision::Fire { next_deadline_ns: sat_add(run.deadline_ns, cfg.interval_ns) }
    }
}

/// Pure. No clock, no I/O, no allocation. This is the whole timing brain.
pub fn decide(run: RunState, cfg: &Config) -> (d: Decision)
    ensures
        d == spec_decide(run, *cfg),
{
    // Limits are evaluated BEFORE firing, so `limit_clicks = N` emits exactly N.
    if cfg.limit_clicks != 0 && run.clicks_this_run >= cfg.limit_clicks {
        return Decision::Stop(StopReason::ClickLimit);
    }
    if cfg.limit_ns != 0 && run.elapsed_ns >= cfg.limit_ns {
        return Decision::Stop(StopReason::TimeLimit);
    }
    // Unthrottled: the ceiling case never enters deadline arithmetic, so the
    // snap-forward branch below keeps meaning only "recovered from a stall".
    if cfg.interval_ns == 0 {
        return Decision::Fire { next_deadline_ns: run.now_ns };
    }
    if run.now_ns < run.deadline_ns {
        return Decision::Wait { until_ns: run.deadline_ns };
    }
    let lateness = run.now_ns - run.deadline_ns;
    // `interval * 4`, saturating rather than overflowing.
    let periods = match cfg.interval_ns.checked_mul(SNAP_PERIODS) {
        Some(p) => p,
        None => u64::MAX,
    };
    let threshold = if periods > SNAP_FLOOR_NS { periods } else { SNAP_FLOOR_NS };
    let next_deadline_ns = if lateness > threshold {
        // Stalled (preemption, suspend). Discard the backlog rather than
        // firing a burst of catch-up clicks.
        run.now_ns.saturating_add(cfg.interval_ns)
    } else {
        // Absolute advancement. Never `now + interval`: that accumulates drift
        // proportional to per-iteration overhead.
        run.deadline_ns.saturating_add(cfg.interval_ns)
    };
    Decision::Fire { next_deadline_ns }
}

/// A click limit of N stops the run exactly when N clicks have been emitted:
/// below N the decision is never a click-limit stop, at N or above it always is.
pub proof fn lemma_click_limit_is_exact(run: RunState, cfg: Config)
    requires
        cfg.limit_clicks != 0,
    ensures
        run.clicks_this_run < cfg.limit_clicks ==> spec_decide(run, cfg) != Decision::Stop(
            StopReason::ClickLimit,
        ),
        run.clicks_this_run >= cfg.limit_clicks ==> spec_decide(run, cfg) == Decision::Stop(
            StopReason::ClickLimit,
        ),
{
}

/// A limit of zero means unlimited: with both limits at zero the run never stops.
pub proof fn lemma_zero_limits_never_stop(run: RunState, cfg: Config)
    requires
        cfg.limit_clicks == 0,
        cfg.limit_ns == 0,
    ensures
        !(spec_decide(run, cfg) is Stop),
{
}

/// Unthrottled mode never waits: unless a limit trips it fires at once, with
/// the deadline pinned to now.
pub proof fn lemma_unthrottled_never_waits(run: RunState, cfg: Config)
    requires
        cfg.interval_ns == 0,
    ensures
        !(spec_decide(run, cfg) is Wait),
        !(spec_decide(run, cfg) is Stop) ==> spec_decide(run, cfg) == (Decision::Fire {
            next_deadline_ns: run.now_ns,
        }),
{
}

/// Where the deadline stands after a throttled run wakes `lates[k]` ns after
/// each successive deadline, starting from deadline `d`.
pub open spec fn deadline_after(cfg: Config, d: u64, lates: Seq<u64>) -> u64
    decreases lates.len(),
{
    if lates.len() == 0 || d + lates[0] > u64::MAX {
        d
    } else {
        let run = RunState {
            now_ns: (d + lates[0]) as u64,
            deadline_ns: d,
            clicks_this_run: 0,
            elapsed_ns: 0,
        };
        match spec_decide(run, cfg) {
            Decision::Fire { next_deadline_ns } => deadline_after(
                cfg,
                next_deadline_ns,
                lates.drop_first(),
            ),
            _ => d,
        }
    }
}

/// Drift-free scheduling: however late each wake is, as long as no wake is a
/// stall (at most the 2ms floor), the deadline after n clicks is exactly the
/// start plus n intervals. Per-iteration overhead never accumulates.
pub proof fn lemma_no_drift(cfg: Config, start: u64, lates: Seq<u64>)
    requires
        cfg.interval_ns > 0,
        cfg.limit_clicks == 0,
        cfg.limit_ns == 0,
        forall|k: int| 0 <= k < lates.len() ==> lates[k] <= SNAP_FLOOR_NS,
        start + lates.len() * cfg.interval_ns + SNAP_FLOOR_NS <= u64::MAX,
    ensures
        deadline_after(cfg, start, lates) == start + lates.len() * cfg.interval_ns,
    decreases lates.len(),
{
    if lates.len() > 0 {
        let next = (start + cfg.interval_ns) as u64;
        assert(start + cfg.interval_ns <= start + lates.len() * cfg.interval_ns) by (nonlinear_arith)
            requires
                lates.len() >= 1,
                cfg.interval_ns > 0,
        ;
        let rest = lates.drop_first();
        assert(next + rest.len() * cfg.interval_ns == start + lates.len() * cfg.interval_ns)
            by (nonlinear_arith)
            requires
                next == start + cfg.interval_ns,
                rest.len() == lates.len() - 1,
        ;
        lemma_no_drift(cfg, next, rest);
    }
}

/// No burst after a stall: whenever a throttled run fires, the next deadline
/// is less than one snap threshold behind the current time. A stall therefore
/// never leaves a backlog of catch-up clicks larger than the threshold.
pub proof fn lemma_backlog_is_bounded(run: RunState, cfg: Config)
    requires
        cfg.interval_ns > 0,
        run.now_ns + cfg.interval_ns <= u64::MAX,
        run.deadline_ns + cfg.interval_ns <= u64::MAX,
    ensures
        spec_decide(run, cfg) matches Decision::Fire { next_deadline_ns } ==> run.now_ns
            - next_deadline_ns < snap_threshold(cfg.interval_ns),
{
}

/// Waiting never moves the deadline: a run that wakes early is told to wait
/// for exactly the deadline it already had.
pub proof fn lemma_early_wake_waits_for_the_deadline(run: RunState, cfg: Config)
    requires
        cfg.interval_ns > 0,
        run.now_ns < run.deadline_ns,
    ensures
        !(spec_decide(run, cfg) is Stop) ==> spec_decide(run, cfg) == (Decision::Wait {
            until_ns: run.deadline_ns,
        }),
{
}

} // verus!
