//! The hot loop. Generic over its clock, waiter, and sink so the entire loop
//! is deterministically testable in virtual time.
//!
//! Invariants held by `run`: no allocation, no locking, no logging, and no
//! formatting inside the loop body. Everything is constructed before entry.

use vstd::prelude::*;
use crate::clock::Clock;
use crate::schedule::{decide, sat_add, spec_decide, Decision, RunState, SNAP_FLOOR_NS};
use crate::shared::{mode_fields_agree, Button, Config, ConfigReads, EngineState, SharedState};
use crate::sink::{ClickSink, SinkError};
use crate::wait::Waiter;

verus! {

/// Clicks to emit for one `Fire`. Batching only applies unthrottled: batched
/// events carry no temporal spacing, so batching a throttled rate would
/// destroy the requested interval. A batch never overshoots the click limit.
pub open spec fn spec_batch_for(cfg: Config, clicks_this_run: u64) -> int {
    let base: int = if cfg.interval_ns == 0 {
        if cfg.batch_size < 1 {
            1
        } else {
            cfg.batch_size as int
        }
    } else {
        1
    };
    if cfg.limit_clicks != 0 {
        let remaining: int = if clicks_this_run >= cfg.limit_clicks {
            0
        } else {
            cfg.limit_clicks - clicks_this_run
        };
        if remaining < base {
            remaining
        } else {
            base
        }
    } else {
        base
    }
}

/// Size of the next batch of clicks, per [`spec_batch_for`].
pub fn batch_for(cfg: &Config, clicks_this_run: u64) -> (b: u16)
    ensures
        b == spec_batch_for(*cfg, clicks_this_run),
{
    let mut batch: u64 = if cfg.interval_ns == 0 {
        if cfg.batch_size < 1 {
            1
        } else {
            cfg.batch_size as u64
        }
    } else {
        1
    };
    // Never overshoot a click limit just because of batching.
    if cfg.limit_clicks != 0 {
        let remaining = cfg.limit_clicks.saturating_sub(clicks_this_run);
        if remaining < batch {
            batch = remaining;
        }
    }
    batch as u16
}

/// Batching never overshoots the click limit, and a run below its limit always
/// makes progress; a throttled run emits one click per period.
pub proof fn lemma_batch_never_overshoots(cfg: Config, clicks_this_run: u64)
    ensures
        cfg.limit_clicks != 0 ==> clicks_this_run + spec_batch_for(cfg, clicks_this_run)
            <= (if clicks_this_run >= cfg.limit_clicks {
            clicks_this_run as int
        } else {
            cfg.limit_clicks as int
        }),
        (cfg.limit_clicks == 0 || clicks_this_run < cfg.limit_clicks) ==> spec_batch_for(
            cfg,
            clicks_this_run,
        ) >= 1,
        cfg.interval_ns != 0 ==> spec_batch_for(cfg, clicks_this_run) <= 1,
{
}

/// Where the loop stands between iterations. `clicks_this_run`, the run's
/// start and its deadline are per run, reset on each idle->running edge;
/// `total_clicks` is the monotonic count published to the host.
#[derive(Copy, Clone, Debug, PartialEq, Eq, Structural)]
pub struct LoopState {
    pub deadline_ns: u64,
    pub run_start_ns: u64,
    pub clicks_this_run: u64,
    pub total_clicks: u64,
    pub was_running: bool,
}

/// What the loop does in one running iteration.
#[derive(Copy, Clone, Debug, PartialEq, Eq)]
pub enum Action {
    /// A limit tripped: clear `running` and publish `StoppedByLimit`.
    Stop,
    /// Hand this deadline to the waiter.
    Wait { until_ns: u64 },
    /// Emit one batch; on success the deadline becomes `next_deadline_ns`.
    Emit { button: Button, position: Option<(i32, i32)>, count: u16, next_deadline_ns: u64 },
    /// A firing iteration with no click left to send.
    Skip,
}

/// The iteration's plan: the state to continue from, whether this iteration
/// is an idle->running edge (publish `Running`), and the action.
#[derive(Copy, Clone, Debug, PartialEq, Eq)]
pub struct Plan {
    pub state: LoopState,
    pub started: bool,
    pub action: Action,
}

/// What the loop publishes after an emission.
#[derive(Copy, Clone, Debug, PartialEq, Eq, Structural)]
pub enum Outcome {
    /// Store this monotonic total as `clicks_emitted`.
    Emitted { total: u64 },
    /// The sink refused: clear `running` and publish `Error`.
    Blocked,
}

/// The state the loop starts from, seeded with the counter's current value.
pub open spec fn spec_start(total: u64) -> LoopState {
    LoopState { deadline_ns: 0, run_start_ns: 0, clicks_this_run: 0, total_clicks: total, was_running: false }
}

pub fn start_state(total: u64) -> (s: LoopState)
    ensures
        s == spec_start(total),
{
    LoopState { deadline_ns: 0, run_start_ns: 0, clicks_this_run: 0, total_clicks: total, was_running: false }
}

/// An iteration that finds `running` clear: the waiter idles and the next
/// running iteration is an edge.
pub open spec fn spec_idle(s: LoopState) -> LoopState {
    LoopState { was_running: false, ..s }
}

pub fn idle_state(s: LoopState) -> (r: LoopState)
    ensures
        r == spec_idle(s),
{
    LoopState { was_running: false, ..s }
}

/// The per-run state a running iteration at `now_ns` works from: on an
/// idle->running edge the run starts now, with no clicks and the deadline
/// now; the total is kept.
pub open spec fn spec_entered(s: LoopState, now_ns: u64) -> LoopState {
    if s.was_running {
        s
    } else {
        LoopState {
            deadline_ns: now_ns,
            run_start_ns: now_ns,
            clicks_this_run: 0,
            total_clicks: s.total_clicks,
            was_running: true,
        }
    }
}

/// What the schedule sees in a running iteration.
pub open spec fn run_state_of(s: LoopState, now_ns: u64) -> RunState {
    RunState {
        now_ns,
        deadline_ns: s.deadline_ns,
        clicks_this_run: s.clicks_this_run,
        elapsed_ns: if now_ns >= s.run_start_ns {
            (now_ns - s.run_start_ns) as u64
        } else {
            0
        },
    }
}

/// One running iteration at `now_ns` with configuration `cfg`: enter the run
/// if this is an edge, then follow [`spec_decide`]. A stop ends the run; a
/// fire emits [`spec_batch_for`] clicks with the configured button and
/// position, or nothing if no click is left.
pub open spec fn spec_plan(s: LoopState, now_ns: u64, cfg: Config) -> Plan {
    let e = spec_entered(s, now_ns);
    let started = !s.was_running;
    match spec_decide(run_state_of(e, now_ns), cfg) {
        Decision::Stop(_) => Plan { state: LoopState { was_running: false, ..e }, started, action: Action::Stop },
        Decision::Wait { until_ns } => Plan { state: e, started, action: Action::Wait { until_ns } },
        Decision::Fire { next_deadline_ns } => {
            let b = spec_batch_for(cfg, e.clicks_this_run);
            if b == 0 {
                Plan { state: e, started, action: Action::Skip }
            } else {
                Plan {
                    state: e,
                    started,
                    action: Action::Emit {
                        button: cfg.button,
                        position: cfg.position,
                        count: b as u16,
                        next_deadline_ns,
                    },
                }
            }
        },
    }
}

pub fn plan(s: LoopState, now_ns: u64, cfg: &Config) -> (p: Plan)
    ensures
        p == spec_plan(s, now_ns, *cfg),
{
    let started = !s.was_running;
    let e = if s.was_running {
        s
    } else {
        LoopState {
            deadline_ns: now_ns,
            run_start_ns: now_ns,
            clicks_this_run: 0,
            total_clicks: s.total_clicks,
            was_running: true,
        }
    };
    let run = RunState {
        now_ns,
        deadline_ns: e.deadline_ns,
        clicks_this_run: e.clicks_this_run,
        elapsed_ns: now_ns.saturating_sub(e.run_start_ns),
    };
    match decide(run, cfg) {
        Decision::Stop(_) => Plan { state: LoopState { was_running: false, ..e }, started, action: Action::Stop },
        Decision::Wait { until_ns } => Plan { state: e, started, action: Action::Wait { until_ns } },
        Decision::Fire { next_deadline_ns } => {
            let b = batch_for(cfg, e.clicks_this_run);
            if b == 0 {
                Plan { state: e, started, action: Action::Skip }
            } else {
                Plan {
                    state: e,
                    started,
                    action: Action::Emit {
                        button: cfg.button,
                        position: cfg.position,
                        count: b,
                        next_deadline_ns,
                    },
                }
            }
        },
    }
}

/// The sink's answer to an emission: `n` clicks emitted advance both counts
/// (saturating) and move the deadline to the planned one; a refusal ends the
/// run with the counts unchanged.
pub open spec fn spec_settle(s: LoopState, next_deadline_ns: u64, result: Result<u16, SinkError>) -> (LoopState, Outcome) {
    match result {
        Ok(n) => {
            let total = sat_add(s.total_clicks, n as u64);
            (
                LoopState {
                    deadline_ns: next_deadline_ns,
                    clicks_this_run: sat_add(s.clicks_this_run, n as u64),
                    total_clicks: total,
                    ..s
                },
                Outcome::Emitted { total },
            )
        },
        Err(_) => (LoopState { was_running: false, ..s }, Outcome::Blocked),
    }
}

pub fn settle(s: LoopState, next_deadline_ns: u64, result: Result<u16, SinkError>) -> (r: (LoopState, Outcome))
    ensures
        r == spec_settle(s, next_deadline_ns, result),
{
    match result {
        Ok(n) => {
            let total = s.total_clicks.saturating_add(n as u64);
            (
                LoopState {
                    deadline_ns: next_deadline_ns,
                    clicks_this_run: s.clicks_this_run.saturating_add(n as u64),
                    total_clicks: total,
                    ..s
                },
                Outcome::Emitted { total },
            )
        },
        Err(_) => (LoopState { was_running: false, ..s }, Outcome::Blocked),
    }
}

/// An unthrottled iteration below its limits always emits, and with a full
/// batch: `max(batch_size, 1)` clicks with no click limit, and otherwise that
/// many or the clicks left under the limit, whichever is fewer. Batching is
/// never dropped or shrunk for any other reason.
pub proof fn lemma_unthrottled_emits_full_batches(s: LoopState, now_ns: u64, cfg: Config)
    requires
        cfg.interval_ns == 0,
    ensures
        ({
            let p = spec_plan(s, now_ns, cfg);
            let e = p.state;
            let full: int = if cfg.batch_size < 1 { 1 } else { cfg.batch_size as int };
            let below_limits = (cfg.limit_clicks == 0 || e.clicks_this_run < cfg.limit_clicks) && (
            cfg.limit_ns == 0 || now_ns - e.run_start_ns < cfg.limit_ns || now_ns < e.run_start_ns);
            below_limits ==> (p.action matches Action::Emit { count, next_deadline_ns, .. } && next_deadline_ns
                == now_ns && (cfg.limit_clicks == 0 ==> count == full) && (cfg.limit_clicks != 0
                ==> count == (if full < cfg.limit_clicks - e.clicks_this_run {
                full
            } else {
                cfg.limit_clicks - e.clicks_this_run
            })))
        }),
{
}

/// Every emission carries the snapshot's button and position and at least
/// one click; a throttled run sends exactly one, an unthrottled one at most
/// the batch size (one if it is zero); and a batch never takes the run past
/// its click limit.
pub proof fn lemma_emissions_follow_the_config(s: LoopState, now_ns: u64, cfg: Config)
    ensures
        spec_plan(s, now_ns, cfg).action matches Action::Emit { button, position, count, .. } ==> {
            let e = spec_plan(s, now_ns, cfg).state;
            &&& button == cfg.button
            &&& position == cfg.position
            &&& count >= 1
            &&& cfg.interval_ns != 0 ==> count == 1
            &&& cfg.interval_ns == 0 ==> count <= (if cfg.batch_size < 1 { 1 } else { cfg.batch_size })
            &&& cfg.limit_clicks != 0 ==> e.clicks_this_run + count <= cfg.limit_clicks
        },
{
    let e = spec_entered(s, now_ns);
    lemma_batch_never_overshoots(cfg, e.clicks_this_run);
}

/// One iteration of a running loop whose sink emits every click it is asked
/// for: the state after the plan and, for an emission, the sink's answer.
pub open spec fn spec_accepting_step(s: LoopState, now_ns: u64, cfg: Config) -> LoopState {
    let p = spec_plan(s, now_ns, cfg);
    match p.action {
        Action::Emit { count, next_deadline_ns, .. } => spec_settle(p.state, next_deadline_ns, Ok(count)).0,
        _ => p.state,
    }
}

/// The loop state after running iterations at times `times[0]`, `times[1]`,
/// ... with `running` set throughout, a fixed configuration, and a sink that
/// accepts every click. A stop ends the run, so later iterations start a new
/// one; this model follows the run up to and including its stop.
pub open spec fn run_after(s: LoopState, times: Seq<u64>, cfg: Config) -> LoopState
    decreases times.len(),
{
    if times.len() == 0 {
        s
    } else {
        let next = spec_accepting_step(s, times[0], cfg);
        if spec_plan(s, times[0], cfg).action is Stop {
            next
        } else {
            run_after(next, times.drop_first(), cfg)
        }
    }
}

/// The published total at the start of the current run (for a state about
/// to start one, the total itself).
pub open spec fn run_base(s: LoopState) -> int {
    if s.was_running {
        s.total_clicks - s.clicks_this_run
    } else {
        s.total_clicks as int
    }
}

/// `limit_clicks = N` emits exactly N clicks per run, counted from the
/// idle->running edge: the run's count never passes N, whenever the run stops
/// on its click limit it has emitted exactly N, and the published total is
/// the run's starting total plus what the run emitted.
pub proof fn lemma_click_limit_emits_exactly(s: LoopState, times: Seq<u64>, cfg: Config)
    requires
        cfg.limit_clicks != 0,
        s.was_running ==> s.clicks_this_run <= cfg.limit_clicks,
        s.was_running ==> s.clicks_this_run <= s.total_clicks,
        run_base(s) + cfg.limit_clicks <= u64::MAX,
    ensures
        times.len() > 0 ==> ({
            let f = run_after(s, times, cfg);
            &&& f.clicks_this_run <= cfg.limit_clicks
            &&& f.total_clicks == run_base(s) + f.clicks_this_run
            &&& (!f.was_running && cfg.limit_ns == 0) ==> f.clicks_this_run == cfg.limit_clicks
        }),
    decreases times.len(),
{
    if times.len() > 0 {
        let now = times[0];
        let e = spec_entered(s, now);
        let p = spec_plan(s, now, cfg);
        lemma_batch_never_overshoots(cfg, e.clicks_this_run);
        let next = spec_accepting_step(s, now, cfg);
        assert(run_base(e) == run_base(s));
        if !(p.action is Stop) {
            assert(next.was_running);
            assert(run_base(next) == run_base(s));
            if times.len() > 1 {
                lemma_click_limit_emits_exactly(next, times.drop_first(), cfg);
            } else {
                assert(run_after(next, times.drop_first(), cfg) == next);
            }
        }
    }
}

/// Unthrottled, a run with click limit N and no time limit does reach its
/// limit: from the edge it has stopped within N + 1 iterations (each one
/// below the limit emits at least one click).
pub proof fn lemma_unthrottled_run_reaches_its_limit(s: LoopState, times: Seq<u64>, cfg: Config)
    requires
        cfg.limit_clicks != 0,
        cfg.limit_ns == 0,
        cfg.interval_ns == 0,
        s.was_running ==> s.clicks_this_run <= cfg.limit_clicks,
        s.was_running ==> s.clicks_this_run <= s.total_clicks,
        run_base(s) + cfg.limit_clicks <= u64::MAX,
        times.len() > cfg.limit_clicks - (if s.was_running { s.clicks_this_run as int } else { 0 }),
    ensures
        !run_after(s, times, cfg).was_running,
    decreases times.len(),
{
    let now = times[0];
    let e = spec_entered(s, now);
    let p = spec_plan(s, now, cfg);
    lemma_batch_never_overshoots(cfg, e.clicks_this_run);
    let next = spec_accepting_step(s, now, cfg);
    assert(run_base(e) == run_base(s));
    if !(p.action is Stop) {
        assert(next.was_running);
        assert(next.clicks_this_run >= e.clicks_this_run + 1);
        assert(run_base(next) == run_base(s));
        lemma_unthrottled_run_reaches_its_limit(next, times.drop_first(), cfg);
    }
}

/// Drift-free in the loop itself: a running, throttled iteration that wakes
/// at or after its deadline, but not a stall, and whose emission is accepted
/// moves the deadline by exactly one interval from the old deadline, however
/// late the wake (per-click cost never accumulates into the schedule).
pub proof fn lemma_loop_deadline_advances_by_one_interval(s: LoopState, now_ns: u64, cfg: Config)
    requires
        s.was_running,
        cfg.interval_ns > 0,
        cfg.limit_clicks == 0,
        cfg.limit_ns == 0,
        s.deadline_ns <= now_ns,
        now_ns - s.deadline_ns <= SNAP_FLOOR_NS,
        s.deadline_ns + cfg.interval_ns <= u64::MAX,
    ensures
        spec_accepting_step(s, now_ns, cfg).deadline_ns == s.deadline_ns + cfg.interval_ns,
{
}

/// Limits are per run: restarting after a stop (an idle iteration, then a
/// running one) begins the run afresh with no clicks and the deadline and
/// start at the restart time, while the published total carries over.
pub proof fn lemma_limits_reset_on_restart(s: LoopState, now_ns: u64, cfg: Config)
    ensures
        spec_entered(spec_idle(s), now_ns).clicks_this_run == 0,
        spec_entered(spec_idle(s), now_ns).run_start_ns == now_ns,
        spec_entered(spec_idle(s), now_ns).deadline_ns == now_ns,
        spec_entered(spec_idle(s), now_ns).total_clicks == s.total_clicks,
        spec_plan(spec_idle(s), now_ns, cfg).started,
        spec_plan(spec_idle(s), now_ns, cfg).state.total_clicks == s.total_clicks,
{
}

/// A refused emission ends the run (the loop clears `running` and publishes
/// `Error`) and changes neither count; an accepted one never lowers the
/// published total.
pub proof fn lemma_blocked_sink_ends_the_run(s: LoopState, next: u64, result: Result<u16, SinkError>)
    ensures
        result is Err ==> spec_settle(s, next, result).1 == Outcome::Blocked && !spec_settle(s, next, result).0.was_running
            && spec_settle(s, next, result).0.clicks_this_run == s.clicks_this_run
            && spec_settle(s, next, result).0.total_clicks == s.total_clicks,
        result is Ok ==> spec_settle(s, next, result).0.total_clicks >= s.total_clicks,
{
}

/// One iteration of [`Engine::run`], as it happened: the loop state it
/// started from, whether it found `running` set, the time and configuration
/// it read and the plan they gave (for a running iteration), what the sink
/// answered (for an emission), the state it ended in, and the sink before and
/// after.
pub struct Step<S> {
    pub before: LoopState,
    pub running: bool,
    pub now_ns: u64,
    pub cfg: Config,
    pub plan: Plan,
    pub result: Option<Result<u16, SinkError>>,
    pub after: LoopState,
    pub sink_before: S,
    pub sink_after: S,
}

/// A step follows the step functions. An idle iteration only marks the run
/// as ended. A running one reads a configuration whose position fields agree
/// with a stored mode byte and takes exactly the plan [`spec_plan`] gives for
/// its state, time and configuration; an emission hands exactly the planned
/// button, position and count to the sink, whose batch emission (per
/// [`ClickSink::batch_emitted`]) returned `result`, and continues from what
/// [`spec_settle`] makes of that result; any other action leaves the sink
/// alone and continues from the plan's state.
pub open spec fn step_follows<S: ClickSink>(st: Step<S>) -> bool {
    if !st.running {
        &&& st.after == spec_idle(st.before)
        &&& st.result is None
        &&& st.sink_after == st.sink_before
    } else {
        &&& exists|code: u8| #[trigger] mode_fields_agree(st.cfg, code)
        &&& st.plan == spec_plan(st.before, st.now_ns, st.cfg)
        &&& match st.plan.action {
            Action::Emit { button, position, count, next_deadline_ns } => {
                &&& st.result matches Some(r)
                &&& st.sink_before.batch_emitted(&st.sink_after, button, position, count, r)
                &&& st.after == spec_settle(st.plan.state, next_deadline_ns, r).0
            },
            _ => {
                &&& st.result is None
                &&& st.after == st.plan.state
                &&& st.sink_after == st.sink_before
            },
        }
    }
}

/// `t` is a run that started in state `first` with sink `sink0` and left the
/// sink as `sink_last`: every step follows the step functions, and each step
/// starts from the state and sink the previous one ended with.
pub open spec fn trace_ok<S: ClickSink>(t: Seq<Step<S>>, first: LoopState, sink0: S, last: LoopState, sink_last: S) -> bool {
    &&& forall|i: int| 0 <= i < t.len() ==> step_follows(#[trigger] t[i])
    &&& forall|i: int, j: int|
        0 <= i && j == i + 1 && j < t.len() ==> #[trigger] t[i].after == #[trigger] t[j].before
            && t[i].sink_after == t[j].sink_before
    &&& t.len() == 0 ==> last == first && sink_last == sink0
    &&& t.len() > 0 ==> {
        &&& t[0].before == first
        &&& t[0].sink_before == sink0
        &&& t[t.len() - 1].after == last
        &&& t[t.len() - 1].sink_after == sink_last
    }
}

/// The configurations the running steps of a trace planned with, in order.
pub open spec fn running_cfgs<S>(t: Seq<Step<S>>) -> Seq<Config>
    decreases t.len(),
{
    if t.len() == 0 {
        Seq::empty()
    } else if t[t.len() - 1].running {
        running_cfgs(t.drop_last()).push(t[t.len() - 1].cfg)
    } else {
        running_cfgs(t.drop_last())
    }
}

/// Each running step plans with its own read: the running step at index `i`
/// planned with the configuration of the read numbered by the running steps
/// before it. With [`Engine::run`]'s contract (the reads it took are exactly
/// `running_cfgs` of its trace), every running iteration plans with the
/// snapshot taken in that same iteration, never with an earlier one, so a
/// value the host stores mid-run governs the next plan.
pub proof fn lemma_each_running_step_plans_with_its_own_read<S>(t: Seq<Step<S>>, i: int)
    requires
        0 <= i < t.len(),
        t[i].running,
    ensures
        running_cfgs(t.subrange(0, i)).len() < running_cfgs(t).len(),
        running_cfgs(t)[running_cfgs(t.subrange(0, i)).len() as int] == t[i].cfg,
    decreases t.len(),
{
    let n = t.len() - 1;
    let u = t.drop_last();
    if i < n {
        lemma_each_running_step_plans_with_its_own_read(u, i);
        assert(t.subrange(0, i) == u.subrange(0, i));
    } else {
        assert(t.subrange(0, i) == u);
    }
}

/// The clicks a step's sink reported emitted: `n` for an emission answered
/// `Ok(n)`, otherwise none.
pub open spec fn step_clicks<S>(st: Step<S>) -> int {
    if st.running && st.plan.action is Emit {
        match st.result {
            Some(Ok(n)) => n as int,
            _ => 0,
        }
    } else {
        0
    }
}

/// The clicks the sink reported emitted over a whole trace.
pub open spec fn trace_clicks<S>(t: Seq<Step<S>>) -> int
    decreases t.len(),
{
    if t.len() == 0 {
        0
    } else {
        trace_clicks(t.drop_last()) + step_clicks(t[t.len() - 1])
    }
}

/// Every emission of a run carries its iteration's configured button and
/// position and at least one click: exactly one when throttled, at most the
/// batch size (one if zero) when unthrottled; and none takes its run past
/// the click limit configured for that iteration.
pub proof fn lemma_run_emissions_follow_the_config<S: ClickSink>(
    t: Seq<Step<S>>,
    first: LoopState,
    sink0: S,
    last: LoopState,
    sink_last: S,
    i: int,
)
    requires
        trace_ok(t, first, sink0, last, sink_last),
        0 <= i < t.len(),
        t[i].running,
    ensures
        t[i].plan.action matches Action::Emit { button, position, count, .. } ==> {
            let c = t[i].cfg;
            &&& button == c.button
            &&& position == c.position
            &&& count >= 1
            &&& c.interval_ns != 0 ==> count == 1
            &&& c.interval_ns == 0 ==> count <= (if c.batch_size < 1 { 1 } else { c.batch_size })
            &&& c.limit_clicks != 0 ==> t[i].plan.state.clicks_this_run + count <= c.limit_clicks
        },
{
    assert(step_follows(t[i]));
    lemma_emissions_follow_the_config(t[i].before, t[i].now_ns, t[i].cfg);
}

/// The total a run ends with is the total it started from plus every click
/// the sink reported emitted (when that sum fits the counter).
pub proof fn lemma_run_total_counts_every_click<S: ClickSink>(
    t: Seq<Step<S>>,
    first: LoopState,
    sink0: S,
    last: LoopState,
    sink_last: S,
)
    requires
        trace_ok(t, first, sink0, last, sink_last),
        first.total_clicks + trace_clicks(t) <= u64::MAX,
    ensures
        last.total_clicks == first.total_clicks + trace_clicks(t),
    decreases t.len(),
{
    if t.len() > 0 {
        let n = t.len() - 1;
        let prefix = t.drop_last();
        let mid = if n == 0 { first } else { t[n - 1].after };
        let mid_sink = if n == 0 { sink0 } else { t[n - 1].sink_after };
        assert forall|i: int| 0 <= i < prefix.len() implies step_follows(#[trigger] prefix[i]) by {
            assert(prefix[i] == t[i]);
        }
        assert forall|i: int, j: int|
            0 <= i && j == i + 1 && j < prefix.len() implies #[trigger] prefix[i].after == #[trigger] prefix[j].before
                && prefix[i].sink_after == prefix[j].sink_before by {
            assert(prefix[i] == t[i] && prefix[j] == t[j]);
        }
        assert(trace_ok(prefix, first, sink0, mid, mid_sink));
        assert(trace_clicks(prefix) <= trace_clicks(t)) by {
            assert(step_clicks(t[n]) >= 0);
        }
        lemma_run_total_counts_every_click(prefix, first, sink0, mid, mid_sink);
        let st = t[n];
        assert(step_follows(st));
        if n > 0 {
            assert(t[n - 1].after == t[n].before);
        }
        assert(st.before == mid);
        if st.running {
            assert(spec_entered(st.before, st.now_ns).total_clicks == st.before.total_clicks);
        }
    }
}

pub struct Engine<C, W, S> {
    clock: C,
    waiter: W,
    sink: S,
    trace: Ghost<Seq<Step<S>>>,
    stopped_on_shutdown: Ghost<bool>,
    reads: ConfigReads,
}

impl<C: Clock, W: Waiter, S: ClickSink> Engine<C, W, S> {
    pub closed spec fn spec_sink(&self) -> S {
        self.sink
    }

    /// The iterations of the latest [`Engine::run`], in order.
    pub closed spec fn run_trace(&self) -> Seq<Step<S>> {
        self.trace@
    }

    /// The configuration snapshots the latest [`Engine::run`] took from the
    /// control block, in order.
    pub closed spec fn config_reads(&self) -> Seq<Config> {
        self.reads.taken()
    }

    /// The control block each of [`Engine::config_reads`] was taken from.
    pub closed spec fn config_read_sources(&self) -> Seq<SharedState> {
        self.reads.sources()
    }

    /// Whether the latest [`Engine::run`] returned because a read of the
    /// shutdown flag said a shutdown was requested.
    pub closed spec fn ended_on_shutdown(&self) -> bool {
        self.stopped_on_shutdown@
    }

    pub fn new(clock: C, waiter: W, sink: S) -> (e: Self)
        ensures
            e.spec_sink() == sink,
            e.run_trace().len() == 0,
            !e.ended_on_shutdown(),
            e.config_reads().len() == 0,
            e.config_read_sources().len() == 0,
    {
        Engine {
            clock,
            waiter,
            sink,
            trace: Ghost(Seq::empty()),
            stopped_on_shutdown: Ghost(false),
            reads: ConfigReads::new(),
        }
    }

    pub fn sink(&self) -> (s: &S)
        ensures
            *s == self.spec_sink(),
    {
        &self.sink
    }

    pub fn into_sink(self) -> (s: S)
        ensures
            s == self.spec_sink(),
    {
        self.sink
    }

    /// Run until `shared` requests shutdown.
    ///
    /// An iteration that finds `running` clear idles the waiter
    /// ([`idle_state`]); a running one reads the time and a configuration
    /// snapshot and follows [`plan`]: it publishes `Running` on the
    /// idle->running edge, and then stops (clearing `running`, publishing
    /// `StoppedByLimit`), waits, skips, or emits the planned batch. The sink's
    /// answer goes through [`settle`]: the new total is stored as the
    /// monotonic click counter, or a refusal clears `running` and publishes
    /// `Error`, so blocked input is never a silent no-op.
    ///
    /// The run is recorded in [`Engine::run_trace`]: it starts from the
    /// start state for the counter read at entry and the sink as it was, each
    /// iteration follows the step functions ([`step_follows`]), each begins
    /// where the previous one ended, and the sink is left as the last one
    /// left it. The run ends only when a read of the shutdown flag says a
    /// shutdown was requested ([`Engine::ended_on_shutdown`]) or, failing
    /// that, after the whole iteration budget: it never stops serving the
    /// control block on its own, so after a limit stop or a refusal it idles
    /// and a re-armed `running` starts a new run. The laws of a run (`lemma_run_emissions_follow_the_config`,
    /// `lemma_run_total_counts_every_click`) follow from that. What the loop
    /// reads and writes in the control block are atomics shared with other
    /// threads, which no clause describes.
    ///
    /// The iteration budget only gives the loop a termination measure: at any
    /// attainable rate it is never exhausted before shutdown.
    pub fn run(&mut self, shared: &SharedState)
        ensures
            exists|entry: u64, last: LoopState|
                #[trigger] trace_ok(
                    final(self).run_trace(),
                    spec_start(entry),
                    old(self).spec_sink(),
                    last,
                    final(self).spec_sink(),
                ),
            final(self).ended_on_shutdown() || final(self).run_trace().len() == u64::MAX,
            running_cfgs(final(self).run_trace()) == final(self).config_reads(),
            final(self).config_read_sources().len() == final(self).config_reads().len(),
            forall|i: int|
                0 <= i < final(self).config_read_sources().len()
                    ==> #[trigger] final(self).config_read_sources()[i] == *shared,
    {
        // `clicks_emitted` is monotonic for the process lifetime; limits are
        // per-run. Seed the total from whatever the counter already holds.
        // Everything the loop keeps is this one stack value.
        let entry = shared.clicks_emitted();
        let mut state = start_state(entry);
        let ghost sink0 = self.sink;
        self.trace = Ghost(Seq::empty());
        self.stopped_on_shutdown = Ghost(false);
        self.reads = ConfigReads::new();
        let mut budget: u64 = u64::MAX;
        while budget > 0
            invariant
                trace_ok(self.trace@, spec_start(entry), sink0, state, self.sink),
                self.trace@.len() == u64::MAX - budget,
                running_cfgs(self.trace@) == self.reads.taken(),
                self.reads.sources().len() == self.reads.taken().len(),
                forall|i: int|
                    0 <= i < self.reads.sources().len() ==> #[trigger] self.reads.sources()[i] == *shared,
            ensures
                trace_ok(self.trace@, spec_start(entry), sink0, state, self.sink),
                self.stopped_on_shutdown@ || self.trace@.len() == u64::MAX,
                running_cfgs(self.trace@) == self.reads.taken(),
                self.reads.sources().len() == self.reads.taken().len(),
                forall|i: int|
                    0 <= i < self.reads.sources().len() ==> #[trigger] self.reads.sources()[i] == *shared,
            decreases budget,
        {
            if shared.shutdown() {
                self.stopped_on_shutdown = Ghost(true);
                break;
            }
            budget = budget - 1;
            let ghost t0 = self.trace@;
            let ghost before = state;
            let ghost sb = self.sink;
            if !shared.running() {
                state = idle_state(state);
                self.waiter.idle();
                let ghost st = Step {
                    before,
                    running: false,
                    now_ns: 0,
                    cfg: arbitrary(),
                    plan: arbitrary(),
                    result: None,
                    after: state,
                    sink_before: sb,
                    sink_after: sb,
                };
                proof {
                    lemma_trace_extends(t0, spec_start(entry), sink0, before, sb, st);
                    assert(t0.push(st).drop_last() == t0);
                }
                self.trace = Ghost(t0.push(st));
                continue;
            }
            let now_ns = self.clock.now_ns();
            let cfg = shared.snapshot_into(&mut self.reads);
            let p = plan(state, now_ns, &cfg);
            if p.started {
                shared.set_engine_state(EngineState::Running);
            }
            state = p.state;
            let mut result: Option<Result<u16, SinkError>> = None;
            match p.action {
                Action::Stop => {
                    shared.set_running(false);
                    shared.set_engine_state(EngineState::StoppedByLimit);
                },
                Action::Wait { until_ns } => {
                    self.waiter.wait_until(until_ns, &self.clock);
                },
                Action::Skip => {},
                Action::Emit { button, position, count, next_deadline_ns } => {
                    let r = self.sink.emit_batch(button, position, count);
                    result = Some(r);
                    let (next, outcome) = settle(state, next_deadline_ns, r);
                    state = next;
                    match outcome {
                        Outcome::Emitted { total } => shared.store_clicks(total),
                        // Blocked input is a distinct state, never a silent
                        // no-op. The host surfaces the elevation message.
                        Outcome::Blocked => {
                            shared.set_running(false);
                            shared.set_engine_state(EngineState::Error);
                        },
                    }
                },
            }
            let ghost st = Step {
                before,
                running: true,
                now_ns,
                cfg,
                plan: p,
                result,
                after: state,
                sink_before: sb,
                sink_after: self.sink,
            };
            proof {
                lemma_trace_extends(t0, spec_start(entry), sink0, before, sb, st);
                assert(t0.push(st).drop_last() == t0);
            }
            self.trace = Ghost(t0.push(st));
        }
        assert(trace_ok(self.run_trace(), spec_start(entry), old(self).spec_sink(), state, self.spec_sink()));
    }
}

/// Appending a step that follows the step functions and starts where a run
/// stands keeps it a run.
proof fn lemma_trace_extends<S: ClickSink>(
    t: Seq<Step<S>>,
    first: LoopState,
    sink0: S,
    last: LoopState,
    sink_last: S,
    st: Step<S>,
)
    requires
        trace_ok(t, first, sink0, last, sink_last),
        step_follows(st),
        st.before == last,
        st.sink_before == sink_last,
    ensures
        trace_ok(t.push(st), first, sink0, st.after, st.sink_after),
{
    let u = t.push(st);
    assert forall|i: int| 0 <= i < u.len() implies step_follows(#[trigger] u[i]) by {
        if i < t.len() {
            assert(u[i] == t[i]);
        }
    }
    assert forall|i: int, j: int|
        0 <= i && j == i + 1 && j < u.len() implies #[trigger] u[i].after == #[trigger] u[j].before
            && u[i].sink_after == u[j].sink_before by {
        if j < t.len() {
            assert(u[i] == t[i] && u[j] == t[j]);
        } else {
            assert(u[j] == st);
            assert(u[i] == t[i]);
        }
    }
}

} // verus!
