use vstd::arithmetic::div_mod::{lemma_fundamental_div_mod, lemma_mod_bound, lemma_small_mod};
use vstd::arithmetic::mul::{
    lemma_mul_inequality, lemma_mul_is_commutative, lemma_mul_is_distributive_add_other_way,
};
use vstd::pervasive::unreached;
use vstd::prelude::*;

verus! {

/// A lifecycle operation was applied to a runner in the wrong state. These are
/// programming errors of the orchestration layer, and callers are expected to
/// treat them as fatal rather than recover from them.
#[derive(Clone, Copy, PartialEq, Eq, Structural, Debug)]
pub enum UsageError {
    StartNotPending,
    StopNotRunning,
    StopAlreadyRequested,
    JoinNotRunning,
}

impl UsageError {
    /// The operator-facing description of the usage error.
    pub fn message(&self) -> (r: &'static str)
        ensures
            *self is StartNotPending ==> r@ == "A runner can only be started once"@,
            *self is StopNotRunning ==> r@ == "A runner can only be stopped while running"@,
            *self is StopAlreadyRequested ==> r@ == "A runner can only be stopped once"@,
            *self is JoinNotRunning ==> r@ == "A runner can only be joined while running"@,
    {
        match self {
            UsageError::StartNotPending => "A runner can only be started once",
            UsageError::StopNotRunning => "A runner can only be stopped while running",
            UsageError::StopAlreadyRequested => "A runner can only be stopped once",
            UsageError::JoinNotRunning => "A runner can only be joined while running",
        }
    }
}

/// Lifecycle of one job runner. The only legal transitions are
/// `Pending -> Running` (which consumes the pending work exactly once) and
/// `Running -> Stopped`; `Stopped` is terminal. While `Running`, at most one
/// stop request may be recorded.
pub enum RunnerState<W> {
    Pending(W),
    Running { stop_requested: bool },
    Stopped,
}

/// The lifecycle tag of a runner, without the pending payload.
#[derive(Clone, Copy, PartialEq, Eq, Structural, Debug)]
pub enum RunnerPhase {
    Pending,
    Running,
    Stopped,
}

/// Owns one job's lifecycle: the job's name, its interval in seconds, and the
/// current lifecycle state. The work payload is held only while `Pending` and
/// is surrendered, exactly once, by the transition to `Running`; the caller
/// that receives it drives the periodic worker loop.
pub struct Runner<W> {
    name: String,
    interval_secs: u64,
    state: RunnerState<W>,
}

impl<W> Runner<W> {
    pub closed spec fn spec_name(&self) -> Seq<char> {
        self.name@
    }

    pub closed spec fn spec_interval(&self) -> u64 {
        self.interval_secs
    }

    pub closed spec fn spec_state(&self) -> RunnerState<W> {
        self.state
    }

    /// Constructs a runner in `Pending` state holding `work`; nothing runs yet.
    pub fn new(name: String, interval_secs: u64, work: W) -> (r: Runner<W>)
        requires
            interval_secs > 0,
        ensures
            r.spec_name() == name@,
            r.spec_interval() == interval_secs,
            r.spec_state() == RunnerState::Pending(work),
    {
        Runner { name, interval_secs, state: RunnerState::Pending(work) }
    }

    pub fn name(&self) -> (r: &String)
        ensures
            r@ == self.spec_name(),
    {
        &self.name
    }

    pub fn interval_secs(&self) -> (r: u64)
        ensures
            r == self.spec_interval(),
    {
        self.interval_secs
    }

    /// The current lifecycle tag.
    pub fn phase(&self) -> (r: RunnerPhase)
        ensures
            (r == RunnerPhase::Pending) == self.spec_state() is Pending,
            (r == RunnerPhase::Running) == self.spec_state() is Running,
            (r == RunnerPhase::Stopped) == self.spec_state() is Stopped,
    {
        match &self.state {
            RunnerState::Pending(_) => RunnerPhase::Pending,
            RunnerState::Running { .. } => RunnerPhase::Running,
            RunnerState::Stopped => RunnerPhase::Stopped,
        }
    }

    /// Whether a stop request has been recorded for a running runner.
    pub fn stop_requested(&self) -> (r: bool)
        ensures
            r == (self.spec_state() matches RunnerState::Running { stop_requested: true }),
    {
        match &self.state {
            RunnerState::Running { stop_requested } => *stop_requested,
            _ => false,
        }
    }

    /// `Pending -> Running`. Hands the pending work to the caller, exactly
    /// once; on a runner that is not `Pending` it refuses and leaves the
    /// runner untouched.
    pub fn try_start(&mut self) -> (r: Result<W, UsageError>)
        ensures
            final(self).spec_name() == old(self).spec_name(),
            final(self).spec_interval() == old(self).spec_interval(),
            match old(self).spec_state() {
                RunnerState::Pending(w) => r == Ok::<W, UsageError>(w) && final(self).spec_state()
                    == (RunnerState::<W>::Running { stop_requested: false }),
                _ => r == Err::<W, UsageError>(UsageError::StartNotPending) && *final(self)
                    == *old(self),
            },
    {
        let pending = match &self.state {
            RunnerState::Pending(_) => true,
            _ => false,
        };
        if pending {
            let mut s = RunnerState::Running { stop_requested: false };
            core::mem::swap(&mut self.state, &mut s);
            match s {
                RunnerState::Pending(w) => Ok(w),
                _ => unreached(),
            }
        } else {
            Err(UsageError::StartNotPending)
        }
    }

    /// Records the one permitted stop request of a running runner. Refuses a
    /// runner that is not `Running`, and refuses a second request: the stop
    /// signal is single-shot by design.
    pub fn try_stop(&mut self) -> (r: Result<(), UsageError>)
        ensures
            final(self).spec_name() == old(self).spec_name(),
            final(self).spec_interval() == old(self).spec_interval(),
            match old(self).spec_state() {
                RunnerState::Running { stop_requested } => if !stop_requested {
                    r == Ok::<(), UsageError>(()) && final(self).spec_state()
                        == (RunnerState::<W>::Running { stop_requested: true })
                } else {
                    r == Err::<(), UsageError>(UsageError::StopAlreadyRequested) && *final(self)
                        == *old(self)
                },
                _ => r == Err::<(), UsageError>(UsageError::StopNotRunning) && *final(self)
                    == *old(self),
            },
    {
        match &mut self.state {
            RunnerState::Running { stop_requested } => {
                if *stop_requested {
                    Err(UsageError::StopAlreadyRequested)
                } else {
                    *stop_requested = true;
                    Ok(())
                }
            }
            _ => Err(UsageError::StopNotRunning),
        }
    }

    /// `Running -> Stopped`, after the caller has waited for the worker to
    /// finish. Refuses a runner that is not `Running`.
    pub fn try_join(&mut self) -> (r: Result<(), UsageError>)
        ensures
            final(self).spec_name() == old(self).spec_name(),
            final(self).spec_interval() == old(self).spec_interval(),
            match old(self).spec_state() {
                RunnerState::Running { .. } => r == Ok::<(), UsageError>(())
                    && final(self).spec_state() == RunnerState::<W>::Stopped,
                _ => r == Err::<(), UsageError>(UsageError::JoinNotRunning)
                    && *final(self) == *old(self),
            },
    {
        let running = match &self.state {
            RunnerState::Running { .. } => true,
            _ => false,
        };
        if running {
            self.state = RunnerState::Stopped;
            Ok(())
        } else {
            Err(UsageError::JoinNotRunning)
        }
    }

    /// `Pending -> Running` on a runner known to be `Pending`; returns the
    /// pending work.
    pub fn start(&mut self) -> (work: W)
        requires
            old(self).spec_state() is Pending,
        ensures
            old(self).spec_state() == RunnerState::Pending(work),
            final(self).spec_state() == (RunnerState::<W>::Running { stop_requested: false }),
            final(self).spec_name() == old(self).spec_name(),
            final(self).spec_interval() == old(self).spec_interval(),
    {
        match self.try_start() {
            Ok(w) => w,
            Err(_) => unreached(),
        }
    }

    /// Records the stop request of a running runner that has none yet.
    pub fn stop(&mut self)
        requires
            old(self).spec_state() == (RunnerState::<W>::Running { stop_requested: false }),
        ensures
            final(self).spec_state() == (RunnerState::<W>::Running { stop_requested: true }),
            final(self).spec_name() == old(self).spec_name(),
            final(self).spec_interval() == old(self).spec_interval(),
    {
        match self.try_stop() {
            Ok(()) => (),
            Err(_) => unreached(),
        }
    }

    /// `Running -> Stopped` on a runner known to be `Running`.
    pub fn join(&mut self)
        requires
            old(self).spec_state() is Running,
        ensures
            final(self).spec_state() == RunnerState::<W>::Stopped,
            final(self).spec_name() == old(self).spec_name(),
            final(self).spec_interval() == old(self).spec_interval(),
    {
        match self.try_join() {
            Ok(()) => (),
            Err(_) => unreached(),
        }
    }
}

/// The drift-collapsing rule: after a tick whose work took `elapsed`, the
/// worker waits `interval - elapsed % interval` before the next tick. The wait
/// is always positive and never longer than one interval, so an overrunning
/// job is never scheduled into a catch-up burst, and a job whose work took an
/// exact multiple of the interval waits one full interval.
pub open spec fn wait_after_work(elapsed: nat, interval: nat) -> nat
    recommends
        interval > 0,
{
    (interval - elapsed % interval) as nat
}

/// Computes the post-tick wait in nanoseconds by the drift-collapsing rule.
pub fn remaining_wait_nanos(elapsed_ns: u128, interval_ns: u128) -> (r: u128)
    requires
        interval_ns > 0,
    ensures
        r == wait_after_work(elapsed_ns as nat, interval_ns as nat),
        0 < r <= interval_ns,
{
    interval_ns - elapsed_ns % interval_ns
}

/// Splits a nanosecond count into whole seconds and the nanosecond remainder.
pub fn duration_parts(ns: u128) -> (r: (u64, u32))
    requires
        ns / 1_000_000_000 <= u64::MAX,
    ensures
        r.0 * 1_000_000_000 + r.1 == ns,
        r.1 < 1_000_000_000,
{
    proof {
        lemma_fundamental_div_mod(ns as int, 1_000_000_000);
    }
    ((ns / 1_000_000_000) as u64, (ns % 1_000_000_000) as u32)
}

/// Ticks of a job whose work finishes within the interval stay aligned: the
/// next tick starts exactly one interval after the previous one started, so
/// tick starts fall on `t0, t0 + I, t0 + 2I, ...`.
pub proof fn lemma_tick_alignment(elapsed: nat, interval: nat)
    requires
        0 < interval,
        elapsed < interval,
    ensures
        elapsed + wait_after_work(elapsed, interval) == interval,
{
    lemma_small_mod(elapsed, interval);
}

/// Overrunning work skips ticks instead of queuing them: the next tick starts
/// on the least interval multiple strictly later than the work's end, and the
/// wait never exceeds one interval, so there is never a catch-up burst.
pub proof fn lemma_skip_not_burst(elapsed: nat, interval: nat)
    requires
        0 < interval,
    ensures
        elapsed + wait_after_work(elapsed, interval) == (elapsed / interval + 1) * interval,
        forall|k: nat|
            #[trigger] (k * interval) > elapsed ==> (elapsed / interval + 1) * interval <= k
                * interval,
        0 < wait_after_work(elapsed, interval) <= interval,
{
    let e = elapsed as int;
    let i = interval as int;
    let q = e / i;
    let r = e % i;
    lemma_fundamental_div_mod(e, i);
    lemma_mod_bound(e, i);
    assert(e == i * q + r && 0 <= r < i);
    assert(i * q == q * i) by {
        lemma_mul_is_commutative(i, q);
    };
    assert((q + 1) * i == q * i + i) by {
        lemma_mul_is_distributive_add_other_way(i, q, 1);
    };
    assert(elapsed + wait_after_work(elapsed, interval) == (elapsed / interval + 1) * interval);
    assert forall|k: nat| #[trigger] (k * interval) > elapsed implies (elapsed / interval + 1)
        * interval <= k * interval by {
        if (k as int) < q + 1 {
            lemma_mul_inequality(k as int, q, i);
            assert(k as int * i <= q * i);
            assert(q * i <= e);
            assert(false);
        }
        lemma_mul_inequality(q + 1, k as int, i);
    }
}

/// The start time of tick `k`, for a worker whose tick 0 starts at `t0` and
/// whose work on tick `j` takes `elapsed[j]`: each tick runs its work and then
/// waits the drift-collapsed remainder before the next tick begins.
pub open spec fn tick_start(t0: nat, elapsed: Seq<nat>, interval: nat, k: int) -> nat
    recommends
        interval > 0,
        0 <= k <= elapsed.len(),
    decreases k,
{
    if k <= 0 {
        t0
    } else {
        tick_start(t0, elapsed, interval, k - 1) + elapsed[k - 1] + wait_after_work(
            elapsed[k - 1],
            interval,
        )
    }
}

/// When every tick's work finishes within the interval, the ticks stay
/// aligned to the interval grid: tick `k` starts exactly at `t0 + k * I`.
pub proof fn lemma_aligned_schedule(t0: nat, elapsed: Seq<nat>, interval: nat, k: int)
    requires
        0 < interval,
        0 <= k <= elapsed.len(),
        forall|j: int| 0 <= j < elapsed.len() ==> elapsed[j] < interval,
    ensures
        tick_start(t0, elapsed, interval, k) == t0 + k * interval,
    decreases k,
{
    if k > 0 {
        lemma_aligned_schedule(t0, elapsed, interval, k - 1);
        assert(elapsed[k - 1] < interval);
        lemma_tick_alignment(elapsed[k - 1], interval);
        assert(tick_start(t0, elapsed, interval, k) == tick_start(t0, elapsed, interval, k - 1)
            + elapsed[k - 1] + wait_after_work(elapsed[k - 1], interval));
        assert(tick_start(t0, elapsed, interval, k) == t0 + (k - 1) * interval + interval);
        assert((k - 1) * interval + interval == k * interval) by {
            lemma_mul_is_distributive_add_other_way(interval as int, k - 1, 1);
        };
        assert(tick_start(t0, elapsed, interval, k) == t0 + k * interval);
    } else {
        assert(tick_start(t0, elapsed, interval, k) == t0);
        assert(k * interval == 0) by {
            vstd::arithmetic::mul::lemma_mul_basics(interval as int);
        };
    }
}

/// When every tick's work takes the same overrunning duration `d`, the period
/// stretches to the least interval multiple strictly above `d`: tick `k`
/// starts exactly at `t0 + k * ((d / I + 1) * I)`. Missed ticks are skipped,
/// never queued, so a wall-clock window holds one completed period per
/// stretched period length, not a burst of catch-up ticks.
pub proof fn lemma_overrun_schedule(t0: nat, elapsed: Seq<nat>, interval: nat, d: nat, k: int)
    requires
        0 < interval,
        0 <= k <= elapsed.len(),
        forall|j: int| 0 <= j < elapsed.len() ==> elapsed[j] == d,
    ensures
        tick_start(t0, elapsed, interval, k) == t0 + k * ((d / interval + 1) * interval),
    decreases k,
{
    let p = (d / interval + 1) * interval;
    if k > 0 {
        lemma_overrun_schedule(t0, elapsed, interval, d, k - 1);
        assert(elapsed[k - 1] == d);
        lemma_skip_not_burst(d, interval);
        assert(d + wait_after_work(d, interval) == p);
        assert(tick_start(t0, elapsed, interval, k) == tick_start(t0, elapsed, interval, k - 1)
            + elapsed[k - 1] + wait_after_work(elapsed[k - 1], interval));
        assert(tick_start(t0, elapsed, interval, k) == t0 + (k - 1) * p + p);
        assert((k - 1) * p + p == k * p) by {
            lemma_mul_is_distributive_add_other_way(p as int, k - 1, 1);
        };
        assert(tick_start(t0, elapsed, interval, k) == t0 + k * p);
    } else {
        assert(tick_start(t0, elapsed, interval, k) == t0);
        assert(k * p == 0) by {
            vstd::arithmetic::mul::lemma_mul_basics(p as int);
        };
    }
}

} // verus!
