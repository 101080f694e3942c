//! The write/flush scheduler: writes paired records without flushing them,
//! consults the fault injector, and on a timer flushes `Primary` strictly
//! before `Secondary`.
//!
//! The scheduler is a state machine: each call of `step` hands out one
//! action, with the time read just before it.

use vstd::prelude::*;
use crate::fault::{triggers, CrashPoint, FaultPolicy};
use crate::partition::Partition;
use crate::scan::{verdict_holds, verdict_is_exact, verdict_of, Verdict};
use crate::reset::{apply_all, reset_empties_durably, reset_ops};
use crate::store::{MemStore, StoreModel, StoreOp};

verus! {

/// What the scheduler asks for next.
#[derive(Clone, Copy, Debug, PartialEq, Eq, Structural)]
pub enum SchedAction {
    /// Perform this store operation.
    Store(StoreOp),
    /// Consult the fault injector at this point.
    Crash(CrashPoint),
    /// The index range is exhausted: the run ends normally.
    Finished,
}

/// Where the cycle stands.
#[derive(Clone, Copy, Debug, PartialEq, Eq, Structural)]
pub enum Phase {
    PutSecondary,
    PutPrimary,
    AfterWrites,
    TimerCheck,
    BetweenFlushes,
    FlushSecondary,
    Done,
}

/// The scheduler's state.
#[derive(Clone, Copy, Debug, PartialEq, Eq, Structural)]
pub struct Scheduler {
    /// Indices `0..limit` are written.
    pub limit: usize,
    /// A flush pair starts once more than this many milliseconds have
    /// passed since the last one started.
    pub flush_interval_ms: u64,
    /// The index of the pair being written.
    pub next: usize,
    /// When the last flush pair started (or the run, before the first).
    pub last_flush_ms: u64,
    pub phase: Phase,
}

/// Whether a flush pair is due at time `now_ms`.
pub open spec fn flush_due(last_ms: u64, interval_ms: u64, now_ms: u64) -> bool {
    now_ms >= last_ms && now_ms - last_ms > interval_ms
}

/// The effect of an action on the store.
pub open spec fn effect(s: StoreModel, a: SchedAction) -> StoreModel {
    match a {
        SchedAction::Store(op) => s.apply(op),
        _ => s,
    }
}

impl Scheduler {
    /// A scheduler about to write index 0, for a run started at `now_ms`.
    pub open spec fn start(limit: usize, flush_interval_ms: u64, now_ms: u64) -> Scheduler {
        Scheduler { limit, flush_interval_ms, next: 0, last_flush_ms: now_ms, phase: Phase::PutSecondary }
    }

    /// The state and the action that begin the pair with index `i`.
    pub open spec fn begin_pair(self, i: usize) -> (Scheduler, SchedAction) {
        if i >= self.limit {
            (Scheduler { next: i, phase: Phase::Done, ..self }, SchedAction::Finished)
        } else {
            (
                Scheduler { next: i, phase: Phase::PutPrimary, ..self },
                SchedAction::Store(StoreOp::Put(Partition::Secondary, i)),
            )
        }
    }

    /// The next state and the action handed out at time `now_ms`.
    pub open spec fn step_spec(self, now_ms: u64) -> (Scheduler, SchedAction) {
        match self.phase {
            Phase::PutSecondary => self.begin_pair(self.next),
            Phase::PutPrimary => (
                Scheduler { phase: Phase::AfterWrites, ..self },
                SchedAction::Store(StoreOp::Put(Partition::Primary, self.next)),
            ),
            Phase::AfterWrites => (
                Scheduler { phase: Phase::TimerCheck, ..self },
                SchedAction::Crash(CrashPoint::AfterWrites),
            ),
            Phase::TimerCheck => if flush_due(self.last_flush_ms, self.flush_interval_ms, now_ms) {
                (
                    Scheduler { phase: Phase::BetweenFlushes, last_flush_ms: now_ms, ..self },
                    SchedAction::Store(StoreOp::Flush(Partition::Primary)),
                )
            } else {
                self.begin_pair((self.next + 1) as usize)
            },
            Phase::BetweenFlushes => (
                Scheduler { phase: Phase::FlushSecondary, ..self },
                SchedAction::Crash(CrashPoint::BetweenFlushes),
            ),
            Phase::FlushSecondary => (
                Scheduler { phase: Phase::PutSecondary, next: (self.next + 1) as usize, ..self },
                SchedAction::Store(StoreOp::Flush(Partition::Secondary)),
            ),
            Phase::Done => (self, SchedAction::Finished),
        }
    }

    /// The indices are in range for the phase.
    pub open spec fn wf(self) -> bool {
        match self.phase {
            Phase::PutSecondary => self.next <= self.limit,
            Phase::Done => true,
            _ => self.next < self.limit,
        }
    }

    /// The relation between the cycle's phase and the store that keeps
    /// every flush of `Secondary` covered by an earlier flush of `Primary`.
    pub open spec fn safe_with(self, s: StoreModel) -> bool {
        &&& self.wf()
        &&& s.durably_ordered()
        &&& s.secondary.durable.subset_of(s.secondary.live)
        &&& match self.phase {
            Phase::PutPrimary => s.secondary.live.subset_of(s.primary.live.insert(self.next)),
            Phase::BetweenFlushes | Phase::FlushSecondary => {
                &&& s.primary.durable == s.primary.live
                &&& s.secondary.live.subset_of(s.primary.live)
            },
            _ => s.secondary.live.subset_of(s.primary.live),
        }
    }

    /// A scheduler about to write index 0, for a run started at `now_ms`.
    pub fn new(limit: usize, flush_interval_ms: u64, now_ms: u64) -> (r: Scheduler)
        ensures
            r == Scheduler::start(limit, flush_interval_ms, now_ms),
    {
        Scheduler { limit, flush_interval_ms, next: 0, last_flush_ms: now_ms, phase: Phase::PutSecondary }
    }

    fn begin_pair_at(&mut self, i: usize) -> (r: SchedAction)
        ensures
            (*final(self), r) == old(self).begin_pair(i),
    {
        self.next = i;
        if i >= self.limit {
            self.phase = Phase::Done;
            SchedAction::Finished
        } else {
            self.phase = Phase::PutPrimary;
            SchedAction::Store(StoreOp::Put(Partition::Secondary, i))
        }
    }

    /// Hands out the next action; `now_ms` is the time read just before.
    pub fn step(&mut self, now_ms: u64) -> (r: SchedAction)
        requires
            old(self).wf(),
        ensures
            (*final(self), r) == old(self).step_spec(now_ms),
    {
        match self.phase {
            Phase::PutSecondary => self.begin_pair_at(self.next),
            Phase::PutPrimary => {
                self.phase = Phase::AfterWrites;
                SchedAction::Store(StoreOp::Put(Partition::Primary, self.next))
            },
            Phase::AfterWrites => {
                self.phase = Phase::TimerCheck;
                SchedAction::Crash(CrashPoint::AfterWrites)
            },
            Phase::TimerCheck => {
                if now_ms >= self.last_flush_ms && now_ms - self.last_flush_ms
                    > self.flush_interval_ms {
                    self.phase = Phase::BetweenFlushes;
                    self.last_flush_ms = now_ms;
                    SchedAction::Store(StoreOp::Flush(Partition::Primary))
                } else {
                    self.begin_pair_at(self.next + 1)
                }
            },
            Phase::BetweenFlushes => {
                self.phase = Phase::FlushSecondary;
                SchedAction::Crash(CrashPoint::BetweenFlushes)
            },
            Phase::FlushSecondary => {
                self.phase = Phase::PutSecondary;
                self.next = self.next + 1;
                SchedAction::Store(StoreOp::Flush(Partition::Secondary))
            },
            Phase::Done => SchedAction::Finished,
        }
    }
}

/// The scheduler and the store after the scheduler took one step per clock
/// reading in `clock_ms`, each action performed and every crash point
/// survived.
pub open spec fn replay(sched: Scheduler, s: StoreModel, clock_ms: Seq<u64>) -> (
    Scheduler,
    StoreModel,
)
    decreases clock_ms.len(),
{
    if clock_ms.len() == 0 {
        (sched, s)
    } else {
        let (prev_sched, prev_store) = replay(sched, s, clock_ms.drop_last());
        let (next_sched, action) = prev_sched.step_spec(clock_ms.last());
        (next_sched, effect(prev_store, action))
    }
}

/// The action handed out at the step with clock reading `clock_ms[k]`, when
/// the steps before it were taken at the readings before it.
pub open spec fn action_at(sched: Scheduler, s: StoreModel, clock_ms: Seq<u64>, k: int) -> SchedAction {
    replay(sched, s, clock_ms.take(k)).0.step_spec(clock_ms[k]).1
}

/// Whether `policy` can kill the process at action `a`: `a` is a crash
/// point and some random draw makes the trial there fire.
pub open spec fn may_fire(policy: FaultPolicy, a: SchedAction) -> bool {
    match a {
        SchedAction::Crash(point) => exists|draw: u64| triggers(policy, point, draw),
        _ => false,
    }
}

/// Whether `policy` kills the process at action `a` whatever the draw:
/// `a` is the crash point at which the policy forces a kill.
pub open spec fn forced_at(policy: FaultPolicy, a: SchedAction) -> bool {
    match policy {
        FaultPolicy::At(point) => a == SchedAction::Crash(point),
        _ => false,
    }
}

/// Runs the scheduler against the in-memory `store`, reading the clock from
/// `clock_ms` (one reading per step) and consulting `policy` at each crash
/// point. Stops when the run finishes, when the readings run out, or when
/// the policy kills the process; in that last case the store is left as a
/// restarted process would find it. Returns whether it was killed.
///
/// A kill comes only right after a crash point whose trial fired, and a
/// crash point at which the policy forces a kill is never passed.
pub fn simulate(
    store: &mut MemStore,
    sched: &mut Scheduler,
    policy: &FaultPolicy,
    clock_ms: &Vec<u64>,
) -> (killed: bool)
    requires
        old(sched).safe_with(old(store)@),
    ensures
        final(store)@.durably_ordered(),
        !killed ==> final(sched).safe_with(final(store)@),
        !killed ==> exists|k: int|
            {
                &&& 0 <= k <= clock_ms@.len()
                &&& (k == clock_ms@.len() || final(sched).phase is Done)
                &&& (*final(sched), final(store)@) == replay(
                    *old(sched),
                    old(store)@,
                    #[trigger] clock_ms@.take(k),
                )
                &&& forall|j: int|
                    0 <= j < k ==> !forced_at(
                        *policy,
                        #[trigger] action_at(*old(sched), old(store)@, clock_ms@, j),
                    )
            },
        killed ==> exists|k: int|
            {
                &&& 0 <= k < clock_ms@.len()
                &&& may_fire(*policy, action_at(*old(sched), old(store)@, clock_ms@, k))
                &&& final(store)@ == replay(
                    *old(sched),
                    old(store)@,
                    #[trigger] clock_ms@.take(k),
                ).1.crash()
                &&& forall|j: int|
                    0 <= j < k ==> !forced_at(
                        *policy,
                        #[trigger] action_at(*old(sched), old(store)@, clock_ms@, j),
                    )
            },
        *policy == FaultPolicy::Never ==> !killed,
{
    let mut k: usize = 0;
    assert(clock_ms@.take(0) =~= Seq::<u64>::empty());
    while k < clock_ms.len()
        invariant
            k <= clock_ms@.len(),
            sched.safe_with(store@),
            (*sched, store@) == replay(*old(sched), old(store)@, clock_ms@.take(k as int)),
            forall|j: int|
                0 <= j < k ==> !forced_at(
                    *policy,
                    #[trigger] action_at(*old(sched), old(store)@, clock_ms@, j),
                ),
        decreases clock_ms@.len() - k,
    {
        let now_ms = clock_ms[k];
        proof {
            step_keeps_flush_order(*sched, store@, now_ms);
            assert(clock_ms@.take(k + 1).drop_last() =~= clock_ms@.take(k as int));
        }
        let ghost here = action_at(*old(sched), old(store)@, clock_ms@, k as int);
        let action = sched.step(now_ms);
        assert(action == here);
        match action {
            SchedAction::Store(op) => {
                store.apply(op);
            },
            SchedAction::Crash(point) => {
                if policy.trial(point) {
                    store.crash();
                    return true;
                }
            },
            SchedAction::Finished => {
                k = k + 1;
                return false;
            },
        }
        k = k + 1;
    }
    false
}

/// A run starts safely on a store whose partitions were emptied.
pub proof fn start_is_safe(limit: usize, flush_interval_ms: u64, now_ms: u64)
    ensures
        Scheduler::start(limit, flush_interval_ms, now_ms).safe_with(StoreModel::empty()),
{
}

/// Flush-order guarantee: every step of the scheduler, with its effect on
/// the store, keeps the store durably ordered (every durable `Secondary`
/// record has its `Primary` record durable), and so does a crash at any
/// point, which loses only what was not durable.
pub proof fn step_keeps_flush_order(sched: Scheduler, s: StoreModel, now_ms: u64)
    requires
        sched.safe_with(s),
    ensures
        sched.step_spec(now_ms).0.safe_with(effect(s, sched.step_spec(now_ms).1)),
        effect(s, sched.step_spec(now_ms).1).durably_ordered(),
        s.crash().durably_ordered(),
{
    let (next, a) = sched.step_spec(now_ms);
    let t = effect(s, a);
    match sched.phase {
        Phase::PutPrimary => {
            assert(t.secondary.live.subset_of(t.primary.live));
        },
        Phase::TimerCheck => {
            if flush_due(sched.last_flush_ms, sched.flush_interval_ms, now_ms) {
                assert(t.primary.durable == t.primary.live);
            } else if next.phase == Phase::PutPrimary {
                assert(t.secondary.live.subset_of(t.primary.live.insert(next.next)));
            }
        },
        Phase::PutSecondary => {
            if next.phase == Phase::PutPrimary {
                assert(t.secondary.live.subset_of(t.primary.live.insert(next.next)));
            }
        },
        _ => {},
    }
}

/// A store that is durably ordered, when the process is killed and
/// restarted, passes verification: the scan finds no violation.
pub proof fn ordered_store_passes(s: StoreModel, ceiling: usize)
    requires
        s.durably_ordered(),
    ensures
        verdict_of(s.crash(), ceiling) is Consistent,
{
    verdict_is_exact(s.crash(), ceiling);
    if let Verdict::Violation { index } = verdict_of(s.crash(), ceiling) {
        assert(verdict_holds(s.crash(), verdict_of(s.crash(), ceiling), ceiling));
        assert(s.secondary.durable.contains(index));
    }
}

proof fn lemma_replay_safe(sched: Scheduler, s: StoreModel, clock_ms: Seq<u64>)
    requires
        sched.safe_with(s),
    ensures
        replay(sched, s, clock_ms).0.safe_with(replay(sched, s, clock_ms).1),
    decreases clock_ms.len(),
{
    if clock_ms.len() > 0 {
        lemma_replay_safe(sched, s, clock_ms.drop_last());
        let (prev_sched, prev_store) = replay(sched, s, clock_ms.drop_last());
        step_keeps_flush_order(prev_sched, prev_store, clock_ms.last());
    }
}

/// Flush-order guarantee for whole runs: whatever the store held before,
/// after the reset and any number of scheduler steps, at any clock
/// readings, the store is durably ordered; so a kill at that point,
/// between the flushes or anywhere else, leaves a store that passes
/// verification on restart.
pub proof fn runs_keep_flush_order(
    s: StoreModel,
    limit: usize,
    flush_interval_ms: u64,
    start_ms: u64,
    clock_ms: Seq<u64>,
    ceiling: usize,
)
    ensures
        replay(
            Scheduler::start(limit, flush_interval_ms, start_ms),
            apply_all(s, reset_ops()),
            clock_ms,
        ).1.durably_ordered(),
        verdict_of(
            replay(
                Scheduler::start(limit, flush_interval_ms, start_ms),
                apply_all(s, reset_ops()),
                clock_ms,
            ).1.crash(),
            ceiling,
        ) is Consistent,
{
    reset_empties_durably(s);
    start_is_safe(limit, flush_interval_ms, start_ms);
    let sched = Scheduler::start(limit, flush_interval_ms, start_ms);
    lemma_replay_safe(sched, apply_all(s, reset_ops()), clock_ms);
    ordered_store_passes(replay(sched, apply_all(s, reset_ops()), clock_ms).1, ceiling);
}

} // verus!
