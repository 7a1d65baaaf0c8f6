//! The batch coordinator and its scheduling-time model. One delay-task and a
//! fixed number of identical read-tasks are launched concurrently under a
//! single cooperative scheduler context; each surviving read-task then runs
//! the CPU-bound unit, inline on that context or offloaded to an isolated
//! worker pool. The model makes the system's one real design decision —
//! placement of the CPU-bound work — visible in the elapsed time of the
//! batch: every task starts at time zero, the read-tasks' I/O suspensions
//! overlap, inline bursts serialize on the scheduler context (starving every
//! co-scheduled task, the delay-task included), and offloaded bursts run
//! together on the pool (assumed wide enough for the fixed topology) and
//! leave the scheduler free. Scheduler overhead is not modeled.

use vstd::arithmetic::mul::lemma_mul_inequality;
use vstd::math::max;
use vstd::prelude::*;

use crate::task::Placement;
use crate::task::ReadError;
use crate::task::TaskKind;
use crate::task::TaskState;
use crate::task::is_joined;
use crate::task::is_terminal;

verus! {

/// Number of read-tasks in the reference configuration.
pub const REFERENCE_READERS: u64 = 6;

/// The configuration of one batch: the fixed demonstration topology of one
/// delay-task plus `readers` identical read-tasks, with the costs of their
/// parts in abstract time units and the placement of the CPU-bound unit.
#[derive(Clone, Copy, PartialEq, Eq, Structural, Debug)]
pub struct BatchConfig {
    /// duration of the single delay-task
    pub delay: u64,
    /// time each read-task spends suspended on the blocking I/O adapter
    pub io: u64,
    /// cost of one invocation of the CPU-bound unit
    pub cpu: u64,
    /// number of read-tasks launched
    pub readers: u64,
    /// where each read-task places its CPU-bound unit
    pub placement: Placement,
}

impl BatchConfig {
    /// Every instant the batch can reach fits in the machine word, even when
    /// all read-tasks run their CPU-bound bursts back to back.
    pub open spec fn wf(self) -> bool {
        self.io + self.readers * self.cpu <= u64::MAX
    }

    /// The reference configuration: exactly six read-tasks beside the one
    /// delay-task.
    pub fn reference(delay: u64, io: u64, cpu: u64, placement: Placement) -> (r: BatchConfig)
        requires
            io + REFERENCE_READERS * cpu <= u64::MAX,
        ensures
            r == (BatchConfig { delay, io, cpu, readers: REFERENCE_READERS, placement }),
            r.wf(),
    {
        BatchConfig { delay, io, cpu, readers: REFERENCE_READERS, placement }
    }
}

/// The joined topology of a batch: the one delay-task first, then its
/// read-tasks in launch order. The detached delay-task has no place here: it
/// is launched beside the batch but never joined.
pub open spec fn joined_topology(cfg: BatchConfig) -> Seq<TaskKind> {
    seq![TaskKind::Delay] + Seq::new(cfg.readers as nat, |i: int| TaskKind::Read)
}

/// The batch coordinator awaits exactly its topology: one delay-task and
/// `readers` read-tasks, every one of them joined.
pub proof fn lemma_topology_all_joined(cfg: BatchConfig)
    ensures
        joined_topology(cfg).len() == cfg.readers + 1,
        forall|i: int|
            0 <= i < joined_topology(cfg).len() ==> is_joined(#[trigger] joined_topology(cfg)[i]),
{
}

/// How long the batch's CPU-bound phase occupies, for `k` read-tasks whose
/// read succeeded (only those reach their CPU-bound unit). Inline, the `k`
/// bursts serialize on the one scheduler context; isolated, they run
/// concurrently on the worker pool.
pub open spec fn cpu_phase(cfg: BatchConfig, k: nat) -> nat {
    match cfg.placement {
        Placement::Inline => k * (cfg.cpu as nat),
        Placement::Isolated => if k == 0 {
            0
        } else {
            cfg.cpu as nat
        },
    }
}

/// Elapsed time of the joined batch, from launch to the instant its last
/// constituent reaches a terminal state. The delay-task needs `delay` of wall
/// clock; the read-tasks all come off their overlapping I/O suspensions at
/// `io` and then need the CPU-bound phase; the batch ends when both are done.
/// With no read-tasks the batch is the delay-task alone.
pub open spec fn batch_elapsed(cfg: BatchConfig, k: nat) -> int {
    if cfg.readers == 0 {
        cfg.delay as int
    } else {
        max(cfg.delay as int, cfg.io + cpu_phase(cfg, k))
    }
}

/// How many of the read-tasks' I/O outcomes succeeded.
pub open spec fn count_ok(s: Seq<Result<u64, ReadError>>) -> nat
    decreases s.len(),
{
    if s.len() == 0 {
        0
    } else {
        count_ok(s.drop_last()) + (if s.last() is Ok {
            1nat
        } else {
            0nat
        })
    }
}

/// The error of the first read-task that failed, in launch order, if any
/// failed at all.
pub open spec fn first_err(s: Seq<Result<u64, ReadError>>) -> Option<ReadError>
    decreases s.len(),
{
    if s.len() == 0 {
        None
    } else if first_err(s.drop_last()) is Some {
        first_err(s.drop_last())
    } else {
        match s.last() {
            Ok(_) => None,
            Err(e) => Some(e),
        }
    }
}

/// What the batch coordinator reports once every joined constituent has
/// reached a terminal state.
#[derive(Clone, PartialEq, Eq, Debug)]
pub struct BatchReport {
    /// elapsed time of the joined batch under the scheduling model
    pub elapsed: u64,
    /// how many read-tasks completed successfully
    pub reads_completed: u64,
    /// the first read-task failure, surfaced only after the join
    pub failure: Option<ReadError>,
    /// terminal state of each joined constituent: the delay-task first, then
    /// each read-task in launch order
    pub final_states: Vec<TaskState>,
}

/// The length of the CPU-bound phase for `k` surviving read-tasks, free of
/// overflow under the configuration's well-formedness.
fn cpu_phase_len(cfg: &BatchConfig, k: u64) -> (r: u64)
    requires
        cfg.wf(),
        k <= cfg.readers,
    ensures
        r == cpu_phase(*cfg, k as nat),
        cfg.io + r <= u64::MAX,
{
    proof {
        lemma_mul_inequality(k as int, cfg.readers as int, cfg.cpu as int);
    }
    match cfg.placement {
        Placement::Inline => k * cfg.cpu,
        Placement::Isolated => {
            if k == 0 {
                0
            } else {
                proof {
                    lemma_mul_inequality(1, cfg.readers as int, cfg.cpu as int);
                }
                cfg.cpu
            }
        },
    }
}

/// The batch coordinator. It launches one delay-task and `cfg.readers`
/// read-tasks concurrently, suspends until all of them have reached a
/// terminal state, and only then surfaces the first failure, if any — a
/// failure in one read-task cancels nothing. `read_outcomes` holds what the
/// blocking I/O adapter answered each read-task (its byte count or its
/// resource error), in launch order; performing that I/O is the caller's
/// part. The detached task does not appear here: nothing of it is awaited or
/// observed.
pub fn run_batch(cfg: &BatchConfig, read_outcomes: &Vec<Result<u64, ReadError>>) -> (r:
    BatchReport)
    requires
        cfg.wf(),
        read_outcomes@.len() == cfg.readers,
    ensures
        r.elapsed == batch_elapsed(*cfg, count_ok(read_outcomes@)),
        r.reads_completed == count_ok(read_outcomes@),
        r.failure == first_err(read_outcomes@),
        r.final_states@.len() == cfg.readers + 1,
        r.final_states@.len() == joined_topology(*cfg).len(),
        r.final_states@[0] is Completed,
        forall|i: int|
            1 <= i < r.final_states@.len() ==> #[trigger] r.final_states@[i] == (
            if read_outcomes@[i - 1] is Ok {
                TaskState::Completed
            } else {
                TaskState::Failed
            }),
        forall|i: int| 0 <= i < r.final_states@.len() ==> is_terminal(#[trigger] r.final_states@[i]),
{
    let n = read_outcomes.len();
    let mut final_states: Vec<TaskState> = Vec::new();
    final_states.push(TaskState::Completed);
    let mut okc: u64 = 0;
    let mut fail: Option<ReadError> = None;
    let mut i: usize = 0;
    while i < n
        invariant
            n == read_outcomes@.len(),
            i <= n,
            okc <= i,
            okc == count_ok(read_outcomes@.take(i as int)),
            fail == first_err(read_outcomes@.take(i as int)),
            final_states@.len() == i + 1,
            final_states@[0] == TaskState::Completed,
            forall|j: int|
                1 <= j <= i as int ==> #[trigger] final_states@[j] == (
                if read_outcomes@[j - 1] is Ok {
                    TaskState::Completed
                } else {
                    TaskState::Failed
                }),
        decreases n - i,
    {
        proof {
            assert(read_outcomes@.take(i as int + 1).drop_last() =~= read_outcomes@.take(
                i as int,
            ));
            assert(read_outcomes@.take(i as int + 1).last() == read_outcomes@[i as int]);
        }
        match &read_outcomes[i] {
            Ok(_) => {
                okc = okc + 1;
                final_states.push(TaskState::Completed);
            },
            Err(e) => {
                if fail.is_none() {
                    fail = Some(*e);
                }
                final_states.push(TaskState::Failed);
            },
        }
        i = i + 1;
    }
    proof {
        assert(read_outcomes@.take(n as int) =~= read_outcomes@);
    }
    let phase = cpu_phase_len(cfg, okc);
    let busy = cfg.io + phase;
    let elapsed = if cfg.readers == 0 {
        cfg.delay
    } else if cfg.delay >= busy {
        cfg.delay
    } else {
        busy
    };
    BatchReport { elapsed, reads_completed: okc, failure: fail, final_states }
}

/// One full run of the demonstration: the joined batch, plus one detached
/// delay-task launched fire-and-forget. The detached fields describe what
/// that task would do; no handle to it exists, so neither its completion nor
/// its silent failure can ever be observed.
#[derive(Clone, Copy, PartialEq, Eq, Structural, Debug)]
pub struct Scenario {
    /// the joined batch
    pub batch: BatchConfig,
    /// how long the detached delay-task would run
    pub detached_delay: u64,
    /// whether the detached delay-task fails silently
    pub detached_fails: bool,
}

/// The measured duration of a scenario: the elapsed time of its joined batch
/// alone, since only the batch is awaited between the two timestamps.
pub open spec fn measured_elapsed(s: Scenario, k: nat) -> int {
    batch_elapsed(s.batch, k)
}

/// Run the whole scenario: the detached delay-task is launched with its
/// handle discarded, the joined batch runs to its join, and the report is
/// exactly the batch's — the detached task contributes nothing to it.
pub fn run_scenario(s: &Scenario, read_outcomes: &Vec<Result<u64, ReadError>>) -> (r: BatchReport)
    requires
        s.batch.wf(),
        read_outcomes@.len() == s.batch.readers,
    ensures
        r.elapsed == measured_elapsed(*s, count_ok(read_outcomes@)),
        r.reads_completed == count_ok(read_outcomes@),
        r.failure == first_err(read_outcomes@),
        r.final_states@.len() == s.batch.readers + 1,
        r.final_states@[0] is Completed,
        forall|i: int|
            1 <= i < r.final_states@.len() ==> #[trigger] r.final_states@[i] == (
            if read_outcomes@[i - 1] is Ok {
                TaskState::Completed
            } else {
                TaskState::Failed
            }),
        forall|i: int| 0 <= i < r.final_states@.len() ==> is_terminal(#[trigger] r.final_states@[i]),
{
    run_batch(&s.batch, read_outcomes)
}

/// The coordinator's surfacing decision on its own, for a caller that
/// performed the reads itself: once every read-task has reached a terminal
/// state, the error of the first that failed — or nothing, when all of them
/// succeeded.
pub fn first_failure(read_outcomes: &Vec<Result<u64, ReadError>>) -> (r: Option<ReadError>)
    ensures
        r == first_err(read_outcomes@),
{
    let mut fail: Option<ReadError> = None;
    let mut i: usize = 0;
    while i < read_outcomes.len()
        invariant
            i <= read_outcomes@.len(),
            fail == first_err(read_outcomes@.take(i as int)),
        decreases read_outcomes@.len() - i,
    {
        proof {
            assert(read_outcomes@.take(i as int + 1).drop_last() =~= read_outcomes@.take(
                i as int,
            ));
            assert(read_outcomes@.take(i as int + 1).last() == read_outcomes@[i as int]);
        }
        match &read_outcomes[i] {
            Ok(_) => {},
            Err(e) => {
                if fail.is_none() {
                    fail = Some(*e);
                }
            },
        }
        i = i + 1;
    }
    proof {
        assert(read_outcomes@.take(read_outcomes@.len() as int) =~= read_outcomes@);
    }
    fail
}

/// The batch runs its constituents concurrently, not sequentially: its
/// elapsed duration dominates the duration of its single slowest constituent
/// — the delay-task's full delay, and the read-tasks' shared I/O suspension
/// followed by their CPU-bound phase.
pub proof fn lemma_batch_dominates_slowest(cfg: BatchConfig, k: nat)
    requires
        k <= cfg.readers,
    ensures
        batch_elapsed(cfg, k) >= cfg.delay,
        cfg.readers >= 1 ==> batch_elapsed(cfg, k) >= cfg.io + cpu_phase(cfg, k),
{
}

/// With the CPU-bound unit's cost fixed at zero in every read-task, the
/// batch's elapsed duration equals the delay-task's configured duration
/// exactly (the model carries no scheduler overhead): the read-tasks and the
/// delay-task ran concurrently, not one after another.
pub proof fn lemma_zero_cost_runs_in_delay_time(cfg: BatchConfig, k: nat)
    requires
        cfg.cpu == 0,
        cfg.io <= cfg.delay,
        k <= cfg.readers,
    ensures
        batch_elapsed(cfg, k) == cfg.delay,
{
    assert(k * (cfg.cpu as nat) == 0) by (nonlinear_arith)
        requires
            cfg.cpu == 0,
    ;
}

/// Inline placement starves the scheduler: when the CPU-bound bursts of the
/// surviving read-tasks together cost more than the delay-task's duration,
/// the batch's elapsed duration exceeds that duration, because the bursts
/// serialize on the one context every co-scheduled task needs.
pub proof fn lemma_inline_blocking_starves(cfg: BatchConfig, k: nat)
    requires
        cfg.placement is Inline,
        1 <= k <= cfg.readers,
        k * cfg.cpu > cfg.delay,
    ensures
        batch_elapsed(cfg, k) > cfg.delay,
{
}

/// Offloading the CPU-bound unit to an isolated worker restores fairness:
/// however many read-tasks run it, as long as one read-task's own path — its
/// I/O suspension followed by the offloaded burst — fits within the
/// delay-task's duration, the batch's elapsed duration is that duration
/// again, exactly.
pub proof fn lemma_isolated_restores_fairness(cfg: BatchConfig, k: nat)
    requires
        cfg.placement is Isolated,
        k <= cfg.readers,
        cfg.io + cfg.cpu <= cfg.delay,
    ensures
        batch_elapsed(cfg, k) == cfg.delay,
{
}

/// Placement is the only difference that matters: with the same topology and
/// the same costs, the isolated batch never takes longer than the inline one.
pub proof fn lemma_isolated_never_slower(iso: BatchConfig, inl: BatchConfig, k: nat)
    requires
        iso.placement is Isolated,
        inl.placement is Inline,
        iso.delay == inl.delay,
        iso.io == inl.io,
        iso.cpu == inl.cpu,
        iso.readers == inl.readers,
        k <= iso.readers,
    ensures
        batch_elapsed(iso, k) <= batch_elapsed(inl, k),
{
    if k >= 1 {
        lemma_mul_inequality(1, k as int, iso.cpu as int);
    }
}

/// The detached task never blocks or alters the measured elapsed duration of
/// the joined batch: two scenarios with the same batch measure the same,
/// whatever the detached task's configured delay and however it ends, for any
/// number of surviving read-tasks.
pub proof fn lemma_detached_never_measured(s1: Scenario, s2: Scenario, k: nat)
    requires
        s1.batch == s2.batch,
    ensures
        measured_elapsed(s1, k) == measured_elapsed(s2, k),
{
}

} // verus!
