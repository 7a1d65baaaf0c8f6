//! Task definitions: the three task shapes of the fixed demonstration
//! topology (delay-task, read-task, detached delay-task), the lifecycle every
//! task moves through under the cooperative scheduler, the placement choice
//! for the CPU-bound unit, and the computation a read-task performs once the
//! blocking I/O adapter has handed it the bytes of the named resource.

use vstd::prelude::*;

use crate::fib::fib;
use crate::fib::fib_checked;
use crate::fib::fib_spec;

verus! {

/// Where a CPU-bound unit of work runs: directly on the scheduler-managed
/// execution context that other tasks need for their own progress, or on an
/// isolated worker dedicated to blocking work.
#[derive(Clone, Copy, PartialEq, Eq, Structural, Debug)]
pub enum Placement {
    Inline,
    Isolated,
}

/// The three task shapes. A detached delay-task behaves exactly like a
/// delay-task, but it is launched without the launcher ever awaiting its
/// completion or observing its result.
#[derive(Clone, Copy, PartialEq, Eq, Structural, Debug)]
pub enum TaskKind {
    Delay,
    Read,
    DetachedDelay,
}

/// Whether the batch coordinator awaits the task's completion. Only the
/// detached delay-task is fire-and-forget.
pub open spec fn is_joined(k: TaskKind) -> bool {
    !(k is DetachedDelay)
}

/// The lifecycle of a task: created when launched, running or suspended zero
/// or more times, then completed or failed.
#[derive(Clone, Copy, PartialEq, Eq, Structural, Debug)]
pub enum TaskState {
    Created,
    Running,
    Suspended,
    Completed,
    Failed,
}

/// A terminal state: the task has reached its completion signal, a value or a
/// failure.
pub open spec fn is_terminal(s: TaskState) -> bool {
    s is Completed || s is Failed
}

/// The lifecycle transitions the scheduler may take. A task suspends only
/// voluntarily, from `Running`, and resumes only into `Running`; it can finish
/// or fail only while running.
pub open spec fn step_allowed(from: TaskState, to: TaskState) -> bool {
    match from {
        TaskState::Created => to is Running,
        TaskState::Running => to is Suspended || to is Completed || to is Failed,
        TaskState::Suspended => to is Running,
        TaskState::Completed => false,
        TaskState::Failed => false,
    }
}

/// Once a task is completed or failed it never moves again: there is no
/// cancellation, restart or retry.
pub proof fn lemma_terminal_is_final(from: TaskState, to: TaskState)
    requires
        is_terminal(from),
    ensures
        !step_allowed(from, to),
{
}

/// Why a read-task failed: the named resource did not resolve to a readable
/// resource, or reading was interrupted before completion.
#[derive(Clone, Copy, PartialEq, Eq, Structural, Debug)]
pub enum ReadError {
    NotFound,
    Interrupted,
}

/// What a successful read-task reports: the byte count it read, and the value
/// the CPU-bound unit returned (`None` when that value does not fit in the
/// machine word, an accepted boundary of the unit).
#[derive(Clone, Copy, PartialEq, Eq, Debug)]
pub struct ReadSummary {
    pub bytes: usize,
    pub cpu_result: Option<u32>,
}

/// The computation of a read-task once the blocking I/O adapter has answered:
/// on success, take the byte count and invoke the CPU-bound unit — the naive
/// exponential `fib` itself, whose cost is the point — with the configured
/// input; on failure, propagate the resource-access error unchanged, aborting
/// the task rather than recovering. A cheap guard runs first so that an input
/// whose value would not fit is reported instead of invoking the unit outside
/// its domain.
pub fn complete_read(read_outcome: Result<Vec<u8>, ReadError>, cpu_input: u32) -> (r: Result<
    ReadSummary,
    ReadError,
>)
    ensures
        match read_outcome {
            Ok(data) => match r {
                Ok(s) => s.bytes == data@.len() && match s.cpu_result {
                    Some(v) => v == fib_spec(cpu_input as nat),
                    None => fib_spec(cpu_input as nat) > u32::MAX,
                },
                Err(_) => false,
            },
            Err(e) => r == Err::<ReadSummary, ReadError>(e),
        },
{
    match read_outcome {
        Ok(data) => {
            let cpu_result = match fib_checked(cpu_input) {
                Some(_) => Some(fib(cpu_input)),
                None => None,
            };
            Ok(ReadSummary { bytes: data.len(), cpu_result })
        },
        Err(e) => Err(e),
    }
}

} // verus!
