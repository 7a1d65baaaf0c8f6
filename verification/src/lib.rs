//! A minimal cooperative-concurrency harness: one delay-task and several
//! read-tasks run concurrently under a shared scheduler, a CPU-bound unit of
//! work is placed either inline on the scheduler or on an isolated worker, and
//! the elapsed wall-clock time of the whole batch is measured. The modules
//! here hold the verified core: the CPU-bound unit itself, the task shapes and
//! their lifecycle, the batch coordinator with its scheduling-time model, and
//! the timing harness.

pub mod batch;
pub mod fib;
pub mod task;
pub mod timing;
