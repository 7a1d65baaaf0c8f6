use coop_batch::batch::first_failure;
use coop_batch::batch::BatchConfig;
use coop_batch::batch::Scenario;
use coop_batch::batch::run_batch;
use coop_batch::batch::run_scenario;
use coop_batch::batch::REFERENCE_READERS;
use coop_batch::task::Placement;
use coop_batch::task::ReadError;
use coop_batch::task::TaskState;

fn all_ok(n: usize) -> Vec<Result<u64, ReadError>> {
    vec![Ok(128); n]
}

#[test]
fn test_zero_cpu_elapsed_equals_delay() {
    let cfg = BatchConfig::reference(1000, 5, 0, Placement::Inline);
    let report = run_batch(&cfg, &all_ok(6));
    assert_eq!(report.elapsed, 1000);
    assert_eq!(report.reads_completed, 6);
    assert_eq!(report.failure, None);
    assert_eq!(report.final_states, vec![TaskState::Completed; 7]);
}

#[test]
fn test_inline_large_cpu_starves() {
    let cfg = BatchConfig::reference(1000, 5, 400, Placement::Inline);
    let report = run_batch(&cfg, &all_ok(6));
    assert_eq!(report.elapsed, 5 + 6 * 400);
    assert!(report.elapsed > cfg.delay);
}

#[test]
fn test_isolated_restores_fairness() {
    let cfg = BatchConfig::reference(1000, 5, 400, Placement::Isolated);
    let report = run_batch(&cfg, &all_ok(6));
    assert_eq!(report.elapsed, 1000);
}

#[test]
fn test_missing_resource_failure_observed_after_join() {
    let cfg = BatchConfig::reference(1000, 5, 0, Placement::Inline);
    let mut outcomes = all_ok(6);
    outcomes[2] = Err(ReadError::NotFound);
    let report = run_batch(&cfg, &outcomes);
    assert_eq!(report.failure, Some(ReadError::NotFound));
    assert_eq!(report.reads_completed, 5);
    // the join still completed: every constituent reached a terminal state
    // and the whole report, elapsed time included, is there
    assert_eq!(report.final_states.len(), 7);
    assert_eq!(report.final_states[3], TaskState::Failed);
    assert_eq!(report.final_states[0], TaskState::Completed);
    assert_eq!(report.elapsed, 1000);
}

#[test]
fn test_first_of_several_failures_surfaces() {
    let cfg = BatchConfig::reference(1000, 5, 0, Placement::Inline);
    let mut outcomes = all_ok(6);
    outcomes[1] = Err(ReadError::Interrupted);
    outcomes[4] = Err(ReadError::NotFound);
    let report = run_batch(&cfg, &outcomes);
    assert_eq!(report.failure, Some(ReadError::Interrupted));
    assert_eq!(report.reads_completed, 4);
}

#[test]
fn test_first_failure_none_when_all_reads_succeed() {
    assert_eq!(first_failure(&all_ok(6)), None);
    assert_eq!(first_failure(&Vec::new()), None);
}

#[test]
fn test_first_failure_picks_the_earliest() {
    let mut outcomes = all_ok(6);
    outcomes[3] = Err(ReadError::NotFound);
    outcomes[5] = Err(ReadError::Interrupted);
    assert_eq!(first_failure(&outcomes), Some(ReadError::NotFound));
}

#[test]
fn test_detached_does_not_affect_elapsed() {
    let batch = BatchConfig::reference(1000, 5, 400, Placement::Inline);
    let quick = Scenario { batch, detached_delay: 0, detached_fails: false };
    let slow = Scenario { batch, detached_delay: u64::MAX, detached_fails: false };
    let failing = Scenario { batch, detached_delay: 3, detached_fails: true };
    let r_quick = run_scenario(&quick, &all_ok(6));
    let r_slow = run_scenario(&slow, &all_ok(6));
    let r_failing = run_scenario(&failing, &all_ok(6));
    assert_eq!(r_quick, r_slow);
    assert_eq!(r_quick, r_failing);
    assert_eq!(r_quick.elapsed, 5 + 6 * 400);
}

#[test]
fn test_scenario_matches_batch_alone() {
    let batch = BatchConfig::reference(700, 10, 30, Placement::Isolated);
    let s = Scenario { batch, detached_delay: 99999, detached_fails: true };
    let outcomes = all_ok(6);
    assert_eq!(run_scenario(&s, &outcomes), run_batch(&batch, &outcomes));
}

#[test]
fn test_reference_configuration_has_six_readers() {
    let cfg = BatchConfig::reference(1, 0, 0, Placement::Inline);
    assert_eq!(cfg.readers, REFERENCE_READERS);
    assert_eq!(cfg.readers, 6);
}

#[test]
fn test_batch_without_readers_is_delay_alone() {
    let cfg = BatchConfig {
        delay: 42,
        io: 9,
        cpu: 9,
        readers: 0,
        placement: Placement::Inline,
    };
    let report = run_batch(&cfg, &Vec::new());
    assert_eq!(report.elapsed, 42);
    assert_eq!(report.final_states, vec![TaskState::Completed]);
}

#[test]
fn test_batch_elapsed_dominates_slowest_constituent() {
    // all read-tasks come off I/O at 50 and serialize 6 bursts of 100:
    // the batch ends with them, after the delay-task is long done
    let cfg = BatchConfig::reference(200, 50, 100, Placement::Inline);
    let report = run_batch(&cfg, &all_ok(6));
    assert_eq!(report.elapsed, 50 + 6 * 100);
    assert!(report.elapsed >= cfg.delay);
}
