use std::time::Duration;

use nextest_core::execution::{
    ChildExecutionOutput, ExecuteStatus, ExecutionResult, ExecutionStatuses, RetryData,
    SetupScriptExecuteStatus, Timestamp,
};
use nextest_core::run_stats::{FinalRunStats, RunStats, RunStatsFailureKind};

fn no_output() -> ChildExecutionOutput {
    ChildExecutionOutput::Output {
        stdout: Some(Vec::new()),
        stderr: Some(Vec::new()),
        truncated: false,
    }
}

fn epoch() -> Timestamp {
    Timestamp {
        unix_seconds: 0,
        subsec_nanos: 0,
        utc_offset_seconds: 0,
    }
}

fn attempt(number: usize, of: usize, result: ExecutionResult, is_slow: bool) -> ExecuteStatus {
    ExecuteStatus {
        retry_data: RetryData {
            attempt: number,
            total_attempts: of,
        },
        output: no_output(),
        result,
        start_time: epoch(),
        time_taken: Duration::from_millis(20),
        is_slow,
        delay_before_start: Duration::ZERO,
    }
}

fn failure() -> ExecutionResult {
    ExecutionResult::Fail {
        signal: None,
        code: Some(101),
    }
}

fn single(result: ExecutionResult, is_slow: bool) -> ExecutionStatuses {
    ExecutionStatuses::new(vec![attempt(1, 1, result, is_slow)]).unwrap()
}

fn script(result: ExecutionResult) -> SetupScriptExecuteStatus {
    SetupScriptExecuteStatus {
        output: no_output(),
        result,
        start_time: epoch(),
        time_taken: Duration::from_millis(5),
        is_slow: false,
        env_map: None,
    }
}

#[test]
fn default_stats_are_all_zero() {
    assert_eq!(RunStats::default(), RunStats::new(0, 0));
    let stats = RunStats::default();
    assert_eq!(stats.initial_run_count, 0);
    assert_eq!(stats.finished_count, 0);
    assert_eq!(stats.skipped, 0);
    assert!(!stats.has_failures());
}

#[test]
fn new_stats_hold_the_initial_counts() {
    let stats = RunStats::new(7, 3);
    assert_eq!(
        stats,
        RunStats {
            initial_run_count: 7,
            setup_scripts_initial_count: 3,
            ..RunStats::default()
        }
    );
}

#[test]
fn a_pass_counts_as_passed() {
    let mut stats = RunStats::new(3, 0);
    stats.on_test_finished(&single(ExecutionResult::Pass, false));
    assert_eq!(
        stats,
        RunStats {
            initial_run_count: 3,
            finished_count: 1,
            passed: 1,
            ..RunStats::default()
        }
    );
}

#[test]
fn a_slow_pass_counts_as_passed_and_slow() {
    let mut stats = RunStats::new(3, 0);
    stats.on_test_finished(&single(ExecutionResult::Pass, true));
    assert_eq!(
        stats,
        RunStats {
            initial_run_count: 3,
            finished_count: 1,
            passed: 1,
            passed_slow: 1,
            ..RunStats::default()
        }
    );
}

#[test]
fn a_leak_counts_as_passed_and_leaky() {
    let mut stats = RunStats::new(1, 0);
    stats.on_test_finished(&single(ExecutionResult::Leak, false));
    assert_eq!(
        stats,
        RunStats {
            initial_run_count: 1,
            finished_count: 1,
            passed: 1,
            leaky: 1,
            ..RunStats::default()
        }
    );
    assert_eq!(stats.summarize_final(), FinalRunStats::Success);
}

#[test]
fn a_slow_leak_on_retry_counts_four_ways() {
    let mut stats = RunStats::new(1, 0);
    let run = ExecutionStatuses::new(vec![
        attempt(1, 2, failure(), false),
        attempt(2, 2, ExecutionResult::Leak, true),
    ])
    .unwrap();
    stats.on_test_finished(&run);
    assert_eq!(
        stats,
        RunStats {
            initial_run_count: 1,
            finished_count: 1,
            passed: 1,
            passed_slow: 1,
            flaky: 1,
            leaky: 1,
            ..RunStats::default()
        }
    );
}

#[test]
fn a_failure_counts_as_failed() {
    let mut stats = RunStats::new(2, 0);
    stats.on_test_finished(&single(failure(), false));
    assert_eq!(
        stats,
        RunStats {
            initial_run_count: 2,
            finished_count: 1,
            failed: 1,
            ..RunStats::default()
        }
    );
    stats.on_test_finished(&single(failure(), true));
    assert_eq!(
        stats,
        RunStats {
            initial_run_count: 2,
            finished_count: 2,
            failed: 2,
            failed_slow: 1,
            ..RunStats::default()
        }
    );
}

#[test]
fn a_timeout_counts_as_timed_out_only() {
    let mut stats = RunStats::new(1, 0);
    stats.on_test_finished(&single(ExecutionResult::Timeout, true));
    assert_eq!(
        stats,
        RunStats {
            initial_run_count: 1,
            finished_count: 1,
            timed_out: 1,
            ..RunStats::default()
        }
    );
}

#[test]
fn a_failed_start_counts_as_exec_failed() {
    let mut stats = RunStats::new(1, 0);
    stats.on_test_finished(&single(ExecutionResult::ExecFail, false));
    assert_eq!(
        stats,
        RunStats {
            initial_run_count: 1,
            finished_count: 1,
            exec_failed: 1,
            ..RunStats::default()
        }
    );
}

#[test]
fn the_last_attempt_decides() {
    let mut stats = RunStats::new(1, 0);
    let run = ExecutionStatuses::new(vec![
        attempt(1, 3, ExecutionResult::Timeout, true),
        attempt(2, 3, ExecutionResult::ExecFail, false),
        attempt(3, 3, failure(), false),
    ])
    .unwrap();
    stats.on_test_finished(&run);
    assert_eq!(
        stats,
        RunStats {
            initial_run_count: 1,
            finished_count: 1,
            failed: 1,
            ..RunStats::default()
        }
    );
}

#[test]
fn flaky_test_passes_on_retry() {
    let mut stats = RunStats::new(1, 0);
    let run = ExecutionStatuses::new(vec![
        attempt(1, 2, failure(), false),
        attempt(2, 2, ExecutionResult::Pass, false),
    ])
    .unwrap();
    assert!(run.is_flaky());
    stats.on_test_finished(&run);
    assert_eq!(stats.passed, 1);
    assert_eq!(stats.flaky, 1);
    assert_eq!(stats.failed, 0);
    assert_eq!(stats.summarize_final(), FinalRunStats::Success);
}

#[test]
fn flaky_stays_zero_without_a_retried_pass() {
    let mut stats = RunStats::new(3, 0);
    stats.on_test_finished(&single(ExecutionResult::Pass, false));
    stats.on_test_finished(&single(failure(), false));
    let run = ExecutionStatuses::new(vec![
        attempt(1, 2, failure(), false),
        attempt(2, 2, failure(), false),
    ])
    .unwrap();
    assert!(!run.is_flaky());
    stats.on_test_finished(&run);
    assert_eq!(stats.flaky, 0);
    assert_eq!(stats.failed, 2);
}

#[test]
fn setup_script_outcomes_are_counted() {
    let mut stats = RunStats::new(0, 5);
    stats.on_setup_script_finished(&script(ExecutionResult::Pass));
    stats.on_setup_script_finished(&script(ExecutionResult::Leak));
    stats.on_setup_script_finished(&script(failure()));
    stats.on_setup_script_finished(&script(ExecutionResult::ExecFail));
    stats.on_setup_script_finished(&script(ExecutionResult::Timeout));
    assert_eq!(
        stats,
        RunStats {
            setup_scripts_initial_count: 5,
            setup_scripts_finished_count: 5,
            setup_scripts_passed: 2,
            setup_scripts_failed: 1,
            setup_scripts_exec_failed: 1,
            setup_scripts_timed_out: 1,
            ..RunStats::default()
        }
    );
    assert_eq!(stats.failed_setup_script_count(), 3);
    assert_eq!(stats.failed_count(), 0);
    assert!(stats.has_failures());
}

#[test]
fn failed_count_adds_the_three_kinds() {
    let stats = RunStats {
        initial_run_count: 10,
        finished_count: 9,
        failed: 2,
        exec_failed: 3,
        timed_out: 4,
        ..RunStats::default()
    };
    assert_eq!(stats.failed_count(), 9);
    assert_eq!(stats.failed_setup_script_count(), 0);
    assert!(stats.has_failures());
}

#[test]
fn not_run_is_what_was_to_run_and_did_not_finish() {
    let stats = RunStats {
        initial_run_count: 10,
        finished_count: 4,
        passed: 3,
        failed: 1,
        ..RunStats::default()
    };
    assert_eq!(
        stats.summarize_final(),
        FinalRunStats::Failed(RunStatsFailureKind::Test {
            initial_run_count: 10,
            not_run: 6
        })
    );
}

#[test]
fn not_run_does_not_go_below_zero() {
    let stats = RunStats {
        initial_run_count: 1,
        finished_count: 2,
        failed: 1,
        ..RunStats::default()
    };
    assert_eq!(
        stats.summarize_final(),
        FinalRunStats::Failed(RunStatsFailureKind::Test {
            initial_run_count: 1,
            not_run: 0
        })
    );
}

#[test]
fn failures_of_setup_scripts_come_first() {
    let stats = RunStats {
        initial_run_count: 5,
        finished_count: 5,
        failed: 1,
        setup_scripts_initial_count: 2,
        setup_scripts_finished_count: 1,
        setup_scripts_exec_failed: 1,
        ..RunStats::default()
    };
    assert_eq!(
        stats.summarize_final(),
        FinalRunStats::Failed(RunStatsFailureKind::SetupScript)
    );
}

#[test]
fn has_failures_goes_with_a_failed_summary() {
    let cases = [
        RunStats::default(),
        RunStats {
            initial_run_count: 2,
            finished_count: 2,
            passed: 2,
            ..RunStats::default()
        },
        RunStats {
            initial_run_count: 2,
            finished_count: 1,
            passed: 1,
            ..RunStats::default()
        },
        RunStats {
            initial_run_count: 2,
            finished_count: 2,
            passed: 1,
            timed_out: 1,
            ..RunStats::default()
        },
        RunStats {
            setup_scripts_initial_count: 1,
            setup_scripts_finished_count: 1,
            setup_scripts_timed_out: 1,
            ..RunStats::default()
        },
    ];
    for stats in cases {
        assert_eq!(
            stats.has_failures(),
            matches!(stats.summarize_final(), FinalRunStats::Failed(_))
        );
    }
}

#[test]
fn failed_tests_behind_unfinished_setup_are_summarized_as_cancelled() {
    let stats = RunStats {
        initial_run_count: 1,
        finished_count: 1,
        failed: 1,
        setup_scripts_initial_count: 1,
        ..RunStats::default()
    };
    assert!(stats.has_failures());
    assert_eq!(
        stats.summarize_final(),
        FinalRunStats::Cancelled(RunStatsFailureKind::SetupScript)
    );
}

#[test]
fn has_failures_does_not_wrap_around() {
    let stats = RunStats {
        failed: usize::MAX,
        exec_failed: 1,
        ..RunStats::default()
    };
    assert!(stats.has_failures());
    assert!(matches!(
        stats.summarize_final(),
        FinalRunStats::Failed(RunStatsFailureKind::Test { .. })
    ));
}

#[test]
fn no_tests_selected_is_no_tests_run() {
    let mut stats = RunStats::new(0, 1);
    stats.on_setup_script_finished(&script(ExecutionResult::Pass));
    assert_eq!(stats.summarize_final(), FinalRunStats::NoTestsRun);
}

#[test]
fn finished_stays_within_initial() {
    let mut stats = RunStats::new(3, 0);
    let results = [ExecutionResult::Pass, failure(), ExecutionResult::Timeout];
    for result in results {
        stats.on_test_finished(&single(result, false));
        assert!(stats.finished_count <= stats.initial_run_count);
        assert!(
            stats.passed + stats.failed + stats.timed_out + stats.exec_failed
                <= stats.finished_count
        );
    }
    assert_eq!(stats.finished_count, 3);
}
