use std::time::Duration;

use nextest_core::cancel::CancelReason;
use nextest_core::dispatcher::{Admission, Dispatcher};
use nextest_core::execution::{
    ChildExecutionOutput, ExecuteStatus, ExecutionResult, ExecutionStatuses, RetryData,
    SetupScriptExecuteStatus, Timestamp,
};
use nextest_core::policy::RunPolicy;
use nextest_core::run_stats::{FinalRunStats, RunStats, RunStatsFailureKind};
use nextest_core::test_list::{FilterMatch, MismatchReason};

const FAILED: ExecutionResult = ExecutionResult::Fail {
    signal: None,
    code: Some(1),
};

fn policy(concurrency: usize, fail_fast: bool) -> RunPolicy {
    RunPolicy {
        concurrency,
        retries: 0,
        backoff: None,
        slow_timeout: Duration::from_secs(60),
        slow_timeout_terminate_after: None,
        leak_timeout: Duration::from_millis(100),
        fail_fast,
        capture_output: true,
    }
}

fn output() -> ChildExecutionOutput {
    ChildExecutionOutput::Output {
        stdout: None,
        stderr: None,
        truncated: false,
    }
}

fn epoch() -> Timestamp {
    Timestamp {
        unix_seconds: 0,
        subsec_nanos: 0,
        utc_offset_seconds: 0,
    }
}

fn run(results: &[ExecutionResult]) -> ExecutionStatuses {
    let statuses = results
        .iter()
        .enumerate()
        .map(|(index, result)| ExecuteStatus {
            retry_data: RetryData {
                attempt: index + 1,
                total_attempts: results.len(),
            },
            output: output(),
            result: *result,
            start_time: epoch(),
            time_taken: Duration::from_millis(10),
            is_slow: false,
            delay_before_start: Duration::ZERO,
        })
        .collect();
    ExecutionStatuses::new(statuses).unwrap()
}

fn script(result: ExecutionResult) -> SetupScriptExecuteStatus {
    SetupScriptExecuteStatus {
        output: output(),
        result,
        start_time: epoch(),
        time_taken: Duration::from_millis(10),
        is_slow: false,
        env_map: None,
    }
}

fn matching(count: usize) -> Vec<FilterMatch> {
    vec![FilterMatch::Matches; count]
}

#[test]
fn two_passing_tests_run_side_by_side() {
    let mut dispatcher = Dispatcher::new(&policy(2, true), matching(2), 0);
    assert_eq!(dispatcher.stats(), RunStats::new(2, 0));
    assert_eq!(dispatcher.next_admission(), Admission::StartTest { index: 0 });
    assert_eq!(dispatcher.next_admission(), Admission::StartTest { index: 1 });
    assert_eq!(dispatcher.running(), 2);
    assert_eq!(dispatcher.next_admission(), Admission::Wait);
    dispatcher.on_test_finished(&run(&[ExecutionResult::Pass]));
    assert_eq!(dispatcher.next_admission(), Admission::Wait);
    dispatcher.on_test_finished(&run(&[ExecutionResult::Pass]));
    assert_eq!(dispatcher.next_admission(), Admission::Finished);
    assert_eq!(
        dispatcher.stats(),
        RunStats {
            initial_run_count: 2,
            finished_count: 2,
            passed: 2,
            ..RunStats::default()
        }
    );
    assert_eq!(dispatcher.stats().summarize_final(), FinalRunStats::Success);
    assert_eq!(dispatcher.cancel_reason(), None);
}

#[test]
fn no_more_tests_run_at_once_than_allowed() {
    let mut dispatcher = Dispatcher::new(&policy(3, false), matching(10), 0);
    let mut started = 0;
    let mut finished = 0;
    loop {
        match dispatcher.next_admission() {
            Admission::StartTest { index } => {
                assert_eq!(index, started);
                started += 1;
                assert!(dispatcher.running() <= 3);
            }
            Admission::Wait => {
                assert_eq!(dispatcher.running(), 3.min(started - finished));
                dispatcher.on_test_finished(&run(&[ExecutionResult::Pass]));
                finished += 1;
            }
            Admission::Finished => break,
            other => panic!("not expected: {other:?}"),
        }
    }
    assert_eq!(started, 10);
    assert_eq!(finished, 10);
}

#[test]
fn one_at_a_time_finishes_in_the_order_of_starting() {
    let mut dispatcher = Dispatcher::new(&policy(1, false), matching(4), 0);
    let mut order = Vec::new();
    let mut running = None;
    loop {
        match dispatcher.next_admission() {
            Admission::StartTest { index } => {
                assert_eq!(running, None);
                assert_eq!(dispatcher.stats().finished_count, index);
                running = Some(index);
            }
            Admission::Wait => {
                order.push(running.take().unwrap());
                dispatcher.on_test_finished(&run(&[FAILED]));
            }
            Admission::Finished => break,
            other => panic!("not expected: {other:?}"),
        }
    }
    assert_eq!(order, vec![0, 1, 2, 3]);
}

#[test]
fn no_slot_at_all_counts_as_one() {
    let mut dispatcher = Dispatcher::new(&policy(0, false), matching(2), 0);
    assert_eq!(dispatcher.next_admission(), Admission::StartTest { index: 0 });
    assert_eq!(dispatcher.next_admission(), Admission::Wait);
}

#[test]
fn skipped_tests_take_no_slot() {
    let queue = vec![
        FilterMatch::Mismatch {
            reason: MismatchReason::Ignored,
        },
        FilterMatch::Matches,
        FilterMatch::Mismatch {
            reason: MismatchReason::String,
        },
        FilterMatch::Mismatch {
            reason: MismatchReason::Partition,
        },
        FilterMatch::Matches,
    ];
    let mut dispatcher = Dispatcher::new(&policy(1, false), queue, 0);
    assert_eq!(dispatcher.stats().initial_run_count, 2);
    assert_eq!(
        dispatcher.next_admission(),
        Admission::SkipTest {
            index: 0,
            reason: MismatchReason::Ignored
        }
    );
    assert_eq!(dispatcher.running(), 0);
    assert_eq!(dispatcher.next_admission(), Admission::StartTest { index: 1 });
    assert_eq!(
        dispatcher.next_admission(),
        Admission::SkipTest {
            index: 2,
            reason: MismatchReason::String
        }
    );
    assert_eq!(
        dispatcher.next_admission(),
        Admission::SkipTest {
            index: 3,
            reason: MismatchReason::Partition
        }
    );
    assert_eq!(dispatcher.next_admission(), Admission::Wait);
    dispatcher.on_test_finished(&run(&[ExecutionResult::Pass]));
    assert_eq!(dispatcher.next_admission(), Admission::StartTest { index: 4 });
    dispatcher.on_test_finished(&run(&[ExecutionResult::Pass]));
    assert_eq!(dispatcher.next_admission(), Admission::Finished);
    assert_eq!(dispatcher.stats().summarize_final(), FinalRunStats::Success);
    assert_eq!(dispatcher.stats().skipped, 0);
}

#[test]
fn zero_tests_selected_is_no_tests_run() {
    let queue = vec![
        FilterMatch::Mismatch {
            reason: MismatchReason::String,
        };
        3
    ];
    let mut dispatcher = Dispatcher::new(&policy(4, true), queue, 0);
    for index in 0..3 {
        assert_eq!(
            dispatcher.next_admission(),
            Admission::SkipTest {
                index,
                reason: MismatchReason::String
            }
        );
    }
    assert_eq!(dispatcher.next_admission(), Admission::Finished);
    assert_eq!(dispatcher.stats().summarize_final(), FinalRunStats::NoTestsRun);

    let mut empty = Dispatcher::new(&policy(4, true), Vec::new(), 0);
    assert_eq!(empty.next_admission(), Admission::Finished);
    assert_eq!(empty.stats().summarize_final(), FinalRunStats::NoTestsRun);
}

#[test]
fn fail_fast_stops_admitting_tests() {
    let mut dispatcher = Dispatcher::new(&policy(2, true), matching(3), 0);
    assert_eq!(dispatcher.next_admission(), Admission::StartTest { index: 0 });
    assert_eq!(dispatcher.next_admission(), Admission::StartTest { index: 1 });
    dispatcher.on_test_finished(&run(&[FAILED]));
    assert_eq!(dispatcher.cancel_reason(), Some(CancelReason::TestFailure));
    assert_eq!(dispatcher.next_admission(), Admission::Wait);
    assert_eq!(dispatcher.running(), 1);
    dispatcher.on_test_finished(&run(&[ExecutionResult::Pass]));
    assert_eq!(dispatcher.next_admission(), Admission::Finished);
    let stats = dispatcher.stats();
    assert_eq!(stats.failed, 1);
    assert_eq!(stats.passed, 1);
    assert_eq!(
        stats.summarize_final(),
        FinalRunStats::Failed(RunStatsFailureKind::Test {
            initial_run_count: 3,
            not_run: 1
        })
    );
}

#[test]
fn without_fail_fast_a_failure_cancels_nothing() {
    let mut dispatcher = Dispatcher::new(&policy(1, false), matching(2), 0);
    assert_eq!(dispatcher.next_admission(), Admission::StartTest { index: 0 });
    dispatcher.on_test_finished(&run(&[ExecutionResult::Timeout]));
    assert_eq!(dispatcher.cancel_reason(), None);
    assert_eq!(dispatcher.next_admission(), Admission::StartTest { index: 1 });
}

#[test]
fn a_leak_does_not_trip_fail_fast() {
    let mut dispatcher = Dispatcher::new(&policy(1, true), matching(2), 0);
    dispatcher.next_admission();
    dispatcher.on_test_finished(&run(&[ExecutionResult::Leak]));
    assert_eq!(dispatcher.cancel_reason(), None);
    assert_eq!(dispatcher.next_admission(), Admission::StartTest { index: 1 });
}

#[test]
fn setup_scripts_run_before_any_test() {
    let mut dispatcher = Dispatcher::new(&policy(4, true), matching(2), 2);
    assert_eq!(dispatcher.stats(), RunStats::new(2, 2));
    assert_eq!(dispatcher.next_admission(), Admission::StartScript { index: 0 });
    assert_eq!(dispatcher.setup_scripts_running(), 1);
    assert_eq!(dispatcher.next_admission(), Admission::Wait);
    dispatcher.on_setup_script_finished(&script(ExecutionResult::Pass));
    assert_eq!(dispatcher.setup_scripts_running(), 0);
    assert_eq!(dispatcher.next_admission(), Admission::StartScript { index: 1 });
    assert_eq!(dispatcher.next_admission(), Admission::Wait);
    dispatcher.on_setup_script_finished(&script(ExecutionResult::Pass));
    assert_eq!(dispatcher.next_admission(), Admission::StartTest { index: 0 });
    assert_eq!(dispatcher.stats().setup_scripts_finished_count, 2);
    assert_eq!(dispatcher.stats().setup_scripts_passed, 2);
}

#[test]
fn failing_setup_script_keeps_the_tests_from_running() {
    let mut dispatcher = Dispatcher::new(&policy(4, true), matching(3), 2);
    assert_eq!(dispatcher.next_admission(), Admission::StartScript { index: 0 });
    dispatcher.on_setup_script_finished(&script(ExecutionResult::Pass));
    assert_eq!(dispatcher.next_admission(), Admission::StartScript { index: 1 });
    dispatcher.on_setup_script_finished(&script(FAILED));
    assert_eq!(
        dispatcher.cancel_reason(),
        Some(CancelReason::SetupScriptFailure)
    );
    assert_eq!(dispatcher.next_admission(), Admission::Finished);
    let stats = dispatcher.stats();
    assert_eq!(stats.finished_count, 0);
    assert_eq!(stats.setup_scripts_failed, 1);
    assert_eq!(
        stats.summarize_final(),
        FinalRunStats::Failed(RunStatsFailureKind::SetupScript)
    );
}

#[test]
fn a_failing_first_script_keeps_the_second_from_running() {
    let mut dispatcher = Dispatcher::new(&policy(4, true), matching(1), 2);
    dispatcher.next_admission();
    dispatcher.on_setup_script_finished(&script(ExecutionResult::ExecFail));
    assert_eq!(dispatcher.next_admission(), Admission::Finished);
    assert_eq!(
        dispatcher.stats().summarize_final(),
        FinalRunStats::Failed(RunStatsFailureKind::SetupScript)
    );
}

#[test]
fn without_fail_fast_a_failed_script_is_on_record_and_the_run_goes_on() {
    let mut dispatcher = Dispatcher::new(&policy(1, false), matching(1), 1);
    assert_eq!(dispatcher.next_admission(), Admission::StartScript { index: 0 });
    dispatcher.on_setup_script_finished(&script(ExecutionResult::Timeout));
    assert_eq!(dispatcher.cancel_reason(), None);
    assert_eq!(dispatcher.next_admission(), Admission::StartTest { index: 0 });
    dispatcher.on_test_finished(&run(&[ExecutionResult::Pass]));
    assert_eq!(dispatcher.next_admission(), Admission::Finished);
    assert_eq!(
        dispatcher.stats().summarize_final(),
        FinalRunStats::Failed(RunStatsFailureKind::SetupScript)
    );
}

#[test]
fn interrupt_mid_run_ends_as_cancelled() {
    let mut dispatcher = Dispatcher::new(&policy(1, true), matching(3), 0);
    assert_eq!(dispatcher.next_admission(), Admission::StartTest { index: 0 });
    dispatcher.on_test_finished(&run(&[ExecutionResult::Pass]));
    assert_eq!(dispatcher.next_admission(), Admission::StartTest { index: 1 });
    assert_eq!(
        dispatcher.begin_cancel(CancelReason::Interrupt),
        CancelReason::Interrupt
    );
    assert_eq!(dispatcher.next_admission(), Admission::Wait);
    dispatcher.on_test_abandoned(CancelReason::Interrupt);
    assert_eq!(dispatcher.next_admission(), Admission::Finished);
    assert_eq!(dispatcher.cancel_reason(), Some(CancelReason::Interrupt));
    assert_eq!(
        dispatcher.stats().summarize_final(),
        FinalRunStats::Cancelled(RunStatsFailureKind::Test {
            initial_run_count: 3,
            not_run: 2
        })
    );
}

#[test]
fn the_more_severe_reason_stands() {
    let mut dispatcher = Dispatcher::new(&policy(2, true), matching(2), 0);
    dispatcher.next_admission();
    dispatcher.next_admission();
    dispatcher.on_test_finished(&run(&[FAILED]));
    assert_eq!(dispatcher.cancel_reason(), Some(CancelReason::TestFailure));
    assert_eq!(
        dispatcher.begin_cancel(CancelReason::Signal),
        CancelReason::Signal
    );
    assert_eq!(
        dispatcher.begin_cancel(CancelReason::ReportError),
        CancelReason::Signal
    );
    dispatcher.on_test_finished(&run(&[FAILED]));
    assert_eq!(dispatcher.cancel_reason(), Some(CancelReason::Signal));
}

#[test]
fn an_interrupt_during_setup_ends_as_cancelled_in_setup() {
    let mut dispatcher = Dispatcher::new(&policy(1, true), matching(1), 2);
    assert_eq!(dispatcher.next_admission(), Admission::StartScript { index: 0 });
    dispatcher.begin_cancel(CancelReason::Interrupt);
    dispatcher.on_setup_script_abandoned(CancelReason::Interrupt);
    assert_eq!(dispatcher.next_admission(), Admission::Finished);
    assert_eq!(
        dispatcher.stats().summarize_final(),
        FinalRunStats::Cancelled(RunStatsFailureKind::SetupScript)
    );
}

#[test]
fn a_skipped_test_at_the_head_is_still_reported_after_cancellation() {
    let queue = vec![
        FilterMatch::Matches,
        FilterMatch::Mismatch {
            reason: MismatchReason::Ignored,
        },
        FilterMatch::Matches,
        FilterMatch::Mismatch {
            reason: MismatchReason::Ignored,
        },
    ];
    let mut dispatcher = Dispatcher::new(&policy(1, true), queue, 0);
    assert_eq!(dispatcher.next_admission(), Admission::StartTest { index: 0 });
    dispatcher.on_test_finished(&run(&[FAILED]));
    assert_eq!(
        dispatcher.next_admission(),
        Admission::SkipTest {
            index: 1,
            reason: MismatchReason::Ignored
        }
    );
    assert_eq!(dispatcher.next_admission(), Admission::Finished);
    assert_eq!(dispatcher.next_admission(), Admission::Finished);
}

#[test]
fn an_outcome_that_nothing_runs_for_is_ignored() {
    let mut dispatcher = Dispatcher::new(&policy(1, true), matching(1), 1);
    let before = dispatcher.stats();
    dispatcher.on_test_finished(&run(&[FAILED]));
    dispatcher.on_test_abandoned(CancelReason::Signal);
    dispatcher.on_setup_script_finished(&script(FAILED));
    dispatcher.on_setup_script_abandoned(CancelReason::Signal);
    assert_eq!(dispatcher.stats(), before);
    assert_eq!(dispatcher.cancel_reason(), None);
    assert_eq!(dispatcher.next_admission(), Admission::StartScript { index: 0 });
}

#[test]
fn a_flaky_test_counts_once() {
    let mut dispatcher = Dispatcher::new(&policy(1, true), matching(1), 0);
    dispatcher.next_admission();
    dispatcher.on_test_finished(&run(&[FAILED, ExecutionResult::Pass]));
    assert_eq!(dispatcher.cancel_reason(), None);
    let stats = dispatcher.stats();
    assert_eq!(stats.passed, 1);
    assert_eq!(stats.flaky, 1);
    assert_eq!(stats.finished_count, 1);
    assert_eq!(stats.summarize_final(), FinalRunStats::Success);
}
