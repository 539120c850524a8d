//! Running tallies of a test run and the outcome that they come to.
//!
//! The tallies change on two events only: a setup script finished, and a test
//! finished, all its attempts made.

use crate::execution::{
    failed_then_passed, lemma_flaky_attempts, valid_attempts, ExecuteStatus, ExecutionResult,
    ExecutionStatuses, SetupScriptExecuteStatus,
};
use vstd::prelude::*;

verus! {

/// Statistics for a test run.
#[derive(Copy, Clone, Debug, PartialEq, Eq, Structural)]
pub struct RunStats {
    /// The total number of tests that were expected to be run at the beginning.
    ///
    /// If the test run is cancelled, this will be more than `finished_count` at the end.
    pub initial_run_count: usize,
    /// The total number of tests that finished running.
    pub finished_count: usize,
    /// The total number of setup scripts that were expected to be run at the beginning.
    ///
    /// If the test run is cancelled, this will be more than
    /// `setup_scripts_finished_count` at the end.
    pub setup_scripts_initial_count: usize,
    /// The total number of setup scripts that finished running.
    pub setup_scripts_finished_count: usize,
    /// The number of setup scripts that passed.
    pub setup_scripts_passed: usize,
    /// The number of setup scripts that failed.
    pub setup_scripts_failed: usize,
    /// The number of setup scripts that encountered an execution failure.
    pub setup_scripts_exec_failed: usize,
    /// The number of setup scripts that timed out.
    pub setup_scripts_timed_out: usize,
    /// The number of tests that passed. Includes `passed_slow`, `flaky` and `leaky`.
    pub passed: usize,
    /// The number of slow tests that passed.
    pub passed_slow: usize,
    /// The number of tests that passed on retry.
    pub flaky: usize,
    /// The number of tests that failed.
    pub failed: usize,
    /// The number of failed tests that were slow.
    pub failed_slow: usize,
    /// The number of tests that timed out.
    pub timed_out: usize,
    /// The number of tests that passed but leaked handles.
    pub leaky: usize,
    /// The number of tests that encountered an execution failure.
    pub exec_failed: usize,
    /// The number of tests that were skipped.
    pub skipped: usize,
}

/// The tallies of a run as natural numbers, which no count outgrows.
pub struct RunTally {
    pub initial_run_count: nat,
    pub finished_count: nat,
    pub setup_scripts_initial_count: nat,
    pub setup_scripts_finished_count: nat,
    pub setup_scripts_passed: nat,
    pub setup_scripts_failed: nat,
    pub setup_scripts_exec_failed: nat,
    pub setup_scripts_timed_out: nat,
    pub passed: nat,
    pub passed_slow: nat,
    pub flaky: nat,
    pub failed: nat,
    pub failed_slow: nat,
    pub timed_out: nat,
    pub leaky: nat,
    pub exec_failed: nat,
    pub skipped: nat,
}

/// 1 where `counted` holds, else 0.
pub open spec fn one_if(counted: bool) -> nat {
    if counted {
        1
    } else {
        0
    }
}

impl RunTally {
    /// The tallies before anything ran.
    pub open spec fn start(initial_run_count: nat, setup_scripts_initial_count: nat) -> RunTally {
        RunTally {
            initial_run_count,
            finished_count: 0,
            setup_scripts_initial_count,
            setup_scripts_finished_count: 0,
            setup_scripts_passed: 0,
            setup_scripts_failed: 0,
            setup_scripts_exec_failed: 0,
            setup_scripts_timed_out: 0,
            passed: 0,
            passed_slow: 0,
            flaky: 0,
            failed: 0,
            failed_slow: 0,
            timed_out: 0,
            leaky: 0,
            exec_failed: 0,
            skipped: 0,
        }
    }

    /// The tallies after a setup script ended with `result`. A leaky pass
    /// counts as a pass.
    pub open spec fn setup_script_finished(self, result: ExecutionResult) -> RunTally {
        RunTally {
            setup_scripts_finished_count: self.setup_scripts_finished_count + 1,
            setup_scripts_passed: self.setup_scripts_passed + one_if(result.is_success()),
            setup_scripts_failed: self.setup_scripts_failed + one_if(result is Fail),
            setup_scripts_exec_failed: self.setup_scripts_exec_failed + one_if(
                result is ExecFail,
            ),
            setup_scripts_timed_out: self.setup_scripts_timed_out + one_if(result is Timeout),
            ..self
        }
    }

    /// The tallies after a test finished whose last attempt ended with
    /// `result`, was slow or not, and was the first attempt or a retry. The
    /// last attempt decides what the test counts as.
    pub open spec fn test_outcome(self, result: ExecutionResult, slow: bool, retried: bool)
        -> RunTally {
        RunTally {
            finished_count: self.finished_count + 1,
            passed: self.passed + one_if(result.is_success()),
            passed_slow: self.passed_slow + one_if(result.is_success() && slow),
            flaky: self.flaky + one_if(result.is_success() && retried),
            leaky: self.leaky + one_if(result is Leak),
            failed: self.failed + one_if(result is Fail),
            failed_slow: self.failed_slow + one_if(result is Fail && slow),
            timed_out: self.timed_out + one_if(result is Timeout),
            exec_failed: self.exec_failed + one_if(result is ExecFail),
            ..self
        }
    }

    /// The tallies after a test finished with the given attempts.
    pub open spec fn test_finished(self, attempts: Seq<ExecuteStatus>) -> RunTally {
        self.test_outcome(attempts.last().result, attempts.last().is_slow, attempts.len() > 1)
    }

    /// The tallies after the tests of `runs` finished one after the other.
    pub open spec fn tests_finished(self, runs: Seq<Seq<ExecuteStatus>>) -> RunTally
        decreases runs.len(),
    {
        if runs.len() == 0 {
            self
        } else {
            self.tests_finished(runs.drop_last()).test_finished(runs.last())
        }
    }

    /// Every count fits the machine's word.
    pub open spec fn fits(self) -> bool {
        &&& self.initial_run_count <= usize::MAX
        &&& self.finished_count <= usize::MAX
        &&& self.setup_scripts_initial_count <= usize::MAX
        &&& self.setup_scripts_finished_count <= usize::MAX
        &&& self.setup_scripts_passed <= usize::MAX
        &&& self.setup_scripts_failed <= usize::MAX
        &&& self.setup_scripts_exec_failed <= usize::MAX
        &&& self.setup_scripts_timed_out <= usize::MAX
        &&& self.passed <= usize::MAX
        &&& self.passed_slow <= usize::MAX
        &&& self.flaky <= usize::MAX
        &&& self.failed <= usize::MAX
        &&& self.failed_slow <= usize::MAX
        &&& self.timed_out <= usize::MAX
        &&& self.leaky <= usize::MAX
        &&& self.exec_failed <= usize::MAX
        &&& self.skipped <= usize::MAX
    }

    /// What holds of the tallies throughout a run: no more tests finished
    /// than were to run, the outcomes that are counted are of finished tests,
    /// and each part of a count is within the whole.
    pub open spec fn consistent(self) -> bool {
        &&& self.finished_count <= self.initial_run_count
        &&& self.passed + self.failed + self.timed_out + self.exec_failed <= self.finished_count
        &&& self.flaky <= self.passed
        &&& self.passed_slow <= self.passed
        &&& self.failed_slow <= self.failed
        &&& self.leaky <= self.passed
    }

    /// What holds of the tallies of setup scripts throughout a run: no more
    /// scripts finished than were to run, and the outcomes that are counted
    /// are of finished scripts.
    pub open spec fn scripts_consistent(self) -> bool {
        &&& self.setup_scripts_finished_count <= self.setup_scripts_initial_count
        &&& self.setup_scripts_passed + self.setup_scripts_failed + self.setup_scripts_exec_failed
            + self.setup_scripts_timed_out <= self.setup_scripts_finished_count
    }
}

impl View for RunStats {
    type V = RunTally;

    open spec fn view(&self) -> RunTally {
        RunTally {
            initial_run_count: self.initial_run_count as nat,
            finished_count: self.finished_count as nat,
            setup_scripts_initial_count: self.setup_scripts_initial_count as nat,
            setup_scripts_finished_count: self.setup_scripts_finished_count as nat,
            setup_scripts_passed: self.setup_scripts_passed as nat,
            setup_scripts_failed: self.setup_scripts_failed as nat,
            setup_scripts_exec_failed: self.setup_scripts_exec_failed as nat,
            setup_scripts_timed_out: self.setup_scripts_timed_out as nat,
            passed: self.passed as nat,
            passed_slow: self.passed_slow as nat,
            flaky: self.flaky as nat,
            failed: self.failed as nat,
            failed_slow: self.failed_slow as nat,
            timed_out: self.timed_out as nat,
            leaky: self.leaky as nat,
            exec_failed: self.exec_failed as nat,
            skipped: self.skipped as nat,
        }
    }
}

/// A type summarizing the step at which a test run failed.
#[derive(Copy, Clone, Debug, PartialEq, Eq, Structural)]
pub enum RunStatsFailureKind {
    /// The run was interrupted during setup script execution.
    SetupScript,
    /// The run was interrupted during test execution.
    Test {
        /// The total number of tests scheduled.
        initial_run_count: usize,
        /// The number of tests not run, or for a currently-executing test the number queued up to
        /// run.
        not_run: usize,
    },
}

/// A type summarizing the possible outcomes of a test run.
#[derive(Copy, Clone, Debug, PartialEq, Eq, Structural)]
pub enum FinalRunStats {
    /// The test run was successful, or is successful so far.
    Success,
    /// The test run was successful, or is successful so far, but no tests were selected to run.
    NoTestsRun,
    /// The test run was cancelled.
    Cancelled(RunStatsFailureKind),
    /// At least one test failed.
    Failed(RunStatsFailureKind),
}

impl Default for RunStats {
    fn default() -> (stats: RunStats)
        ensures
            stats@ == RunTally::start(0, 0),
    {
        RunStats {
            initial_run_count: 0,
            finished_count: 0,
            setup_scripts_initial_count: 0,
            setup_scripts_finished_count: 0,
            setup_scripts_passed: 0,
            setup_scripts_failed: 0,
            setup_scripts_exec_failed: 0,
            setup_scripts_timed_out: 0,
            passed: 0,
            passed_slow: 0,
            flaky: 0,
            failed: 0,
            failed_slow: 0,
            timed_out: 0,
            leaky: 0,
            exec_failed: 0,
            skipped: 0,
        }
    }
}

impl RunStats {
    /// The number of setup scripts that did not pass.
    pub open spec fn spec_failed_setup_script_count(&self) -> int {
        self.setup_scripts_failed + self.setup_scripts_exec_failed + self.setup_scripts_timed_out
    }

    /// The number of tests that did not pass.
    pub open spec fn spec_failed_count(&self) -> int {
        self.failed + self.exec_failed + self.timed_out
    }

    /// Some setup script or some test did not pass.
    pub open spec fn spec_has_failures(&self) -> bool {
        self.spec_failed_setup_script_count() > 0 || self.spec_failed_count() > 0
    }

    /// The number of tests that were to run and have not finished.
    pub open spec fn spec_not_run(&self) -> usize {
        if self.initial_run_count >= self.finished_count {
            (self.initial_run_count - self.finished_count) as usize
        } else {
            0
        }
    }

    /// The outcome that the tallies come to: failures of setup scripts come
    /// first, then setup scripts that did not finish, then failures of
    /// tests, then tests that did not finish.
    pub open spec fn spec_summarize_final(&self) -> FinalRunStats {
        if self.spec_failed_setup_script_count() > 0 {
            FinalRunStats::Failed(RunStatsFailureKind::SetupScript)
        } else if self.setup_scripts_initial_count > self.setup_scripts_finished_count {
            FinalRunStats::Cancelled(RunStatsFailureKind::SetupScript)
        } else if self.spec_failed_count() > 0 {
            FinalRunStats::Failed(
                RunStatsFailureKind::Test {
                    initial_run_count: self.initial_run_count,
                    not_run: self.spec_not_run(),
                },
            )
        } else if self.initial_run_count > self.finished_count {
            FinalRunStats::Cancelled(
                RunStatsFailureKind::Test {
                    initial_run_count: self.initial_run_count,
                    not_run: self.spec_not_run(),
                },
            )
        } else if self.finished_count == 0 {
            FinalRunStats::NoTestsRun
        } else {
            FinalRunStats::Success
        }
    }

    /// The tallies of a run that is about to start.
    pub fn new(initial_run_count: usize, setup_scripts_initial_count: usize) -> (stats: RunStats)
        ensures
            stats@ == RunTally::start(
                initial_run_count as nat,
                setup_scripts_initial_count as nat,
            ),
    {
        RunStats {
            initial_run_count,
            finished_count: 0,
            setup_scripts_initial_count,
            setup_scripts_finished_count: 0,
            setup_scripts_passed: 0,
            setup_scripts_failed: 0,
            setup_scripts_exec_failed: 0,
            setup_scripts_timed_out: 0,
            passed: 0,
            passed_slow: 0,
            flaky: 0,
            failed: 0,
            failed_slow: 0,
            timed_out: 0,
            leaky: 0,
            exec_failed: 0,
            skipped: 0,
        }
    }

    /// Returns true if there are any failures recorded in the stats.
    #[verifier::when_used_as_spec(spec_has_failures)]
    pub fn has_failures(&self) -> (any: bool)
        ensures
            any == self.spec_has_failures(),
    {
        self.setup_scripts_failed > 0 || self.setup_scripts_exec_failed > 0
            || self.setup_scripts_timed_out > 0 || self.failed > 0 || self.exec_failed > 0
            || self.timed_out > 0
    }

    /// Returns count of setup scripts that did not pass.
    pub fn failed_setup_script_count(&self) -> (count: usize)
        requires
            self.spec_failed_setup_script_count() <= usize::MAX,
        ensures
            count == self.spec_failed_setup_script_count(),
    {
        self.setup_scripts_failed + self.setup_scripts_exec_failed + self.setup_scripts_timed_out
    }

    /// Returns count of tests that did not pass.
    pub fn failed_count(&self) -> (count: usize)
        requires
            self.spec_failed_count() <= usize::MAX,
        ensures
            count == self.spec_failed_count(),
    {
        self.failed + self.exec_failed + self.timed_out
    }

    /// Summarizes the stats as an enum at the end of a test run.
    #[verifier::when_used_as_spec(spec_summarize_final)]
    pub fn summarize_final(&self) -> (summary: FinalRunStats)
        ensures
            summary == self.spec_summarize_final(),
    {
        if self.setup_scripts_failed > 0 || self.setup_scripts_exec_failed > 0
            || self.setup_scripts_timed_out > 0 {
            FinalRunStats::Failed(RunStatsFailureKind::SetupScript)
        } else if self.setup_scripts_initial_count > self.setup_scripts_finished_count {
            FinalRunStats::Cancelled(RunStatsFailureKind::SetupScript)
        } else if self.failed > 0 || self.exec_failed > 0 || self.timed_out > 0 {
            FinalRunStats::Failed(
                RunStatsFailureKind::Test {
                    initial_run_count: self.initial_run_count,
                    not_run: self.initial_run_count.saturating_sub(self.finished_count),
                },
            )
        } else if self.initial_run_count > self.finished_count {
            FinalRunStats::Cancelled(
                RunStatsFailureKind::Test {
                    initial_run_count: self.initial_run_count,
                    not_run: self.initial_run_count.saturating_sub(self.finished_count),
                },
            )
        } else if self.finished_count == 0 {
            FinalRunStats::NoTestsRun
        } else {
            FinalRunStats::Success
        }
    }

    /// Counts a setup script that finished with `status`.
    pub fn on_setup_script_finished(&mut self, status: &SetupScriptExecuteStatus)
        requires
            old(self)@.setup_script_finished(status.result).fits(),
        ensures
            final(self)@ == old(self)@.setup_script_finished(status.result),
    {
        self.setup_scripts_finished_count += 1;

        match status.result {
            ExecutionResult::Pass | ExecutionResult::Leak => {
                self.setup_scripts_passed += 1;
            },
            ExecutionResult::Fail { .. } => {
                self.setup_scripts_failed += 1;
            },
            ExecutionResult::ExecFail => {
                self.setup_scripts_exec_failed += 1;
            },
            ExecutionResult::Timeout => {
                self.setup_scripts_timed_out += 1;
            },
        }
    }

    /// Counts a test that finished with the attempts `run_statuses`. The last
    /// attempt decides whether the test counts as passed, failed, timed out or
    /// not started; a pass after more than one attempt counts as flaky too.
    pub fn on_test_finished(&mut self, run_statuses: &ExecutionStatuses)
        requires
            old(self)@.test_finished(run_statuses@).fits(),
        ensures
            final(self)@ == old(self)@.test_finished(run_statuses@),
    {
        self.finished_count += 1;
        let last_status = run_statuses.last_status();
        match last_status.result {
            ExecutionResult::Pass => {
                self.passed += 1;
                if last_status.is_slow {
                    self.passed_slow += 1;
                }
                if run_statuses.len() > 1 {
                    self.flaky += 1;
                }
            },
            ExecutionResult::Leak => {
                self.passed += 1;
                self.leaky += 1;
                if last_status.is_slow {
                    self.passed_slow += 1;
                }
                if run_statuses.len() > 1 {
                    self.flaky += 1;
                }
            },
            ExecutionResult::Fail { .. } => {
                self.failed += 1;
                if last_status.is_slow {
                    self.failed_slow += 1;
                }
            },
            ExecutionResult::Timeout => self.timed_out += 1,
            ExecutionResult::ExecFail => self.exec_failed += 1,
        }
    }
}


/// Before anything ran the tallies are consistent.
pub proof fn lemma_start_consistent(initial_run_count: nat, setup_scripts_initial_count: nat)
    ensures
        RunTally::start(initial_run_count, setup_scripts_initial_count).consistent(),
{
}

/// A setup script that finishes keeps the tallies consistent.
pub proof fn lemma_setup_script_finished_consistent(tally: RunTally, result: ExecutionResult)
    requires
        tally.consistent(),
    ensures
        tally.setup_script_finished(result).consistent(),
{
}

/// While fewer setup scripts have finished than were to run, one more that
/// finishes keeps their tallies consistent, and no count outgrows the number
/// of scripts that were to run.
pub proof fn lemma_setup_script_finished_scripts_consistent(
    tally: RunTally,
    result: ExecutionResult,
)
    requires
        tally.scripts_consistent(),
        tally.setup_scripts_finished_count < tally.setup_scripts_initial_count,
    ensures
        tally.setup_script_finished(result).scripts_consistent(),
        tally.fits() ==> tally.setup_script_finished(result).fits(),
{
}

/// While fewer tests have finished than were to run, one more that finishes
/// keeps the tallies consistent, and no count outgrows the number of tests
/// that were to run.
pub proof fn lemma_test_finished_consistent(tally: RunTally, attempts: Seq<ExecuteStatus>)
    requires
        tally.consistent(),
        tally.finished_count < tally.initial_run_count,
    ensures
        tally.test_finished(attempts).consistent(),
        tally.test_finished(attempts).finished_count == tally.finished_count + 1,
        tally.fits() ==> tally.test_finished(attempts).fits(),
{
}

/// Throughout a run no more tests have finished than were to run: as long as
/// the tests that finish are among those that were to run, the tallies stay
/// consistent and count each finished test once.
pub proof fn lemma_tests_finished_consistent(tally: RunTally, runs: Seq<Seq<ExecuteStatus>>)
    requires
        tally.consistent(),
        tally.finished_count + runs.len() <= tally.initial_run_count,
    ensures
        tally.tests_finished(runs).consistent(),
        tally.tests_finished(runs).finished_count == tally.finished_count + runs.len(),
        tally.tests_finished(runs).initial_run_count == tally.initial_run_count,
        tally.fits() ==> tally.tests_finished(runs).fits(),
    decreases runs.len(),
{
    if runs.len() > 0 {
        lemma_tests_finished_consistent(tally, runs.drop_last());
        lemma_test_finished_consistent(tally.tests_finished(runs.drop_last()), runs.last());
    }
}

/// At the end of a run the tests not run are those that were to run and did
/// not finish, and a summary that counts them reports that number.
pub proof fn lemma_not_run(stats: RunStats)
    requires
        stats@.consistent(),
    ensures
        stats.spec_not_run() == stats.initial_run_count - stats.finished_count,
        match stats.summarize_final() {
            FinalRunStats::Failed(RunStatsFailureKind::Test { initial_run_count, not_run })
            | FinalRunStats::Cancelled(
                RunStatsFailureKind::Test { initial_run_count, not_run },
            ) => initial_run_count == stats.initial_run_count && not_run
                == stats.initial_run_count - stats.finished_count,
            _ => true,
        },
{
}

/// A run is summarized as failed only if a failure was recorded.
pub proof fn lemma_failed_has_failures(stats: RunStats)
    ensures
        stats.summarize_final() is Failed ==> stats.has_failures(),
{
}

/// A failure was recorded exactly when the run is summarized as failed. Set
/// aside are the tallies in which tests failed although setup scripts, none
/// of which failed, are still to finish: those are summarized as cancelled
/// during setup.
pub proof fn lemma_has_failures_iff_failed(stats: RunStats)
    requires
        !(stats.spec_failed_setup_script_count() == 0 && stats.setup_scripts_initial_count
            > stats.setup_scripts_finished_count && stats.spec_failed_count() > 0),
    ensures
        stats.has_failures() <==> stats.summarize_final() is Failed,
{
}

/// A run in which no test was to run, and in which every setup script
/// finished and passed, is summarized as one without tests.
pub proof fn lemma_no_tests_selected(stats: RunStats)
    requires
        stats@.consistent(),
        stats.initial_run_count == 0,
        stats.spec_failed_setup_script_count() == 0,
        stats.setup_scripts_initial_count <= stats.setup_scripts_finished_count,
    ensures
        stats.summarize_final() == FinalRunStats::NoTestsRun,
{
}

/// The number of tests counted as flaky grows only by tests of which an
/// attempt failed and a later one passed: if it grew over `runs`, one of them
/// is such a test.
pub proof fn lemma_flaky_failed_then_passed(tally: RunTally, runs: Seq<Seq<ExecuteStatus>>)
    requires
        forall|i: int| 0 <= i < runs.len() ==> valid_attempts(#[trigger] runs[i]),
    ensures
        tally.tests_finished(runs).flaky >= tally.flaky,
        tally.tests_finished(runs).flaky > tally.flaky ==> exists|i: int|
            0 <= i < runs.len() && failed_then_passed(#[trigger] runs[i]),
    decreases runs.len(),
{
    if runs.len() > 0 {
        let front = runs.drop_last();
        assert forall|i: int| 0 <= i < front.len() implies valid_attempts(
            #[trigger] front[i],
        ) by {
            assert(front[i] == runs[i]);
        }
        lemma_flaky_failed_then_passed(tally, front);
        let before = tally.tests_finished(front);
        if before.flaky > tally.flaky {
            let i = choose|i: int| 0 <= i < front.len() && failed_then_passed(#[trigger] front[i]);
            assert(failed_then_passed(runs[i]));
        } else if tally.tests_finished(runs).flaky > tally.flaky {
            let last = runs.len() - 1;
            assert(valid_attempts(runs[last]));
            lemma_flaky_attempts(runs[last]);
            assert(failed_then_passed(runs[last]));
        }
    }
}

} // verus!
