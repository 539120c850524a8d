//! The scheduler of a run: which unit starts next, and when the run stops
//! admitting units.
//!
//! The dispatcher decides; whoever drives it starts the processes and tells
//! it how each unit ended. Setup scripts run first, one after the other in
//! the order in which they are declared. Then the tests are gone through in
//! the order of discovery: a test that the filter leaves out is reported as
//! skipped and takes no slot; a test that the filter lets in is started as
//! soon as fewer tests run than the policy allows at once. Once the run is
//! cancelled nothing more is started.

use crate::cancel::{escalate, spec_escalate, CancelReason};
use crate::events::{RunId, TestEventKind, TestOutputDisplay};
use crate::execution::{
    ExecuteStatus, ExecutionResult, ExecutionStatuses, SetupScriptExecuteStatus, Timestamp,
};
use crate::run_stats::{
    lemma_setup_script_finished_consistent, lemma_setup_script_finished_scripts_consistent,
    lemma_test_finished_consistent, one_if, FinalRunStats, RunStats, RunStatsFailureKind,
    RunTally,
};
use crate::policy::RunPolicy;
use crate::test_list::{FilterMatch, MismatchReason, TestInstance};
use std::time::Duration;
use vstd::prelude::*;

verus! {

/// What the dispatcher has its driver do next.
#[derive(Copy, Clone, Debug, PartialEq, Eq, Structural)]
pub enum Admission {
    /// Start the setup script at `index`, counted from 0 in the order in
    /// which the scripts are declared.
    StartScript { index: usize },
    /// Start the test at `index`, counted from 0 in the order of discovery.
    StartTest { index: usize },
    /// Report the test at `index` as skipped for `reason`.
    SkipTest { index: usize, reason: MismatchReason },
    /// Start nothing until a unit that runs has ended.
    Wait,
    /// Nothing runs and nothing is left to start: the run is over.
    Finished,
}

/// The number of tests among `queue` that the filter lets in.
pub open spec fn run_count(queue: Seq<FilterMatch>) -> nat
    decreases queue.len(),
{
    if queue.len() == 0 {
        0
    } else {
        run_count(queue.drop_last()) + one_if(queue.last() is Matches)
    }
}

/// All that the dispatcher goes by.
pub struct DispatcherView {
    /// How many tests may run at once, at least one.
    pub concurrency: nat,
    /// Whether the first failure cancels the run.
    pub fail_fast: bool,
    /// For each test, in the order of discovery, whether the filter lets it
    /// in.
    pub queue: Seq<FilterMatch>,
    /// How many tests of the queue have been gone through.
    pub next: nat,
    /// How many tests run.
    pub running: nat,
    /// How many tests were terminated with the run and are done without
    /// having finished.
    pub abandoned: nat,
    /// How many setup scripts there are.
    pub scripts_total: nat,
    /// How many setup scripts have been started.
    pub scripts_started: nat,
    /// Whether a setup script runs.
    pub script_running: bool,
    /// How many setup scripts were terminated with the run and are done
    /// without having finished.
    pub scripts_abandoned: nat,
    /// The tallies of the run.
    pub stats: RunTally,
    /// Why the run is cancelled, if it is.
    pub cancel: Option<CancelReason>,
}

impl DispatcherView {
    /// The dispatcher of a run that is about to start.
    pub open spec fn start(
        concurrency: nat,
        fail_fast: bool,
        queue: Seq<FilterMatch>,
        scripts_total: nat,
    ) -> DispatcherView {
        DispatcherView {
            concurrency: if concurrency == 0 {
                1
            } else {
                concurrency
            },
            fail_fast,
            queue,
            next: 0,
            running: 0,
            abandoned: 0,
            scripts_total,
            scripts_started: 0,
            script_running: false,
            scripts_abandoned: 0,
            stats: RunTally::start(run_count(queue), scripts_total),
            cancel: None,
        }
    }

    /// Every setup script has been started and none runs.
    pub open spec fn setup_done(self) -> bool {
        self.scripts_started == self.scripts_total && !self.script_running
    }

    /// The number of tests that have been started.
    pub open spec fn started(self) -> nat {
        run_count(self.queue.take(self.next as int))
    }

    /// What holds of the dispatcher throughout a run.
    pub open spec fn well_formed(self) -> bool {
        &&& 1 <= self.concurrency
        &&& self.running <= self.concurrency
        &&& self.next <= self.queue.len() <= usize::MAX
        &&& self.scripts_started <= self.scripts_total <= usize::MAX
        &&& self.stats.initial_run_count == run_count(self.queue)
        &&& self.stats.finished_count + self.running + self.abandoned == self.started()
        &&& self.stats.setup_scripts_initial_count == self.scripts_total
        &&& self.stats.setup_scripts_finished_count + one_if(self.script_running)
            + self.scripts_abandoned == self.scripts_started
        &&& self.stats.consistent()
        &&& self.stats.scripts_consistent()
        &&& self.stats.fits()
        &&& !self.setup_done() ==> self.next == 0 && self.running == 0
        &&& (self.abandoned > 0 || self.scripts_abandoned > 0) ==> self.cancel is Some
    }

    /// What is to be done next, and the dispatcher once that is under way.
    ///
    /// While setup scripts are left, the next one is started as soon as the
    /// one before has ended. After them, a test at the head of the queue
    /// that the filter leaves out is reported as skipped. A test that the
    /// filter lets in is started if the run is not cancelled and a slot is
    /// free. The run is over when nothing runs and nothing can be started.
    pub open spec fn decide(self) -> (DispatcherView, Admission) {
        if self.script_running {
            (self, Admission::Wait)
        } else if self.scripts_started < self.scripts_total {
            if self.cancel is Some {
                (self, Admission::Finished)
            } else {
                (
                    DispatcherView {
                        scripts_started: self.scripts_started + 1,
                        script_running: true,
                        ..self
                    },
                    Admission::StartScript { index: self.scripts_started as usize },
                )
            }
        } else if self.next < self.queue.len() && self.queue[self.next as int] is Mismatch {
            (
                DispatcherView { next: self.next + 1, ..self },
                Admission::SkipTest {
                    index: self.next as usize,
                    reason: self.queue[self.next as int]->reason,
                },
            )
        } else if self.cancel is Some || self.next >= self.queue.len() {
            (
                self,
                if self.running == 0 {
                    Admission::Finished
                } else {
                    Admission::Wait
                },
            )
        } else if self.running < self.concurrency {
            (
                DispatcherView { next: self.next + 1, running: self.running + 1, ..self },
                Admission::StartTest { index: self.next as usize },
            )
        } else {
            (self, Admission::Wait)
        }
    }

    /// The reason that stands once `reason` is raised.
    pub open spec fn cancelled(self, reason: CancelReason) -> DispatcherView {
        DispatcherView { cancel: Some(spec_escalate(self.cancel, reason)), ..self }
    }

    /// The dispatcher after the setup script that runs finished with
    /// `result`. A script that did not pass cancels a run that stops at the
    /// first failure. Where no script runs nothing changes.
    pub open spec fn script_finished(self, result: ExecutionResult) -> DispatcherView {
        if !self.script_running {
            self
        } else {
            let counted = DispatcherView {
                script_running: false,
                stats: self.stats.setup_script_finished(result),
                ..self
            };
            if self.fail_fast && !result.is_success() {
                counted.cancelled(CancelReason::SetupScriptFailure)
            } else {
                counted
            }
        }
    }

    /// The dispatcher after the setup script that runs was terminated with
    /// the run, which is cancelled for `reason`. Where no script runs nothing
    /// changes.
    pub open spec fn script_abandoned(self, reason: CancelReason) -> DispatcherView {
        if !self.script_running {
            self
        } else {
            DispatcherView {
                script_running: false,
                scripts_abandoned: self.scripts_abandoned + 1,
                ..self.cancelled(reason)
            }
        }
    }

    /// The dispatcher after a test that runs finished with `attempts`. A
    /// test that did not pass cancels a run that stops at the first failure.
    /// Where no test runs nothing changes.
    pub open spec fn test_finished(self, attempts: Seq<ExecuteStatus>) -> DispatcherView {
        if self.running == 0 {
            self
        } else {
            let counted = DispatcherView {
                running: (self.running - 1) as nat,
                stats: self.stats.test_finished(attempts),
                ..self
            };
            if self.fail_fast && !attempts.last().result.is_success() {
                counted.cancelled(CancelReason::TestFailure)
            } else {
                counted
            }
        }
    }

    /// The dispatcher after a test that runs was terminated with the run,
    /// which is cancelled for `reason`. Where no test runs nothing changes.
    pub open spec fn test_abandoned(self, reason: CancelReason) -> DispatcherView {
        if self.running == 0 {
            self
        } else {
            DispatcherView {
                running: (self.running - 1) as nat,
                abandoned: self.abandoned + 1,
                ..self.cancelled(reason)
            }
        }
    }
}

/// One test more of the queue adds to the tests let in if the filter lets it
/// in, and the tests let in among the first so many are no more than those
/// let in among all.
pub proof fn lemma_run_count_take(queue: Seq<FilterMatch>, upto: int)
    requires
        0 <= upto <= queue.len(),
    ensures
        run_count(queue.take(upto)) <= run_count(queue),
        run_count(queue.take(upto)) <= upto,
        upto < queue.len() ==> run_count(queue.take(upto + 1)) == run_count(queue.take(upto))
            + one_if(queue[upto] is Matches),
    decreases queue.len() - upto,
{
    if upto < queue.len() {
        assert(queue.take(upto + 1).drop_last() =~= queue.take(upto));
        assert(queue.take(upto + 1).last() == queue[upto]);
        lemma_run_count_take(queue, upto + 1);
        lemma_run_count_bound(queue.take(upto));
    } else {
        assert(queue.take(upto) =~= queue);
        lemma_run_count_bound(queue);
    }
}

/// No more tests are let in than there are.
pub proof fn lemma_run_count_bound(queue: Seq<FilterMatch>)
    ensures
        run_count(queue) <= queue.len(),
    decreases queue.len(),
{
    if queue.len() > 0 {
        lemma_run_count_bound(queue.drop_last());
    }
}


/// A run that is about to start is as every run is that the dispatcher
/// schedules.
pub proof fn lemma_start_well_formed(
    concurrency: nat,
    fail_fast: bool,
    queue: Seq<FilterMatch>,
    scripts_total: nat,
)
    requires
        queue.len() <= usize::MAX,
        scripts_total <= usize::MAX,
    ensures
        DispatcherView::start(concurrency, fail_fast, queue, scripts_total).well_formed(),
{
    lemma_run_count_bound(queue);
    assert(queue.take(0) =~= Seq::<FilterMatch>::empty());
}

/// Whatever the dispatcher decides, and however a unit ends, the run stays
/// as every run is that the dispatcher schedules. With that, no more tests
/// have finished than were to run.
pub proof fn lemma_well_formed_kept(
    run: DispatcherView,
    result: ExecutionResult,
    attempts: Seq<ExecuteStatus>,
    reason: CancelReason,
)
    requires
        run.well_formed(),
    ensures
        run.decide().0.well_formed(),
        run.cancelled(reason).well_formed(),
        run.script_finished(result).well_formed(),
        run.script_abandoned(reason).well_formed(),
        run.test_finished(attempts).well_formed(),
        run.test_abandoned(reason).well_formed(),
        run.stats.finished_count <= run.stats.initial_run_count,
{
    lemma_run_count_take(run.queue, run.next as int);
    if run.script_running {
        lemma_setup_script_finished_consistent(run.stats, result);
        lemma_setup_script_finished_scripts_consistent(run.stats, result);
    }
    if run.running > 0 {
        lemma_test_finished_consistent(run.stats, attempts);
    }
}

/// No test is started, and none is reported as skipped, before every setup
/// script has been started and has ended; and a test is started only when
/// every setup script has finished.
pub proof fn lemma_setup_precedes_tests(run: DispatcherView)
    requires
        run.well_formed(),
    ensures
        (run.decide().1 is StartTest || run.decide().1 is SkipTest) ==> run.setup_done(),
        run.decide().1 is StartTest ==> run.stats.setup_scripts_finished_count
            == run.stats.setup_scripts_initial_count,
        run.decide().1 is StartScript ==> run.next == 0 && run.stats.finished_count == 0,
{
    assert(run.queue.take(0) =~= Seq::<FilterMatch>::empty());
}

/// Setup scripts are started in the order in which they are declared, each
/// after the one before has ended, and tests are gone through in the order
/// of discovery.
pub proof fn lemma_in_order(run: DispatcherView)
    requires
        run.well_formed(),
    ensures
        match run.decide().1 {
            Admission::StartScript { index } => index == run.scripts_started
                && !run.script_running && run.decide().0.scripts_started == index + 1,
            Admission::StartTest { index } => index == run.next && run.queue[index as int]
                is Matches && run.decide().0.next == index + 1,
            Admission::SkipTest { index, reason } => index == run.next && run.queue[index as int]
                == (FilterMatch::Mismatch { reason }) && run.decide().0.next == index + 1
                && run.decide().0.running == run.running,
            Admission::Wait => run.decide().0 == run && (run.running > 0 || run.script_running),
            Admission::Finished => run.decide().0 == run && run.running == 0
                && !run.script_running,
        },
{
}

/// No more tests run at once than the policy allows. Where it allows one,
/// a test is started only when every test that was started before has ended:
/// the tests end in the order in which they are started.
pub proof fn lemma_one_at_a_time(run: DispatcherView)
    requires
        run.well_formed(),
    ensures
        run.decide().0.running <= run.concurrency,
        (run.concurrency == 1 && run.decide().1 is StartTest) ==> run.running == 0
            && run.stats.finished_count + run.abandoned == run.started(),
{
}

/// Once the run is cancelled nothing more is started, and the reason that
/// stands never gives way to a less severe one.
pub proof fn lemma_cancelled_run(
    run: DispatcherView,
    result: ExecutionResult,
    attempts: Seq<ExecuteStatus>,
    reason: CancelReason,
)
    requires
        run.well_formed(),
        run.cancel is Some,
    ensures
        !(run.decide().1 is StartTest),
        !(run.decide().1 is StartScript),
        run.decide().0.cancel == run.cancel,
        run.cancelled(reason).cancel is Some,
        run.cancelled(reason).cancel.unwrap().severity() >= run.cancel.unwrap().severity(),
        run.cancelled(reason).cancel.unwrap().severity() >= reason.severity(),
        run.script_finished(result).cancel is Some,
        run.script_finished(result).cancel.unwrap().severity() >= run.cancel.unwrap().severity(),
        run.script_abandoned(reason).cancel is Some,
        run.script_abandoned(reason).cancel.unwrap().severity() >= run.cancel.unwrap().severity(),
        run.test_finished(attempts).cancel is Some,
        run.test_finished(attempts).cancel.unwrap().severity() >= run.cancel.unwrap().severity(),
        run.test_abandoned(reason).cancel is Some,
        run.test_abandoned(reason).cancel.unwrap().severity() >= run.cancel.unwrap().severity(),
{
}

/// A run that stops at the first failure is cancelled once a test finishes
/// that did not pass, and once a setup script finishes that did not pass.
pub proof fn lemma_fail_fast(
    run: DispatcherView,
    result: ExecutionResult,
    attempts: Seq<ExecuteStatus>,
)
    requires
        run.well_formed(),
        run.fail_fast,
    ensures
        (run.running > 0 && !attempts.last().result.is_success()) ==> run.test_finished(
            attempts,
        ).cancel == Some(spec_escalate(run.cancel, CancelReason::TestFailure)),
        (run.script_running && !result.is_success()) ==> run.script_finished(result).cancel
            == Some(spec_escalate(run.cancel, CancelReason::SetupScriptFailure)),
{
}

/// In a run of which a test was terminated with the run, fewer tests have
/// finished than were to run: the run does not end as a success. Where no
/// failure is on record and the setup scripts have finished, it ends as
/// cancelled among the tests, at least one of them not run.
pub proof fn lemma_abandoned_run_is_cancelled(run: DispatcherView, stats: RunStats)
    requires
        run.well_formed(),
        stats@ == run.stats,
        run.abandoned > 0,
    ensures
        stats.finished_count < stats.initial_run_count,
        stats.summarize_final() != FinalRunStats::Success,
        stats.summarize_final() != FinalRunStats::NoTestsRun,
        (!stats.has_failures() && stats.setup_scripts_finished_count
            >= stats.setup_scripts_initial_count) ==> stats.summarize_final()
            == FinalRunStats::Cancelled(
            RunStatsFailureKind::Test {
                initial_run_count: stats.initial_run_count,
                not_run: stats.spec_not_run(),
            },
        ) && stats.spec_not_run() >= 1,
{
    lemma_run_count_take(run.queue, run.next as int);
}

/// In a run in which the filter lets no test in, no test is ever started,
/// and the run ends without tests where every setup script finished and
/// passed.
pub proof fn lemma_nothing_selected(run: DispatcherView, stats: RunStats)
    requires
        run.well_formed(),
        stats@ == run.stats,
        run_count(run.queue) == 0,
    ensures
        !(run.decide().1 is StartTest),
        stats.initial_run_count == 0 && stats.finished_count == 0,
        (stats.spec_failed_setup_script_count() == 0 && stats.setup_scripts_initial_count
            <= stats.setup_scripts_finished_count) ==> stats.summarize_final()
            == FinalRunStats::NoTestsRun,
{
    lemma_run_count_take(run.queue, run.next as int);
    if run.next < run.queue.len() {
        lemma_run_count_take(run.queue, (run.next + 1) as int);
    }
}


/// What changes in the course of a run.
#[derive(Copy, Clone, Debug)]
struct Progress {
    next: usize,
    running: usize,
    abandoned: usize,
    scripts_started: usize,
    script_running: bool,
    scripts_abandoned: usize,
    stats: RunStats,
    cancel: Option<CancelReason>,
}

/// The scheduler of one run.
#[derive(Debug)]
pub struct Dispatcher {
    concurrency: usize,
    fail_fast: bool,
    queue: Vec<FilterMatch>,
    scripts_total: usize,
    progress: Progress,
}

impl View for Dispatcher {
    type V = DispatcherView;

    closed spec fn view(&self) -> DispatcherView {
        DispatcherView {
            concurrency: self.concurrency as nat,
            fail_fast: self.fail_fast,
            queue: self.queue@,
            next: self.progress.next as nat,
            running: self.progress.running as nat,
            abandoned: self.progress.abandoned as nat,
            scripts_total: self.scripts_total as nat,
            scripts_started: self.progress.scripts_started as nat,
            script_running: self.progress.script_running,
            scripts_abandoned: self.progress.scripts_abandoned as nat,
            stats: self.progress.stats@,
            cancel: self.progress.cancel,
        }
    }
}

/// Counts the tests among `queue` that the filter lets in.
fn count_matches(queue: &Vec<FilterMatch>) -> (count: usize)
    ensures
        count == run_count(queue@),
{
    let mut count: usize = 0;
    let mut at: usize = 0;
    proof {
        assert(queue@.take(0) =~= Seq::<FilterMatch>::empty());
    }
    while at < queue.len()
        invariant
            at <= queue.len(),
            count == run_count(queue@.take(at as int)),
            count <= at,
        decreases queue.len() - at,
    {
        proof {
            lemma_run_count_take(queue@, at as int);
        }
        if queue[at].is_match() {
            count = count + 1;
        }
        at = at + 1;
    }
    proof {
        assert(queue@.take(at as int) =~= queue@);
    }
    count
}

impl Dispatcher {
    #[verifier::type_invariant]
    spec fn well_formed(&self) -> bool {
        self@.well_formed()
    }

    /// The dispatcher of a run that is about to start: `setup_scripts` setup
    /// scripts, then the tests of `queue`, which says for each test in the
    /// order of discovery whether the filter lets it in. As many tests run
    /// at once as `policy` allows, and at least one.
    pub fn new(policy: &RunPolicy, queue: Vec<FilterMatch>, setup_scripts: usize) -> (dispatcher:
        Self)
        ensures
            dispatcher@ == DispatcherView::start(
                policy.concurrency as nat,
                policy.fail_fast,
                queue@,
                setup_scripts as nat,
            ),
            dispatcher@.well_formed(),
    {
        let tests = queue.len();
        proof {
            assert(queue@.len() == tests);
            lemma_start_well_formed(
                policy.concurrency as nat,
                policy.fail_fast,
                queue@,
                setup_scripts as nat,
            );
        }
        let initial_run_count = count_matches(&queue);
        Dispatcher {
            concurrency: if policy.concurrency == 0 {
                1
            } else {
                policy.concurrency
            },
            fail_fast: policy.fail_fast,
            queue,
            scripts_total: setup_scripts,
            progress: Progress {
                next: 0,
                running: 0,
                abandoned: 0,
                scripts_started: 0,
                script_running: false,
                scripts_abandoned: 0,
                stats: RunStats::new(initial_run_count, setup_scripts),
                cancel: None,
            },
        }
    }

    /// Why the filter leaves out the test at the head of the queue, if there
    /// is a test there and the filter leaves it out.
    fn skipped_at_head(&self) -> (reason: Option<MismatchReason>)
        ensures
            match reason {
                Some(reason) => self@.next < self@.queue.len() && self@.queue[self@.next as int]
                    == (FilterMatch::Mismatch { reason }),
                None => !(self@.next < self@.queue.len() && self@.queue[self@.next as int]
                    is Mismatch),
            },
    {
        if self.progress.next < self.queue.len() {
            match self.queue[self.progress.next] {
                FilterMatch::Mismatch { reason } => Some(reason),
                FilterMatch::Matches => None,
            }
        } else {
            None
        }
    }

    /// Decides what is to be done next. What is to be started counts as
    /// started from here on.
    pub fn next_admission(&mut self) -> (admission: Admission)
        ensures
            (final(self)@, admission) == old(self)@.decide(),
            final(self)@.well_formed(),
    {
        proof {
            use_type_invariant(&*self);
            lemma_well_formed_kept(
                self@,
                ExecutionResult::Pass,
                Seq::empty(),
                CancelReason::Signal,
            );
            lemma_run_count_take(self@.queue, self@.next as int);
        }
        let progress = self.progress;
        if progress.script_running {
            Admission::Wait
        } else if progress.scripts_started < self.scripts_total {
            if progress.cancel.is_some() {
                Admission::Finished
            } else {
                self.progress = Progress {
                    scripts_started: progress.scripts_started + 1,
                    script_running: true,
                    ..progress
                };
                Admission::StartScript { index: progress.scripts_started }
            }
        } else if let Some(reason) = self.skipped_at_head() {
            self.progress = Progress { next: progress.next + 1, ..progress };
            Admission::SkipTest { index: progress.next, reason }
        } else if progress.cancel.is_some() || progress.next >= self.queue.len() {
            if progress.running == 0 {
                Admission::Finished
            } else {
                Admission::Wait
            }
        } else if progress.running < self.concurrency {
            self.progress = Progress {
                next: progress.next + 1,
                running: progress.running + 1,
                ..progress
            };
            Admission::StartTest { index: progress.next }
        } else {
            Admission::Wait
        }
    }

    /// Cancels the run for `reason`, unless it is cancelled for a reason at
    /// least as severe. Returns the reason that stands.
    pub fn begin_cancel(&mut self, reason: CancelReason) -> (standing: CancelReason)
        ensures
            final(self)@ == old(self)@.cancelled(reason),
            final(self)@.cancel == Some(standing),
            final(self)@.well_formed(),
    {
        proof {
            use_type_invariant(&*self);
        }
        let progress = self.progress;
        let standing = escalate(progress.cancel, reason);
        self.progress = Progress { cancel: Some(standing), ..progress };
        standing
    }

    /// Takes note that the setup script that runs finished with `status`.
    pub fn on_setup_script_finished(&mut self, status: &SetupScriptExecuteStatus)
        ensures
            final(self)@ == old(self)@.script_finished(status.result),
            final(self)@.well_formed(),
    {
        proof {
            use_type_invariant(&*self);
            lemma_well_formed_kept(self@, status.result, Seq::empty(), CancelReason::Signal);
        }
        let progress = self.progress;
        if progress.script_running {
            proof {
                lemma_setup_script_finished_scripts_consistent(self@.stats, status.result);
            }
            let mut stats = progress.stats;
            stats.on_setup_script_finished(status);
            let cancel = if self.fail_fast && !status.result.is_success() {
                Some(escalate(progress.cancel, CancelReason::SetupScriptFailure))
            } else {
                progress.cancel
            };
            self.progress = Progress { script_running: false, stats, cancel, ..progress };
        }
    }

    /// Takes note that the setup script that runs was terminated with the
    /// run, which is cancelled for `reason`.
    pub fn on_setup_script_abandoned(&mut self, reason: CancelReason)
        ensures
            final(self)@ == old(self)@.script_abandoned(reason),
            final(self)@.well_formed(),
    {
        proof {
            use_type_invariant(&*self);
            lemma_well_formed_kept(self@, ExecutionResult::Pass, Seq::empty(), reason);
        }
        let progress = self.progress;
        if progress.script_running {
            self.progress = Progress {
                script_running: false,
                scripts_abandoned: progress.scripts_abandoned + 1,
                cancel: Some(escalate(progress.cancel, reason)),
                ..progress
            };
        }
    }

    /// Takes note that a test that runs finished with the attempts
    /// `run_statuses`.
    pub fn on_test_finished(&mut self, run_statuses: &ExecutionStatuses)
        ensures
            final(self)@ == old(self)@.test_finished(run_statuses@),
            final(self)@.well_formed(),
    {
        proof {
            use_type_invariant(&*self);
            lemma_well_formed_kept(
                self@,
                ExecutionResult::Pass,
                run_statuses@,
                CancelReason::Signal,
            );
            lemma_run_count_take(self@.queue, self@.next as int);
        }
        let progress = self.progress;
        if progress.running > 0 {
            proof {
                lemma_test_finished_consistent(self@.stats, run_statuses@);
            }
            let mut stats = progress.stats;
            stats.on_test_finished(run_statuses);
            let cancel = if self.fail_fast && !run_statuses.last_status().result.is_success() {
                Some(escalate(progress.cancel, CancelReason::TestFailure))
            } else {
                progress.cancel
            };
            self.progress = Progress { running: progress.running - 1, stats, cancel, ..progress };
        }
    }

    /// Takes note that a test that runs was terminated with the run, which
    /// is cancelled for `reason`.
    pub fn on_test_abandoned(&mut self, reason: CancelReason)
        ensures
            final(self)@ == old(self)@.test_abandoned(reason),
            final(self)@.well_formed(),
    {
        proof {
            use_type_invariant(&*self);
            lemma_well_formed_kept(self@, ExecutionResult::Pass, Seq::empty(), reason);
            lemma_run_count_take(self@.queue, self@.next as int);
        }
        let progress = self.progress;
        if progress.running > 0 {
            self.progress = Progress {
                running: progress.running - 1,
                abandoned: progress.abandoned + 1,
                cancel: Some(escalate(progress.cancel, reason)),
                ..progress
            };
        }
    }

    /// The tallies of the run so far.
    pub fn stats(&self) -> (stats: RunStats)
        ensures
            stats@ == self@.stats,
            self@.well_formed(),
    {
        proof {
            use_type_invariant(self);
        }
        self.progress.stats
    }

    /// Why the run is cancelled, if it is.
    pub fn cancel_reason(&self) -> (reason: Option<CancelReason>)
        ensures
            reason == self@.cancel,
    {
        self.progress.cancel
    }

    /// The number of tests that run.
    pub fn running(&self) -> (count: usize)
        ensures
            count == self@.running,
            count <= self@.concurrency,
    {
        proof {
            use_type_invariant(self);
        }
        self.progress.running
    }

    /// The number of setup scripts that run: one or none.
    pub fn setup_scripts_running(&self) -> (count: usize)
        ensures
            count == one_if(self@.script_running),
    {
        if self.progress.script_running {
            1
        } else {
            0
        }
    }

    /// The event that `test_instance` has started. It is made once the
    /// dispatcher has decided to start the test, which then counts among the
    /// tests that run.
    pub fn test_started_event<'a>(&self, test_instance: TestInstance<'a>) -> (event: TestEventKind<
        'a,
    >)
        ensures
            event matches TestEventKind::TestStarted {
                test_instance: started,
                current_stats,
                running,
                cancel_state,
            } && started == test_instance && current_stats@ == self@.stats && running
                == self@.running && cancel_state == self@.cancel,
    {
        TestEventKind::TestStarted {
            test_instance,
            current_stats: self.progress.stats,
            running: self.progress.running,
            cancel_state: self.progress.cancel,
        }
    }

    /// The event that `test_instance` has finished with `run_statuses`. It
    /// is made once the dispatcher has taken note of the outcome: the test
    /// is counted in the tallies and no longer among the tests that run.
    pub fn test_finished_event<'a>(
        &self,
        test_instance: TestInstance<'a>,
        success_output: TestOutputDisplay,
        failure_output: TestOutputDisplay,
        junit_store_success_output: bool,
        junit_store_failure_output: bool,
        run_statuses: ExecutionStatuses,
    ) -> (event: TestEventKind<'a>)
        ensures
            event matches TestEventKind::TestFinished {
                test_instance: finished,
                success_output: on_success,
                failure_output: on_failure,
                junit_store_success_output: store_success,
                junit_store_failure_output: store_failure,
                run_statuses: statuses,
                current_stats,
                running,
                cancel_state,
            } && finished == test_instance && on_success == success_output && on_failure
                == failure_output && store_success == junit_store_success_output && store_failure
                == junit_store_failure_output && statuses == run_statuses && current_stats@
                == self@.stats && running == self@.running && cancel_state == self@.cancel,
    {
        TestEventKind::TestFinished {
            test_instance,
            success_output,
            failure_output,
            junit_store_success_output,
            junit_store_failure_output,
            run_statuses,
            current_stats: self.progress.stats,
            running: self.progress.running,
            cancel_state: self.progress.cancel,
        }
    }

    /// The event that the run begins to be cancelled, if it is cancelled:
    /// with the reason that stands and the units that still run.
    pub fn begin_cancel_event(&self) -> (event: Option<TestEventKind<'static>>)
        ensures
            match self@.cancel {
                Some(reason) => event == Some(
                    TestEventKind::RunBeginCancel {
                        setup_scripts_running: one_if(self@.script_running) as usize,
                        running: self@.running as usize,
                        reason,
                    },
                ),
                None => event is None,
            },
    {
        proof {
            use_type_invariant(self);
        }
        match self.progress.cancel {
            Some(reason) => Some(
                TestEventKind::RunBeginCancel {
                    setup_scripts_running: self.setup_scripts_running(),
                    running: self.progress.running,
                    reason,
                },
            ),
            None => None,
        }
    }

    /// The event that the run is paused, with the units that run.
    pub fn paused_event(&self) -> (event: TestEventKind<'static>)
        ensures
            event == (TestEventKind::RunPaused {
                setup_scripts_running: one_if(self@.script_running) as usize,
                running: self@.running as usize,
            }),
    {
        proof {
            use_type_invariant(self);
        }
        TestEventKind::RunPaused {
            setup_scripts_running: self.setup_scripts_running(),
            running: self.progress.running,
        }
    }

    /// The event that the run continues, with the units that go on.
    pub fn continued_event(&self) -> (event: TestEventKind<'static>)
        ensures
            event == (TestEventKind::RunContinued {
                setup_scripts_running: one_if(self@.script_running) as usize,
                running: self@.running as usize,
            }),
    {
        proof {
            use_type_invariant(self);
        }
        TestEventKind::RunContinued {
            setup_scripts_running: self.setup_scripts_running(),
            running: self.progress.running,
        }
    }

    /// The event that the run is over, with its tallies.
    pub fn run_finished_event(&self, run_id: RunId, start_time: Timestamp, elapsed: Duration)
        -> (event: TestEventKind<'static>)
        ensures
            event matches TestEventKind::RunFinished {
                run_id: id,
                start_time: started,
                elapsed: taken,
                run_stats,
            } && id == run_id && started == start_time && taken == elapsed && run_stats@
                == self@.stats,
    {
        TestEventKind::RunFinished {
            run_id,
            start_time,
            elapsed,
            run_stats: self.progress.stats,
        }
    }
}

} // verus!
