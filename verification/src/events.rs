//! What the runner reports about the units it runs: the state that a unit is
//! in, and the answers to a request for information.

use crate::cancel::CancelReason;
use crate::execution::{
    ChildExecutionOutput, ExecuteStatus, ExecutionResult, ExecutionStatuses, RetryData,
    SetupScriptExecuteStatus, Timestamp,
};
use crate::run_stats::RunStats;
use crate::test_list::{MismatchReason, TestInstance, TestList};
use std::time::Duration;
use vstd::prelude::*;

verus! {

/// The message shown while waiting on a test process.
pub const WAITING_ON_TEST_MESSAGE: &'static str = "waiting on test process";

/// The message shown while waiting on a script process.
pub const WAITING_ON_SCRIPT_MESSAGE: &'static str = "waiting on script process";

/// The message shown while a test executes.
pub const EXECUTING_TEST_MESSAGE: &'static str = "executing test";

/// The message shown while a script executes.
pub const EXECUTING_SCRIPT_MESSAGE: &'static str = "executing script";

/// The kind of unit of work that nextest is executing.
#[derive(Copy, Clone, Debug, PartialEq, Eq, Structural)]
pub enum UnitKind {
    /// A test.
    Test,
    /// A script (e.g. a setup script).
    Script,
}

impl UnitKind {
    /// The message shown while waiting on a process of this kind.
    pub open spec fn spec_waiting_on_message(&self) -> Seq<char> {
        match self {
            UnitKind::Test => WAITING_ON_TEST_MESSAGE@,
            UnitKind::Script => WAITING_ON_SCRIPT_MESSAGE@,
        }
    }

    /// The message shown while a unit of this kind executes.
    pub open spec fn spec_executing_message(&self) -> Seq<char> {
        match self {
            UnitKind::Test => EXECUTING_TEST_MESSAGE@,
            UnitKind::Script => EXECUTING_SCRIPT_MESSAGE@,
        }
    }

    /// What the kind reads as.
    pub open spec fn spec_to_string(&self) -> Seq<char> {
        match self {
            UnitKind::Script => "script"@,
            UnitKind::Test => "test"@,
        }
    }

    /// Returns the message shown while waiting on a process of this kind.
    pub fn waiting_on_message(&self) -> (message: &'static str)
        ensures
            message@ == self.spec_waiting_on_message(),
    {
        match self {
            UnitKind::Test => WAITING_ON_TEST_MESSAGE,
            UnitKind::Script => WAITING_ON_SCRIPT_MESSAGE,
        }
    }

    /// Returns the message shown while a unit of this kind executes.
    pub fn executing_message(&self) -> (message: &'static str)
        ensures
            message@ == self.spec_executing_message(),
    {
        match self {
            UnitKind::Test => EXECUTING_TEST_MESSAGE,
            UnitKind::Script => EXECUTING_SCRIPT_MESSAGE,
        }
    }

    /// Returns what the kind reads as: `script` or `test`.
    pub fn to_string(&self) -> (text: String)
        ensures
            text@ == self.spec_to_string(),
    {
        match self {
            UnitKind::Script => "script".to_owned(),
            UnitKind::Test => "test".to_owned(),
        }
    }
}

/// The reason for a script or test being forcibly terminated by nextest.
///
/// Part of information response requests.
#[derive(Copy, Clone, Debug, PartialEq, Eq, Structural)]
pub enum UnitTerminateReason {
    /// The unit is being terminated due to a test timeout being hit.
    Timeout,
    /// The unit is being terminated due to nextest receiving a signal.
    Signal,
    /// The unit is being terminated due to an interrupt (i.e. Ctrl-C).
    Interrupt,
}

impl UnitTerminateReason {
    /// What the reason reads as.
    pub open spec fn spec_to_string(&self) -> Seq<char> {
        match self {
            UnitTerminateReason::Timeout => "timeout"@,
            UnitTerminateReason::Signal => "signal"@,
            UnitTerminateReason::Interrupt => "interrupt"@,
        }
    }

    /// Returns what the reason reads as: `timeout`, `signal` or `interrupt`.
    pub fn to_string(&self) -> (text: String)
        ensures
            text@ == self.spec_to_string(),
    {
        match self {
            UnitTerminateReason::Timeout => "timeout".to_owned(),
            UnitTerminateReason::Signal => "signal".to_owned(),
            UnitTerminateReason::Interrupt => "interrupt".to_owned(),
        }
    }
}

/// The signal that is or was sent to terminate a script or test.
#[derive(Copy, Clone, Debug, PartialEq, Eq, Structural)]
pub enum UnitTerminateSignal {
    /// The unit is being terminated by sending a SIGINT.
    Interrupt,
    /// The unit is being terminated by sending a SIGTERM signal.
    Term,
    /// The unit is being terminated by sending a SIGHUP signal.
    Hangup,
    /// The unit is being terminated by sending a SIGQUIT signal.
    Quit,
    /// The unit is being terminated by sending a SIGKILL signal.
    Kill,
}

impl UnitTerminateSignal {
    /// The name of the signal.
    pub open spec fn spec_to_string(&self) -> Seq<char> {
        match self {
            UnitTerminateSignal::Interrupt => "SIGINT"@,
            UnitTerminateSignal::Term => "SIGTERM"@,
            UnitTerminateSignal::Hangup => "SIGHUP"@,
            UnitTerminateSignal::Quit => "SIGQUIT"@,
            UnitTerminateSignal::Kill => "SIGKILL"@,
        }
    }

    /// Returns the name of the signal.
    pub fn to_string(&self) -> (text: String)
        ensures
            text@ == self.spec_to_string(),
    {
        match self {
            UnitTerminateSignal::Interrupt => "SIGINT".to_owned(),
            UnitTerminateSignal::Term => "SIGTERM".to_owned(),
            UnitTerminateSignal::Hangup => "SIGHUP".to_owned(),
            UnitTerminateSignal::Quit => "SIGQUIT".to_owned(),
            UnitTerminateSignal::Kill => "SIGKILL".to_owned(),
        }
    }
}

/// The way in which a script or test is being forcibly terminated by nextest.
#[derive(Copy, Clone, Debug, PartialEq, Eq, Structural)]
pub enum UnitTerminateMethod {
    /// The unit is being terminated by sending a signal to its process group.
    Signal(UnitTerminateSignal),
    /// The unit is being terminated by terminating its job object, where the
    /// platform has job objects in place of process groups.
    JobObject,
    /// A method that terminates nothing, for runs against a stand-in for the
    /// process spawner.
    Fake,
}

/// The current terminating state of a test or script process.
///
/// Part of [`UnitState::Terminating`].
#[derive(Clone, Debug)]
pub struct UnitTerminatingState {
    /// The process ID.
    pub pid: u32,
    /// The amount of time the unit ran for.
    pub time_taken: Duration,
    /// The reason for the termination.
    pub reason: UnitTerminateReason,
    /// The method by which the process is being terminated.
    pub method: UnitTerminateMethod,
    /// How long has been spent waiting for the process to exit.
    pub waiting_duration: Duration,
    /// How much longer nextest will wait until a kill command is sent to the process.
    pub remaining: Duration,
}

/// The current state of a test or script process: running, exiting, or
/// terminating.
///
/// Part of information response requests.
#[derive(Clone, Debug)]
pub enum UnitState {
    /// The unit is currently running.
    Running {
        /// The process ID.
        pid: u32,
        /// The amount of time the unit has been running.
        time_taken: Duration,
        /// `Some` if the test is marked as slow, along with the duration after
        /// which it was marked as slow.
        slow_after: Option<Duration>,
    },
    /// The test has finished running, and is currently in the process of
    /// exiting.
    Exiting {
        /// The process ID.
        pid: u32,
        /// The amount of time the unit ran for.
        time_taken: Duration,
        /// `Some` if the unit is marked as slow, along with the duration after
        /// which it was marked as slow.
        slow_after: Option<Duration>,
        /// The tentative execution result before leaked status is determined.
        ///
        /// None means that the exit status could not be read, and should be
        /// treated as a failure.
        tentative_result: Option<ExecutionResult>,
        /// How long has been spent waiting for the process to exit.
        waiting_duration: Duration,
        /// How much longer nextest will wait until the test is marked leaky.
        remaining: Duration,
    },
    /// The child process is being terminated by nextest.
    Terminating(UnitTerminatingState),
    /// The unit has finished running and the process has exited.
    Exited {
        /// The result of executing the unit.
        result: ExecutionResult,
        /// The amount of time the unit ran for.
        time_taken: Duration,
        /// `Some` if the unit is marked as slow, along with the duration after
        /// which it was marked as slow.
        slow_after: Option<Duration>,
    },
    /// A delay is being waited out before the next attempt of the test is
    /// started. (Only relevant for tests.)
    DelayBeforeNextAttempt {
        /// The previous execution result.
        previous_result: ExecutionResult,
        /// Whether the previous attempt was marked as slow.
        previous_slow: bool,
        /// How long has been spent waiting so far.
        waiting_duration: Duration,
        /// How much longer nextest will wait until retrying the test.
        remaining: Duration,
    },
}

impl UnitState {
    /// A process stands behind the state, so that output is attached to it:
    /// every state but the wait between two attempts.
    pub open spec fn spec_has_valid_output(&self) -> bool {
        !(*self is DelayBeforeNextAttempt)
    }

    /// Returns true if the state has a valid output attached to it.
    #[verifier::when_used_as_spec(spec_has_valid_output)]
    pub fn has_valid_output(&self) -> (valid: bool)
        ensures
            valid == self.spec_has_valid_output(),
    {
        match self {
            UnitState::Running { .. }
            | UnitState::Exiting { .. }
            | UnitState::Terminating(_)
            | UnitState::Exited { .. } => true,
            UnitState::DelayBeforeNextAttempt { .. } => false,
        }
    }
}

/// The identifier of a setup script.
#[derive(Clone, Debug, PartialEq, Eq)]
pub struct ScriptId(pub String);

/// A test instance by its names: the binary it is in and the test's name.
#[derive(Copy, Clone, Debug, PartialEq, Eq)]
pub struct TestInstanceId<'a> {
    /// The binary ID.
    pub binary_id: &'a str,
    /// The name of the test.
    pub test_name: &'a str,
}

/// A setup script's response to an information request.
#[derive(Clone, Debug)]
pub struct SetupScriptInfoResponse<'a> {
    /// The identifier of the setup script instance.
    pub script_id: ScriptId,
    /// The command to run.
    pub command: &'a str,
    /// The list of arguments to the command.
    pub args: &'a [String],
    /// The state of the setup script.
    pub state: UnitState,
    /// Output obtained from the setup script.
    pub output: ChildExecutionOutput,
}

/// A test's response to an information request.
#[derive(Clone, Debug)]
pub struct TestInfoResponse<'a> {
    /// The test instance that the information is about.
    pub test_instance: TestInstanceId<'a>,
    /// Information about retries.
    pub retry_data: RetryData,
    /// The state of the test.
    pub state: UnitState,
    /// Output obtained from the test.
    pub output: ChildExecutionOutput,
}

/// A response to an information request.
#[derive(Clone, Debug)]
pub enum InfoResponse<'a> {
    /// A setup script's response.
    SetupScript(SetupScriptInfoResponse<'a>),
    /// A test's response.
    Test(TestInfoResponse<'a>),
}


/// When the output of a test is shown.
#[derive(Copy, Clone, Debug, PartialEq, Eq, Structural)]
pub enum TestOutputDisplay {
    /// As soon as the test has finished.
    Immediate,
    /// As soon as the test has finished, and once more at the end of the run.
    ImmediateFinal,
    /// At the end of the run.
    Final,
    /// Never.
    Never,
}

impl TestOutputDisplay {
    /// The output is shown as soon as the test has finished.
    pub open spec fn spec_is_immediate(self) -> bool {
        self is Immediate || self is ImmediateFinal
    }

    /// The output is shown at the end of the run.
    pub open spec fn spec_is_final(self) -> bool {
        self is Final || self is ImmediateFinal
    }

    /// Returns true if the output is shown as soon as the test has finished.
    #[verifier::when_used_as_spec(spec_is_immediate)]
    pub fn is_immediate(self) -> (immediate: bool)
        ensures
            immediate == self.spec_is_immediate(),
    {
        match self {
            TestOutputDisplay::Immediate | TestOutputDisplay::ImmediateFinal => true,
            TestOutputDisplay::Final | TestOutputDisplay::Never => false,
        }
    }

    /// Returns true if the output is shown at the end of the run.
    #[verifier::when_used_as_spec(spec_is_final)]
    pub fn is_final(self) -> (at_end: bool)
        ensures
            at_end == self.spec_is_final(),
    {
        match self {
            TestOutputDisplay::Final | TestOutputDisplay::ImmediateFinal => true,
            TestOutputDisplay::Immediate | TestOutputDisplay::Never => false,
        }
    }
}

/// The identifier of a run: the 128 bits of a UUID.
#[derive(Copy, Clone, Debug, PartialEq, Eq, Structural)]
pub struct RunId(pub u128);

/// A test event.
///
/// Events are produced by the runner and consumed by a reporter. Each event
/// stands for itself: a consumer need not remember the events before it.
#[derive(Clone, Debug)]
pub struct TestEvent<'a> {
    /// The time at which the event was generated, including the offset from UTC.
    pub timestamp: Timestamp,
    /// The amount of time elapsed since the start of the test run.
    pub elapsed: Duration,
    /// The kind of test event this is.
    pub kind: TestEventKind<'a>,
}

/// The kind of test event this is.
///
/// Forms part of [`TestEvent`].
#[derive(Clone, Debug)]
#[allow(inconsistent_fields)]
pub enum TestEventKind<'a> {
    /// The test run started.
    RunStarted {
        /// The list of tests that will be run.
        test_list: &'a TestList,
        /// The UUID for this run.
        run_id: RunId,
        /// The nextest profile chosen for this run.
        profile_name: String,
        /// The command-line arguments for the process.
        cli_args: Vec<String>,
    },
    /// A setup script started.
    SetupScriptStarted {
        /// The setup script index.
        index: usize,
        /// The total number of setup scripts.
        total: usize,
        /// The script ID.
        script_id: ScriptId,
        /// The command to run.
        command: &'a str,
        /// The arguments to the command.
        args: &'a [String],
        /// True if some output from the setup script is being passed through.
        no_capture: bool,
    },
    /// A setup script was slow.
    SetupScriptSlow {
        /// The script ID.
        script_id: ScriptId,
        /// The command to run.
        command: &'a str,
        /// The arguments to the command.
        args: &'a [String],
        /// The amount of time elapsed since the start of execution.
        elapsed: Duration,
        /// True if the script has hit its timeout and is about to be terminated.
        will_terminate: bool,
    },
    /// A setup script completed execution.
    SetupScriptFinished {
        /// The setup script index.
        index: usize,
        /// The total number of setup scripts.
        total: usize,
        /// The script ID.
        script_id: ScriptId,
        /// The command to run.
        command: &'a str,
        /// The arguments to the command.
        args: &'a [String],
        /// True if some output from the setup script was passed through.
        no_capture: bool,
        /// The execution status of the setup script.
        run_status: SetupScriptExecuteStatus,
    },
    /// A test started running.
    TestStarted {
        /// The test instance that was started.
        test_instance: TestInstance<'a>,
        /// Current run statistics so far.
        current_stats: RunStats,
        /// The number of tests currently running, including this one.
        running: usize,
        /// The cancel status of the run. This is None if the run is still ongoing.
        cancel_state: Option<CancelReason>,
    },
    /// A test was slower than a configured soft timeout.
    TestSlow {
        /// The test instance that was slow.
        test_instance: TestInstance<'a>,
        /// Retry data.
        retry_data: RetryData,
        /// The amount of time that has elapsed since the beginning of the test.
        elapsed: Duration,
        /// True if the test has hit its timeout and is about to be terminated.
        will_terminate: bool,
    },
    /// A test attempt failed and will be retried in the future.
    ///
    /// This event does not occur on the final run of a failing test.
    TestAttemptFailedWillRetry {
        /// The test instance that is being retried.
        test_instance: TestInstance<'a>,
        /// The status of this attempt to run the test. Will never be success.
        run_status: ExecuteStatus,
        /// The delay before the next attempt to run the test.
        delay_before_next_attempt: Duration,
        /// Whether failure outputs are printed out.
        failure_output: TestOutputDisplay,
    },
    /// A retry has started.
    TestRetryStarted {
        /// The test instance that is being retried.
        test_instance: TestInstance<'a>,
        /// Data related to retries.
        retry_data: RetryData,
    },
    /// A test finished running.
    TestFinished {
        /// The test instance that finished running.
        test_instance: TestInstance<'a>,
        /// Test setting for success output.
        success_output: TestOutputDisplay,
        /// Test setting for failure output.
        failure_output: TestOutputDisplay,
        /// Whether the JUnit report should store success output for this test.
        junit_store_success_output: bool,
        /// Whether the JUnit report should store failure output for this test.
        junit_store_failure_output: bool,
        /// Information about all the runs for this test.
        run_statuses: ExecutionStatuses,
        /// Current statistics for number of tests so far.
        current_stats: RunStats,
        /// The number of tests that are currently running, excluding this one.
        running: usize,
        /// The cancel status of the run. This is None if the run is still ongoing.
        cancel_state: Option<CancelReason>,
    },
    /// A test was skipped.
    TestSkipped {
        /// The test instance that was skipped.
        test_instance: TestInstance<'a>,
        /// The reason this test was skipped.
        reason: MismatchReason,
    },
    /// An information request was received.
    InfoStarted {
        /// The number of tasks currently running. This is the same as the
        /// number of expected responses.
        total: usize,
        /// Statistics for the run.
        run_stats: RunStats,
    },
    /// Information about a script or test was received.
    InfoResponse {
        /// The index of the response, starting from 0.
        index: usize,
        /// The total number of responses expected.
        total: usize,
        /// The response itself.
        response: InfoResponse<'a>,
    },
    /// An information request was completed.
    InfoFinished {
        /// The number of responses that were not received. In most cases, this
        /// is 0.
        missing: usize,
    },
    /// A cancellation notice was received.
    RunBeginCancel {
        /// The number of setup scripts still running.
        setup_scripts_running: usize,
        /// The number of tests still running.
        running: usize,
        /// The reason this run was cancelled.
        reason: CancelReason,
    },
    /// A SIGTSTP event was received and the run was paused.
    RunPaused {
        /// The number of setup scripts running.
        setup_scripts_running: usize,
        /// The number of tests currently running.
        running: usize,
    },
    /// A SIGCONT event was received and the run is being continued.
    RunContinued {
        /// The number of setup scripts that will be started up again.
        setup_scripts_running: usize,
        /// The number of tests that will be started up again.
        running: usize,
    },
    /// The test run finished.
    RunFinished {
        /// The unique ID for this run.
        run_id: RunId,
        /// The time at which the run was started.
        start_time: Timestamp,
        /// The amount of time it took for the tests to run.
        elapsed: Duration,
        /// Statistics for the run.
        run_stats: RunStats,
    },
}


/// The number of units that were asked for information and did not answer.
pub open spec fn spec_info_missing(total: usize, received: nat) -> usize {
    if received <= total {
        (total - received) as usize
    } else {
        0
    }
}

/// The events that answer a request for information about `total` units of
/// which those of `responses` answered: the start of the answer, every
/// response with its place among them, and the end of the answer with the
/// number of units that did not answer.
pub open spec fn spec_info_events<'a>(
    total: usize,
    run_stats: RunStats,
    responses: Seq<InfoResponse<'a>>,
) -> Seq<TestEventKind<'a>> {
    seq![TestEventKind::InfoStarted { total, run_stats }] + Seq::new(
        responses.len(),
        |i: int| TestEventKind::InfoResponse { index: i as usize, total, response: responses[i] },
    ) + seq![
        TestEventKind::InfoFinished { missing: spec_info_missing(total, responses.len()) },
    ]
}

/// Makes the events that answer a request for information about `total`
/// units, of which those of `responses` answered in this order.
pub fn info_events<'a>(total: usize, run_stats: RunStats, responses: Vec<InfoResponse<'a>>)
    -> (events: Vec<TestEventKind<'a>>)
    ensures
        events@ == spec_info_events(total, run_stats, responses@),
{
    let received = responses.len();
    let mut events: Vec<TestEventKind<'a>> = Vec::new();
    events.push(TestEventKind::InfoStarted { total, run_stats });
    let mut index: usize = 0;
    for response in answers: responses
        invariant
            index == answers.index(),
            received == answers.seq().len(),
            events@ =~= seq![TestEventKind::InfoStarted { total, run_stats }] + Seq::new(
                index as nat,
                |i: int|
                    TestEventKind::InfoResponse {
                        index: i as usize,
                        total,
                        response: answers.seq()[i],
                    },
            ),
    {
        events.push(TestEventKind::InfoResponse { index, total, response });
        index = index + 1;
    }
    let missing = if received <= total {
        total - received
    } else {
        0
    };
    events.push(TestEventKind::InfoFinished { missing });
    events
}

} // verus!
