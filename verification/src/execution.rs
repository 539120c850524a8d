//! What running one unit, a test attempt or a setup script, comes to.

use crate::env_file::{SetupScriptEnvMap, SetupScriptOutputError};
use std::time::Duration;
use vstd::prelude::*;

verus! {

/// `Duration::clone` of std: a `Duration` is `Copy`, and its clone is the
/// same length of time.
pub assume_specification[ <Duration as Clone>::clone ](duration: &Duration) -> (copy: Duration)
    ensures
        copy == *duration,
;

/// How the execution of one unit ended.
#[derive(Copy, Clone, Debug, PartialEq, Eq, Structural)]
pub enum ExecutionResult {
    /// The unit passed.
    Pass,
    /// The unit passed but left handles open past the grace window.
    Leak,
    /// The unit failed.
    Fail {
        /// The signal that ended the process, if one did.
        signal: Option<i32>,
        /// The exit code of the process, if it exited with one.
        code: Option<i32>,
    },
    /// The process could not be started.
    ExecFail,
    /// The unit ran past its time limit and was terminated.
    Timeout,
}

impl ExecutionResult {
    /// A pass, leaky or not.
    pub open spec fn spec_is_success(self) -> bool {
        self is Pass || self is Leak
    }

    /// Returns true if the unit passed, leaky or not.
    #[verifier::when_used_as_spec(spec_is_success)]
    pub fn is_success(self) -> (success: bool)
        ensures
            success == self.spec_is_success(),
    {
        match self {
            ExecutionResult::Pass | ExecutionResult::Leak => true,
            ExecutionResult::Fail { .. } | ExecutionResult::ExecFail | ExecutionResult::Timeout => {
                false
            },
        }
    }
}

/// Which attempt of a test this is, of how many at most. Attempt 1 is the
/// initial run.
#[derive(Copy, Clone, Debug, PartialEq, Eq, Structural)]
pub struct RetryData {
    /// The current attempt, from 1 on.
    pub attempt: usize,
    /// The number of attempts that the test is given at most.
    pub total_attempts: usize,
}

impl RetryData {
    /// No attempt follows this one.
    pub open spec fn spec_is_last_attempt(&self) -> bool {
        self.attempt >= self.total_attempts
    }

    /// Returns true if no attempt follows this one.
    #[verifier::when_used_as_spec(spec_is_last_attempt)]
    pub fn is_last_attempt(&self) -> (last: bool)
        ensures
            last == self.spec_is_last_attempt(),
    {
        self.attempt >= self.total_attempts
    }
}

/// A moment on the wall clock, with the offset from UTC that it was taken
/// at. It is carried through for consumers of events and decides nothing.
#[derive(Copy, Clone, Debug, PartialEq, Eq, Structural)]
pub struct Timestamp {
    /// Seconds since the Unix epoch.
    pub unix_seconds: i64,
    /// Nanoseconds into the second.
    pub subsec_nanos: u32,
    /// The local offset east of UTC, in seconds.
    pub utc_offset_seconds: i32,
}

/// What was captured of a child process.
#[derive(Clone, Debug, PartialEq, Eq)]
pub enum ChildExecutionOutput {
    /// The process was started.
    Output {
        /// What the process wrote to standard output, unless it was passed
        /// through.
        stdout: Option<Vec<u8>>,
        /// What the process wrote to standard error, unless it was passed
        /// through.
        stderr: Option<Vec<u8>>,
        /// True if output was dropped because a buffer reached its cap.
        truncated: bool,
    },
    /// The process could not be started.
    StartError {
        /// What the operating system reported.
        message: String,
    },
}

/// The outcome of one attempt to run a test.
#[derive(Debug)]
pub struct ExecuteStatus {
    /// Which attempt this was.
    pub retry_data: RetryData,
    /// What was captured of the process.
    pub output: ChildExecutionOutput,
    /// How the attempt ended.
    pub result: ExecutionResult,
    /// When the attempt started.
    pub start_time: Timestamp,
    /// How long the attempt ran.
    pub time_taken: Duration,
    /// Whether the attempt ran past the slow threshold.
    pub is_slow: bool,
    /// How long was waited before the attempt started.
    pub delay_before_start: Duration,
}

impl Clone for ExecuteStatus {
    fn clone(&self) -> (copy: Self)
        ensures
            copy.retry_data == self.retry_data,
            copy.result == self.result,
            copy.start_time == self.start_time,
            copy.time_taken == self.time_taken,
            copy.is_slow == self.is_slow,
            copy.delay_before_start == self.delay_before_start,
    {
        ExecuteStatus {
            retry_data: self.retry_data,
            output: self.output.clone(),
            result: self.result,
            start_time: self.start_time,
            time_taken: self.time_taken,
            is_slow: self.is_slow,
            delay_before_start: self.delay_before_start,
        }
    }
}

/// The outcome of running a setup script.
#[derive(Clone, Debug)]
pub struct SetupScriptExecuteStatus {
    /// What was captured of the process.
    pub output: ChildExecutionOutput,
    /// How the script ended.
    pub result: ExecutionResult,
    /// When the script started.
    pub start_time: Timestamp,
    /// How long the script ran.
    pub time_taken: Duration,
    /// Whether the script ran past the slow threshold.
    pub is_slow: bool,
    /// The environment that the script exported, where it was asked for one
    /// and its file was read.
    pub env_map: Option<SetupScriptEnvMap>,
}

/// How a setup script ended that exited with `result`, given what reading
/// its environment file came to, if it was to write one: a file that was
/// refused makes the script a failure, whatever its exit code.
pub open spec fn spec_setup_script_result(
    result: ExecutionResult,
    parsed: Option<Result<SetupScriptEnvMap, SetupScriptOutputError>>,
) -> ExecutionResult {
    match parsed {
        Some(Err(_)) => ExecutionResult::Fail { signal: None, code: None },
        _ => result,
    }
}

/// Decides how a setup script ended that exited with `result`, and what it
/// exports. A script whose environment file was refused has failed,
/// whatever its exit code. A script exports what its file sets if the file
/// was read and the script passed, and nothing otherwise.
pub fn conclude_setup_script(
    result: ExecutionResult,
    parsed: Option<Result<SetupScriptEnvMap, SetupScriptOutputError>>,
) -> (outcome: (ExecutionResult, Option<SetupScriptEnvMap>))
    ensures
        outcome.0 == spec_setup_script_result(result, parsed),
        outcome.1 == match parsed {
            Some(Ok(env_map)) if result.is_success() => Some(env_map),
            _ => None,
        },
{
    match parsed {
        Some(Err(_)) => (ExecutionResult::Fail { signal: None, code: None }, None),
        Some(Ok(env_map)) => if result.is_success() {
            (result, Some(env_map))
        } else {
            (result, None)
        },
        None => (result, None),
    }
}

/// The attempts of one test are in order: there is at least one, and every
/// attempt but the last failed, since only a failure is retried.
pub open spec fn valid_attempts(attempts: Seq<ExecuteStatus>) -> bool {
    &&& attempts.len() >= 1
    &&& forall|i: int| 0 <= i < attempts.len() - 1 ==> !(#[trigger] attempts[i]).result.is_success()
}

/// Some attempt failed and a later one passed.
pub open spec fn failed_then_passed(attempts: Seq<ExecuteStatus>) -> bool {
    exists|i: int, j: int|
        0 <= i < j < attempts.len() && !(#[trigger] attempts[i]).result.is_success()
            && (#[trigger] attempts[j]).result.is_success()
}

/// All the attempts of one test, in order.
#[derive(Debug)]
pub struct ExecutionStatuses {
    statuses: Vec<ExecuteStatus>,
}

impl View for ExecutionStatuses {
    type V = Seq<ExecuteStatus>;

    closed spec fn view(&self) -> Seq<ExecuteStatus> {
        self.statuses@
    }
}

impl Clone for ExecutionStatuses {
    fn clone(&self) -> (copy: Self)
        ensures
            copy@.len() == self@.len(),
            forall|i: int|
                0 <= i < self@.len() ==> (#[trigger] copy@[i]).result == self@[i].result
                    && copy@[i].is_slow == self@[i].is_slow && copy@[i].retry_data
                    == self@[i].retry_data,
    {
        proof {
            use_type_invariant(self);
        }
        let mut statuses: Vec<ExecuteStatus> = Vec::new();
        let mut at: usize = 0;
        while at < self.statuses.len()
            invariant
                at <= self.statuses.len(),
                statuses@.len() == at,
                forall|i: int|
                    0 <= i < at ==> (#[trigger] statuses@[i]).result == self.statuses@[i].result
                        && statuses@[i].is_slow == self.statuses@[i].is_slow
                        && statuses@[i].retry_data == self.statuses@[i].retry_data,
            decreases self.statuses.len() - at,
        {
            statuses.push(self.statuses[at].clone());
            at = at + 1;
        }
        assert forall|i: int| 0 <= i < statuses@.len() - 1 implies !(
        #[trigger] statuses@[i]).result.is_success() by {
            assert(!self.statuses@[i].result.is_success());
        }
        ExecutionStatuses { statuses }
    }
}

impl ExecutionStatuses {
    #[verifier::type_invariant]
    spec fn well_formed(&self) -> bool {
        valid_attempts(self.statuses@)
    }

    /// Takes the attempts of one test, if they are in order: `Some` exactly
    /// when there is at least one and every attempt but the last failed.
    pub fn new(statuses: Vec<ExecuteStatus>) -> (made: Option<Self>)
        ensures
            made is Some <==> valid_attempts(statuses@),
            made matches Some(run) ==> run@ == statuses@,
    {
        if statuses.len() == 0 {
            return None;
        }
        let mut at: usize = 0;
        while at < statuses.len() - 1
            invariant
                statuses.len() >= 1,
                at <= statuses.len() - 1,
                forall|i: int| 0 <= i < at ==> !(#[trigger] statuses@[i]).result.is_success(),
            decreases statuses.len() - at,
        {
            if statuses[at].result.is_success() {
                return None;
            }
            at = at + 1;
        }
        Some(ExecutionStatuses { statuses })
    }

    /// The number of attempts, which is at least one.
    pub fn len(&self) -> (count: usize)
        ensures
            count == self@.len(),
            count >= 1,
            valid_attempts(self@),
    {
        proof {
            use_type_invariant(self);
        }
        self.statuses.len()
    }

    /// The last attempt, which decides the outcome of the test.
    pub fn last_status(&self) -> (last: &ExecuteStatus)
        ensures
            self@.len() >= 1,
            *last == self@.last(),
    {
        proof {
            use_type_invariant(self);
        }
        &self.statuses[self.statuses.len() - 1]
    }

    /// The attempt at `index`, counted from 0.
    pub fn get(&self, index: usize) -> (status: Option<&ExecuteStatus>)
        ensures
            match status {
                Some(status) => index < self@.len() && *status == self@[index as int],
                None => index >= self@.len(),
            },
    {
        if index < self.statuses.len() {
            Some(&self.statuses[index])
        } else {
            None
        }
    }

    /// Returns true if the test passed only on a retry.
    pub fn is_flaky(&self) -> (flaky: bool)
        ensures
            flaky == (self@.len() > 1 && self@.last().result.is_success()),
            flaky == failed_then_passed(self@),
    {
        proof {
            use_type_invariant(self);
            lemma_flaky_attempts(self@);
        }
        self.statuses.len() > 1 && self.statuses[self.statuses.len() - 1].result.is_success()
    }
}

/// Among attempts in order, a failure is followed by a pass exactly when
/// there was more than one attempt and the last passed.
pub proof fn lemma_flaky_attempts(attempts: Seq<ExecuteStatus>)
    requires
        valid_attempts(attempts),
    ensures
        failed_then_passed(attempts) <==> (attempts.len() > 1
            && attempts.last().result.is_success()),
{
    if attempts.len() > 1 && attempts.last().result.is_success() {
        let i = attempts.len() - 2;
        let j = attempts.len() - 1;
        assert(!attempts[i].result.is_success() && attempts[j].result.is_success());
    }
    if failed_then_passed(attempts) {
        let (i, j) = choose|i: int, j: int|
            0 <= i < j < attempts.len() && !(#[trigger] attempts[i]).result.is_success()
                && (#[trigger] attempts[j]).result.is_success();
        assert(j == attempts.len() - 1);
    }
}

} // verus!
