//! The life of one unit, a test with its attempts or a setup script, as a
//! state machine.
//!
//! The machine decides; it starts no process and keeps no time. Whoever
//! drives it hands it each event together with a reading of the unit's
//! clocks, performs what the event calls for, and passes on the report that
//! the machine makes of it.
//!
//! A unit runs, then waits for its output to close, then has exited. A unit
//! that runs too long, or that is caught by a signal or an interrupt, is
//! terminated before it has exited. A test whose attempt failed waits and
//! runs again while attempts remain and the run is not cancelled.

use crate::cancel::{escalate, spec_escalate, CancelReason};
use crate::events::{
    UnitKind, UnitState, UnitTerminateMethod, UnitTerminateReason, UnitTerminatingState,
};
use crate::execution::{ExecutionResult, RetryData};
use crate::policy::RunPolicy;
use std::time::Duration;
use vstd::prelude::*;

verus! {

/// A reading of the clocks of a unit.
#[derive(Copy, Clone, Debug)]
pub struct UnitClock {
    /// How long the unit has run, or ran, in its current attempt.
    pub time_taken: Duration,
    /// How long the wait that the unit is in has lasted.
    pub waiting_duration: Duration,
    /// How much of the wait that the unit is in is left.
    pub remaining: Duration,
}

/// Where a unit is in its life, with what decides how it goes on.
#[derive(Copy, Clone, Debug, PartialEq, Eq, Structural)]
pub enum UnitPhase {
    /// The process runs.
    Running,
    /// The process has exited and its output is still open.
    Exiting {
        /// How the attempt ended, unless it turns out to have leaked. `None`
        /// where the exit status could not be read.
        tentative_result: Option<ExecutionResult>,
    },
    /// The process is being terminated.
    Terminating {
        /// Why the process is terminated.
        reason: UnitTerminateReason,
        /// How the process is terminated.
        method: UnitTerminateMethod,
    },
    /// The process has exited.
    Exited {
        /// How the attempt ended.
        result: ExecutionResult,
    },
    /// The next attempt is waited for.
    DelayBeforeNextAttempt {
        /// How the attempt before ended.
        previous_result: ExecutionResult,
    },
}

/// What happens to a unit.
#[derive(Copy, Clone, Debug, PartialEq, Eq, Structural)]
pub enum UnitEvent {
    /// The process exited.
    ChildExited {
        /// How the attempt ended, going by the exit status. `None` where the
        /// status could not be read.
        tentative_result: Option<ExecutionResult>,
    },
    /// One more slow period has passed while the process runs.
    SlowTimeout {
        /// How to terminate the process, should its time be up.
        method: UnitTerminateMethod,
    },
    /// The run is cancelled.
    Cancel {
        /// Why the run is cancelled.
        reason: CancelReason,
        /// How to terminate the process, should the reason ask for it.
        method: UnitTerminateMethod,
    },
    /// The process has exited, its output is still open, and the grace window
    /// is not over.
    OutputStillOpen,
    /// The process has exited and its output is closed.
    OutputClosed,
    /// The grace window is over and the output is still open.
    LeakTimeout,
    /// The process has exited and its output could not be read to the end.
    OutputError,
    /// The process that is being terminated has exited.
    ChildReaped {
        /// The signal that ended the process, if one did.
        signal: Option<i32>,
        /// The exit code of the process, if it exited with one.
        code: Option<i32>,
    },
    /// The process that is being terminated did not exit in time and was
    /// killed.
    KillDeadline {
        /// The signal that ended the process, if one did.
        signal: Option<i32>,
        /// The exit code of the process, if it exited with one.
        code: Option<i32>,
    },
    /// The wait before the next attempt has begun.
    RetryScheduled,
    /// The wait before the next attempt is over and the process runs again.
    RetryDelayElapsed {
        /// The process ID of the new attempt.
        pid: u32,
    },
}

/// What the machine reports of an event, for the consumer of the run's
/// events.
#[derive(Copy, Clone, Debug)]
pub enum UnitReport {
    /// The unit is slow.
    Slow {
        /// How long the unit has run.
        elapsed: Duration,
        /// True if the unit's time is up and it is about to be terminated.
        will_terminate: bool,
    },
    /// An attempt failed and another one follows.
    AttemptFailedWillRetry {
        /// How the attempt ended. Never a pass.
        result: ExecutionResult,
        /// Whether the attempt was slow.
        is_slow: bool,
        /// How long the wait before the next attempt is.
        delay_before_next_attempt: Duration,
    },
    /// Another attempt has started.
    RetryStarted {
        /// Which attempt it is.
        retry_data: RetryData,
    },
    /// The unit has finished: no attempt follows.
    Finished {
        /// How the last attempt ended.
        result: ExecutionResult,
        /// Whether the last attempt was slow.
        is_slow: bool,
        /// Why the last attempt was terminated, if it was.
        terminated_for: Option<UnitTerminateReason>,
    },
}

/// The successor of `count`, as far as the machine's word goes.
pub open spec fn spec_saturating_succ(count: usize) -> usize {
    if count < usize::MAX {
        (count + 1) as usize
    } else {
        count
    }
}

/// The successor of `count`, as far as the machine's word goes.
#[verifier::when_used_as_spec(spec_saturating_succ)]
pub fn saturating_succ(count: usize) -> (next: usize)
    ensures
        next == spec_saturating_succ(count),
{
    if count < usize::MAX {
        count + 1
    } else {
        count
    }
}

/// How an attempt ended whose exit status said `tentative_result`: an exit
/// status that could not be read is a failure, and a pass that left its
/// output open past the grace window is a leak.
pub open spec fn spec_final_result(tentative_result: Option<ExecutionResult>, leaked: bool)
    -> ExecutionResult {
    match tentative_result {
        None => ExecutionResult::Fail { signal: None, code: None },
        Some(ExecutionResult::Pass) => if leaked {
            ExecutionResult::Leak
        } else {
            ExecutionResult::Pass
        },
        Some(result) => result,
    }
}

/// Decides how an attempt ended whose exit status said `tentative_result`.
#[verifier::when_used_as_spec(spec_final_result)]
pub fn final_result(tentative_result: Option<ExecutionResult>, leaked: bool) -> (result:
    ExecutionResult)
    ensures
        result == spec_final_result(tentative_result, leaked),
{
    match tentative_result {
        None => ExecutionResult::Fail { signal: None, code: None },
        Some(ExecutionResult::Pass) => if leaked {
            ExecutionResult::Leak
        } else {
            ExecutionResult::Pass
        },
        Some(result) => result,
    }
}

/// Why a unit is terminated when the run is cancelled for `reason`: for an
/// interrupt, or else for a signal.
pub open spec fn spec_terminate_reason_for(reason: CancelReason) -> UnitTerminateReason {
    if reason is Interrupt {
        UnitTerminateReason::Interrupt
    } else {
        UnitTerminateReason::Signal
    }
}

/// The number of attempts that a unit is given: one for a setup script, and
/// for a test one more than it has retries.
pub open spec fn spec_total_attempts(kind: UnitKind, retries: usize) -> usize {
    match kind {
        UnitKind::Script => 1,
        UnitKind::Test => if retries < usize::MAX {
            (retries + 1) as usize
        } else {
            usize::MAX
        },
    }
}

/// All that the machine knows of a unit at one moment.
#[derive(Copy, Clone, Debug)]
pub struct UnitSnapshot {
    /// What kind of unit it is.
    pub kind: UnitKind,
    /// Where the unit is in its life.
    pub phase: UnitPhase,
    /// The process ID of the current attempt.
    pub pid: u32,
    /// The last reading of the unit's clocks.
    pub clock: UnitClock,
    /// Which attempt the unit is in.
    pub retry_data: RetryData,
    /// The time after which a unit that still runs is marked as slow.
    pub slow_timeout: Duration,
    /// After how many slow periods the unit is terminated, if ever.
    pub terminate_after: Option<usize>,
    /// How many slow periods have passed in the current attempt.
    pub slow_periods: usize,
    /// The time after which the attempt was marked as slow, if it was: the
    /// slow timeout.
    pub slow_after: Option<Duration>,
    /// Why the current attempt was terminated, if it was.
    pub terminated_for: Option<UnitTerminateReason>,
    /// Why the run is cancelled, as far as the unit was told.
    pub cancel: Option<CancelReason>,
    /// True once nothing more happens to the unit.
    pub done: bool,
}

impl UnitSnapshot {
    /// A unit whose first attempt has just been started.
    pub open spec fn spawned(
        kind: UnitKind,
        pid: u32,
        retries: usize,
        slow_timeout: Duration,
        terminate_after: Option<usize>,
        clock: UnitClock,
    ) -> UnitSnapshot {
        UnitSnapshot {
            kind,
            phase: UnitPhase::Running,
            pid,
            clock,
            retry_data: RetryData {
                attempt: 1,
                total_attempts: spec_total_attempts(kind, retries),
            },
            slow_timeout,
            terminate_after,
            slow_periods: 0,
            slow_after: None,
            terminated_for: None,
            cancel: None,
            done: false,
        }
    }

    /// The current attempt ran past the slow threshold.
    pub open spec fn is_slow(self) -> bool {
        self.slow_periods > 0
    }

    /// Another attempt follows an attempt that ended with `result`: it
    /// failed, attempts remain, and the run is not cancelled.
    pub open spec fn retries_after(self, result: ExecutionResult) -> bool {
        !result.is_success() && !self.retry_data.is_last_attempt() && self.cancel is None
    }

    /// One more slow period uses up the time that the unit is given.
    pub open spec fn slow_budget_exhausted(self) -> bool {
        match self.terminate_after {
            Some(limit) => saturating_succ(self.slow_periods) >= limit,
            None => false,
        }
    }

    /// What holds of every unit that the machine has driven.
    pub open spec fn well_formed(self) -> bool {
        &&& 1 <= self.retry_data.attempt <= self.retry_data.total_attempts
        &&& self.kind is Script ==> self.retry_data.total_attempts == 1
        &&& self.done ==> self.phase is Exited
        &&& self.phase matches UnitPhase::Exited { result } ==> (self.done || self.retries_after(
            result,
        ))
        &&& self.phase matches UnitPhase::DelayBeforeNextAttempt { previous_result } ==> (
        !self.done && self.retries_after(previous_result))
        &&& self.phase matches UnitPhase::Terminating { reason, .. } ==> self.terminated_for
            == Some(reason)
        &&& self.slow_after is Some <==> self.slow_periods > 0
        &&& self.terminated_for == Some(UnitTerminateReason::Timeout) ==> self.slow_periods > 0
    }

    /// The state that the unit is in, as it is told to whoever asks for
    /// information about the unit.
    pub open spec fn state(self) -> UnitState {
        match self.phase {
            UnitPhase::Running => UnitState::Running {
                pid: self.pid,
                time_taken: self.clock.time_taken,
                slow_after: self.slow_after,
            },
            UnitPhase::Exiting { tentative_result } => UnitState::Exiting {
                pid: self.pid,
                time_taken: self.clock.time_taken,
                slow_after: self.slow_after,
                tentative_result,
                waiting_duration: self.clock.waiting_duration,
                remaining: self.clock.remaining,
            },
            UnitPhase::Terminating { reason, method } => UnitState::Terminating(
                UnitTerminatingState {
                    pid: self.pid,
                    time_taken: self.clock.time_taken,
                    reason,
                    method,
                    waiting_duration: self.clock.waiting_duration,
                    remaining: self.clock.remaining,
                },
            ),
            UnitPhase::Exited { result } => UnitState::Exited {
                result,
                time_taken: self.clock.time_taken,
                slow_after: self.slow_after,
            },
            UnitPhase::DelayBeforeNextAttempt { previous_result } => {
                UnitState::DelayBeforeNextAttempt {
                    previous_result,
                    previous_slow: self.is_slow(),
                    waiting_duration: self.clock.waiting_duration,
                    remaining: self.clock.remaining,
                }
            },
        }
    }

    /// The report that the unit has finished with `result`.
    pub open spec fn finished_report(self, result: ExecutionResult) -> UnitReport {
        UnitReport::Finished {
            result,
            is_slow: self.is_slow(),
            terminated_for: self.terminated_for,
        }
    }

    /// The unit has exited with `result`: it waits for its next attempt to be
    /// scheduled, or it has finished and says so.
    pub open spec fn settle(self, result: ExecutionResult, clock: UnitClock) -> (
        UnitSnapshot,
        Option<UnitReport>,
    ) {
        if self.retries_after(result) {
            (UnitSnapshot { phase: UnitPhase::Exited { result }, clock, ..self }, None)
        } else {
            (
                UnitSnapshot { phase: UnitPhase::Exited { result }, clock, done: true, ..self },
                Some(self.finished_report(result)),
            )
        }
    }

    /// The unit is told that the run is cancelled for `reason`.
    pub open spec fn told(self, reason: CancelReason) -> UnitSnapshot {
        UnitSnapshot { cancel: Some(spec_escalate(self.cancel, reason)), ..self }
    }

    /// What `event`, at the reading `clock`, makes of the unit, and what is
    /// reported of it. An event that the unit's phase has no use for leaves
    /// the unit as it is, and so does every event once the unit is done.
    pub open spec fn step(self, event: UnitEvent, clock: UnitClock) -> (
        UnitSnapshot,
        Option<UnitReport>,
    ) {
        if self.done {
            (self, None)
        } else {
            match (self.phase, event) {
                (UnitPhase::Running, UnitEvent::ChildExited { tentative_result }) => (
                    UnitSnapshot { phase: UnitPhase::Exiting { tentative_result }, clock, ..self },
                    None,
                ),
                (UnitPhase::Running, UnitEvent::SlowTimeout { method }) => {
                    let slower = UnitSnapshot {
                        slow_periods: saturating_succ(self.slow_periods),
                        slow_after: Some(self.slow_timeout),
                        clock,
                        ..self
                    };
                    if self.slow_budget_exhausted() {
                        (
                            UnitSnapshot {
                                phase: UnitPhase::Terminating {
                                    reason: UnitTerminateReason::Timeout,
                                    method,
                                },
                                terminated_for: Some(UnitTerminateReason::Timeout),
                                ..slower
                            },
                            Some(
                                UnitReport::Slow {
                                    elapsed: clock.time_taken,
                                    will_terminate: true,
                                },
                            ),
                        )
                    } else {
                        (
                            slower,
                            Some(
                                UnitReport::Slow {
                                    elapsed: clock.time_taken,
                                    will_terminate: false,
                                },
                            ),
                        )
                    }
                },
                (UnitPhase::Running, UnitEvent::Cancel { reason, method }) => {
                    if reason.terminates_units() {
                        (
                            UnitSnapshot {
                                phase: UnitPhase::Terminating {
                                    reason: spec_terminate_reason_for(reason),
                                    method,
                                },
                                terminated_for: Some(spec_terminate_reason_for(reason)),
                                clock,
                                ..self.told(reason)
                            },
                            None,
                        )
                    } else {
                        (self.told(reason), None)
                    }
                },
                (UnitPhase::Exiting { .. }, UnitEvent::OutputStillOpen) => (
                    UnitSnapshot { clock, ..self },
                    None,
                ),
                (UnitPhase::Exiting { tentative_result }, UnitEvent::OutputClosed) => self.settle(
                    final_result(tentative_result, false),
                    clock,
                ),
                (UnitPhase::Exiting { tentative_result }, UnitEvent::LeakTimeout) => self.settle(
                    final_result(tentative_result, true),
                    clock,
                ),
                (UnitPhase::Exiting { .. }, UnitEvent::OutputError) => self.settle(
                    ExecutionResult::Fail { signal: None, code: None },
                    clock,
                ),
                (UnitPhase::Exiting { .. }, UnitEvent::Cancel { reason, .. }) => (
                    self.told(reason),
                    None,
                ),
                (
                    UnitPhase::Terminating { reason, .. },
                    UnitEvent::ChildReaped { signal, code },
                ) => self.terminated(reason, signal, code, clock),
                (
                    UnitPhase::Terminating { reason, .. },
                    UnitEvent::KillDeadline { signal, code },
                ) => self.terminated(reason, signal, code, clock),
                (UnitPhase::Terminating { .. }, UnitEvent::Cancel { reason, .. }) => (
                    self.told(reason),
                    None,
                ),
                (UnitPhase::Exited { result }, UnitEvent::RetryScheduled) => (
                    UnitSnapshot {
                        phase: UnitPhase::DelayBeforeNextAttempt { previous_result: result },
                        clock,
                        ..self
                    },
                    Some(
                        UnitReport::AttemptFailedWillRetry {
                            result,
                            is_slow: self.is_slow(),
                            delay_before_next_attempt: clock.remaining,
                        },
                    ),
                ),
                (UnitPhase::Exited { result }, UnitEvent::Cancel { reason, .. }) => (
                    UnitSnapshot { done: true, ..self.told(reason) },
                    Some(self.finished_report(result)),
                ),
                (
                    UnitPhase::DelayBeforeNextAttempt { .. },
                    UnitEvent::RetryDelayElapsed { pid },
                ) => {
                    let retry_data = RetryData {
                        attempt: saturating_succ(self.retry_data.attempt),
                        total_attempts: self.retry_data.total_attempts,
                    };
                    (
                        UnitSnapshot {
                            phase: UnitPhase::Running,
                            pid,
                            clock,
                            retry_data,
                            slow_periods: 0,
                            slow_after: None,
                            terminated_for: None,
                            ..self
                        },
                        Some(UnitReport::RetryStarted { retry_data }),
                    )
                },
                (
                    UnitPhase::DelayBeforeNextAttempt { previous_result },
                    UnitEvent::Cancel { reason, .. },
                ) => (
                    UnitSnapshot {
                        phase: UnitPhase::Exited { result: previous_result },
                        clock,
                        done: true,
                        ..self.told(reason)
                    },
                    Some(self.finished_report(previous_result)),
                ),
                _ => (self, None),
            }
        }
    }

    /// The process that was being terminated for `reason` has exited. A unit
    /// whose time was up has timed out, and goes on as a unit that failed. A
    /// unit that a signal or an interrupt caught has failed and is done
    /// without a word: it counts among the tests that the run did not get to.
    pub open spec fn terminated(
        self,
        reason: UnitTerminateReason,
        signal: Option<i32>,
        code: Option<i32>,
        clock: UnitClock,
    ) -> (UnitSnapshot, Option<UnitReport>) {
        if reason is Timeout {
            self.settle(ExecutionResult::Timeout, clock)
        } else {
            (
                UnitSnapshot {
                    phase: UnitPhase::Exited { result: ExecutionResult::Fail { signal, code } },
                    clock,
                    done: true,
                    ..self
                },
                None,
            )
        }
    }
}


/// The number of attempts that a unit is given.
#[verifier::when_used_as_spec(spec_total_attempts)]
pub fn total_attempts(kind: UnitKind, retries: usize) -> (attempts: usize)
    ensures
        attempts == spec_total_attempts(kind, retries),
        attempts >= 1,
{
    match kind {
        UnitKind::Script => 1,
        UnitKind::Test => if retries < usize::MAX {
            retries + 1
        } else {
            usize::MAX
        },
    }
}

/// Why a unit is terminated when the run is cancelled for `reason`.
#[verifier::when_used_as_spec(spec_terminate_reason_for)]
pub fn terminate_reason_for(reason: CancelReason) -> (why: UnitTerminateReason)
    ensures
        why == spec_terminate_reason_for(reason),
{
    match reason {
        CancelReason::Interrupt => UnitTerminateReason::Interrupt,
        CancelReason::SetupScriptFailure
        | CancelReason::TestFailure
        | CancelReason::ReportError
        | CancelReason::Signal => UnitTerminateReason::Signal,
    }
}

impl UnitSnapshot {
    /// Tells the unit that the run is cancelled for `reason`.
    fn tell(self, reason: CancelReason) -> (next: UnitSnapshot)
        ensures
            next == self.told(reason),
    {
        UnitSnapshot { cancel: Some(escalate(self.cancel, reason)), ..self }
    }

    /// Lets the unit exit with `result`.
    fn settled(self, result: ExecutionResult, clock: UnitClock) -> (next: (
        UnitSnapshot,
        Option<UnitReport>,
    ))
        ensures
            next == self.settle(result, clock),
    {
        let retries = !result.is_success() && !self.retry_data.is_last_attempt()
            && self.cancel.is_none();
        if retries {
            (UnitSnapshot { phase: UnitPhase::Exited { result }, clock, ..self }, None)
        } else {
            (
                UnitSnapshot { phase: UnitPhase::Exited { result }, clock, done: true, ..self },
                Some(
                    UnitReport::Finished {
                        result,
                        is_slow: self.slow_periods > 0,
                        terminated_for: self.terminated_for,
                    },
                ),
            )
        }
    }

    /// Lets the process that was being terminated for `reason` have exited.
    fn reaped(
        self,
        reason: UnitTerminateReason,
        signal: Option<i32>,
        code: Option<i32>,
        clock: UnitClock,
    ) -> (next: (UnitSnapshot, Option<UnitReport>))
        ensures
            next == self.terminated(reason, signal, code, clock),
    {
        match reason {
            UnitTerminateReason::Timeout => self.settled(ExecutionResult::Timeout, clock),
            UnitTerminateReason::Signal | UnitTerminateReason::Interrupt => (
                UnitSnapshot {
                    phase: UnitPhase::Exited { result: ExecutionResult::Fail { signal, code } },
                    clock,
                    done: true,
                    ..self
                },
                None,
            ),
        }
    }

    /// Returns what `event`, at the reading `clock`, makes of the unit, and
    /// what is to be reported of it.
    pub fn advance(self, event: UnitEvent, clock: UnitClock) -> (next: (
        UnitSnapshot,
        Option<UnitReport>,
    ))
        ensures
            next == self.step(event, clock),
    {
        if self.done {
            return (self, None);
        }
        match self.phase {
            UnitPhase::Running => match event {
                UnitEvent::ChildExited { tentative_result } => (
                    UnitSnapshot { phase: UnitPhase::Exiting { tentative_result }, clock, ..self },
                    None,
                ),
                UnitEvent::SlowTimeout { method } => {
                    let periods = saturating_succ(self.slow_periods);
                    let exhausted = match self.terminate_after {
                        Some(limit) => periods >= limit,
                        None => false,
                    };
                    let slower = UnitSnapshot {
                        slow_periods: periods,
                        slow_after: Some(self.slow_timeout),
                        clock,
                        ..self
                    };
                    if exhausted {
                        (
                            UnitSnapshot {
                                phase: UnitPhase::Terminating {
                                    reason: UnitTerminateReason::Timeout,
                                    method,
                                },
                                terminated_for: Some(UnitTerminateReason::Timeout),
                                ..slower
                            },
                            Some(
                                UnitReport::Slow {
                                    elapsed: clock.time_taken,
                                    will_terminate: true,
                                },
                            ),
                        )
                    } else {
                        (
                            slower,
                            Some(
                                UnitReport::Slow {
                                    elapsed: clock.time_taken,
                                    will_terminate: false,
                                },
                            ),
                        )
                    }
                },
                UnitEvent::Cancel { reason, method } => {
                    let told = self.tell(reason);
                    if reason.terminates_units() {
                        let why = terminate_reason_for(reason);
                        (
                            UnitSnapshot {
                                phase: UnitPhase::Terminating { reason: why, method },
                                terminated_for: Some(why),
                                clock,
                                ..told
                            },
                            None,
                        )
                    } else {
                        (told, None)
                    }
                },
                _ => (self, None),
            },
            UnitPhase::Exiting { tentative_result } => match event {
                UnitEvent::OutputStillOpen => (UnitSnapshot { clock, ..self }, None),
                UnitEvent::OutputClosed => self.settled(
                    final_result(tentative_result, false),
                    clock,
                ),
                UnitEvent::LeakTimeout => self.settled(final_result(tentative_result, true), clock),
                UnitEvent::OutputError => self.settled(
                    ExecutionResult::Fail { signal: None, code: None },
                    clock,
                ),
                UnitEvent::Cancel { reason, .. } => (self.tell(reason), None),
                _ => (self, None),
            },
            UnitPhase::Terminating { reason, .. } => match event {
                UnitEvent::ChildReaped { signal, code } => self.reaped(reason, signal, code, clock),
                UnitEvent::KillDeadline { signal, code } => self.reaped(
                    reason,
                    signal,
                    code,
                    clock,
                ),
                UnitEvent::Cancel { reason, .. } => (self.tell(reason), None),
                _ => (self, None),
            },
            UnitPhase::Exited { result } => match event {
                UnitEvent::RetryScheduled => (
                    UnitSnapshot {
                        phase: UnitPhase::DelayBeforeNextAttempt { previous_result: result },
                        clock,
                        ..self
                    },
                    Some(
                        UnitReport::AttemptFailedWillRetry {
                            result,
                            is_slow: self.slow_periods > 0,
                            delay_before_next_attempt: clock.remaining,
                        },
                    ),
                ),
                UnitEvent::Cancel { reason, .. } => (
                    UnitSnapshot { done: true, ..self.tell(reason) },
                    Some(
                        UnitReport::Finished {
                            result,
                            is_slow: self.slow_periods > 0,
                            terminated_for: self.terminated_for,
                        },
                    ),
                ),
                _ => (self, None),
            },
            UnitPhase::DelayBeforeNextAttempt { previous_result } => match event {
                UnitEvent::RetryDelayElapsed { pid } => {
                    let retry_data = RetryData {
                        attempt: saturating_succ(self.retry_data.attempt),
                        total_attempts: self.retry_data.total_attempts,
                    };
                    (
                        UnitSnapshot {
                            phase: UnitPhase::Running,
                            pid,
                            clock,
                            retry_data,
                            slow_periods: 0,
                            slow_after: None,
                            terminated_for: None,
                            ..self
                        },
                        Some(UnitReport::RetryStarted { retry_data }),
                    )
                },
                UnitEvent::Cancel { reason, .. } => (
                    UnitSnapshot {
                        phase: UnitPhase::Exited { result: previous_result },
                        clock,
                        done: true,
                        ..self.tell(reason)
                    },
                    Some(
                        UnitReport::Finished {
                            result: previous_result,
                            is_slow: self.slow_periods > 0,
                            terminated_for: self.terminated_for,
                        },
                    ),
                ),
                _ => (self, None),
            },
        }
    }

    /// Returns the state that the unit is in, as it is told to whoever asks
    /// for information about the unit.
    pub fn to_state(self) -> (state: UnitState)
        ensures
            state == self.state(),
    {
        match self.phase {
            UnitPhase::Running => UnitState::Running {
                pid: self.pid,
                time_taken: self.clock.time_taken,
                slow_after: self.slow_after,
            },
            UnitPhase::Exiting { tentative_result } => UnitState::Exiting {
                pid: self.pid,
                time_taken: self.clock.time_taken,
                slow_after: self.slow_after,
                tentative_result,
                waiting_duration: self.clock.waiting_duration,
                remaining: self.clock.remaining,
            },
            UnitPhase::Terminating { reason, method } => UnitState::Terminating(
                UnitTerminatingState {
                    pid: self.pid,
                    time_taken: self.clock.time_taken,
                    reason,
                    method,
                    waiting_duration: self.clock.waiting_duration,
                    remaining: self.clock.remaining,
                },
            ),
            UnitPhase::Exited { result } => UnitState::Exited {
                result,
                time_taken: self.clock.time_taken,
                slow_after: self.slow_after,
            },
            UnitPhase::DelayBeforeNextAttempt { previous_result } => {
                UnitState::DelayBeforeNextAttempt {
                    previous_result,
                    previous_slow: self.slow_periods > 0,
                    waiting_duration: self.clock.waiting_duration,
                    remaining: self.clock.remaining,
                }
            },
        }
    }
}


/// The machine that drives one unit.
#[derive(Debug)]
pub struct UnitMachine {
    current: UnitSnapshot,
}

impl View for UnitMachine {
    type V = UnitSnapshot;

    closed spec fn view(&self) -> UnitSnapshot {
        self.current
    }
}

impl UnitMachine {
    #[verifier::type_invariant]
    spec fn well_formed(&self) -> bool {
        self.current.well_formed()
    }

    /// The machine of a unit whose first attempt has just been started as
    /// the process `pid`. A test is given one attempt more than `policy` has
    /// retries, a setup script one attempt. The unit is marked as slow each
    /// time that it has run for the slow timeout of `policy` once more. After
    /// as many slow periods as `policy` has the unit terminated after, if
    /// any, the unit's time is up.
    pub fn spawn(kind: UnitKind, pid: u32, policy: &RunPolicy, clock: UnitClock) -> (machine: Self)
        ensures
            machine@ == UnitSnapshot::spawned(
                kind,
                pid,
                policy.retries,
                policy.slow_timeout,
                policy.slow_timeout_terminate_after,
                clock,
            ),
            machine@.well_formed(),
    {
        let retries = policy.retries;
        let terminate_after = policy.slow_timeout_terminate_after;
        UnitMachine {
            current: UnitSnapshot {
                kind,
                phase: UnitPhase::Running,
                pid,
                clock,
                retry_data: RetryData { attempt: 1, total_attempts: total_attempts(kind, retries) },
                slow_timeout: policy.slow_timeout,
                terminate_after,
                slow_periods: 0,
                slow_after: None,
                terminated_for: None,
                cancel: None,
                done: false,
            },
        }
    }

    /// Takes in `event` at the reading `clock`, and returns what is to be
    /// reported of it.
    pub fn handle(&mut self, event: UnitEvent, clock: UnitClock) -> (report: Option<UnitReport>)
        ensures
            (final(self)@, report) == old(self)@.step(event, clock),
            old(self)@.well_formed(),
            final(self)@.well_formed(),
    {
        proof {
            use_type_invariant(&*self);
            lemma_step_well_formed(self.current, event, clock);
        }
        let (next, report) = self.current.advance(event, clock);
        self.current = next;
        report
    }

    /// All that the machine knows of the unit.
    pub fn snapshot(&self) -> (snapshot: UnitSnapshot)
        ensures
            snapshot == self@,
            snapshot.well_formed(),
    {
        proof {
            use_type_invariant(self);
        }
        self.current
    }

    /// The state that the unit is in, as it is told to whoever asks for
    /// information about the unit.
    pub fn state(&self) -> (state: UnitState)
        ensures
            state == self@.state(),
    {
        self.current.to_state()
    }

    /// Returns true once nothing more happens to the unit.
    pub fn is_done(&self) -> (done: bool)
        ensures
            done == self@.done,
    {
        self.current.done
    }
}

/// One phase follows the other by a row of the machine's table:
///
/// | from | to |
/// |------|----|
/// | running | exiting, terminating |
/// | exiting | exited: as the exit status said; leaky after a pass; failed, its output unread |
/// | terminating | exited, timed out if the unit's time was up, else failed |
/// | exited, failed | waiting for the next attempt |
/// | waiting for the next attempt | running, or exited as before |
pub open spec fn follows_table(from: UnitPhase, to: UnitPhase) -> bool {
    match (from, to) {
        (UnitPhase::Running, UnitPhase::Exiting { .. }) => true,
        (UnitPhase::Running, UnitPhase::Terminating { .. }) => true,
        (UnitPhase::Exiting { tentative_result }, UnitPhase::Exited { result }) => result
            == final_result(tentative_result, false) || result == final_result(
            tentative_result,
            true,
        ) || result == (ExecutionResult::Fail { signal: None, code: None }),
        (UnitPhase::Terminating { reason, .. }, UnitPhase::Exited { result }) => if reason
            is Timeout {
            result is Timeout
        } else {
            result is Fail
        },
        (UnitPhase::Exited { result }, UnitPhase::DelayBeforeNextAttempt { previous_result }) => {
            previous_result == result && !result.is_success()
        },
        (UnitPhase::DelayBeforeNextAttempt { .. }, UnitPhase::Running) => true,
        (UnitPhase::DelayBeforeNextAttempt { previous_result }, UnitPhase::Exited { result }) => {
            result == previous_result
        },
        _ => false,
    }
}

/// A unit whose first attempt has just been started is as every unit is
/// that the machine has driven.
pub proof fn lemma_spawned_well_formed(
    kind: UnitKind,
    pid: u32,
    retries: usize,
    slow_timeout: Duration,
    terminate_after: Option<usize>,
    clock: UnitClock,
)
    ensures
        UnitSnapshot::spawned(
            kind,
            pid,
            retries,
            slow_timeout,
            terminate_after,
            clock,
        ).well_formed(),
{
}

/// Whatever happens to a unit, it stays as every unit is that the machine
/// has driven.
pub proof fn lemma_step_well_formed(unit: UnitSnapshot, event: UnitEvent, clock: UnitClock)
    requires
        unit.well_formed(),
    ensures
        unit.step(event, clock).0.well_formed(),
{
}

/// The states that a unit goes through are a path in the machine's table:
/// an event leaves the unit in its phase or moves it along a row of the
/// table. A unit that is done stays as it is, and nothing more is reported of
/// it; a unit is reported as finished only as it becomes done.
pub proof fn lemma_step_follows_table(unit: UnitSnapshot, event: UnitEvent, clock: UnitClock)
    requires
        unit.well_formed(),
    ensures
        unit.step(event, clock).0.phase == unit.phase || follows_table(
            unit.phase,
            unit.step(event, clock).0.phase,
        ),
        unit.done ==> unit.step(event, clock) == (unit, None::<UnitReport>),
        unit.step(event, clock).1 matches Some(UnitReport::Finished { .. }) ==> !unit.done
            && unit.step(event, clock).0.done,
{
}

/// A unit that is being terminated has the reason on record, and shows it in
/// its state. The reason stays on record until the attempt is over, and the
/// report that the unit has finished carries it. A unit comes to be
/// terminated for a timeout only when a slow period uses up its time, and for
/// a signal or an interrupt only when the run is cancelled for one.
pub proof fn lemma_terminate_reason_recorded(
    unit: UnitSnapshot,
    event: UnitEvent,
    clock: UnitClock,
)
    requires
        unit.well_formed(),
    ensures
        ({
            let (next, report) = unit.step(event, clock);
            &&& next.phase matches UnitPhase::Terminating { reason, .. } ==> {
                &&& next.terminated_for == Some(reason)
                &&& next.state() matches UnitState::Terminating(state)
                &&& state.reason == reason
            }
            &&& (!(unit.phase is Terminating) && next.phase is Terminating) ==> match event {
                UnitEvent::SlowTimeout { .. } => next.phase->reason is Timeout
                    && unit.slow_budget_exhausted(),
                UnitEvent::Cancel { reason: why, .. } => why.terminates_units()
                    && next.phase->reason == spec_terminate_reason_for(why),
                _ => false,
            }
            &&& (unit.phase is Terminating && next.phase is Exited) ==> next.terminated_for
                == Some(unit.phase->reason)
            &&& (unit.phase is Terminating && report is Some && report.unwrap() is Finished)
                ==> report.unwrap()->terminated_for == Some(unit.phase->reason)
        }),
{
}

/// The unit after the events of `events` happened to it one after the other,
/// and the reports that were made, in their order.
pub open spec fn run_events(unit: UnitSnapshot, events: Seq<(UnitEvent, UnitClock)>) -> (
    UnitSnapshot,
    Seq<UnitReport>,
)
    decreases events.len(),
{
    if events.len() == 0 {
        (unit, Seq::empty())
    } else {
        let (before, reports) = run_events(unit, events.drop_last());
        let (after, report) = before.step(events.last().0, events.last().1);
        (
            after,
            match report {
                Some(report) => reports.push(report),
                None => reports,
            },
        )
    }
}

/// Whatever happens to a unit, it is reported as finished at most once, and
/// nothing is reported of it afterwards.
pub proof fn lemma_finished_once(unit: UnitSnapshot, events: Seq<(UnitEvent, UnitClock)>)
    requires
        unit.well_formed(),
    ensures
        run_events(unit, events).0.well_formed(),
        unit.done ==> run_events(unit, events) == (unit, Seq::<UnitReport>::empty()),
        forall|i: int|
            0 <= i < run_events(unit, events).1.len() && (#[trigger] run_events(
                unit,
                events,
            ).1[i]) is Finished ==> i == run_events(unit, events).1.len() - 1 && run_events(
                unit,
                events,
            ).0.done,
    decreases events.len(),
{
    if events.len() > 0 {
        let front = events.drop_last();
        lemma_finished_once(unit, front);
        let (before, reports) = run_events(unit, front);
        lemma_step_well_formed(before, events.last().0, events.last().1);
        lemma_step_follows_table(before, events.last().0, events.last().1);
        let (after, report) = before.step(events.last().0, events.last().1);
        let all = run_events(unit, events).1;
        assert forall|i: int| 0 <= i < all.len() && (#[trigger] all[i]) is Finished implies i
            == all.len() - 1 && run_events(unit, events).0.done by {
            if i < reports.len() {
                assert(reports[i] is Finished);
            }
        }
    }
}

/// A test is given no more attempts than one more than its retries. A new
/// attempt is the next in number and follows a failure; a test that failed
/// and is reported as finished, the run not being cancelled, has made every
/// attempt that it was given.
pub proof fn lemma_attempts(unit: UnitSnapshot, event: UnitEvent, clock: UnitClock)
    requires
        unit.well_formed(),
    ensures
        ({
            let (next, report) = unit.step(event, clock);
            &&& next.retry_data.total_attempts == unit.retry_data.total_attempts
            &&& next.retry_data.attempt <= next.retry_data.total_attempts
            &&& report matches Some(UnitReport::RetryStarted { retry_data }) ==> {
                &&& retry_data == next.retry_data
                &&& next.retry_data.attempt == unit.retry_data.attempt + 1
                &&& unit.phase matches UnitPhase::DelayBeforeNextAttempt { previous_result }
                &&& !previous_result.is_success()
            }
            &&& !(report matches Some(UnitReport::RetryStarted { .. })) ==> next.retry_data
                == unit.retry_data
            &&& report matches Some(UnitReport::AttemptFailedWillRetry { result, .. }) ==> {
                &&& !result.is_success()
                &&& unit.retry_data.attempt < unit.retry_data.total_attempts
                &&& unit.cancel is None
            }
            &&& (report matches Some(UnitReport::Finished { result, .. }) && !result.is_success()
                && next.cancel is None) ==> next.retry_data.attempt
                == next.retry_data.total_attempts
        }),
{
}

/// An attempt that exits with a pass and keeps its output open past the
/// grace window ends as a leak, and the test finishes with it.
pub proof fn lemma_leak(unit: UnitSnapshot, clock: UnitClock)
    requires
        unit.well_formed(),
        !unit.done,
        unit.phase == (UnitPhase::Exiting { tentative_result: Some(ExecutionResult::Pass) }),
    ensures
        unit.step(UnitEvent::LeakTimeout, clock).0.phase == (UnitPhase::Exited {
            result: ExecutionResult::Leak,
        }),
        unit.step(UnitEvent::LeakTimeout, clock).1 == Some(
            unit.finished_report(ExecutionResult::Leak),
        ),
        unit.step(UnitEvent::LeakTimeout, clock).0.done,
{
}

/// The unit after `count` slow periods passed one after the other, each at
/// the reading `clock` and with `method` at hand to terminate the unit.
pub open spec fn after_slow_periods(
    unit: UnitSnapshot,
    count: nat,
    method: UnitTerminateMethod,
    clock: UnitClock,
) -> UnitSnapshot
    decreases count,
{
    if count == 0 {
        unit
    } else {
        after_slow_periods(unit, (count - 1) as nat, method, clock).step(
            UnitEvent::SlowTimeout { method },
            clock,
        ).0
    }
}

/// While fewer slow periods have passed than a unit is given, the unit is
/// still running.
pub proof fn lemma_within_slow_budget(
    unit: UnitSnapshot,
    limit: usize,
    count: nat,
    method: UnitTerminateMethod,
    clock: UnitClock,
)
    requires
        unit.well_formed(),
        !unit.done,
        unit.phase is Running,
        unit.slow_periods == 0,
        unit.terminate_after == Some(limit),
        count < limit,
    ensures
        ({
            let after = after_slow_periods(unit, count, method, clock);
            &&& after.well_formed()
            &&& after.phase is Running
            &&& !after.done
            &&& after.slow_periods == count
            &&& after.terminate_after == Some(limit)
        }),
    decreases count,
{
    if count > 0 {
        lemma_within_slow_budget(unit, limit, (count - 1) as nat, method, clock);
        let before = after_slow_periods(unit, (count - 1) as nat, method, clock);
        lemma_step_well_formed(before, UnitEvent::SlowTimeout { method }, clock);
        assert(!before.slow_budget_exhausted());
    }
}

/// A unit that is given `limit` slow periods and runs through them is
/// reported as slow `limit` times, only the last time as about to be
/// terminated. It is then terminated for a timeout, and once its process has
/// exited the attempt has timed out.
pub proof fn lemma_slow_budget(
    unit: UnitSnapshot,
    limit: usize,
    count: nat,
    method: UnitTerminateMethod,
    clock: UnitClock,
)
    requires
        unit.well_formed(),
        !unit.done,
        unit.phase is Running,
        unit.slow_periods == 0,
        unit.terminate_after == Some(limit),
        1 <= count <= limit,
    ensures
        ({
            let before = after_slow_periods(unit, (count - 1) as nat, method, clock);
            let (after, report) = before.step(UnitEvent::SlowTimeout { method }, clock);
            &&& after == after_slow_periods(unit, count, method, clock)
            &&& after.well_formed()
            &&& report == Some(
                UnitReport::Slow { elapsed: clock.time_taken, will_terminate: count == limit },
            )
            &&& count < limit ==> after.phase is Running
            &&& count == limit ==> {
                &&& after.phase == (UnitPhase::Terminating {
                    reason: UnitTerminateReason::Timeout,
                    method,
                })
                &&& forall|signal: Option<i32>, code: Option<i32>, later: UnitClock|
                    (#[trigger] after.step(UnitEvent::ChildReaped { signal, code }, later)).0.phase
                        == (UnitPhase::Exited { result: ExecutionResult::Timeout })
            }
        }),
{
    lemma_within_slow_budget(unit, limit, (count - 1) as nat, method, clock);
    let before = after_slow_periods(unit, (count - 1) as nat, method, clock);
    lemma_step_well_formed(before, UnitEvent::SlowTimeout { method }, clock);
    assert(before.slow_budget_exhausted() <==> count == limit);
}


/// The unit after an attempt that runs failed with `result` and the next
/// attempt was started: the process exited, its output was closed, the wait
/// before the next attempt began and ended.
pub open spec fn after_failed_attempt(
    unit: UnitSnapshot,
    result: ExecutionResult,
    pid: u32,
    clock: UnitClock,
) -> UnitSnapshot {
    unit.step(UnitEvent::ChildExited { tentative_result: Some(result) }, clock).0.step(
        UnitEvent::OutputClosed,
        clock,
    ).0.step(UnitEvent::RetryScheduled, clock).0.step(UnitEvent::RetryDelayElapsed { pid }, clock).0
}

/// The unit after `count` attempts failed with `result` one after the other,
/// each followed by the next attempt.
pub open spec fn after_failed_attempts(
    unit: UnitSnapshot,
    count: nat,
    result: ExecutionResult,
    pid: u32,
    clock: UnitClock,
) -> UnitSnapshot
    decreases count,
{
    if count == 0 {
        unit
    } else {
        after_failed_attempt(
            after_failed_attempts(unit, (count - 1) as nat, result, pid, clock),
            result,
            pid,
            clock,
        )
    }
}

/// A test that fails every time, in a run that is not cancelled, makes
/// every attempt that it is given and no more: after each attempt but the
/// last the next one is started, and with the last the test finishes as
/// failed.
pub proof fn lemma_always_failing(
    unit: UnitSnapshot,
    count: nat,
    result: ExecutionResult,
    pid: u32,
    clock: UnitClock,
)
    requires
        unit.well_formed(),
        !unit.done,
        unit.phase is Running,
        unit.cancel is None,
        unit.retry_data.attempt == 1,
        !result.is_success(),
        count < unit.retry_data.total_attempts,
    ensures
        ({
            let now = after_failed_attempts(unit, count, result, pid, clock);
            let exiting = now.step(
                UnitEvent::ChildExited { tentative_result: Some(result) },
                clock,
            ).0;
            let (exited, report) = exiting.step(UnitEvent::OutputClosed, clock);
            &&& now.well_formed()
            &&& now.phase is Running
            &&& !now.done
            &&& now.cancel is None
            &&& now.retry_data.attempt == count + 1
            &&& now.retry_data.total_attempts == unit.retry_data.total_attempts
            &&& exited.phase == (UnitPhase::Exited { result })
            &&& count + 1 < unit.retry_data.total_attempts ==> report is None && !exited.done
            &&& count + 1 == unit.retry_data.total_attempts ==> exited.done && report == Some(
                exiting.finished_report(result),
            )
        }),
    decreases count,
{
    if count > 0 {
        lemma_always_failing(unit, (count - 1) as nat, result, pid, clock);
    }
}

} // verus!
