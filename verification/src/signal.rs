//! What a signal to the runner asks of the run.
//!
//! Whoever listens for signals names the signal that arrived; what follows
//! from it is decided here.

use crate::cancel::CancelReason;
use crate::events::{UnitTerminateMethod, UnitTerminateSignal};
use vstd::prelude::*;

verus! {

/// A signal that reached the runner.
#[derive(Copy, Clone, Debug, PartialEq, Eq, Structural)]
pub enum SignalEvent {
    /// An interrupt (on Unix, Ctrl-C).
    Interrupt,
    /// A request to terminate (on Unix, SIGTERM).
    Terminate,
    /// The terminal hung up (on Unix, SIGHUP).
    Hangup,
    /// A request to quit (on Unix, SIGQUIT).
    Quit,
    /// A request to stop for now (on Unix, SIGTSTP).
    Stop,
    /// A request to go on after a stop (on Unix, SIGCONT).
    Continue,
    /// A request for information about what runs.
    Info,
}

/// What the dispatcher is asked to do.
#[derive(Copy, Clone, Debug, PartialEq, Eq, Structural)]
pub enum DispatcherCommand {
    /// Cancel the run for `reason`, and terminate the units that run by
    /// `method`.
    Cancel { reason: CancelReason, method: UnitTerminateMethod },
    /// Stop the clocks of the units and say that the run is paused.
    Pause,
    /// Let the clocks of the units go on and say that the run continues.
    Resume,
    /// Ask every unit that runs what state it is in.
    Info,
}

/// What `signal` asks of the run: an interrupt cancels the run for an
/// interrupt; a request to terminate, a hangup and a request to quit cancel
/// it for a signal. Either way the units that run are terminated, by the
/// signal that reached the runner.
pub open spec fn spec_command_for(signal: SignalEvent) -> DispatcherCommand {
    match signal {
        SignalEvent::Interrupt => DispatcherCommand::Cancel {
            reason: CancelReason::Interrupt,
            method: UnitTerminateMethod::Signal(UnitTerminateSignal::Interrupt),
        },
        SignalEvent::Terminate => DispatcherCommand::Cancel {
            reason: CancelReason::Signal,
            method: UnitTerminateMethod::Signal(UnitTerminateSignal::Term),
        },
        SignalEvent::Hangup => DispatcherCommand::Cancel {
            reason: CancelReason::Signal,
            method: UnitTerminateMethod::Signal(UnitTerminateSignal::Hangup),
        },
        SignalEvent::Quit => DispatcherCommand::Cancel {
            reason: CancelReason::Signal,
            method: UnitTerminateMethod::Signal(UnitTerminateSignal::Quit),
        },
        SignalEvent::Stop => DispatcherCommand::Pause,
        SignalEvent::Continue => DispatcherCommand::Resume,
        SignalEvent::Info => DispatcherCommand::Info,
    }
}

/// Translates a signal into what it asks of the run.
#[verifier::when_used_as_spec(spec_command_for)]
pub fn command_for(signal: SignalEvent) -> (command: DispatcherCommand)
    ensures
        command == spec_command_for(signal),
{
    match signal {
        SignalEvent::Interrupt => DispatcherCommand::Cancel {
            reason: CancelReason::Interrupt,
            method: UnitTerminateMethod::Signal(UnitTerminateSignal::Interrupt),
        },
        SignalEvent::Terminate => DispatcherCommand::Cancel {
            reason: CancelReason::Signal,
            method: UnitTerminateMethod::Signal(UnitTerminateSignal::Term),
        },
        SignalEvent::Hangup => DispatcherCommand::Cancel {
            reason: CancelReason::Signal,
            method: UnitTerminateMethod::Signal(UnitTerminateSignal::Hangup),
        },
        SignalEvent::Quit => DispatcherCommand::Cancel {
            reason: CancelReason::Signal,
            method: UnitTerminateMethod::Signal(UnitTerminateSignal::Quit),
        },
        SignalEvent::Stop => DispatcherCommand::Pause,
        SignalEvent::Continue => DispatcherCommand::Resume,
        SignalEvent::Info => DispatcherCommand::Info,
    }
}

/// Every signal that cancels the run has the units that run terminated.
pub proof fn lemma_cancelling_signals_terminate(signal: SignalEvent)
    ensures
        command_for(signal) matches DispatcherCommand::Cancel { reason, .. }
            ==> reason.terminates_units(),
        command_for(signal) is Cancel <==> (signal is Interrupt || signal is Terminate
            || signal is Hangup || signal is Quit),
{
}

} // verus!
