//! Why a run is being cancelled, and how one reason gives way to another.

use std::cmp::Ordering;
use vstd::prelude::*;
use vstd::std_specs::cmp::PartialOrdSpecImpl;

verus! {

// Note: the order here matters -- it indicates severity of cancellation
/// The reason why a test run is being cancelled.
#[derive(Copy, Clone, Debug, PartialEq, Eq, Structural, Ord)]
pub enum CancelReason {
    /// A setup script failed.
    SetupScriptFailure,
    /// A test failed and --no-fail-fast wasn't specified.
    TestFailure,
    /// An error occurred while reporting results.
    ReportError,
    /// A termination signal (on Unix, SIGTERM or SIGHUP) was received.
    Signal,
    /// An interrupt (on Unix, Ctrl-C) was received.
    Interrupt,
}

impl CancelReason {
    /// How severe the reason is, from 0 for the least severe.
    pub open spec fn spec_severity(self) -> u8 {
        match self {
            CancelReason::SetupScriptFailure => 0,
            CancelReason::TestFailure => 1,
            CancelReason::ReportError => 2,
            CancelReason::Signal => 3,
            CancelReason::Interrupt => 4,
        }
    }

    /// What the reason reads as in a message.
    pub open spec fn spec_to_static_str(self) -> Seq<char> {
        match self {
            CancelReason::SetupScriptFailure => "setup script failure"@,
            CancelReason::TestFailure => "test failure"@,
            CancelReason::ReportError => "reporting error"@,
            CancelReason::Signal => "signal"@,
            CancelReason::Interrupt => "interrupt"@,
        }
    }

    /// The units that are running are terminated for this reason, not left
    /// to finish.
    pub open spec fn spec_terminates_units(self) -> bool {
        self is Signal || self is Interrupt
    }

    /// Returns how severe the reason is, from 0 for the least severe.
    #[verifier::when_used_as_spec(spec_severity)]
    pub fn severity(self) -> (rank: u8)
        ensures
            rank == self.spec_severity(),
    {
        match self {
            CancelReason::SetupScriptFailure => 0,
            CancelReason::TestFailure => 1,
            CancelReason::ReportError => 2,
            CancelReason::Signal => 3,
            CancelReason::Interrupt => 4,
        }
    }

    /// Returns what the reason reads as in a message.
    pub fn to_static_str(self) -> (text: &'static str)
        ensures
            text@ == self.spec_to_static_str(),
    {
        match self {
            CancelReason::SetupScriptFailure => "setup script failure",
            CancelReason::TestFailure => "test failure",
            CancelReason::ReportError => "reporting error",
            CancelReason::Signal => "signal",
            CancelReason::Interrupt => "interrupt",
        }
    }

    /// Returns true if the units that are running are terminated for this
    /// reason: for a signal and for an interrupt. For the other reasons they
    /// are left to finish.
    #[verifier::when_used_as_spec(spec_terminates_units)]
    pub fn terminates_units(self) -> (terminates: bool)
        ensures
            terminates == self.spec_terminates_units(),
    {
        match self {
            CancelReason::Signal | CancelReason::Interrupt => true,
            CancelReason::SetupScriptFailure
            | CancelReason::TestFailure
            | CancelReason::ReportError => false,
        }
    }
}

impl PartialOrd for CancelReason {
    fn partial_cmp(&self, other: &Self) -> (order: Option<Ordering>) {
        let left = self.severity();
        let right = other.severity();
        if left < right {
            Some(Ordering::Less)
        } else if left == right {
            Some(Ordering::Equal)
        } else {
            Some(Ordering::Greater)
        }
    }
}

impl PartialOrdSpecImpl for CancelReason {
    open spec fn obeys_partial_cmp_spec() -> bool {
        true
    }

    open spec fn partial_cmp_spec(&self, other: &Self) -> Option<Ordering> {
        if self.severity() < other.severity() {
            Some(Ordering::Less)
        } else if self.severity() == other.severity() {
            Some(Ordering::Equal)
        } else {
            Some(Ordering::Greater)
        }
    }
}

/// The reason that stands after `raised` is raised while `current` stands:
/// the more severe of the two, and `current` where they are equally severe.
pub open spec fn spec_escalate(current: Option<CancelReason>, raised: CancelReason)
    -> CancelReason {
    match current {
        Some(standing) if standing.severity() >= raised.severity() => standing,
        _ => raised,
    }
}

/// Raises a reason to cancel while `current` stands, and returns the reason
/// that stands afterwards. A more severe reason takes the place of a less
/// severe one; a run that is cancelled stays cancelled, for a reason no less
/// severe than before.
pub fn escalate(current: Option<CancelReason>, raised: CancelReason) -> (standing: CancelReason)
    ensures
        standing == spec_escalate(current, raised),
        standing.severity() >= raised.severity(),
        current matches Some(before) ==> standing.severity() >= before.severity(),
        standing == raised || current == Some(standing),
{
    match current {
        Some(before) => {
            if before.severity() >= raised.severity() {
                before
            } else {
                raised
            }
        },
        None => raised,
    }
}

/// Where two reasons to cancel are raised one after the other, the order in
/// which they are raised does not decide how severe the standing reason is.
pub proof fn lemma_escalate_commutes(
    current: Option<CancelReason>,
    first: CancelReason,
    second: CancelReason,
)
    ensures
        spec_escalate(Some(spec_escalate(current, first)), second).severity() == spec_escalate(
            Some(spec_escalate(current, second)),
            first,
        ).severity(),
{
}

/// The reasons are ordered by how severe they are: a failed setup script is
/// the least severe, then a failed test, an error in reporting, a signal,
/// and an interrupt.
pub proof fn lemma_severity_order()
    ensures
        CancelReason::SetupScriptFailure.severity() < CancelReason::TestFailure.severity(),
        CancelReason::TestFailure.severity() < CancelReason::ReportError.severity(),
        CancelReason::ReportError.severity() < CancelReason::Signal.severity(),
        CancelReason::Signal.severity() < CancelReason::Interrupt.severity(),
        forall|a: CancelReason, b: CancelReason| a.severity() == b.severity() ==> a == b,
{
}

} // verus!
