use nextest_core::cancel::{escalate, CancelReason};

const BY_SEVERITY: [CancelReason; 5] = [
    CancelReason::SetupScriptFailure,
    CancelReason::TestFailure,
    CancelReason::ReportError,
    CancelReason::Signal,
    CancelReason::Interrupt,
];

#[test]
fn reasons_are_ordered_by_severity() {
    for (low, lower) in BY_SEVERITY.iter().enumerate() {
        assert_eq!(lower.severity() as usize, low);
        for (high, higher) in BY_SEVERITY.iter().enumerate() {
            assert_eq!(lower < higher, low < high);
            assert_eq!(lower <= higher, low <= high);
            assert_eq!(lower == higher, low == high);
            assert_eq!(lower.cmp(higher), low.cmp(&high));
            assert_eq!(lower.partial_cmp(higher), Some(low.cmp(&high)));
        }
    }
}

#[test]
fn none_is_below_every_reason() {
    for reason in BY_SEVERITY {
        assert!(None < Some(reason));
    }
    assert!(Some(CancelReason::TestFailure) < Some(CancelReason::Signal));
}

#[test]
fn reasons_read_as_in_messages() {
    assert_eq!(
        CancelReason::SetupScriptFailure.to_static_str(),
        "setup script failure"
    );
    assert_eq!(CancelReason::TestFailure.to_static_str(), "test failure");
    assert_eq!(CancelReason::ReportError.to_static_str(), "reporting error");
    assert_eq!(CancelReason::Signal.to_static_str(), "signal");
    assert_eq!(CancelReason::Interrupt.to_static_str(), "interrupt");
}

#[test]
fn only_signal_and_interrupt_terminate_units() {
    assert!(!CancelReason::SetupScriptFailure.terminates_units());
    assert!(!CancelReason::TestFailure.terminates_units());
    assert!(!CancelReason::ReportError.terminates_units());
    assert!(CancelReason::Signal.terminates_units());
    assert!(CancelReason::Interrupt.terminates_units());
}

#[test]
fn the_first_reason_stands() {
    for reason in BY_SEVERITY {
        assert_eq!(escalate(None, reason), reason);
    }
}

#[test]
fn a_more_severe_reason_takes_over() {
    assert_eq!(
        escalate(Some(CancelReason::TestFailure), CancelReason::Interrupt),
        CancelReason::Interrupt
    );
    assert_eq!(
        escalate(Some(CancelReason::SetupScriptFailure), CancelReason::TestFailure),
        CancelReason::TestFailure
    );
}

#[test]
fn a_less_severe_reason_changes_nothing() {
    assert_eq!(
        escalate(Some(CancelReason::Interrupt), CancelReason::TestFailure),
        CancelReason::Interrupt
    );
    assert_eq!(
        escalate(Some(CancelReason::Signal), CancelReason::Signal),
        CancelReason::Signal
    );
}

#[test]
fn cancellation_never_regresses() {
    for standing in BY_SEVERITY {
        for raised in BY_SEVERITY {
            let after = escalate(Some(standing), raised);
            assert!(after >= standing);
            assert!(after >= raised);
            assert!(after == standing || after == raised);
        }
    }
}

#[test]
fn fail_fast_and_interrupt_together_leave_the_interrupt() {
    let one = escalate(
        Some(escalate(None, CancelReason::TestFailure)),
        CancelReason::Interrupt,
    );
    let other = escalate(
        Some(escalate(None, CancelReason::Interrupt)),
        CancelReason::TestFailure,
    );
    assert_eq!(one, CancelReason::Interrupt);
    assert_eq!(other, CancelReason::Interrupt);
}
