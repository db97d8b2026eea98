use syspulse::lifecycle::LifecycleState;
use syspulse::lifecycle::LifecycleState::{Failed, Running, Scheduled, Starting, Stopped, Stopping};

#[test]
fn valid_transitions() {
    let valid = vec![
        (Stopped, Starting),
        (Stopped, Scheduled),
        (Starting, Running),
        (Starting, Failed),
        (Starting, Stopping),
        (Running, Stopping),
        (Running, Failed),
        (Stopping, Stopped),
        (Stopping, Failed),
        (Failed, Starting),
        (Failed, Stopped),
        (Scheduled, Starting),
        (Scheduled, Stopped),
    ];

    for (from, to) in valid {
        assert!(from.can_transition_to(to), "{:?} -> {:?} should be valid", from, to);
        assert!(
            from.transition_to(to).is_ok(),
            "{:?} -> {:?} transition_to should succeed",
            from,
            to
        );
    }
}

#[test]
fn invalid_transitions() {
    let invalid = vec![
        (Stopped, Running),
        (Stopped, Stopping),
        (Stopped, Failed),
        (Starting, Stopped),
        (Starting, Scheduled),
        (Running, Starting),
        (Running, Stopped),
        (Running, Scheduled),
        (Stopping, Starting),
        (Stopping, Running),
        (Stopping, Scheduled),
        (Failed, Running),
        (Failed, Stopping),
        (Failed, Scheduled),
        (Scheduled, Running),
        (Scheduled, Stopping),
        (Scheduled, Failed),
    ];

    for (from, to) in invalid {
        assert!(!from.can_transition_to(to), "{:?} -> {:?} should be invalid", from, to);
        assert!(
            from.transition_to(to).is_err(),
            "{:?} -> {:?} transition_to should fail",
            from,
            to
        );
    }
}

#[test]
fn self_transitions_are_invalid() {
    let all_states = vec![Stopped, Starting, Running, Stopping, Failed, Scheduled];
    for state in all_states {
        assert!(
            !state.can_transition_to(state),
            "{:?} -> {:?} self-transition should be invalid",
            state,
            state
        );
    }
}

#[test]
fn is_active() {
    assert!(!Stopped.is_active());
    assert!(Starting.is_active());
    assert!(Running.is_active());
    assert!(Stopping.is_active());
    assert!(!Failed.is_active());
    assert!(!Scheduled.is_active());
}

#[test]
fn display() {
    assert_eq!(Stopped.to_string(), "stopped");
    assert_eq!(Starting.to_string(), "starting");
    assert_eq!(Running.to_string(), "running");
    assert_eq!(Stopping.to_string(), "stopping");
    assert_eq!(Failed.to_string(), "failed");
    assert_eq!(Scheduled.to_string(), "scheduled");
}

#[test]
fn every_pair_outside_the_table_is_refused_with_names() {
    let all = [Stopped, Starting, Running, Stopping, Failed, Scheduled];
    let mut allowed = 0;
    for from in all {
        for to in all {
            match from.transition_to(to) {
                Ok(s) => {
                    allowed += 1;
                    assert_eq!(s, to);
                }
                Err(syspulse::error::SyspulseError::InvalidStateTransition { from: f, to: t }) => {
                    assert_eq!(f, from.name());
                    assert_eq!(t, to.name());
                }
                Err(e) => panic!("unexpected error {:?}", e),
            }
        }
    }
    assert_eq!(allowed, 13);
}

#[test]
fn transition_error_reports_409_and_message() {
    let e = LifecycleState::Running.transition_to(LifecycleState::Starting).unwrap_err();
    assert_eq!(e.code(), 409);
    assert_eq!(e.message(), "Invalid state transition from \"Running\" to \"Starting\"");
}
