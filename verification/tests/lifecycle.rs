use mabi_core::device::DeviceState;
use mabi_core::lifecycle::LifecycleStateMachine;
use mabi_core::time::Duration;

#[test]
fn test_lifecycle_state_machine_transitions() {
    let mut sm = LifecycleStateMachine::new();

    assert_eq!(sm.state(), DeviceState::Uninitialized);

    sm.transition_to(DeviceState::Initializing).unwrap();
    assert_eq!(sm.state(), DeviceState::Initializing);

    sm.transition_to(DeviceState::Offline).unwrap();
    assert_eq!(sm.state(), DeviceState::Offline);

    sm.transition_to(DeviceState::Online).unwrap();
    assert_eq!(sm.state(), DeviceState::Online);
}

#[test]
fn test_lifecycle_state_machine_invalid_transition() {
    let mut sm = LifecycleStateMachine::new();

    let result = sm.transition_to(DeviceState::Online);
    assert!(result.is_err());
}

#[test]
fn test_lifecycle_state_machine_error_handling() {
    let mut sm = LifecycleStateMachine::new().with_retries(3, Duration::from_millis(100));

    assert!(!sm.record_error());
    assert!(!sm.record_error());
    assert!(!sm.record_error());
    assert!(sm.record_error());

    assert_eq!(sm.error_count(), 4);

    sm.reset_errors();
    assert_eq!(sm.error_count(), 0);
}

#[test]
fn test_lifecycle_valid_transitions() {
    let sm = LifecycleStateMachine::new();

    assert!(sm.can_transition_to(DeviceState::Initializing));
    assert!(sm.can_transition_to(DeviceState::Error));
    assert!(!sm.can_transition_to(DeviceState::Online));
    assert!(!sm.can_transition_to(DeviceState::ShuttingDown));
}

#[test]
fn refused_transition_message_and_error_reset() {
    let mut sm = LifecycleStateMachine::new();
    match sm.transition_to(DeviceState::Online) {
        Err(mabi_core::error::Error::Engine(m)) => {
            assert_eq!(m, "Invalid state transition: Uninitialized -> Online")
        }
        _ => panic!("expected an engine error"),
    }
    assert!(sm.time_in_state().is_none());
    assert!(sm.can_retry());
    sm.record_error();
    assert_eq!(sm.transition_to(DeviceState::Error).unwrap(), DeviceState::Uninitialized);
    assert_eq!(sm.error_count(), 1);
    sm.transition_to(DeviceState::Initializing).unwrap();
    assert_eq!(sm.error_count(), 0);
    assert!(sm.time_in_state().is_some());
    assert!(sm.retry_allowed_after(Duration::from_secs(1)));
    assert!(!sm.retry_allowed_after(Duration::from_millis(999)));
}
