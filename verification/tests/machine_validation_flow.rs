//! Decisions of the machine-validation stations.

use fleetcore::machine_validation::{
    machine_validation_next, validation_request_next, MachineValidatingState, ManagedHostState,
    ValidationAction, ValidationObservation, ValidationRequestActions,
};
use fleetcore::outcome::{SourceLocation, StateHandlerOutcome};

const SRC: SourceLocation = SourceLocation { file: "machine_validation_flow", line: 1 };
const MACHINE: u128 = 0x31;

fn observed(rebooted: bool, completed: bool, clear: bool) -> ValidationObservation {
    ValidationObservation {
        rebooted,
        validation_completed: completed,
        failure_cause_clear: clear,
    }
}

#[test]
fn reboot_station_restarts_and_starts_validating() {
    let (outcome, action) = machine_validation_next(
        &MachineValidatingState::RebootHost { validation_id: 55 },
        observed(false, false, true),
        true,
        MACHINE,
        "no failure".to_string(),
        "burn-in".to_string(),
        "waiting".to_string(),
        SRC,
    );
    assert_eq!(action, ValidationAction::ForceRestartHost);
    match outcome {
        StateHandlerOutcome::Transition { next_state, .. } => {
            assert_eq!(
                next_state,
                ManagedHostState::Validation {
                    machine_validation: MachineValidatingState::MachineValidating {
                        context: "burn-in".to_string(),
                        id: 55,
                        completed: 1,
                        total: 1,
                        is_enabled: true,
                    },
                }
            );
        }
        other => panic!("expected a transition, got {other:?}"),
    }
}

fn validating() -> MachineValidatingState {
    MachineValidatingState::MachineValidating {
        context: "burn-in".to_string(),
        id: 55,
        completed: 1,
        total: 1,
        is_enabled: true,
    }
}

#[test]
fn validating_host_waits_for_reboot() {
    let (outcome, action) = machine_validation_next(
        &validating(),
        observed(false, false, true),
        true,
        MACHINE,
        "no failure".to_string(),
        "burn-in".to_string(),
        "host still rebooting".to_string(),
        SRC,
    );
    assert_eq!(action, ValidationAction::Nothing);
    match outcome {
        StateHandlerOutcome::Wait { reason, .. } => assert_eq!(reason, "host still rebooting"),
        other => panic!("expected a wait, got {other:?}"),
    }
}

#[test]
fn disabled_validation_is_skipped() {
    let (outcome, action) = machine_validation_next(
        &validating(),
        observed(true, false, true),
        false,
        MACHINE,
        "no failure".to_string(),
        "burn-in".to_string(),
        "waiting".to_string(),
        SRC,
    );
    assert_eq!(action, ValidationAction::MarkValidationSkipped);
    assert!(matches!(
        outcome,
        StateHandlerOutcome::Transition {
            next_state: ManagedHostState::HostInit { skip_reboot_wait: true },
            ..
        }
    ));
}

#[test]
fn completed_validation_rediscovers_or_fails() {
    let (outcome, action) = machine_validation_next(
        &validating(),
        observed(true, true, true),
        true,
        MACHINE,
        "no failure".to_string(),
        "burn-in".to_string(),
        "waiting".to_string(),
        SRC,
    );
    assert_eq!(action, ValidationAction::ForceRestartHost);
    assert!(matches!(
        outcome,
        StateHandlerOutcome::Transition {
            next_state: ManagedHostState::HostInit { skip_reboot_wait: false },
            ..
        }
    ));
    let (outcome, action) = machine_validation_next(
        &validating(),
        observed(true, true, false),
        true,
        MACHINE,
        "disk probe failed".to_string(),
        "burn-in".to_string(),
        "waiting".to_string(),
        SRC,
    );
    assert_eq!(action, ValidationAction::Nothing);
    match outcome {
        StateHandlerOutcome::Transition { next_state, .. } => assert_eq!(
            next_state,
            ManagedHostState::Failed {
                details: "disk probe failed".to_string(),
                machine_id: MACHINE,
                retry_count: 0,
            }
        ),
        other => panic!("expected a failure transition, got {other:?}"),
    }
    let (outcome, _) = machine_validation_next(
        &validating(),
        observed(true, false, true),
        true,
        MACHINE,
        "no failure".to_string(),
        "burn-in".to_string(),
        "waiting".to_string(),
        SRC,
    );
    assert!(matches!(outcome, StateHandlerOutcome::DoNothing { .. }));
}

#[test]
fn validation_requests_start_runs_or_rearm() {
    // no request: nothing to decide
    assert!(validation_request_next(false, Some(55), true, SRC).is_none());
    // an active run moves the host to its reboot station
    let (outcome, actions) = validation_request_next(true, Some(55), true, SRC).unwrap();
    assert_eq!(
        actions,
        ValidationRequestActions { clear_failure_details: true, set_validation_request_flag: false }
    );
    assert!(matches!(
        outcome,
        StateHandlerOutcome::Transition {
            next_state: ManagedHostState::Validation {
                machine_validation: MachineValidatingState::RebootHost { validation_id: 55 },
            },
            ..
        }
    ));
    // without an active run the request flag is re-armed
    let (outcome, actions) = validation_request_next(true, None, false, SRC).unwrap();
    assert_eq!(
        actions,
        ValidationRequestActions { clear_failure_details: false, set_validation_request_flag: true }
    );
    assert!(matches!(outcome, StateHandlerOutcome::DoNothing { .. }));
}
