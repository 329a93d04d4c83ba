//! The machine-validation stations of the managed-host state machine: the
//! decisions, separated from the reboots and store reads that surround
//! them.

use vstd::prelude::*;

use crate::outcome::{SourceLocation, StateHandlerOutcome};

verus! {

/// Stations of a machine validation run.
#[derive(Debug, Clone, PartialEq, Eq)]
pub enum MachineValidatingState {
    /// The host is rebooted into the validation image.
    RebootHost { validation_id: u128 },
    /// The validation suite is running.
    MachineValidating {
        context: String,
        id: u128,
        completed: i32,
        total: i32,
        is_enabled: bool,
    },
}

/// The slice of the managed-host state machine these decisions move.
#[derive(Debug, Clone, PartialEq, Eq)]
pub enum ManagedHostState {
    /// Host bring-up; after validation the host is rediscovered.
    HostInit { skip_reboot_wait: bool },
    /// A validation station.
    Validation { machine_validation: MachineValidatingState },
    /// Validation surfaced a failure.
    Failed { details: String, machine_id: u128, retry_count: i32 },
}

/// What the iteration observed about the host, before deciding.
#[derive(Debug, Clone, Copy, PartialEq, Eq, Structural)]
pub struct ValidationObservation {
    /// Whether the host came back from the validation reboot.
    pub rebooted: bool,
    /// Whether the validation suite reported itself finished.
    pub validation_completed: bool,
    /// Whether the host carries no failure cause.
    pub failure_cause_clear: bool,
}

/// The side effect the caller must perform along with the returned outcome.
#[derive(Debug, Clone, Copy, PartialEq, Eq, Structural)]
pub enum ValidationAction {
    Nothing,
    /// Force-restart the host through its BMC.
    ForceRestartHost,
    /// Mark the validation run skipped in the store.
    MarkValidationSkipped,
}

/// Decide the next step of a validation run.
///
/// From `RebootHost` the host is restarted and validation begins under the
/// recorded context. While validating: a host that has not rebooted yet
/// waits with the caller's status; a disabled validation is marked skipped
/// and the host goes back to discovery without another reboot wait; a
/// completed validation rediscovers the host after a restart, or fails the
/// host if a failure cause stands; otherwise nothing happens.
pub fn machine_validation_next(
    machine_validation: &MachineValidatingState,
    observation: ValidationObservation,
    validation_enabled: bool,
    machine_id: u128,
    failure_details: String,
    stored_context: String,
    reboot_wait_status: String,
    src: SourceLocation,
) -> (r: (StateHandlerOutcome<ManagedHostState>, ValidationAction))
    ensures
        match *machine_validation {
            MachineValidatingState::RebootHost { validation_id } => {
                &&& r.1 == ValidationAction::ForceRestartHost
                &&& r.0 == (StateHandlerOutcome::Transition {
                    next_state: ManagedHostState::Validation {
                        machine_validation: MachineValidatingState::MachineValidating {
                            context: stored_context,
                            id: validation_id,
                            completed: 1,
                            total: 1,
                            is_enabled: validation_enabled,
                        },
                    },
                    source_ref: src,
                })
            },
            MachineValidatingState::MachineValidating { .. } => {
                if !observation.rebooted {
                    r.1 == ValidationAction::Nothing && r.0 == (
                    StateHandlerOutcome::Wait::<ManagedHostState> {
                        reason: reboot_wait_status,
                        source_ref: src,
                    })
                } else if !validation_enabled {
                    r.1 == ValidationAction::MarkValidationSkipped && r.0 == (
                    StateHandlerOutcome::Transition {
                        next_state: ManagedHostState::HostInit { skip_reboot_wait: true },
                        source_ref: src,
                    })
                } else if observation.validation_completed {
                    if observation.failure_cause_clear {
                        r.1 == ValidationAction::ForceRestartHost && r.0 == (
                        StateHandlerOutcome::Transition {
                            next_state: ManagedHostState::HostInit { skip_reboot_wait: false },
                            source_ref: src,
                        })
                    } else {
                        r.1 == ValidationAction::Nothing && r.0 == (StateHandlerOutcome::Transition {
                            next_state: ManagedHostState::Failed {
                                details: failure_details,
                                machine_id,
                                retry_count: 0,
                            },
                            source_ref: src,
                        })
                    }
                } else {
                    r.1 == ValidationAction::Nothing && r.0 == (
                    StateHandlerOutcome::DoNothing::<ManagedHostState> { source_ref: src })
                }
            },
        },
{
    match machine_validation {
        MachineValidatingState::RebootHost { validation_id } => {
            let next = ManagedHostState::Validation {
                machine_validation: MachineValidatingState::MachineValidating {
                    context: stored_context,
                    id: *validation_id,
                    completed: 1,
                    total: 1,
                    is_enabled: validation_enabled,
                },
            };
            (StateHandlerOutcome::transition(next, src), ValidationAction::ForceRestartHost)
        },
        MachineValidatingState::MachineValidating { .. } => {
            if !observation.rebooted {
                (StateHandlerOutcome::wait(reboot_wait_status, src), ValidationAction::Nothing)
            } else if !validation_enabled {
                (
                    StateHandlerOutcome::transition(
                        ManagedHostState::HostInit { skip_reboot_wait: true },
                        src,
                    ),
                    ValidationAction::MarkValidationSkipped,
                )
            } else if observation.validation_completed {
                if observation.failure_cause_clear {
                    (
                        StateHandlerOutcome::transition(
                            ManagedHostState::HostInit { skip_reboot_wait: false },
                            src,
                        ),
                        ValidationAction::ForceRestartHost,
                    )
                } else {
                    (
                        StateHandlerOutcome::transition(
                            ManagedHostState::Failed {
                                details: failure_details,
                                machine_id,
                                retry_count: 0,
                            },
                            src,
                        ),
                        ValidationAction::Nothing,
                    )
                }
            } else {
                (StateHandlerOutcome::do_nothing(src), ValidationAction::Nothing)
            }
        },
    }
}

/// The side effects a validation request decision asks for.
#[derive(Debug, Clone, Copy, PartialEq, Eq, Structural)]
pub struct ValidationRequestActions {
    /// Clear the recorded failure details so the state machine does not loop.
    pub clear_failure_details: bool,
    /// Re-arm the request flag because no active validation run was found.
    pub set_validation_request_flag: bool,
}

/// Decide whether a pending validation request starts a run: with an active
/// validation run on record the host moves to its reboot station; without
/// one the request flag is re-armed and nothing else happens; without a
/// request there is nothing to decide.
pub fn validation_request_next(
    validation_requested: bool,
    active_validation_id: Option<u128>,
    clear_failure_details: bool,
    src: SourceLocation,
) -> (r: Option<(StateHandlerOutcome<ManagedHostState>, ValidationRequestActions)>)
    ensures
        match r {
            None => !validation_requested,
            Some((o, a)) => {
                &&& validation_requested
                &&& a.clear_failure_details == clear_failure_details
                &&& match active_validation_id {
                    Some(vid) => !a.set_validation_request_flag && o == (
                    StateHandlerOutcome::Transition {
                        next_state: ManagedHostState::Validation {
                            machine_validation: MachineValidatingState::RebootHost {
                                validation_id: vid,
                            },
                        },
                        source_ref: src,
                    }),
                    None => a.set_validation_request_flag && o == (
                    StateHandlerOutcome::DoNothing::<ManagedHostState> { source_ref: src }),
                }
            },
        },
{
    if !validation_requested {
        return None;
    }
    match active_validation_id {
        Some(vid) => Some(
            (
                StateHandlerOutcome::transition(
                    ManagedHostState::Validation {
                        machine_validation: MachineValidatingState::RebootHost {
                            validation_id: vid,
                        },
                    },
                    src,
                ),
                ValidationRequestActions {
                    clear_failure_details,
                    set_validation_request_flag: false,
                },
            ),
        ),
        None => Some(
            (
                StateHandlerOutcome::do_nothing(src),
                ValidationRequestActions {
                    clear_failure_details,
                    set_validation_request_flag: true,
                },
            ),
        ),
    }
}

} // verus!
