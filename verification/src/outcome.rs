//! Handler outcomes, the error taxonomy, and the persisted outcome record.
//!
//! A handler reports one of four outcomes. Each outcome carries the source
//! location of the call site that built it, handed in explicitly by the
//! caller.

use vstd::prelude::*;

verus! {

/// A file name and line, recorded on every outcome for observability.
#[derive(Debug, Clone, Copy, PartialEq, Eq)]
pub struct SourceLocation {
    pub file: &'static str,
    pub line: u32,
}

impl SourceLocation {
    pub fn new(file: &'static str, line: u32) -> (r: SourceLocation)
        ensures
            r.file == file,
            r.line == line,
    {
        SourceLocation { file, line }
    }
}

/// What a state handler decided for one object in one iteration.
#[derive(Debug)]
pub enum StateHandlerOutcome<S> {
    /// The object is not ready to advance; record the reason.
    Wait { reason: String, source_ref: SourceLocation },
    /// Persist `next_state`, bump the state version and append history.
    Transition { next_state: S, source_ref: SourceLocation },
    /// Steady state; only the outcome record is persisted.
    DoNothing { source_ref: SourceLocation },
    /// Final: the object row is removed from storage.
    Deleted { source_ref: SourceLocation },
}

impl<S> StateHandlerOutcome<S> {
    pub fn do_nothing(source_ref: SourceLocation) -> (r: Self)
        ensures
            r == (StateHandlerOutcome::DoNothing::<S> { source_ref }),
    {
        StateHandlerOutcome::DoNothing { source_ref }
    }

    pub fn transition(next_state: S, source_ref: SourceLocation) -> (r: Self)
        ensures
            r == (StateHandlerOutcome::Transition::<S> { next_state, source_ref }),
    {
        StateHandlerOutcome::Transition { next_state, source_ref }
    }

    pub fn wait(reason: String, source_ref: SourceLocation) -> (r: Self)
        ensures
            r == (StateHandlerOutcome::Wait::<S> { reason, source_ref }),
    {
        StateHandlerOutcome::Wait { reason, source_ref }
    }

    pub fn deleted(source_ref: SourceLocation) -> (r: Self)
        ensures
            r == (StateHandlerOutcome::Deleted::<S> { source_ref }),
    {
        StateHandlerOutcome::Deleted { source_ref }
    }

    /// The source location the outcome was built with.
    pub fn source_ref(&self) -> (r: SourceLocation)
        ensures
            r == match *self {
                StateHandlerOutcome::Wait { source_ref, .. } => source_ref,
                StateHandlerOutcome::Transition { source_ref, .. } => source_ref,
                StateHandlerOutcome::DoNothing { source_ref, .. } => source_ref,
                StateHandlerOutcome::Deleted { source_ref, .. } => source_ref,
            },
    {
        match self {
            StateHandlerOutcome::Wait { source_ref, .. } => *source_ref,
            StateHandlerOutcome::Transition { source_ref, .. } => *source_ref,
            StateHandlerOutcome::DoNothing { source_ref, .. } => *source_ref,
            StateHandlerOutcome::Deleted { source_ref, .. } => *source_ref,
        }
    }
}

/// Why a handler failed. Each kind carries its inputs as plain values.
#[derive(Debug)]
pub enum StateHandlerError {
    TransactionError { detail: String },
    GenericError { detail: String },
    MissingData { object_id: String, missing: String },
    DBError { detail: String },
    PoolReleaseError { detail: String },
    InvalidHostState { machine_id: u128, state: String },
    IBFabricError { operation: String, error: String },
    RedfishClientCreationError { detail: String },
    Timeout { object_id: String, state: String },
    RedfishError { operation: String, error: String },
    FirmwareUpdateError { detail: String },
    ManualInterventionRequired { detail: String },
    InvalidState { detail: String },
    HealthProbeAlert,
    TimeInStateAboveSla { handler_outcome: String },
    ResourceCleanupError { resource: String, error: String },
    SpdmError { detail: String },
    RackManagerError { detail: String },
    DpfError { detail: String },
}

impl StateHandlerError {
    /// The label that identifies the error in metrics: a simplified
    /// description from a closed set, so metric cardinality stays bounded.
    pub fn metric_label(&self) -> (r: &'static str)
        ensures
            r@ == match *self {
                StateHandlerError::TransactionError { .. } => "transaction_error"@,
                StateHandlerError::GenericError { .. } => "generic_error"@,
                StateHandlerError::FirmwareUpdateError { .. } => "firware_update_error"@,
                StateHandlerError::MissingData { .. } => "missing_data"@,
                StateHandlerError::DBError { .. } => "db_error"@,
                StateHandlerError::Timeout { .. } => "timeout"@,
                StateHandlerError::PoolReleaseError { .. } => "pool_release_error"@,
                StateHandlerError::InvalidHostState { .. } => "invalid_host_state"@,
                StateHandlerError::IBFabricError { .. } => "ib_fabric_error"@,
                StateHandlerError::InvalidState { .. } => "invalid_state"@,
                StateHandlerError::RedfishClientCreationError { .. } => "redfish_client_creation_error"@,
                StateHandlerError::RedfishError { operation, .. } => if operation@
                    == "restart"@ {
                    "redfish_restart_error"@
                } else if operation@ == "lockdown"@ {
                    "redfish_lockdown_error"@
                } else {
                    "redfish_other_error"@
                },
                StateHandlerError::ManualInterventionRequired { .. } => "manual_intervention_required"@,
                StateHandlerError::HealthProbeAlert => "health_probe_alert"@,
                StateHandlerError::TimeInStateAboveSla { .. } => "time_in_state_above_sla"@,
                StateHandlerError::ResourceCleanupError { resource, .. } => if resource@
                    == "VpcLoopbackIp"@ {
                    "vpcloopback_release_failed"@
                } else if resource@ == "network_segment"@ {
                    "network_segment_cleanup_failed"@
                } else {
                    "resource_cleanup_failed"@
                },
                StateHandlerError::SpdmError { .. } => "spdm_attestation_error"@,
                StateHandlerError::RackManagerError { .. } => "rack_manager_error"@,
                StateHandlerError::DpfError { .. } => "dpf_error"@,
            },
    {
        match self {
            StateHandlerError::TransactionError { .. } => "transaction_error",
            StateHandlerError::GenericError { .. } => "generic_error",
            StateHandlerError::FirmwareUpdateError { .. } => "firware_update_error",
            StateHandlerError::MissingData { .. } => "missing_data",
            StateHandlerError::DBError { .. } => "db_error",
            StateHandlerError::Timeout { .. } => "timeout",
            StateHandlerError::PoolReleaseError { .. } => "pool_release_error",
            StateHandlerError::InvalidHostState { .. } => "invalid_host_state",
            StateHandlerError::IBFabricError { .. } => "ib_fabric_error",
            StateHandlerError::InvalidState { .. } => "invalid_state",
            StateHandlerError::RedfishClientCreationError { .. } => "redfish_client_creation_error",
            StateHandlerError::RedfishError { operation, .. } => {
                let restart: String = "restart".to_string();
                let lockdown: String = "lockdown".to_string();
                if *operation == restart {
                    "redfish_restart_error"
                } else if *operation == lockdown {
                    "redfish_lockdown_error"
                } else {
                    "redfish_other_error"
                }
            },
            StateHandlerError::ManualInterventionRequired { .. } => "manual_intervention_required",
            StateHandlerError::HealthProbeAlert => "health_probe_alert",
            StateHandlerError::TimeInStateAboveSla { .. } => "time_in_state_above_sla",
            StateHandlerError::ResourceCleanupError { resource, .. } => {
                let vpc_loopback: String = "VpcLoopbackIp".to_string();
                let network_segment: String = "network_segment".to_string();
                if *resource == vpc_loopback {
                    "vpcloopback_release_failed"
                } else if *resource == network_segment {
                    "network_segment_cleanup_failed"
                } else {
                    "resource_cleanup_failed"
                }
            },
            StateHandlerError::SpdmError { .. } => "spdm_attestation_error",
            StateHandlerError::RackManagerError { .. } => "rack_manager_error",
            StateHandlerError::DpfError { .. } => "dpf_error",
        }
    }

    /// A short description of the error, for the persisted outcome record.
    pub fn describe(&self) -> (r: String)
        ensures
            r@ == self.metric_label_view(),
    {
        self.metric_label().to_string()
    }

    /// Spec-level label of the error.
    pub open spec fn metric_label_view(&self) -> Seq<char> {
        match *self {
            StateHandlerError::TransactionError { .. } => "transaction_error"@,
            StateHandlerError::GenericError { .. } => "generic_error"@,
            StateHandlerError::FirmwareUpdateError { .. } => "firware_update_error"@,
            StateHandlerError::MissingData { .. } => "missing_data"@,
            StateHandlerError::DBError { .. } => "db_error"@,
            StateHandlerError::Timeout { .. } => "timeout"@,
            StateHandlerError::PoolReleaseError { .. } => "pool_release_error"@,
            StateHandlerError::InvalidHostState { .. } => "invalid_host_state"@,
            StateHandlerError::IBFabricError { .. } => "ib_fabric_error"@,
            StateHandlerError::InvalidState { .. } => "invalid_state"@,
            StateHandlerError::RedfishClientCreationError { .. } => "redfish_client_creation_error"@,
            StateHandlerError::RedfishError { operation, .. } => if operation@ == "restart"@ {
                "redfish_restart_error"@
            } else if operation@ == "lockdown"@ {
                "redfish_lockdown_error"@
            } else {
                "redfish_other_error"@
            },
            StateHandlerError::ManualInterventionRequired { .. } => "manual_intervention_required"@,
            StateHandlerError::HealthProbeAlert => "health_probe_alert"@,
            StateHandlerError::TimeInStateAboveSla { .. } => "time_in_state_above_sla"@,
            StateHandlerError::ResourceCleanupError { resource, .. } => if resource@
                == "VpcLoopbackIp"@ {
                "vpcloopback_release_failed"@
            } else if resource@ == "network_segment"@ {
                "network_segment_cleanup_failed"@
            } else {
                "resource_cleanup_failed"@
            },
            StateHandlerError::SpdmError { .. } => "spdm_attestation_error"@,
            StateHandlerError::RackManagerError { .. } => "rack_manager_error"@,
            StateHandlerError::DpfError { .. } => "dpf_error"@,
        }
    }
}

/// The outcome record persisted on the object row: the most recent handler
/// result, without the attached state payload.
#[derive(Debug, Clone, PartialEq, Eq)]
pub enum PersistentStateHandlerOutcome {
    Wait { reason: String, source_ref: Option<SourceLocation> },
    Transition { source_ref: Option<SourceLocation> },
    DoNothing { source_ref: Option<SourceLocation> },
    Error { err: String, source_ref: Option<SourceLocation> },
}

/// Building a persisted record from a handler result.
pub trait FromStateHandlerResult<S>: Sized {
    fn from_result(r: Result<&StateHandlerOutcome<S>, &StateHandlerError>) -> Self
        requires
            !(r matches Ok(StateHandlerOutcome::Deleted { .. })),
    ;
}

impl<S> FromStateHandlerResult<S> for PersistentStateHandlerOutcome {
    /// A `Deleted` outcome is never persisted: the row it would be recorded
    /// on is removed instead.
    fn from_result(
        r: Result<&StateHandlerOutcome<S>, &StateHandlerError>,
    ) -> (out: PersistentStateHandlerOutcome)
        ensures
            match r {
                Ok(StateHandlerOutcome::Wait { reason, source_ref }) => out == (
                PersistentStateHandlerOutcome::Wait {
                    reason: *reason,
                    source_ref: Some(*source_ref),
                }),
                Ok(StateHandlerOutcome::Transition { source_ref, .. }) => out == (
                PersistentStateHandlerOutcome::Transition { source_ref: Some(*source_ref) }),
                Ok(StateHandlerOutcome::DoNothing { source_ref }) => out == (
                PersistentStateHandlerOutcome::DoNothing { source_ref: Some(*source_ref) }),
                Ok(StateHandlerOutcome::Deleted { .. }) => true,
                Err(err) => out matches PersistentStateHandlerOutcome::Error {
                    err: e,
                    source_ref: s,
                } && e@ == err.metric_label_view() && s is None,
            },
    {
        match r {
            Ok(StateHandlerOutcome::Wait { reason, source_ref }) => {
                PersistentStateHandlerOutcome::Wait {
                    reason: reason.clone(),
                    source_ref: Some(*source_ref),
                }
            },
            Ok(StateHandlerOutcome::Transition { source_ref, .. }) => {
                PersistentStateHandlerOutcome::Transition { source_ref: Some(*source_ref) }
            },
            Ok(StateHandlerOutcome::DoNothing { source_ref }) => {
                PersistentStateHandlerOutcome::DoNothing { source_ref: Some(*source_ref) }
            },
            Ok(StateHandlerOutcome::Deleted { source_ref }) => {
                PersistentStateHandlerOutcome::DoNothing { source_ref: Some(*source_ref) }
            },
            Err(err) => PersistentStateHandlerOutcome::Error {
                err: err.describe(),
                source_ref: None,
            },
        }
    }
}

} // verus!
