//! Outcomes, source locations, persisted records and metric labels.

use fleetcore::firmware::{check_for_updates, HostFirmwareUpdateMetrics};
use fleetcore::managed_host::{
    maintenance_disable_blocker, select_primary_dpu_interfaces, MachineInterfaceInfo,
    PrimaryDpuSelectionError,
};
use fleetcore::outcome::{
    FromStateHandlerResult, PersistentStateHandlerOutcome, SourceLocation, StateHandlerError,
    StateHandlerOutcome,
};

#[test]
fn test_transition_source_location() {
    // every constructor records the location its caller hands in
    let out: StateHandlerOutcome<String> =
        StateHandlerOutcome::do_nothing(SourceLocation::new("state_handler", 41));
    assert_eq!(out.source_ref().line, 41);
    assert_eq!(out.source_ref().file, "state_handler");

    let out: StateHandlerOutcome<String> =
        StateHandlerOutcome::wait("reason".to_string(), SourceLocation::new("state_handler", 52));
    assert_eq!(out.source_ref().line, 52);
    assert_eq!(out.source_ref().file, "state_handler");

    let out: StateHandlerOutcome<String> = StateHandlerOutcome::transition(
        "next".to_string(),
        SourceLocation::new("state_handler", 63),
    );
    assert_eq!(out.source_ref().line, 63);
    assert_eq!(out.source_ref().file, "state_handler");

    let out: StateHandlerOutcome<String> =
        StateHandlerOutcome::deleted(SourceLocation::new("state_handler", 74));
    assert_eq!(out.source_ref().line, 74);
    assert_eq!(out.source_ref().file, "state_handler");
}

#[test]
fn persisted_outcome_mirrors_handler_result() {
    let src = SourceLocation::new("x", 9);
    let wait: StateHandlerOutcome<u32> = StateHandlerOutcome::wait("waiting on BMC".to_string(), src);
    let p = PersistentStateHandlerOutcome::from_result(Ok(&wait));
    assert_eq!(
        p,
        PersistentStateHandlerOutcome::Wait {
            reason: "waiting on BMC".to_string(),
            source_ref: Some(src)
        }
    );
    let t: StateHandlerOutcome<u32> = StateHandlerOutcome::transition(7, src);
    assert_eq!(
        PersistentStateHandlerOutcome::from_result(Ok(&t)),
        PersistentStateHandlerOutcome::Transition { source_ref: Some(src) }
    );
    let err = StateHandlerError::Timeout { object_id: "m1".to_string(), state: "Ready".to_string() };
    let p = PersistentStateHandlerOutcome::from_result(Err::<&StateHandlerOutcome<u32>, _>(&err));
    assert_eq!(
        p,
        PersistentStateHandlerOutcome::Error { err: "timeout".to_string(), source_ref: None }
    );
}

#[test]
fn metric_labels_stay_in_the_closed_set() {
    let cases: Vec<(StateHandlerError, &str)> = vec![
        (StateHandlerError::TransactionError { detail: "x".to_string() }, "transaction_error"),
        (StateHandlerError::GenericError { detail: "x".to_string() }, "generic_error"),
        (
            StateHandlerError::MissingData { object_id: "a".to_string(), missing: "bmc".to_string() },
            "missing_data",
        ),
        (StateHandlerError::DBError { detail: "x".to_string() }, "db_error"),
        (StateHandlerError::PoolReleaseError { detail: "x".to_string() }, "pool_release_error"),
        (
            StateHandlerError::InvalidHostState { machine_id: 3, state: "Off".to_string() },
            "invalid_host_state",
        ),
        (
            StateHandlerError::IBFabricError { operation: "join".to_string(), error: "e".to_string() },
            "ib_fabric_error",
        ),
        (
            StateHandlerError::RedfishClientCreationError { detail: "x".to_string() },
            "redfish_client_creation_error",
        ),
        (
            StateHandlerError::Timeout { object_id: "a".to_string(), state: "s".to_string() },
            "timeout",
        ),
        (
            StateHandlerError::RedfishError {
                operation: "restart".to_string(),
                error: "e".to_string(),
            },
            "redfish_restart_error",
        ),
        (
            StateHandlerError::RedfishError {
                operation: "lockdown".to_string(),
                error: "e".to_string(),
            },
            "redfish_lockdown_error",
        ),
        (
            StateHandlerError::RedfishError { operation: "power".to_string(), error: "e".to_string() },
            "redfish_other_error",
        ),
        (StateHandlerError::FirmwareUpdateError { detail: "x".to_string() }, "firware_update_error"),
        (
            StateHandlerError::ManualInterventionRequired { detail: "x".to_string() },
            "manual_intervention_required",
        ),
        (StateHandlerError::InvalidState { detail: "x".to_string() }, "invalid_state"),
        (StateHandlerError::HealthProbeAlert, "health_probe_alert"),
        (
            StateHandlerError::TimeInStateAboveSla { handler_outcome: "wait".to_string() },
            "time_in_state_above_sla",
        ),
        (
            StateHandlerError::ResourceCleanupError {
                resource: "VpcLoopbackIp".to_string(),
                error: "e".to_string(),
            },
            "vpcloopback_release_failed",
        ),
        (
            StateHandlerError::ResourceCleanupError {
                resource: "network_segment".to_string(),
                error: "e".to_string(),
            },
            "network_segment_cleanup_failed",
        ),
        (
            StateHandlerError::ResourceCleanupError {
                resource: "vlan".to_string(),
                error: "e".to_string(),
            },
            "resource_cleanup_failed",
        ),
        (StateHandlerError::SpdmError { detail: "x".to_string() }, "spdm_attestation_error"),
        (StateHandlerError::RackManagerError { detail: "x".to_string() }, "rack_manager_error"),
        (StateHandlerError::DpfError { detail: "x".to_string() }, "dpf_error"),
    ];
    for (err, label) in cases {
        assert_eq!(err.metric_label(), label);
    }
}

#[test]
fn firmware_update_selection_respects_budget_and_disabled_list() {
    let m = HostFirmwareUpdateMetrics::new();
    assert_eq!(m.pending_firmware_updates, 0);
    assert_eq!(m.active_firmware_updates, 0);
    let needed = vec![10u128, 11, 12, 13];
    assert_eq!(check_for_updates(&needed, &Vec::new(), 0), Vec::<u128>::new());
    assert_eq!(check_for_updates(&needed, &Vec::new(), 2), vec![10, 11]);
    assert_eq!(check_for_updates(&needed, &Vec::new(), -1), vec![10, 11, 12, 13]);
    // the walk stops at the first disabled machine
    assert_eq!(check_for_updates(&needed, &vec![12], 10), vec![10, 11]);
}

#[test]
fn primary_dpu_selection_finds_the_pair() {
    let interfaces = vec![
        MachineInterfaceInfo {
            id: 100,
            primary_interface: true,
            attached_dpu_machine_id: Some(7),
            mac_address: 1,
        },
        MachineInterfaceInfo {
            id: 101,
            primary_interface: false,
            attached_dpu_machine_id: Some(8),
            mac_address: 2,
        },
    ];
    assert_eq!(select_primary_dpu_interfaces(&interfaces, 8), Ok((100, 1)));
    assert_eq!(
        select_primary_dpu_interfaces(&interfaces, 7),
        Err(PrimaryDpuSelectionError::AlreadyPrimary)
    );
    assert_eq!(
        select_primary_dpu_interfaces(&interfaces, 9),
        Err(PrimaryDpuSelectionError::NoNewPrimary)
    );
    let no_primary = vec![MachineInterfaceInfo {
        id: 100,
        primary_interface: false,
        attached_dpu_machine_id: Some(8),
        mac_address: 1,
    }];
    assert_eq!(
        select_primary_dpu_interfaces(&no_primary, 8),
        Err(PrimaryDpuSelectionError::NoCurrentPrimary)
    );
}

#[test]
fn maintenance_disable_blocked_by_pending_reprovisioning() {
    assert_eq!(maintenance_disable_blocker(&vec![(1, false), (2, true)]), Some(2));
    assert_eq!(maintenance_disable_blocker(&vec![(1, false), (2, false)]), None);
}
