//! The reconciliation core: transitions, deletion, SLA escalation, leases
//! and error outcomes.

use fleetcore::controller::{finalize_outcome, process_object, DbReader, ObjectRow, ObjectStore};
use fleetcore::lease::LeaseTable;
use fleetcore::outcome::{
    PersistentStateHandlerOutcome, SourceLocation, StateHandlerError, StateHandlerOutcome,
};
use fleetcore::segment::{NetworkSegmentControllerState, NetworkSegmentDeletionState};
use fleetcore::segment_handler::{
    segment_next_outcome, NetworkSegmentMetrics, NetworkSegmentServices,
    NetworkSegmentStateHandler,
};
use fleetcore::state_handler::{StateHandler, StateHandlerContext};
use fleetcore::resource_pool::ResourcePool;
use fleetcore::version::{ConfigVersion, StateSla};
use fleetcore::write_batch::{DbWriteBatch, MachineTable};

const OBJECT: u128 = 0x51;
const SRC: SourceLocation = SourceLocation { file: "controller_flow", line: 1 };

/// A minimal segment payload for the store.
#[derive(Debug, Clone, Copy, PartialEq, Eq)]
struct SegmentData {
    deleted: Option<i64>,
    vni: Option<i32>,
    vlan_id: Option<i16>,
}

fn store_with(
    cs: NetworkSegmentControllerState,
) -> ObjectStore<SegmentData, NetworkSegmentControllerState> {
    let mut store = ObjectStore::new();
    store.insert_row(ObjectRow {
        id: OBJECT,
        state: SegmentData { deleted: None, vni: Some(700), vlan_id: Some(42) },
        controller_state: cs,
        version: ConfigVersion { serial: 3, timestamp_micros: 1_000_000 },
        outcome: None,
        history: Vec::new(),
    });
    store
}

#[test]
fn provisioning_to_ready_transition() {
    // the handler decides the transition...
    let outcome = segment_next_outcome(
        &NetworkSegmentControllerState::Provisioning,
        false,
        0,
        2_000_000,
        10_000_000,
        SRC,
    );
    assert!(matches!(
        outcome,
        StateHandlerOutcome::Transition { next_state: NetworkSegmentControllerState::Ready, .. }
    ));
    // ...and finalize persists it: new state, one history row, larger version
    let mut store = store_with(NetworkSegmentControllerState::Provisioning);
    let mut machines = MachineTable::new();
    let history_before = store.rows[0].history.len();
    let version_before = store.rows[0].version.serial;
    let r = finalize_outcome(
        &mut store,
        &mut machines,
        OBJECT,
        outcome,
        DbWriteBatch::new(),
        2_000_000,
        true,
    );
    assert!(r.is_ok());
    let row = &store.rows[0];
    assert_eq!(row.controller_state, NetworkSegmentControllerState::Ready);
    assert_eq!(row.history.len(), history_before + 1);
    assert_eq!(row.history[history_before].state, NetworkSegmentControllerState::Ready);
    assert!(row.version.serial > version_before);
    assert_eq!(row.version.timestamp_micros, 2_000_000);
    assert!(matches!(row.outcome, Some(PersistentStateHandlerOutcome::Transition { .. })));
}

#[test]
fn deleted_sweep_removes_row_and_releases_resources() {
    // a segment in the final deletion station, marked deleted
    let handler = NetworkSegmentStateHandler::new(10_000_000);
    let mut store = store_with(NetworkSegmentControllerState::Deleting {
        deletion_state: NetworkSegmentDeletionState::DBDelete,
    });
    let mut machines = MachineTable::new();
    let mut ctx: StateHandlerContext<
        fleetcore::segment_handler::NetworkSegmentStateHandlerContextObjects,
    > = StateHandlerContext {
        services: NetworkSegmentServices {
            allocated_ip_count: 0,
            now_micros: 2_000_000,
            vni_pool: ResourcePool::new(),
            vlan_pool: ResourcePool::new(),
        },
        metrics: NetworkSegmentMetrics::default(),
        pending_db_writes: DbWriteBatch::new(),
    };
    // run the handler against the full segment model
    let mut segment = fleetcore::segment::NetworkSegment {
        id: OBJECT,
        version: ConfigVersion::initial(0),
        name: "doomed".to_string(),
        subdomain_id: None,
        vpc_id: Some(1),
        mtu: 1500,
        controller_state: fleetcore::version::Versioned {
            value: NetworkSegmentControllerState::Deleting {
                deletion_state: NetworkSegmentDeletionState::DBDelete,
            },
            version: ConfigVersion::initial(0),
        },
        controller_state_outcome: None,
        created: 0,
        updated: 0,
        deleted: Some(1_500_000),
        prefixes: Vec::new(),
        history: Vec::new(),
        vlan_id: Some(42),
        vni: Some(700),
        segment_type: fleetcore::segment::NetworkSegmentType::Tenant,
        can_stretch: None,
    };
    let cs = segment.controller_state.value;
    let outcome = handler
        .handle_object_state(&OBJECT, &mut segment, &cs, &mut ctx)
        .unwrap();
    assert!(matches!(outcome, StateHandlerOutcome::Deleted { .. }));
    // the pool-backed resources were released
    assert_eq!(ctx.services.vni_pool.free, vec![700]);
    assert_eq!(ctx.services.vlan_pool.free, vec![42]);
    assert_eq!(segment.vni, None);
    assert_eq!(segment.vlan_id, None);
    // finalize removes the row; reloading by id finds nothing
    let r = finalize_outcome(
        &mut store,
        &mut machines,
        OBJECT,
        outcome,
        ctx.pending_db_writes,
        2_000_000,
        true,
    );
    assert!(r.is_ok());
    assert!(!store.lookup_exists(OBJECT));
    assert_eq!(store.list_candidate_ids(), Vec::<u128>::new());
}

#[test]
fn sla_escalation_reports_once_and_keeps_state() {
    // the object sat in Provisioning past its 10 s SLA; the handler would wait
    let mut store = store_with(NetworkSegmentControllerState::Provisioning);
    let mut machines = MachineTable::new();
    let wait: StateHandlerOutcome<NetworkSegmentControllerState> =
        StateHandlerOutcome::wait("still provisioning".to_string(), SRC);
    let sla = StateSla::with_sla(10_000_000, 11_000_000);
    let state_before = store.rows[0].controller_state;
    let version_before = store.rows[0].version;
    let entry = process_object(
        &mut store,
        &mut machines,
        OBJECT,
        Ok(wait),
        DbWriteBatch::new(),
        sla,
        12_000_000,
        true,
    );
    assert_eq!(entry.object_id, OBJECT);
    assert!(entry.sla_breach);
    assert_eq!(entry.label.as_deref(), Some("time_in_state_above_sla"));
    // the persisted outcome still carries the wait reason; state unchanged
    let row = &store.rows[0];
    match &row.outcome {
        Some(PersistentStateHandlerOutcome::Wait { reason, .. }) => {
            assert_eq!(reason.as_str(), "still provisioning");
        }
        other => panic!("outcome not recorded as wait: {other:?}"),
    }
    assert_eq!(row.controller_state, state_before);
    assert_eq!(row.version, version_before);
}

#[test]
fn sla_within_window_does_not_escalate() {
    let mut store = store_with(NetworkSegmentControllerState::Provisioning);
    let mut machines = MachineTable::new();
    let wait: StateHandlerOutcome<NetworkSegmentControllerState> =
        StateHandlerOutcome::wait("still provisioning".to_string(), SRC);
    let sla = StateSla::with_sla(10_000_000, 9_000_000);
    let entry = process_object(
        &mut store,
        &mut machines,
        OBJECT,
        Ok(wait),
        DbWriteBatch::new(),
        sla,
        12_000_000,
        true,
    );
    assert!(!entry.sla_breach);
    assert_eq!(entry.label, None);
}

#[test]
fn handler_error_discards_writes_and_records_outcome() {
    let mut store = store_with(NetworkSegmentControllerState::Ready);
    let mut machines = MachineTable::new();
    machines.push_row(fleetcore::write_batch::MachineRow {
        id: 9,
        bmc_address: 0,
        reboot_requested_at: None,
        last_health_report: None,
        failure_details: None,
        reprovision_requested: false,
        reprovision_reset_pending: false,
        dpu_reprovision_start_at: None,
        host_reprovision_start_at: None,
        restart_verified: None,
        restart_attempts: 0,
        bmc_version: None,
        bios_version: None,
        topology_update_needed: false,
        custom_pxe_reboot_requested: false,
        health_override: None,
        reexplore_requested_version: None,
    });
    let mut dwb = DbWriteBatch::new();
    dwb.push(fleetcore::write_batch::MachineWriteOp::SetTopologyUpdateNeeded { machine_id: 9, value: true });
    let err = StateHandlerError::HealthProbeAlert;
    let entry = process_object(
        &mut store,
        &mut machines,
        OBJECT,
        Err(err),
        dwb,
        StateSla::NoSla,
        12_000_000,
        true,
    );
    assert_eq!(entry.label.as_deref(), Some("health_probe_alert"));
    assert!(!entry.sla_breach);
    // the deferred write did not land
    assert!(!machines.rows[0].topology_update_needed);
    // the error is the most recent outcome; the state stands
    let row = &store.rows[0];
    match &row.outcome {
        Some(PersistentStateHandlerOutcome::Error { err, .. }) => {
            assert_eq!(err.as_str(), "health_probe_alert");
        }
        other => panic!("outcome not recorded as error: {other:?}"),
    }
    assert_eq!(row.controller_state, NetworkSegmentControllerState::Ready);
}

#[test]
fn rollback_keeps_state_and_writes_out() {
    let mut store = store_with(NetworkSegmentControllerState::Provisioning);
    let mut machines = MachineTable::new();
    let outcome: StateHandlerOutcome<NetworkSegmentControllerState> =
        StateHandlerOutcome::transition(NetworkSegmentControllerState::Ready, SRC);
    let r = finalize_outcome(
        &mut store,
        &mut machines,
        OBJECT,
        outcome,
        DbWriteBatch::new(),
        2_000_000,
        false,
    );
    assert!(r.is_err());
    let row = &store.rows[0];
    assert_eq!(row.controller_state, NetworkSegmentControllerState::Provisioning);
    assert_eq!(row.history.len(), 0);
    assert!(matches!(row.outcome, Some(PersistentStateHandlerOutcome::Error { .. })));
}

#[test]
fn leases_exclude_and_expire() {
    let mut t = LeaseTable::new();
    assert!(t.try_acquire(1, OBJECT, 100, 0, 1_000_000));
    // another owner is refused while the lease lives
    assert!(!t.try_acquire(1, OBJECT, 200, 500_000, 1_000_000));
    // the same owner may renew
    assert!(t.try_acquire(1, OBJECT, 100, 500_000, 1_000_000));
    // an expired lease is reclaimable
    assert!(t.try_acquire(1, OBJECT, 200, 2_000_000, 1_000_000));
    // release frees the key for anyone
    t.release(1, OBJECT, 200);
    assert!(t.try_acquire(1, OBJECT, 300, 2_100_000, 1_000_000));
    // a different object id is independent
    assert!(t.try_acquire(1, OBJECT + 1, 400, 2_100_000, 1_000_000));
}

#[test]
fn draining_segment_waits_then_deletes() {
    let drain = NetworkSegmentControllerState::Deleting {
        deletion_state: NetworkSegmentDeletionState::DrainAllocatedIps { delete_at: 5_000_000 },
    };
    // allocated addresses re-arm the deadline
    let o = segment_next_outcome(&drain, true, 2, 4_000_000, 1_000_000, SRC);
    assert!(matches!(
        o,
        StateHandlerOutcome::Transition {
            next_state: NetworkSegmentControllerState::Deleting {
                deletion_state: NetworkSegmentDeletionState::DrainAllocatedIps {
                    delete_at: 5_000_000
                },
            },
            ..
        }
    ));
    // drained but early: wait
    let o = segment_next_outcome(&drain, true, 0, 4_000_000, 1_000_000, SRC);
    assert!(matches!(o, StateHandlerOutcome::Wait { .. }));
    // drained and past the deadline: move to the final delete
    let o = segment_next_outcome(&drain, true, 0, 5_000_000, 1_000_000, SRC);
    assert!(matches!(
        o,
        StateHandlerOutcome::Transition {
            next_state: NetworkSegmentControllerState::Deleting {
                deletion_state: NetworkSegmentDeletionState::DBDelete,
            },
            ..
        }
    ));
}
