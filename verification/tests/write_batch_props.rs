//! Deferred writes: effects of each operation and idempotent replay.

use fleetcore::write_batch::{
    DbWriteBatch, HealthOverride, MachineRow, MachineTable, OverrideMode, MachineWriteOp,
};

fn blank_row(id: u128, bmc_address: u128) -> MachineRow {
    MachineRow {
        id,
        bmc_address,
        reboot_requested_at: None,
        last_health_report: None,
        failure_details: Some("old failure".to_string()),
        reprovision_requested: true,
        reprovision_reset_pending: true,
        dpu_reprovision_start_at: None,
        host_reprovision_start_at: None,
        restart_verified: None,
        restart_attempts: 0,
        bmc_version: None,
        bios_version: None,
        topology_update_needed: false,
        custom_pxe_reboot_requested: false,
        health_override: None,
        reexplore_requested_version: None,
    }
}

fn sample_batch() -> Vec<MachineWriteOp> {
    vec![
        MachineWriteOp::UpdateRebootRequestedTime { machine_id: 1, time: 111 },
        MachineWriteOp::ClearFailureDetails { machine_id: 1 },
        MachineWriteOp::PersistMachineHealthReport { machine_id: 2, report: "all well".to_string() },
        MachineWriteOp::ResetHostReprovisioningRequest { machine_id: 1, clear_reset: false },
        MachineWriteOp::UpdateDpuReprovisionStartTime { machine_id: 2, time: 222 },
        MachineWriteOp::UpdateHostReprovisionStartTime { machine_id: 2, time: 333 },
        MachineWriteOp::UpdateRestartVerificationStatus { machine_id: 1, verified: Some(true), attempts: 4 },
        MachineWriteOp::UpdateFirmwareVersionByBmcAddress {
            bmc_address: 0xbb,
            bmc_version: "bmc-7".to_string(),
            bios_version: "bios-9".to_string(),
        },
        MachineWriteOp::SetTopologyUpdateNeeded { machine_id: 2, value: true },
        MachineWriteOp::SetCustomPxeRebootRequested { machine_id: 1, requested: true },
        MachineWriteOp::InsertHealthReportOverride {
            machine_id: 2,
            mode: OverrideMode::Merge,
            report: "maintenance".to_string(),
        },
        MachineWriteOp::RequestEndpointReExplore { bmc_address: 0xaa, version: 12 },
        // a later write to the same field wins
        MachineWriteOp::UpdateRebootRequestedTime { machine_id: 1, time: 999 },
    ]
}

fn table() -> MachineTable {
    let mut t = MachineTable::new();
    t.push_row(blank_row(1, 0xaa));
    t.push_row(blank_row(2, 0xbb));
    t
}

#[test]
fn operations_apply_in_insertion_order() {
    let mut t = table();
    DbWriteBatch::from_ops(sample_batch()).apply_all(&mut t);
    let one = &t.rows[0];
    assert_eq!(one.reboot_requested_at, Some(999));
    assert_eq!(one.failure_details, None);
    assert!(!one.reprovision_requested);
    // clear_reset was false, so the pending reset stands
    assert!(one.reprovision_reset_pending);
    assert_eq!(one.restart_verified, Some(true));
    assert_eq!(one.restart_attempts, 4);
    assert!(one.custom_pxe_reboot_requested);
    assert_eq!(one.reexplore_requested_version, Some(12));
    let two = &t.rows[1];
    assert_eq!(two.last_health_report.as_deref(), Some("all well"));
    assert_eq!(two.dpu_reprovision_start_at, Some(222));
    assert_eq!(two.host_reprovision_start_at, Some(333));
    assert_eq!(two.bmc_version.as_deref(), Some("bmc-7"));
    assert_eq!(two.bios_version.as_deref(), Some("bios-9"));
    assert!(two.topology_update_needed);
    assert_eq!(
        two.health_override,
        Some(HealthOverride { mode: OverrideMode::Merge, report: "maintenance".to_string() })
    );
    // operations select rows by key: machine 1 was not touched by machine 2's
    assert_eq!(one.last_health_report, None);
}

#[test]
fn replaying_after_any_prefix_is_harmless() {
    // applying a prefix of the batch and then the whole batch lands exactly
    // where the whole batch alone lands
    let ops = sample_batch();
    for cut in 0..=ops.len() {
        let mut once = table();
        DbWriteBatch::from_ops(sample_batch()).apply_all(&mut once);

        let mut replayed = table();
        let prefix: Vec<MachineWriteOp> = sample_batch().into_iter().take(cut).collect();
        DbWriteBatch::from_ops(prefix).apply_all(&mut replayed);
        DbWriteBatch::from_ops(sample_batch()).apply_all(&mut replayed);

        assert_eq!(once.rows, replayed.rows, "replay after prefix of {cut} diverged");
    }
}

#[test]
fn batch_grows_in_order() {
    let mut b = DbWriteBatch::new();
    assert_eq!(b.len(), 0);
    b.push(MachineWriteOp::ClearFailureDetails { machine_id: 1 });
    b.push(MachineWriteOp::SetTopologyUpdateNeeded { machine_id: 1, value: true });
    assert_eq!(b.len(), 2);
    let mut t = table();
    b.apply_all(&mut t);
    assert_eq!(t.rows[0].failure_details, None);
    assert!(t.rows[0].topology_update_needed);
}
