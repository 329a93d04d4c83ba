//! Deferred write batch.
//!
//! Handlers enqueue narrow write operations instead of holding a database
//! connection open across long-running external work. On success the whole
//! batch is applied, in insertion order, inside the closing transaction; on
//! failure it is discarded. Every operation is an absolute, idempotent row
//! update, so a batch may be replayed when the surrounding transaction is
//! retried.

use vstd::prelude::*;

verus! {

/// How a health-report override combines with existing reports.
#[derive(Debug, Clone, Copy, PartialEq, Eq, Structural)]
pub enum OverrideMode {
    Merge,
    Replace,
}

/// The closed set of deferred write operations. Each one updates fields of a
/// machine row to values carried by the operation itself; none reads a field
/// that any operation writes, so replaying a batch is harmless.
#[derive(Debug)]
pub enum MachineWriteOp {
    /// Record when a reboot was requested.
    UpdateRebootRequestedTime { machine_id: u128, time: i64 },
    /// Persist the machine's most recent health report.
    PersistMachineHealthReport { machine_id: u128, report: String },
    /// Clear recorded failure details.
    ClearFailureDetails { machine_id: u128 },
    /// Drop a pending host-reprovisioning request; optionally also the reset.
    ResetHostReprovisioningRequest { machine_id: u128, clear_reset: bool },
    /// Record when DPU reprovisioning started.
    UpdateDpuReprovisionStartTime { machine_id: u128, time: i64 },
    /// Record when host reprovisioning started.
    UpdateHostReprovisionStartTime { machine_id: u128, time: i64 },
    /// Record the result of verifying a requested restart.
    UpdateRestartVerificationStatus { machine_id: u128, verified: Option<bool>, attempts: i32 },
    /// Record firmware versions reported for the BMC at an address.
    UpdateFirmwareVersionByBmcAddress {
        bmc_address: u128,
        bmc_version: String,
        bios_version: String,
    },
    /// Mark that the machine's topology snapshot must be refreshed.
    SetTopologyUpdateNeeded { machine_id: u128, value: bool },
    /// Request or withdraw a custom PXE reboot.
    SetCustomPxeRebootRequested { machine_id: u128, requested: bool },
    /// Install a health-report override.
    InsertHealthReportOverride { machine_id: u128, mode: OverrideMode, report: String },
    /// Ask for the endpoint at an address to be explored again while its
    /// recorded version still matches.
    RequestEndpointReExplore { bmc_address: u128, version: u64 },
}

/// Mathematical value of a [`MachineWriteOp`].
pub enum MachineWriteOpV {
    UpdateRebootRequestedTime { machine_id: u128, time: i64 },
    PersistMachineHealthReport { machine_id: u128, report: Seq<char> },
    ClearFailureDetails { machine_id: u128 },
    ResetHostReprovisioningRequest { machine_id: u128, clear_reset: bool },
    UpdateDpuReprovisionStartTime { machine_id: u128, time: i64 },
    UpdateHostReprovisionStartTime { machine_id: u128, time: i64 },
    UpdateRestartVerificationStatus { machine_id: u128, verified: Option<bool>, attempts: i32 },
    UpdateFirmwareVersionByBmcAddress {
        bmc_address: u128,
        bmc_version: Seq<char>,
        bios_version: Seq<char>,
    },
    SetTopologyUpdateNeeded { machine_id: u128, value: bool },
    SetCustomPxeRebootRequested { machine_id: u128, requested: bool },
    InsertHealthReportOverride { machine_id: u128, mode: OverrideMode, report: Seq<char> },
    RequestEndpointReExplore { bmc_address: u128, version: u64 },
}

impl View for MachineWriteOp {
    type V = MachineWriteOpV;

    open spec fn view(&self) -> MachineWriteOpV {
        match *self {
            MachineWriteOp::UpdateRebootRequestedTime { machine_id, time } =>
                MachineWriteOpV::UpdateRebootRequestedTime { machine_id, time },
            MachineWriteOp::PersistMachineHealthReport { machine_id, report } =>
                MachineWriteOpV::PersistMachineHealthReport { machine_id, report: report@ },
            MachineWriteOp::ClearFailureDetails { machine_id } => MachineWriteOpV::ClearFailureDetails {
                machine_id,
            },
            MachineWriteOp::ResetHostReprovisioningRequest { machine_id, clear_reset } =>
                MachineWriteOpV::ResetHostReprovisioningRequest { machine_id, clear_reset },
            MachineWriteOp::UpdateDpuReprovisionStartTime { machine_id, time } =>
                MachineWriteOpV::UpdateDpuReprovisionStartTime { machine_id, time },
            MachineWriteOp::UpdateHostReprovisionStartTime { machine_id, time } =>
                MachineWriteOpV::UpdateHostReprovisionStartTime { machine_id, time },
            MachineWriteOp::UpdateRestartVerificationStatus { machine_id, verified, attempts } =>
                MachineWriteOpV::UpdateRestartVerificationStatus { machine_id, verified, attempts },
            MachineWriteOp::UpdateFirmwareVersionByBmcAddress {
                bmc_address,
                bmc_version,
                bios_version,
            } => MachineWriteOpV::UpdateFirmwareVersionByBmcAddress {
                bmc_address,
                bmc_version: bmc_version@,
                bios_version: bios_version@,
            },
            MachineWriteOp::SetTopologyUpdateNeeded { machine_id, value } =>
                MachineWriteOpV::SetTopologyUpdateNeeded { machine_id, value },
            MachineWriteOp::SetCustomPxeRebootRequested { machine_id, requested } =>
                MachineWriteOpV::SetCustomPxeRebootRequested { machine_id, requested },
            MachineWriteOp::InsertHealthReportOverride { machine_id, mode, report } =>
                MachineWriteOpV::InsertHealthReportOverride { machine_id, mode, report: report@ },
            MachineWriteOp::RequestEndpointReExplore { bmc_address, version } =>
                MachineWriteOpV::RequestEndpointReExplore { bmc_address, version },
        }
    }
}

/// A health-report override installed on a machine row.
#[derive(Debug, Clone, PartialEq, Eq)]
pub struct HealthOverride {
    pub mode: OverrideMode,
    pub report: String,
}

pub struct HealthOverrideV {
    pub mode: OverrideMode,
    pub report: Seq<char>,
}

impl View for HealthOverride {
    type V = HealthOverrideV;

    open spec fn view(&self) -> HealthOverrideV {
        HealthOverrideV { mode: self.mode, report: self.report@ }
    }
}

/// The slice of a machine row that deferred writes touch. The key fields
/// `id` and `bmc_address` are never written by any operation.
#[derive(Debug, Clone, PartialEq, Eq)]
pub struct MachineRow {
    pub id: u128,
    pub bmc_address: u128,
    pub reboot_requested_at: Option<i64>,
    pub last_health_report: Option<String>,
    pub failure_details: Option<String>,
    pub reprovision_requested: bool,
    pub reprovision_reset_pending: bool,
    pub dpu_reprovision_start_at: Option<i64>,
    pub host_reprovision_start_at: Option<i64>,
    pub restart_verified: Option<bool>,
    pub restart_attempts: i32,
    pub bmc_version: Option<String>,
    pub bios_version: Option<String>,
    pub topology_update_needed: bool,
    pub custom_pxe_reboot_requested: bool,
    pub health_override: Option<HealthOverride>,
    pub reexplore_requested_version: Option<u64>,
}

#[verifier::ext_equal]
pub struct MachineRowV {
    pub id: u128,
    pub bmc_address: u128,
    pub reboot_requested_at: Option<i64>,
    pub last_health_report: Option<Seq<char>>,
    pub failure_details: Option<Seq<char>>,
    pub reprovision_requested: bool,
    pub reprovision_reset_pending: bool,
    pub dpu_reprovision_start_at: Option<i64>,
    pub host_reprovision_start_at: Option<i64>,
    pub restart_verified: Option<bool>,
    pub restart_attempts: i32,
    pub bmc_version: Option<Seq<char>>,
    pub bios_version: Option<Seq<char>>,
    pub topology_update_needed: bool,
    pub custom_pxe_reboot_requested: bool,
    pub health_override: Option<HealthOverrideV>,
    pub reexplore_requested_version: Option<u64>,
}

pub open spec fn view_opt_string(s: Option<String>) -> Option<Seq<char>> {
    match s {
        Some(x) => Some(x@),
        None => None,
    }
}

pub open spec fn view_opt_override(s: Option<HealthOverride>) -> Option<HealthOverrideV> {
    match s {
        Some(x) => Some(x@),
        None => None,
    }
}

impl View for MachineRow {
    type V = MachineRowV;

    open spec fn view(&self) -> MachineRowV {
        MachineRowV {
            id: self.id,
            bmc_address: self.bmc_address,
            reboot_requested_at: self.reboot_requested_at,
            last_health_report: view_opt_string(self.last_health_report),
            failure_details: view_opt_string(self.failure_details),
            reprovision_requested: self.reprovision_requested,
            reprovision_reset_pending: self.reprovision_reset_pending,
            dpu_reprovision_start_at: self.dpu_reprovision_start_at,
            host_reprovision_start_at: self.host_reprovision_start_at,
            restart_verified: self.restart_verified,
            restart_attempts: self.restart_attempts,
            bmc_version: view_opt_string(self.bmc_version),
            bios_version: view_opt_string(self.bios_version),
            topology_update_needed: self.topology_update_needed,
            custom_pxe_reboot_requested: self.custom_pxe_reboot_requested,
            health_override: view_opt_override(self.health_override),
            reexplore_requested_version: self.reexplore_requested_version,
        }
    }
}

/// Effect of one operation on one row. Operations select rows by `id` or by
/// `bmc_address` and write values carried by the operation alone.
pub open spec fn apply_op_row(r: MachineRowV, op: MachineWriteOpV) -> MachineRowV {
    match op {
        MachineWriteOpV::UpdateRebootRequestedTime { machine_id, time } => if machine_id == r.id {
            MachineRowV { reboot_requested_at: Some(time), ..r }
        } else {
            r
        },
        MachineWriteOpV::PersistMachineHealthReport { machine_id, report } => if machine_id == r.id {
            MachineRowV { last_health_report: Some(report), ..r }
        } else {
            r
        },
        MachineWriteOpV::ClearFailureDetails { machine_id } => if machine_id == r.id {
            MachineRowV { failure_details: None, ..r }
        } else {
            r
        },
        MachineWriteOpV::ResetHostReprovisioningRequest { machine_id, clear_reset } => if machine_id
            == r.id {
            if clear_reset {
                MachineRowV { reprovision_requested: false, reprovision_reset_pending: false, ..r }
            } else {
                MachineRowV { reprovision_requested: false, ..r }
            }
        } else {
            r
        },
        MachineWriteOpV::UpdateDpuReprovisionStartTime { machine_id, time } => if machine_id == r.id {
            MachineRowV { dpu_reprovision_start_at: Some(time), ..r }
        } else {
            r
        },
        MachineWriteOpV::UpdateHostReprovisionStartTime { machine_id, time } => if machine_id == r.id {
            MachineRowV { host_reprovision_start_at: Some(time), ..r }
        } else {
            r
        },
        MachineWriteOpV::UpdateRestartVerificationStatus { machine_id, verified, attempts } => if machine_id
            == r.id {
            MachineRowV { restart_verified: verified, restart_attempts: attempts, ..r }
        } else {
            r
        },
        MachineWriteOpV::UpdateFirmwareVersionByBmcAddress { bmc_address, bmc_version, bios_version } =>
            if bmc_address == r.bmc_address {
            MachineRowV { bmc_version: Some(bmc_version), bios_version: Some(bios_version), ..r }
        } else {
            r
        },
        MachineWriteOpV::SetTopologyUpdateNeeded { machine_id, value } => if machine_id == r.id {
            MachineRowV { topology_update_needed: value, ..r }
        } else {
            r
        },
        MachineWriteOpV::SetCustomPxeRebootRequested { machine_id, requested } => if machine_id == r.id {
            MachineRowV { custom_pxe_reboot_requested: requested, ..r }
        } else {
            r
        },
        MachineWriteOpV::InsertHealthReportOverride { machine_id, mode, report } => if machine_id
            == r.id {
            MachineRowV { health_override: Some(HealthOverrideV { mode, report }), ..r }
        } else {
            r
        },
        MachineWriteOpV::RequestEndpointReExplore { bmc_address, version } => if bmc_address
            == r.bmc_address {
            MachineRowV { reexplore_requested_version: Some(version), ..r }
        } else {
            r
        },
    }
}

/// Effect of a whole batch on one row, first operation first.
pub open spec fn apply_batch_row(r: MachineRowV, ops: Seq<MachineWriteOpV>) -> MachineRowV
    decreases ops.len(),
{
    if ops.len() == 0 {
        r
    } else {
        apply_batch_row(apply_op_row(r, ops[0]), ops.drop_first())
    }
}

/// Effect of one operation on the whole table.
pub open spec fn apply_op_table(t: Seq<MachineRowV>, op: MachineWriteOpV) -> Seq<MachineRowV> {
    t.map_values(|r: MachineRowV| apply_op_row(r, op))
}

/// Effect of a whole batch on the table, first operation first.
pub open spec fn apply_batch_table(t: Seq<MachineRowV>, ops: Seq<MachineWriteOpV>) -> Seq<MachineRowV>
    decreases ops.len(),
{
    if ops.len() == 0 {
        t
    } else {
        apply_batch_table(apply_op_table(t, ops[0]), ops.drop_first())
    }
}

/// Whether `r1` and `r2` have the same keys and differ at most on fields
/// that `op` writes on that row.
pub open spec fn agree_except_op(r1: MachineRowV, r2: MachineRowV, op: MachineWriteOpV) -> bool {
    &&& r1.id == r2.id
    &&& r1.bmc_address == r2.bmc_address
    &&& (r1.reboot_requested_at == r2.reboot_requested_at || (op matches
    MachineWriteOpV::UpdateRebootRequestedTime { machine_id, .. } && machine_id == r1.id))
    &&& (r1.last_health_report == r2.last_health_report || (op matches
    MachineWriteOpV::PersistMachineHealthReport { machine_id, .. } && machine_id == r1.id))
    &&& (r1.failure_details == r2.failure_details || (op matches MachineWriteOpV::ClearFailureDetails {
        machine_id,
    } && machine_id == r1.id))
    &&& (r1.reprovision_requested == r2.reprovision_requested || (op matches
    MachineWriteOpV::ResetHostReprovisioningRequest { machine_id, .. } && machine_id == r1.id))
    &&& (r1.reprovision_reset_pending == r2.reprovision_reset_pending || (op matches
    MachineWriteOpV::ResetHostReprovisioningRequest { machine_id, clear_reset } && machine_id == r1.id
        && clear_reset))
    &&& (r1.dpu_reprovision_start_at == r2.dpu_reprovision_start_at || (op matches
    MachineWriteOpV::UpdateDpuReprovisionStartTime { machine_id, .. } && machine_id == r1.id))
    &&& (r1.host_reprovision_start_at == r2.host_reprovision_start_at || (op matches
    MachineWriteOpV::UpdateHostReprovisionStartTime { machine_id, .. } && machine_id == r1.id))
    &&& (r1.restart_verified == r2.restart_verified || (op matches
    MachineWriteOpV::UpdateRestartVerificationStatus { machine_id, .. } && machine_id == r1.id))
    &&& (r1.restart_attempts == r2.restart_attempts || (op matches
    MachineWriteOpV::UpdateRestartVerificationStatus { machine_id, .. } && machine_id == r1.id))
    &&& (r1.bmc_version == r2.bmc_version || (op matches
    MachineWriteOpV::UpdateFirmwareVersionByBmcAddress { bmc_address, .. } && bmc_address
        == r1.bmc_address))
    &&& (r1.bios_version == r2.bios_version || (op matches
    MachineWriteOpV::UpdateFirmwareVersionByBmcAddress { bmc_address, .. } && bmc_address
        == r1.bmc_address))
    &&& (r1.topology_update_needed == r2.topology_update_needed || (op matches
    MachineWriteOpV::SetTopologyUpdateNeeded { machine_id, .. } && machine_id == r1.id))
    &&& (r1.custom_pxe_reboot_requested == r2.custom_pxe_reboot_requested || (op matches
    MachineWriteOpV::SetCustomPxeRebootRequested { machine_id, .. } && machine_id == r1.id))
    &&& (r1.health_override == r2.health_override || (op matches
    MachineWriteOpV::InsertHealthReportOverride { machine_id, .. } && machine_id == r1.id))
    &&& (r1.reexplore_requested_version == r2.reexplore_requested_version || (op matches
    MachineWriteOpV::RequestEndpointReExplore { bmc_address, .. } && bmc_address == r1.bmc_address))
}

/// An operation writes the same values on two rows that agree on its keys,
/// so rows that differ only where `op` writes converge when `op` runs.
proof fn lemma_op_determined(r1: MachineRowV, r2: MachineRowV, op: MachineWriteOpV)
    requires
        agree_except_op(r1, r2, op),
    ensures
        apply_op_row(r1, op) == apply_op_row(r2, op),
{
    assert(apply_op_row(r1, op) =~= apply_op_row(r2, op));
}

/// An operation leaves keys alone and changes only the fields it writes.
proof fn lemma_op_frame(r: MachineRowV, op: MachineWriteOpV)
    ensures
        agree_except_op(apply_op_row(r, op), r, op),
        apply_op_row(r, op).id == r.id,
        apply_op_row(r, op).bmc_address == r.bmc_address,
{
}

/// Applying any operation keeps a disagreement window: if two rows differ
/// only where `op` writes, they still do after any other operation runs.
proof fn lemma_agree_preserved(r1: MachineRowV, r2: MachineRowV, op: MachineWriteOpV, other: MachineWriteOpV)
    requires
        agree_except_op(r1, r2, op),
    ensures
        agree_except_op(apply_op_row(r1, other), apply_op_row(r2, other), op),
{
}

/// Rows that differ only where some operation of the batch writes end up
/// equal once the whole batch has run.
proof fn lemma_batch_converges(r1: MachineRowV, r2: MachineRowV, op: MachineWriteOpV, ops: Seq<MachineWriteOpV>)
    requires
        agree_except_op(r1, r2, op),
        ops.contains(op),
    ensures
        apply_batch_row(r1, ops) == apply_batch_row(r2, ops),
    decreases ops.len(),
{
    let o0 = ops[0];
    if o0 == op {
        lemma_op_determined(r1, r2, op);
        assert(apply_op_row(r1, o0) == apply_op_row(r2, o0));
    } else {
        lemma_agree_preserved(r1, r2, op, o0);
        let i = choose|i: int| 0 <= i < ops.len() && ops[i] == op;
        assert(ops.drop_first()[i - 1] == op);
        assert(ops.drop_first().contains(op));
        lemma_batch_converges(apply_op_row(r1, o0), apply_op_row(r2, o0), op, ops.drop_first());
    }
}

/// Applying one operation of a batch before the batch itself does not change
/// where the batch lands.
proof fn lemma_op_absorbed(r: MachineRowV, op: MachineWriteOpV, ops: Seq<MachineWriteOpV>)
    requires
        ops.contains(op),
    ensures
        apply_batch_row(apply_op_row(r, op), ops) == apply_batch_row(r, ops),
{
    lemma_op_frame(r, op);
    lemma_batch_converges(apply_op_row(r, op), r, op, ops);
}

proof fn lemma_batch_row_push(r: MachineRowV, ops: Seq<MachineWriteOpV>, op: MachineWriteOpV)
    ensures
        apply_batch_row(r, ops.push(op)) == apply_op_row(apply_batch_row(r, ops), op),
    decreases ops.len(),
{
    if ops.len() == 0 {
        assert(ops.push(op)[0] == op);
        assert(ops.push(op).drop_first() =~= Seq::<MachineWriteOpV>::empty());
        assert(apply_batch_row(apply_op_row(r, op), Seq::<MachineWriteOpV>::empty()) == apply_op_row(
            r,
            op,
        ));
        assert(apply_batch_row(r, ops.push(op)) == apply_op_row(r, op));
    } else {
        assert(ops.push(op)[0] == ops[0]);
        assert(ops.push(op).drop_first() =~= ops.drop_first().push(op));
        lemma_batch_row_push(apply_op_row(r, ops[0]), ops.drop_first(), op);
        assert(apply_batch_row(r, ops.push(op)) == apply_batch_row(
            apply_op_row(r, ops[0]),
            ops.drop_first().push(op),
        ));
    }
}

/// Replaying a whole batch after any prefix of it lands a row exactly where
/// the batch alone would.
proof fn lemma_prefix_replay_row(r: MachineRowV, ops: Seq<MachineWriteOpV>, k: int)
    requires
        0 <= k <= ops.len(),
    ensures
        apply_batch_row(apply_batch_row(r, ops.take(k)), ops) == apply_batch_row(r, ops),
    decreases k,
{
    if k == 0 {
        assert(ops.take(0) =~= Seq::<MachineWriteOpV>::empty());
    } else {
        lemma_prefix_replay_row(r, ops, k - 1);
        assert(ops.take(k) =~= ops.take(k - 1).push(ops[k - 1]));
        lemma_batch_row_push(r, ops.take(k - 1), ops[k - 1]);
        assert(ops.contains(ops[k - 1]));
        lemma_op_absorbed(apply_batch_row(r, ops.take(k - 1)), ops[k - 1], ops);
    }
}

/// A batch applies to the table row by row.
proof fn lemma_batch_table_rowwise(t: Seq<MachineRowV>, ops: Seq<MachineWriteOpV>)
    ensures
        apply_batch_table(t, ops).len() == t.len(),
        forall|j: int|
            0 <= j < t.len() ==> apply_batch_table(t, ops)[j] == apply_batch_row(t[j], ops),
    decreases ops.len(),
{
    if ops.len() > 0 {
        lemma_batch_table_rowwise(apply_op_table(t, ops[0]), ops.drop_first());
    }
}

/// Deferred writes are idempotent: applying any prefix of a batch and then
/// replaying the whole batch leaves the table exactly as applying the whole
/// batch once.
pub proof fn lemma_deferred_writes_idempotent(t: Seq<MachineRowV>, ops: Seq<MachineWriteOpV>, k: int)
    requires
        0 <= k <= ops.len(),
    ensures
        apply_batch_table(apply_batch_table(t, ops.take(k)), ops) == apply_batch_table(t, ops),
{
    let mid = apply_batch_table(t, ops.take(k));
    lemma_batch_table_rowwise(t, ops.take(k));
    lemma_batch_table_rowwise(t, ops);
    lemma_batch_table_rowwise(mid, ops);
    assert forall|j: int| 0 <= j < t.len() implies apply_batch_table(mid, ops)[j]
        == apply_batch_table(t, ops)[j] by {
        lemma_prefix_replay_row(t[j], ops, k);
    }
    assert(apply_batch_table(mid, ops) =~= apply_batch_table(t, ops));
}

/// The machine table the deferred writes land in: the model of the rows a
/// closing transaction updates.
pub struct MachineTable {
    pub rows: Vec<MachineRow>,
}

impl MachineTable {
    pub open spec fn view(&self) -> Seq<MachineRowV> {
        self.rows@.map_values(|r: MachineRow| r@)
    }

    pub fn new() -> (r: MachineTable)
        ensures
            r@ == Seq::<MachineRowV>::empty(),
    {
        let t = MachineTable { rows: Vec::new() };
        proof {
            assert(t@ =~= Seq::<MachineRowV>::empty());
        }
        t
    }

    pub fn push_row(&mut self, row: MachineRow)
        ensures
            final(self)@ == old(self)@.push(row@),
    {
        self.rows.push(row);
        proof {
            assert(self@ =~= old(self)@.push(row@));
        }
    }
}

impl MachineRow {
    /// A copy of the row with the same mathematical value.
    fn duplicate(&self) -> (r: MachineRow)
        ensures
            r@ == self@,
    {
        MachineRow {
            id: self.id,
            bmc_address: self.bmc_address,
            reboot_requested_at: self.reboot_requested_at,
            last_health_report: clone_opt_string(&self.last_health_report),
            failure_details: clone_opt_string(&self.failure_details),
            reprovision_requested: self.reprovision_requested,
            reprovision_reset_pending: self.reprovision_reset_pending,
            dpu_reprovision_start_at: self.dpu_reprovision_start_at,
            host_reprovision_start_at: self.host_reprovision_start_at,
            restart_verified: self.restart_verified,
            restart_attempts: self.restart_attempts,
            bmc_version: clone_opt_string(&self.bmc_version),
            bios_version: clone_opt_string(&self.bios_version),
            topology_update_needed: self.topology_update_needed,
            custom_pxe_reboot_requested: self.custom_pxe_reboot_requested,
            health_override: match &self.health_override {
                Some(o) => Some(HealthOverride { mode: o.mode, report: o.report.clone() }),
                None => None,
            },
            reexplore_requested_version: self.reexplore_requested_version,
        }
    }
}

fn clone_opt_string(s: &Option<String>) -> (r: Option<String>)
    ensures
        view_opt_string(r) == view_opt_string(*s),
{
    match s {
        Some(x) => Some(x.clone()),
        None => None,
    }
}

/// Apply one operation to one row, as [`apply_op_row`] describes.
fn apply_write_op_row(row: MachineRow, op: &MachineWriteOp) -> (r: MachineRow)
    ensures
        r@ == apply_op_row(row@, op@),
{
    let mut row = row;
    match op {
        MachineWriteOp::UpdateRebootRequestedTime { machine_id, time } => {
            if *machine_id == row.id {
                row.reboot_requested_at = Some(*time);
            }
        },
        MachineWriteOp::PersistMachineHealthReport { machine_id, report } => {
            if *machine_id == row.id {
                row.last_health_report = Some(report.clone());
            }
        },
        MachineWriteOp::ClearFailureDetails { machine_id } => {
            if *machine_id == row.id {
                row.failure_details = None;
            }
        },
        MachineWriteOp::ResetHostReprovisioningRequest { machine_id, clear_reset } => {
            if *machine_id == row.id {
                row.reprovision_requested = false;
                if *clear_reset {
                    row.reprovision_reset_pending = false;
                }
            }
        },
        MachineWriteOp::UpdateDpuReprovisionStartTime { machine_id, time } => {
            if *machine_id == row.id {
                row.dpu_reprovision_start_at = Some(*time);
            }
        },
        MachineWriteOp::UpdateHostReprovisionStartTime { machine_id, time } => {
            if *machine_id == row.id {
                row.host_reprovision_start_at = Some(*time);
            }
        },
        MachineWriteOp::UpdateRestartVerificationStatus { machine_id, verified, attempts } => {
            if *machine_id == row.id {
                row.restart_verified = *verified;
                row.restart_attempts = *attempts;
            }
        },
        MachineWriteOp::UpdateFirmwareVersionByBmcAddress { bmc_address, bmc_version, bios_version } => {
            if *bmc_address == row.bmc_address {
                row.bmc_version = Some(bmc_version.clone());
                row.bios_version = Some(bios_version.clone());
            }
        },
        MachineWriteOp::SetTopologyUpdateNeeded { machine_id, value } => {
            if *machine_id == row.id {
                row.topology_update_needed = *value;
            }
        },
        MachineWriteOp::SetCustomPxeRebootRequested { machine_id, requested } => {
            if *machine_id == row.id {
                row.custom_pxe_reboot_requested = *requested;
            }
        },
        MachineWriteOp::InsertHealthReportOverride { machine_id, mode, report } => {
            if *machine_id == row.id {
                row.health_override = Some(
                    HealthOverride { mode: *mode, report: report.clone() },
                );
            }
        },
        MachineWriteOp::RequestEndpointReExplore { bmc_address, version } => {
            if *bmc_address == row.bmc_address {
                row.reexplore_requested_version = Some(*version);
            }
        },
    }
    row
}

/// Apply one operation to every row of the table.
fn apply_write_op(table: &mut MachineTable, op: &MachineWriteOp)
    ensures
        final(table)@ == apply_op_table(old(table)@, op@),
{
    let n = table.rows.len();
    let mut i: usize = 0;
    while i < n
        invariant
            n == table.rows.len(),
            i <= n,
            table.rows@.len() == old(table).rows@.len(),
            forall|j: int| 0 <= j < i ==> table.rows@[j]@ == apply_op_row(old(table)@[j], op@),
            forall|j: int| i <= j < n ==> table.rows@[j]@ == old(table)@[j],
        decreases n - i,
    {
        let row = table.rows[i].duplicate();
        let row = apply_write_op_row(row, op);
        table.rows.set(i, row);
        i = i + 1;
    }
    proof {
        assert(table@ =~= apply_op_table(old(table)@, op@));
    }
}

/// An ordered queue of write operations deferred to the closing transaction.
/// It is owned by one handler invocation; operations run in insertion order.
#[derive(Debug)]
pub struct DbWriteBatch {
    writes: Vec<MachineWriteOp>,
}

impl DbWriteBatch {
    pub closed spec fn view(&self) -> Seq<MachineWriteOpV> {
        self.writes@.map_values(|op: MachineWriteOp| op@)
    }

    /// An empty batch.
    pub fn new() -> (r: DbWriteBatch)
        ensures
            r@ == Seq::<MachineWriteOpV>::empty(),
    {
        let b = DbWriteBatch { writes: Vec::new() };
        proof {
            assert(b@ =~= Seq::<MachineWriteOpV>::empty());
        }
        b
    }

    /// A batch holding the given operations, in order.
    pub fn from_ops(writes: Vec<MachineWriteOp>) -> (r: DbWriteBatch)
        ensures
            r@ == writes@.map_values(|op: MachineWriteOp| op@),
    {
        DbWriteBatch { writes }
    }

    /// Enqueue one operation behind the ones already queued.
    pub fn push(&mut self, op: MachineWriteOp)
        ensures
            final(self)@ == old(self)@.push(op@),
    {
        self.writes.push(op);
        proof {
            assert(self@ =~= old(self)@.push(op@));
        }
    }

    pub fn len(&self) -> (r: usize)
        ensures
            r == self@.len(),
    {
        self.writes.len()
    }

    /// Consume the batch and apply every operation, in insertion order,
    /// to the table of the closing transaction.
    pub fn apply_all(self, table: &mut MachineTable)
        ensures
            final(table)@ == apply_batch_table(old(table)@, self@),
    {
        let ghost ops = self@;
        let n = self.writes.len();
        let mut i: usize = 0;
        while i < n
            invariant
                n == self.writes@.len(),
                i <= n,
                ops == self@,
                apply_batch_table(old(table)@, ops.take(i as int)) == table@,
            decreases n - i,
        {
            apply_write_op(table, &self.writes[i]);
            proof {
                assert(ops.take(i + 1) =~= ops.take(i as int).push(ops[i as int]));
                lemma_batch_table_push(old(table)@, ops.take(i as int), ops[i as int]);
            }
            i = i + 1;
        }
        proof {
            assert(ops.take(n as int) =~= ops);
        }
    }
}

proof fn lemma_batch_table_push(t: Seq<MachineRowV>, ops: Seq<MachineWriteOpV>, op: MachineWriteOpV)
    ensures
        apply_batch_table(t, ops.push(op)) == apply_op_table(apply_batch_table(t, ops), op),
    decreases ops.len(),
{
    if ops.len() == 0 {
        assert(ops.push(op)[0] == op);
        assert(ops.push(op).drop_first() =~= Seq::<MachineWriteOpV>::empty());
        assert(apply_batch_table(apply_op_table(t, op), Seq::<MachineWriteOpV>::empty()) == apply_op_table(
            t,
            op,
        ));
        assert(apply_batch_table(t, ops.push(op)) == apply_op_table(t, op));
    } else {
        assert(ops.push(op)[0] == ops[0]);
        assert(ops.push(op).drop_first() =~= ops.drop_first().push(op));
        lemma_batch_table_push(apply_op_table(t, ops[0]), ops.drop_first(), op);
        assert(apply_batch_table(t, ops.push(op)) == apply_batch_table(
            apply_op_table(t, ops[0]),
            ops.drop_first().push(op),
        ));
    }
}

} // verus!
