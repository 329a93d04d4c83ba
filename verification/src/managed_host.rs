//! Decisions of the managed-host administration paths: which interfaces a
//! primary-DPU change touches, and what blocks leaving maintenance.

use vstd::prelude::*;

verus! {

/// The slice of a machine interface the primary-DPU change reads.
#[derive(Debug, Clone, Copy, PartialEq, Eq, Structural)]
pub struct MachineInterfaceInfo {
    pub id: u128,
    pub primary_interface: bool,
    pub attached_dpu_machine_id: Option<u128>,
    pub mac_address: u64,
}

/// Why a primary-DPU change is refused.
#[derive(Debug, Clone, Copy, PartialEq, Eq, Structural)]
pub enum PrimaryDpuSelectionError {
    /// The current primary interface is not associated with a DPU.
    PrimaryWithoutDpu,
    /// The requested DPU is already primary.
    AlreadyPrimary,
    /// No current primary interface was found.
    NoCurrentPrimary,
    /// No interface is attached to the requested DPU.
    NoNewPrimary,
}

/// Find the interface pair a primary-DPU change flips: the current primary
/// (which must sit on another DPU) and the interface attached to the
/// requested DPU. The scan refuses a primary without a DPU and a request
/// for the DPU that is already primary.
pub fn select_primary_dpu_interfaces(
    interfaces: &Vec<MachineInterfaceInfo>,
    dpu_machine_id: u128,
) -> (r: Result<(u128, usize), PrimaryDpuSelectionError>)
    ensures
        match r {
            Ok((current_id, new_idx)) => {
                &&& 0 <= new_idx < interfaces@.len()
                &&& interfaces@[new_idx as int].attached_dpu_machine_id == Some(dpu_machine_id)
                &&& !interfaces@[new_idx as int].primary_interface
                &&& exists|i: int|
                    0 <= i < interfaces@.len() && (#[trigger] interfaces@[i]).primary_interface
                        && interfaces@[i].id == current_id
                        && interfaces@[i].attached_dpu_machine_id is Some
                        && interfaces@[i].attached_dpu_machine_id != Some(dpu_machine_id)
            },
            Err(PrimaryDpuSelectionError::PrimaryWithoutDpu) => exists|i: int|
                0 <= i < interfaces@.len() && (#[trigger] interfaces@[i]).primary_interface
                    && interfaces@[i].attached_dpu_machine_id is None,
            Err(PrimaryDpuSelectionError::AlreadyPrimary) => exists|i: int|
                0 <= i < interfaces@.len() && (#[trigger] interfaces@[i]).primary_interface
                    && interfaces@[i].attached_dpu_machine_id == Some(dpu_machine_id),
            Err(PrimaryDpuSelectionError::NoCurrentPrimary) => forall|i: int|
                0 <= i < interfaces@.len() ==> !(#[trigger] interfaces@[i]).primary_interface,
            Err(PrimaryDpuSelectionError::NoNewPrimary) => forall|i: int|
                0 <= i < interfaces@.len() ==> (#[trigger] interfaces@[i]).primary_interface || !(
                interfaces@[i].attached_dpu_machine_id == Some(dpu_machine_id)),
        },
{
    let mut current_primary: Option<u128> = None;
    let mut new_primary: Option<usize> = None;
    let mut i: usize = 0;
    let n = interfaces.len();
    while i < n
        invariant
            n == interfaces@.len(),
            i <= n,
            match current_primary {
                Some(cid) => exists|j: int|
                    0 <= j < i && (#[trigger] interfaces@[j]).primary_interface
                        && interfaces@[j].id == cid && interfaces@[j].attached_dpu_machine_id
                        is Some && interfaces@[j].attached_dpu_machine_id != Some(dpu_machine_id),
                None => forall|j: int|
                    0 <= j < i ==> !(#[trigger] interfaces@[j]).primary_interface,
            },
            match new_primary {
                Some(ni) => 0 <= ni < i && interfaces@[ni as int].attached_dpu_machine_id == Some(
                    dpu_machine_id,
                ) && !interfaces@[ni as int].primary_interface,
                None => forall|j: int|
                    0 <= j < i ==> (#[trigger] interfaces@[j]).primary_interface || !(
                    interfaces@[j].attached_dpu_machine_id == Some(dpu_machine_id)),
            },
        decreases n - i,
    {
        let iface = &interfaces[i];
        if iface.primary_interface {
            let attached = match iface.attached_dpu_machine_id {
                Some(a) => a,
                None => {
                    return Err(PrimaryDpuSelectionError::PrimaryWithoutDpu);
                },
            };
            if attached == dpu_machine_id {
                return Err(PrimaryDpuSelectionError::AlreadyPrimary);
            }
            current_primary = Some(iface.id);
        } else {
            let is_new = match iface.attached_dpu_machine_id {
                Some(a) => a == dpu_machine_id,
                None => false,
            };
            if is_new {
                new_primary = Some(i);
            }
        }
        i = i + 1;
    }
    let current_id = match current_primary {
        Some(c) => c,
        None => {
            return Err(PrimaryDpuSelectionError::NoCurrentPrimary);
        },
    };
    let new_idx = match new_primary {
        Some(x) => x,
        None => {
            return Err(PrimaryDpuSelectionError::NoNewPrimary);
        },
    };
    Ok((current_id, new_idx))
}

/// Whether a DPU blocks leaving maintenance mode: the first DPU with a
/// pending reprovisioning request, if any. Each pair is a DPU id and its
/// pending-request flag.
pub fn maintenance_disable_blocker(dpus: &Vec<(u128, bool)>) -> (r: Option<u128>)
    ensures
        match r {
            Some(id) => exists|i: int|
                0 <= i < dpus@.len() && (#[trigger] dpus@[i]).1 && dpus@[i].0 == id,
            None => forall|i: int| 0 <= i < dpus@.len() ==> !(#[trigger] dpus@[i]).1,
        },
{
    let mut i: usize = 0;
    while i < dpus.len()
        invariant
            i <= dpus@.len(),
            forall|j: int| 0 <= j < i ==> !(#[trigger] dpus@[j]).1,
        decreases dpus@.len() - i,
    {
        if dpus[i].1 {
            return Some(dpus[i].0);
        }
        i = i + 1;
    }
    None
}

} // verus!
