//! Host firmware updates: gauges and the selection of machines to update.

use vstd::prelude::*;

verus! {

/// Gauges of the firmware-update module.
#[derive(Debug, Clone, Copy, PartialEq, Eq, Structural)]
pub struct HostFirmwareUpdateMetrics {
    /// Host machines that need a firmware update.
    pub pending_firmware_updates: u64,
    /// Host machines currently updating their firmware.
    pub active_firmware_updates: u64,
}

impl HostFirmwareUpdateMetrics {
    pub fn new() -> (r: HostFirmwareUpdateMetrics)
        ensures
            r.pending_firmware_updates == 0,
            r.active_firmware_updates == 0,
    {
        HostFirmwareUpdateMetrics { pending_firmware_updates: 0, active_firmware_updates: 0 }
    }
}

/// Choose which machines to start updating: walk the machines that need an
/// upgrade in order, stop at the first one on the disabled list, and take at
/// most `available_updates` of them. A negative budget takes everything up
/// to the first disabled machine.
pub fn check_for_updates(
    upgrade_needed: &Vec<u128>,
    disabled: &Vec<u128>,
    available_updates: i32,
) -> (r: Vec<u128>)
    ensures
        r@.len() <= upgrade_needed@.len(),
        available_updates == 0 ==> r@.len() == 0,
        available_updates > 0 ==> r@.len() <= available_updates,
        forall|k: int| 0 <= k < r@.len() ==> r@[k] == upgrade_needed@[k],
        forall|k: int| 0 <= k < r@.len() ==> !disabled@.contains(#[trigger] r@[k]),
{
    let mut machines: Vec<u128> = Vec::new();
    if available_updates == 0 {
        return machines;
    }
    let mut remaining = available_updates;
    let mut i: usize = 0;
    let n = upgrade_needed.len();
    while i < n
        invariant
            n == upgrade_needed@.len(),
            i <= n,
            machines@.len() == i as int,
            available_updates != 0,
            available_updates > 0 ==> remaining == available_updates - i && remaining >= 0,
            available_updates < 0 ==> remaining == available_updates,
            forall|k: int| 0 <= k < i ==> machines@[k] == upgrade_needed@[k],
            forall|k: int| 0 <= k < i ==> !disabled@.contains(#[trigger] machines@[k]),
        decreases n - i,
    {
        if remaining == 0 {
            return machines;
        }
        let candidate = upgrade_needed[i];
        if vec_contains_u128(disabled, candidate) {
            // this machine is specifically disabled; stop here
            return machines;
        }
        if remaining > 0 {
            remaining = remaining - 1;
        }
        machines.push(candidate);
        i = i + 1;
    }
    machines
}

fn vec_contains_u128(v: &Vec<u128>, x: u128) -> (r: bool)
    ensures
        r == v@.contains(x),
{
    let mut i: usize = 0;
    while i < v.len()
        invariant
            i <= v@.len(),
            forall|j: int| 0 <= j < i ==> v@[j] != x,
        decreases v@.len() - i,
    {
        if v[i] == x {
            return true;
        }
        i = i + 1;
    }
    false
}

} // verus!
