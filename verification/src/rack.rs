//! Racks: the states a rack moves through while its trays are discovered,
//! upgraded, power-sequenced and validated.

use vstd::prelude::*;

use crate::controller::StateValue;
use crate::outcome::PersistentStateHandlerOutcome;
use crate::version::{ConfigVersion, StateSla, Versioned};

verus! {

/// Overall state of a rack. A rack is expected once any of its devices is
/// named; it discovers until all expected devices are found, may pass
/// through maintenance, and ends ready.
#[derive(Debug, Clone, PartialEq, Eq)]
pub enum RackState {
    /// Named in the expected-device lists, nothing seen yet.
    Expected,
    /// Some trays showed up; waiting for the rest.
    Discovering,
    /// Devices held in rack-level maintenance substates.
    Maintenance { rack_maintenance: RackMaintenanceState },
    /// The rack is serving.
    Ready { rack_ready: RackReadyState },
    Error { cause: String },
    Deleting,
    /// The default state before anything is known.
    Unknown,
}

#[derive(Debug, Clone, Copy, PartialEq, Eq, Structural)]
pub enum RackReadyState {
    Partial,
    Full,
}

#[derive(Debug, Clone, Copy, PartialEq, Eq, Structural)]
pub enum RackMaintenanceState {
    FirmwareUpgrade { rack_firmware_upgrade: RackFirmwareUpgradeState },
    PowerSequence { rack_power: RackPowerState },
    RackValidation { rack_validation: RackValidationState },
    Completed,
}

#[derive(Debug, Clone, Copy, PartialEq, Eq, Structural)]
pub enum RackFirmwareUpgradeState {
    Compute,
    Switch,
    PowerShelf,
    All,
}

#[derive(Debug, Clone, Copy, PartialEq, Eq, Structural)]
pub enum RackPowerState {
    PoweringOn,
    PoweringOff,
    PowerReset,
}

#[derive(Debug, Clone, Copy, PartialEq, Eq, Structural)]
pub enum RackValidationState {
    Compute,
    Switch,
    Power,
    Nvlink,
    Topology,
}

impl StateValue for RackState {
    fn dup(&self) -> (r: Self)
        ensures
            r == *self,
    {
        match self {
            RackState::Expected => RackState::Expected,
            RackState::Discovering => RackState::Discovering,
            RackState::Maintenance { rack_maintenance } => RackState::Maintenance {
                rack_maintenance: *rack_maintenance,
            },
            RackState::Ready { rack_ready } => RackState::Ready { rack_ready: *rack_ready },
            RackState::Error { cause } => RackState::Error { cause: cause.clone() },
            RackState::Deleting => RackState::Deleting,
            RackState::Unknown => RackState::Unknown,
        }
    }
}

/// One history row of a rack's state changes.
#[derive(Debug, Clone)]
pub struct RackStateHistory {
    /// The state that was entered, as its label.
    pub state: String,
    /// The version number associated with the state change.
    pub state_version: ConfigVersion,
}

/// The expected and discovered devices of a rack. MAC addresses are held as
/// 48-bit integers.
#[derive(Debug, Clone)]
pub struct RackConfig {
    pub compute_trays: Vec<u128>,
    pub power_shelves: Vec<u128>,
    pub expected_compute_trays: Vec<u64>,
    pub expected_power_shelves: Vec<u64>,
}

impl Default for RackConfig {
    fn default() -> (r: RackConfig)
        ensures
            r.compute_trays@.len() == 0,
            r.power_shelves@.len() == 0,
            r.expected_compute_trays@.len() == 0,
            r.expected_power_shelves@.len() == 0,
    {
        RackConfig {
            compute_trays: Vec::new(),
            power_shelves: Vec::new(),
            expected_compute_trays: Vec::new(),
            expected_power_shelves: Vec::new(),
        }
    }
}

/// A rack as loaded from the store.
#[derive(Debug)]
pub struct Rack {
    pub id: u128,
    pub config: RackConfig,
    pub controller_state: Versioned<RackState>,
    pub controller_state_outcome: Option<PersistentStateHandlerOutcome>,
    pub created: i64,
    pub updated: i64,
    pub deleted: Option<i64>,
}

/// The SLA of a rack's current state: none of the rack states carries a
/// bound; discovery and maintenance take as long as the hardware takes.
pub fn state_sla(state: &RackState, _state_version: &ConfigVersion, _now_micros: i64) -> (r:
    StateSla)
    ensures
        r == StateSla::NoSla,
{
    match state {
        RackState::Expected => StateSla::no_sla(),
        RackState::Discovering => StateSla::no_sla(),
        RackState::Maintenance { .. } => StateSla::no_sla(),
        RackState::Ready { .. } => StateSla::no_sla(),
        RackState::Error { .. } => StateSla::no_sla(),
        RackState::Deleting => StateSla::no_sla(),
        RackState::Unknown => StateSla::no_sla(),
    }
}

} // verus!
