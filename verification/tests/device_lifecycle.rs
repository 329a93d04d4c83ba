//! Power shelf, switch and rack lifecycles, and the no-op handler.

use fleetcore::device_handlers::{
    power_shelf_next_outcome, switch_next_outcome, PowerShelf, PowerShelfControllerState,
    PowerShelfStateHandler, Switch, SwitchControllerState, SwitchStateHandler,
};
use fleetcore::outcome::{SourceLocation, StateHandlerOutcome};
use fleetcore::rack::{state_sla, RackMaintenanceState, RackPowerState, RackState};
use fleetcore::segment::state_sla as segment_state_sla;
use fleetcore::segment::{NetworkSegmentControllerState, PROVISIONING_SLA_MICROS};
use fleetcore::state_handler::{NoopStateHandler, StateHandler, StateHandlerContext, StateHandlerContextObjects};
use fleetcore::version::{ConfigVersion, StateSla};
use fleetcore::write_batch::DbWriteBatch;

const SRC: SourceLocation = SourceLocation { file: "device_lifecycle", line: 1 };

struct NoopObjects;

impl StateHandlerContextObjects for NoopObjects {
    type Services = ();
    type ObjectMetrics = ();
}

#[test]
fn power_shelf_pipeline_advances() {
    let o = power_shelf_next_outcome(&PowerShelfControllerState::Initializing, false, SRC);
    assert!(matches!(
        o,
        StateHandlerOutcome::Transition { next_state: PowerShelfControllerState::FetchingData, .. }
    ));
    let o = power_shelf_next_outcome(&PowerShelfControllerState::FetchingData, false, SRC);
    assert!(matches!(
        o,
        StateHandlerOutcome::Transition { next_state: PowerShelfControllerState::Configuring, .. }
    ));
    let o = power_shelf_next_outcome(&PowerShelfControllerState::Configuring, false, SRC);
    assert!(matches!(
        o,
        StateHandlerOutcome::Transition { next_state: PowerShelfControllerState::Ready, .. }
    ));
    let o = power_shelf_next_outcome(&PowerShelfControllerState::Ready, false, SRC);
    assert!(matches!(o, StateHandlerOutcome::DoNothing { .. }));
    let o = power_shelf_next_outcome(&PowerShelfControllerState::Ready, true, SRC);
    assert!(matches!(
        o,
        StateHandlerOutcome::Transition { next_state: PowerShelfControllerState::Deleting, .. }
    ));
    let o = power_shelf_next_outcome(&PowerShelfControllerState::Deleting, true, SRC);
    assert!(matches!(o, StateHandlerOutcome::Deleted { .. }));
    // an errored shelf stays for manual intervention
    let errored = PowerShelfControllerState::Error { cause: "psu".to_string() };
    let o = power_shelf_next_outcome(&errored, false, SRC);
    assert!(matches!(o, StateHandlerOutcome::DoNothing { .. }));
}

#[test]
fn switch_pipeline_advances() {
    let o = switch_next_outcome(&SwitchControllerState::Initializing, false, SRC);
    assert!(matches!(
        o,
        StateHandlerOutcome::Transition { next_state: SwitchControllerState::FetchingData, .. }
    ));
    let o = switch_next_outcome(&SwitchControllerState::Ready, true, SRC);
    assert!(matches!(
        o,
        StateHandlerOutcome::Transition { next_state: SwitchControllerState::Deleting, .. }
    ));
    let handler = SwitchStateHandler {};
    let mut sw = Switch { id: 5, deleted: None };
    let mut ctx: StateHandlerContext<
        fleetcore::device_handlers::SwitchStateHandlerContextObjects,
    > = StateHandlerContext { services: (), metrics: (), pending_db_writes: DbWriteBatch::new() };
    let o = handler
        .handle_object_state(&5, &mut sw, &SwitchControllerState::Configuring, &mut ctx)
        .unwrap();
    assert!(matches!(
        o,
        StateHandlerOutcome::Transition { next_state: SwitchControllerState::Ready, .. }
    ));
}

#[test]
fn power_shelf_handler_deletes_marked_shelves() {
    let handler = PowerShelfStateHandler {};
    let mut shelf = PowerShelf { id: 6, deleted: Some(4) };
    let mut ctx: StateHandlerContext<
        fleetcore::device_handlers::PowerShelfStateHandlerContextObjects,
    > = StateHandlerContext { services: (), metrics: (), pending_db_writes: DbWriteBatch::new() };
    let o = handler
        .handle_object_state(&6, &mut shelf, &PowerShelfControllerState::Ready, &mut ctx)
        .unwrap();
    assert!(matches!(
        o,
        StateHandlerOutcome::Transition { next_state: PowerShelfControllerState::Deleting, .. }
    ));
}

#[test]
fn noop_handler_does_nothing() {
    let handler: NoopStateHandler<u128, u64, u32, NoopObjects> = NoopStateHandler::default();
    let mut state: u64 = 9;
    let mut ctx: StateHandlerContext<NoopObjects> =
        StateHandlerContext { services: (), metrics: (), pending_db_writes: DbWriteBatch::new() };
    let o = handler.handle_object_state(&1, &mut state, &0u32, &mut ctx).unwrap();
    assert!(matches!(o, StateHandlerOutcome::DoNothing { .. }));
}

#[test]
fn rack_states_carry_no_sla() {
    let v = ConfigVersion::initial(0);
    for s in [
        RackState::Expected,
        RackState::Discovering,
        RackState::Maintenance {
            rack_maintenance: RackMaintenanceState::PowerSequence {
                rack_power: RackPowerState::PoweringOn,
            },
        },
        RackState::Deleting,
        RackState::Unknown,
    ] {
        assert_eq!(state_sla(&s, &v, 5_000_000), StateSla::NoSla);
    }
}

#[test]
fn ready_segments_never_have_sla_now() {
    // whatever the clock says, a ready segment carries no SLA window
    let v = ConfigVersion { serial: 1, timestamp_micros: 0 };
    let sla = fleetcore::segment::state_sla_now(&NetworkSegmentControllerState::Ready, &v);
    assert_eq!(sla, StateSla::NoSla);
    match fleetcore::segment::state_sla_now(&NetworkSegmentControllerState::Provisioning, &v) {
        StateSla::Sla { sla_micros, .. } => assert_eq!(sla_micros, PROVISIONING_SLA_MICROS),
        StateSla::NoSla => panic!("provisioning must carry an SLA window"),
    }
}

#[test]
fn segment_sla_windows() {
    let v = ConfigVersion { serial: 1, timestamp_micros: 1_000_000 };
    let sla = segment_state_sla(&NetworkSegmentControllerState::Provisioning, &v, 4_000_000);
    assert_eq!(
        sla,
        StateSla::Sla { sla_micros: PROVISIONING_SLA_MICROS, time_in_state_micros: 3_000_000 }
    );
    assert!(!sla.breached());
    let late = segment_state_sla(
        &NetworkSegmentControllerState::Provisioning,
        &v,
        1_000_000 + PROVISIONING_SLA_MICROS + 1,
    );
    assert!(late.breached());
    let ready = segment_state_sla(&NetworkSegmentControllerState::Ready, &v, 4_000_000);
    assert_eq!(ready, StateSla::NoSla);
}
