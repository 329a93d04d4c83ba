//! State handlers for power shelves and switches: straight-line
//! provisioning pipelines with a deletion path.

use vstd::prelude::*;

use crate::controller::StateValue;
use crate::outcome::{SourceLocation, StateHandlerError, StateHandlerOutcome};
use crate::state_handler::{StateHandler, StateHandlerContext, StateHandlerContextObjects};

verus! {

/// Lifecycle of a power shelf.
#[derive(Debug, Clone, PartialEq, Eq)]
pub enum PowerShelfControllerState {
    Initializing,
    FetchingData,
    Configuring,
    Ready,
    Deleting,
    Error { cause: String },
}

impl StateValue for PowerShelfControllerState {
    fn dup(&self) -> (r: Self)
        ensures
            r == *self,
    {
        match self {
            PowerShelfControllerState::Initializing => PowerShelfControllerState::Initializing,
            PowerShelfControllerState::FetchingData => PowerShelfControllerState::FetchingData,
            PowerShelfControllerState::Configuring => PowerShelfControllerState::Configuring,
            PowerShelfControllerState::Ready => PowerShelfControllerState::Ready,
            PowerShelfControllerState::Deleting => PowerShelfControllerState::Deleting,
            PowerShelfControllerState::Error { cause } => PowerShelfControllerState::Error {
                cause: cause.clone(),
            },
        }
    }
}

/// The slice of a power shelf the handler reads.
#[derive(Debug)]
pub struct PowerShelf {
    pub id: u128,
    pub deleted: Option<i64>,
}

impl PowerShelf {
    pub fn is_marked_as_deleted(&self) -> (r: bool)
        ensures
            r == (self.deleted is Some),
    {
        self.deleted.is_some()
    }
}

pub struct PowerShelfStateHandlerContextObjects;

impl StateHandlerContextObjects for PowerShelfStateHandlerContextObjects {
    type Services = ();

    type ObjectMetrics = ();
}

/// What the handler decides for a power shelf: the provisioning pipeline
/// advances one station per iteration; a ready or errored shelf marked
/// deleted moves to `Deleting`, whose next iteration removes the row; an
/// errored shelf otherwise stays put for manual intervention.
pub open spec fn spec_power_shelf_outcome(
    controller_state: PowerShelfControllerState,
    marked_deleted: bool,
    src: SourceLocation,
) -> StateHandlerOutcome<PowerShelfControllerState> {
    match controller_state {
        PowerShelfControllerState::Initializing => StateHandlerOutcome::Transition {
            next_state: PowerShelfControllerState::FetchingData,
            source_ref: src,
        },
        PowerShelfControllerState::FetchingData => StateHandlerOutcome::Transition {
            next_state: PowerShelfControllerState::Configuring,
            source_ref: src,
        },
        PowerShelfControllerState::Configuring => StateHandlerOutcome::Transition {
            next_state: PowerShelfControllerState::Ready,
            source_ref: src,
        },
        PowerShelfControllerState::Deleting => StateHandlerOutcome::Deleted { source_ref: src },
        PowerShelfControllerState::Ready => if marked_deleted {
            StateHandlerOutcome::Transition {
                next_state: PowerShelfControllerState::Deleting,
                source_ref: src,
            }
        } else {
            StateHandlerOutcome::DoNothing { source_ref: src }
        },
        PowerShelfControllerState::Error { .. } => if marked_deleted {
            StateHandlerOutcome::Transition {
                next_state: PowerShelfControllerState::Deleting,
                source_ref: src,
            }
        } else {
            StateHandlerOutcome::DoNothing { source_ref: src }
        },
    }
}

/// See [`spec_power_shelf_outcome`].
pub fn power_shelf_next_outcome(
    controller_state: &PowerShelfControllerState,
    marked_deleted: bool,
    src: SourceLocation,
) -> (r: StateHandlerOutcome<PowerShelfControllerState>)
    ensures
        r == spec_power_shelf_outcome(*controller_state, marked_deleted, src),
{
    match controller_state {
        PowerShelfControllerState::Initializing => StateHandlerOutcome::transition(
            PowerShelfControllerState::FetchingData,
            src,
        ),
        PowerShelfControllerState::FetchingData => StateHandlerOutcome::transition(
            PowerShelfControllerState::Configuring,
            src,
        ),
        PowerShelfControllerState::Configuring => StateHandlerOutcome::transition(
            PowerShelfControllerState::Ready,
            src,
        ),
        PowerShelfControllerState::Deleting => StateHandlerOutcome::deleted(src),
        PowerShelfControllerState::Ready => {
            if marked_deleted {
                StateHandlerOutcome::transition(PowerShelfControllerState::Deleting, src)
            } else {
                StateHandlerOutcome::do_nothing(src)
            }
        },
        PowerShelfControllerState::Error { .. } => {
            if marked_deleted {
                StateHandlerOutcome::transition(PowerShelfControllerState::Deleting, src)
            } else {
                StateHandlerOutcome::do_nothing(src)
            }
        },
    }
}

/// The power shelf state handler.
#[derive(Debug)]
pub struct PowerShelfStateHandler {}

impl StateHandler for PowerShelfStateHandler {
    type ObjectId = u128;

    type State = PowerShelf;

    type ControllerState = PowerShelfControllerState;

    type ContextObjects = PowerShelfStateHandlerContextObjects;

    fn handle_object_state(
        &self,
        _object_id: &u128,
        state: &mut PowerShelf,
        controller_state: &PowerShelfControllerState,
        _ctx: &mut StateHandlerContext<PowerShelfStateHandlerContextObjects>,
    ) -> (r: Result<StateHandlerOutcome<PowerShelfControllerState>, StateHandlerError>)
        ensures
            *final(state) == *old(state),
            r matches Ok(o) && (exists|src: SourceLocation|
                o == #[trigger] spec_power_shelf_outcome(
                    *controller_state,
                    old(state).deleted is Some,
                    src,
                )),
    {
        let deleted = state.is_marked_as_deleted();
        let src = SourceLocation::new("power_shelf_handler", 1);
        let o = power_shelf_next_outcome(controller_state, deleted, src);
        proof {
            assert(o == spec_power_shelf_outcome(*controller_state, old(state).deleted is Some, src));
        }
        Ok(o)
    }
}

/// Lifecycle of a switch.
#[derive(Debug, Clone, PartialEq, Eq)]
pub enum SwitchControllerState {
    Initializing,
    FetchingData,
    Configuring,
    Ready,
    Deleting,
    Error { cause: String },
}

impl StateValue for SwitchControllerState {
    fn dup(&self) -> (r: Self)
        ensures
            r == *self,
    {
        match self {
            SwitchControllerState::Initializing => SwitchControllerState::Initializing,
            SwitchControllerState::FetchingData => SwitchControllerState::FetchingData,
            SwitchControllerState::Configuring => SwitchControllerState::Configuring,
            SwitchControllerState::Ready => SwitchControllerState::Ready,
            SwitchControllerState::Deleting => SwitchControllerState::Deleting,
            SwitchControllerState::Error { cause } => SwitchControllerState::Error {
                cause: cause.clone(),
            },
        }
    }
}

/// The slice of a switch the handler reads.
#[derive(Debug)]
pub struct Switch {
    pub id: u128,
    pub deleted: Option<i64>,
}

impl Switch {
    pub fn is_marked_as_deleted(&self) -> (r: bool)
        ensures
            r == (self.deleted is Some),
    {
        self.deleted.is_some()
    }
}

pub struct SwitchStateHandlerContextObjects;

impl StateHandlerContextObjects for SwitchStateHandlerContextObjects {
    type Services = ();

    type ObjectMetrics = ();
}

/// What the handler decides for a switch; the shape mirrors the power
/// shelf's pipeline.
pub open spec fn spec_switch_outcome(
    controller_state: SwitchControllerState,
    marked_deleted: bool,
    src: SourceLocation,
) -> StateHandlerOutcome<SwitchControllerState> {
    match controller_state {
        SwitchControllerState::Initializing => StateHandlerOutcome::Transition {
            next_state: SwitchControllerState::FetchingData,
            source_ref: src,
        },
        SwitchControllerState::FetchingData => StateHandlerOutcome::Transition {
            next_state: SwitchControllerState::Configuring,
            source_ref: src,
        },
        SwitchControllerState::Configuring => StateHandlerOutcome::Transition {
            next_state: SwitchControllerState::Ready,
            source_ref: src,
        },
        SwitchControllerState::Deleting => StateHandlerOutcome::Deleted { source_ref: src },
        SwitchControllerState::Ready => if marked_deleted {
            StateHandlerOutcome::Transition {
                next_state: SwitchControllerState::Deleting,
                source_ref: src,
            }
        } else {
            StateHandlerOutcome::DoNothing { source_ref: src }
        },
        SwitchControllerState::Error { .. } => if marked_deleted {
            StateHandlerOutcome::Transition {
                next_state: SwitchControllerState::Deleting,
                source_ref: src,
            }
        } else {
            StateHandlerOutcome::DoNothing { source_ref: src }
        },
    }
}

/// See [`spec_switch_outcome`].
pub fn switch_next_outcome(
    controller_state: &SwitchControllerState,
    marked_deleted: bool,
    src: SourceLocation,
) -> (r: StateHandlerOutcome<SwitchControllerState>)
    ensures
        r == spec_switch_outcome(*controller_state, marked_deleted, src),
{
    match controller_state {
        SwitchControllerState::Initializing => StateHandlerOutcome::transition(
            SwitchControllerState::FetchingData,
            src,
        ),
        SwitchControllerState::FetchingData => StateHandlerOutcome::transition(
            SwitchControllerState::Configuring,
            src,
        ),
        SwitchControllerState::Configuring => StateHandlerOutcome::transition(
            SwitchControllerState::Ready,
            src,
        ),
        SwitchControllerState::Deleting => StateHandlerOutcome::deleted(src),
        SwitchControllerState::Ready => {
            if marked_deleted {
                StateHandlerOutcome::transition(SwitchControllerState::Deleting, src)
            } else {
                StateHandlerOutcome::do_nothing(src)
            }
        },
        SwitchControllerState::Error { .. } => {
            if marked_deleted {
                StateHandlerOutcome::transition(SwitchControllerState::Deleting, src)
            } else {
                StateHandlerOutcome::do_nothing(src)
            }
        },
    }
}

/// The switch state handler.
#[derive(Debug)]
pub struct SwitchStateHandler {}

impl StateHandler for SwitchStateHandler {
    type ObjectId = u128;

    type State = Switch;

    type ControllerState = SwitchControllerState;

    type ContextObjects = SwitchStateHandlerContextObjects;

    fn handle_object_state(
        &self,
        _object_id: &u128,
        state: &mut Switch,
        controller_state: &SwitchControllerState,
        _ctx: &mut StateHandlerContext<SwitchStateHandlerContextObjects>,
    ) -> (r: Result<StateHandlerOutcome<SwitchControllerState>, StateHandlerError>)
        ensures
            *final(state) == *old(state),
            r matches Ok(o) && (exists|src: SourceLocation|
                o == #[trigger] spec_switch_outcome(
                    *controller_state,
                    old(state).deleted is Some,
                    src,
                )),
    {
        let deleted = state.is_marked_as_deleted();
        let src = SourceLocation::new("switch_handler", 1);
        let o = switch_next_outcome(controller_state, deleted, src);
        proof {
            assert(o == spec_switch_outcome(*controller_state, old(state).deleted is Some, src));
        }
        Ok(o)
    }
}

} // verus!
