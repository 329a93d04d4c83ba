//! The state-handler contract: what an object kind implements to take part
//! in reconciliation.

use vstd::prelude::*;

use crate::outcome::{SourceLocation, StateHandlerError, StateHandlerOutcome};
use crate::write_batch::DbWriteBatch;

verus! {

/// The generic objects a handler context carries.
pub trait StateHandlerContextObjects {
    /// Services available to the handler: a snapshot of shared dependencies.
    type Services;

    /// Scratch metrics for the one object being handled; merged into the
    /// iteration's aggregate afterwards.
    type ObjectMetrics;
}

/// Context handed to a handler invocation: services, fresh metrics, and a
/// fresh deferred-write batch.
pub struct StateHandlerContext<T: StateHandlerContextObjects> {
    pub services: T::Services,
    pub metrics: T::ObjectMetrics,
    pub pending_db_writes: DbWriteBatch,
}

/// Decides the next step in an object's lifecycle. The function gets the
/// full object state as loaded from the store and returns what the
/// framework must persist.
pub trait StateHandler {
    type ObjectId;

    type State;

    type ControllerState;

    type ContextObjects: StateHandlerContextObjects;

    fn handle_object_state(
        &self,
        object_id: &Self::ObjectId,
        state: &mut Self::State,
        controller_state: &Self::ControllerState,
        ctx: &mut StateHandlerContext<Self::ContextObjects>,
    ) -> Result<StateHandlerOutcome<Self::ControllerState>, StateHandlerError>;
}

/// A handler that always finds nothing to do.
pub struct NoopStateHandler<I, S, CS, CO> {
    pub phantom: core::marker::PhantomData<Option<(I, S, CS, CO)>>,
}

impl<I, S, CS, CO> Default for NoopStateHandler<I, S, CS, CO> {
    fn default() -> (r: Self)
        ensures
            r == (NoopStateHandler::<I, S, CS, CO> { phantom: core::marker::PhantomData }),
    {
        NoopStateHandler { phantom: core::marker::PhantomData }
    }
}

impl<I, S, CS, CO: StateHandlerContextObjects> StateHandler for NoopStateHandler<I, S, CS, CO> {
    type ObjectId = I;

    type State = S;

    type ControllerState = CS;

    type ContextObjects = CO;

    fn handle_object_state(
        &self,
        _object_id: &I,
        _state: &mut S,
        _controller_state: &CS,
        _ctx: &mut StateHandlerContext<CO>,
    ) -> Result<StateHandlerOutcome<CS>, StateHandlerError> {
        Ok(StateHandlerOutcome::do_nothing(SourceLocation::new("noop_state_handler", 0)))
    }
}

} // verus!
