//! The state handler for network segments.
//!
//! Provisioning completes immediately; a segment marked deleted drains its
//! allocated IPs past a grace period, then releases its VNI and VLAN and is
//! removed from the store.

use vstd::prelude::*;
use vstd::string::StringExecFns;

use crate::outcome::{SourceLocation, StateHandlerError, StateHandlerOutcome};
use crate::resource_pool::ResourcePool;
use crate::segment::{
    NetworkSegment, NetworkSegmentControllerState, NetworkSegmentDeletionState, NetworkSegmentType,
};
use crate::state_handler::{StateHandler, StateHandlerContext, StateHandlerContextObjects};

verus! {

/// Metrics recorded for one segment in one iteration.
#[derive(Debug)]
pub struct NetworkSegmentMetrics {
    pub available_ips: u64,
    pub reserved_ips: u64,
    pub total_ips: u64,
    pub seg_name: String,
    pub seg_type: String,
    pub seg_id: u128,
    pub prefix_base: u128,
    pub prefix_len: u8,
}

impl Default for NetworkSegmentMetrics {
    fn default() -> (r: NetworkSegmentMetrics)
        ensures
            r.available_ips == 0,
            r.reserved_ips == 0,
            r.total_ips == 0,
            r.seg_name@ == Seq::<char>::empty(),
            r.seg_type@ == Seq::<char>::empty(),
            r.seg_id == 0,
    {
        NetworkSegmentMetrics {
            available_ips: 0,
            reserved_ips: 0,
            total_ips: 0,
            seg_name: String::new(),
            seg_type: String::new(),
            seg_id: 0,
            prefix_base: 0,
            prefix_len: 0,
        }
    }
}

/// The services a segment handler invocation works with: a snapshot of the
/// store reads the decision needs, the clock, and the resource pools.
#[derive(Debug)]
pub struct NetworkSegmentServices {
    /// Machine interfaces plus instance addresses still allocated on the
    /// segment.
    pub allocated_ip_count: u64,
    pub now_micros: i64,
    pub vni_pool: ResourcePool,
    pub vlan_pool: ResourcePool,
}

pub struct NetworkSegmentStateHandlerContextObjects;

impl StateHandlerContextObjects for NetworkSegmentStateHandlerContextObjects {
    type Services = NetworkSegmentServices;

    type ObjectMetrics = NetworkSegmentMetrics;
}

/// What [`NetworkSegmentStateHandler::record_metrics`] leaves in the
/// per-object metrics: untouched for tenant segments and segments without
/// prefixes, the first prefix's figures otherwise.
pub open spec fn spec_metrics_recorded(
    state: NetworkSegment,
    pre: NetworkSegmentMetrics,
    post: NetworkSegmentMetrics,
) -> bool {
    if state.prefixes@.len() == 0 || state.segment_type == NetworkSegmentType::Tenant {
        post == pre
    } else {
        let p = state.prefixes@[0];
        &&& post.available_ips == p.num_free_ips
        &&& post.reserved_ips == p.num_reserved
        &&& post.seg_name@ == state.name@
        &&& post.seg_type@ == state.segment_type.spec_label()
        &&& post.seg_id == state.id
        &&& post.prefix_base == p.prefix.base
        &&& post.prefix_len == p.prefix.len
        &&& post.total_ips == if p.prefix.family is V4 {
            p.prefix.spec_size()
        } else {
            0
        }
    }
}

/// The network segment state handler.
#[derive(Debug)]
pub struct NetworkSegmentStateHandler {
    /// For how long the number of allocated IPs must stay zero before the
    /// segment is deleted, in microseconds.
    pub drain_period_micros: i64,
}

impl NetworkSegmentStateHandler {
    pub fn new(drain_period_micros: i64) -> (r: NetworkSegmentStateHandler)
        ensures
            r.drain_period_micros == drain_period_micros,
    {
        NetworkSegmentStateHandler { drain_period_micros }
    }

    /// Record per-segment metrics; tenant segments are not under the
    /// operator's control and stay out, as do segments without prefixes.
    pub fn record_metrics(
        &self,
        state: &NetworkSegment,
        ctx: &mut StateHandlerContext<NetworkSegmentStateHandlerContextObjects>,
    )
        requires
            forall|j: int|
                0 <= j < state.prefixes@.len() ==> (#[trigger] state.prefixes@[j]).prefix.wf(),
        ensures
            spec_metrics_recorded(*state, old(ctx).metrics, final(ctx).metrics),
            final(ctx).services == old(ctx).services,
            final(ctx).pending_db_writes == old(ctx).pending_db_writes,
    {
        if state.prefixes.len() == 0 || state.segment_type == NetworkSegmentType::Tenant {
            return ;
        }
        let p = state.prefixes[0];
        ctx.metrics.available_ips = p.num_free_ips;
        ctx.metrics.reserved_ips = p.num_reserved as u64;
        ctx.metrics.seg_name = state.name.clone();
        ctx.metrics.seg_type = state.segment_type.label().to_string();
        ctx.metrics.seg_id = state.id;
        ctx.metrics.prefix_base = p.prefix.base;
        ctx.metrics.prefix_len = p.prefix.len;
        // only an IPv4 prefix has a meaningfully bounded address count
        if p.prefix.family.bits() == 32 {
            proof {
                crate::prefix::pow2_128_facts();
                vstd::arithmetic::power2::lemma_pow2_strictly_increases(
                    (p.prefix.family.spec_bits() - p.prefix.len) as nat,
                    64,
                );
            }
            ctx.metrics.total_ips = p.prefix.size_saturating() as u64;
        } else {
            ctx.metrics.total_ips = 0;
        }
    }
}

/// What the handler decides for a segment, as a function of its state and of
/// what the iteration observed: a provisioning segment becomes ready; a
/// ready segment marked deleted starts draining until `now + drain_period`;
/// a draining segment with allocated IPs re-arms its deadline, one past its
/// deadline moves to the final delete, and otherwise it waits; the final
/// delete reports the object deleted.
pub open spec fn spec_segment_outcome_matches(
    controller_state: NetworkSegmentControllerState,
    marked_deleted: bool,
    allocated_ip_count: u64,
    now_micros: i64,
    drain_period_micros: i64,
    src: SourceLocation,
    r: StateHandlerOutcome<NetworkSegmentControllerState>,
) -> bool {
    match controller_state {
            NetworkSegmentControllerState::Provisioning => r == (StateHandlerOutcome::Transition {
                next_state: NetworkSegmentControllerState::Ready,
                source_ref: src,
            }),
            NetworkSegmentControllerState::Ready => if marked_deleted {
                r == (StateHandlerOutcome::Transition {
                    next_state: NetworkSegmentControllerState::Deleting {
                        deletion_state: NetworkSegmentDeletionState::DrainAllocatedIps {
                            delete_at: (now_micros + drain_period_micros) as i64,
                        },
                    },
                    source_ref: src,
                })
            } else {
                r == (StateHandlerOutcome::DoNothing::<NetworkSegmentControllerState> {
                    source_ref: src,
                })
            },
            NetworkSegmentControllerState::Deleting {
                deletion_state: NetworkSegmentDeletionState::DrainAllocatedIps { delete_at },
            } => if allocated_ip_count > 0 {
                r == (StateHandlerOutcome::Transition {
                    next_state: NetworkSegmentControllerState::Deleting {
                        deletion_state: NetworkSegmentDeletionState::DrainAllocatedIps {
                            delete_at: (now_micros + drain_period_micros) as i64,
                        },
                    },
                    source_ref: src,
                })
            } else if now_micros >= delete_at {
                r == (StateHandlerOutcome::Transition {
                    next_state: NetworkSegmentControllerState::Deleting {
                        deletion_state: NetworkSegmentDeletionState::DBDelete,
                    },
                    source_ref: src,
                })
            } else {
                r matches StateHandlerOutcome::Wait { reason, source_ref } && source_ref == src
                    && reason@ == "cannot delete from the store until draining completes at "@
                    + crate::clock::rfc3339_of(delete_at)
            },
            NetworkSegmentControllerState::Deleting {
                deletion_state: NetworkSegmentDeletionState::DBDelete,
            } => r == (StateHandlerOutcome::Deleted::<NetworkSegmentControllerState> {
                source_ref: src,
            }),
    }
}

/// See [`spec_segment_outcome_matches`].
pub fn segment_next_outcome(
    controller_state: &NetworkSegmentControllerState,
    marked_deleted: bool,
    allocated_ip_count: u64,
    now_micros: i64,
    drain_period_micros: i64,
    src: SourceLocation,
) -> (r: StateHandlerOutcome<NetworkSegmentControllerState>)
    requires
        now_micros >= 0,
        drain_period_micros >= 0,
        now_micros + drain_period_micros <= i64::MAX,
    ensures
        spec_segment_outcome_matches(
            *controller_state,
            marked_deleted,
            allocated_ip_count,
            now_micros,
            drain_period_micros,
            src,
            r,
        ),
{
    match controller_state {
        NetworkSegmentControllerState::Provisioning => StateHandlerOutcome::transition(
            NetworkSegmentControllerState::Ready,
            src,
        ),
        NetworkSegmentControllerState::Ready => {
            if marked_deleted {
                StateHandlerOutcome::transition(
                    NetworkSegmentControllerState::Deleting {
                        deletion_state: NetworkSegmentDeletionState::DrainAllocatedIps {
                            delete_at: now_micros + drain_period_micros,
                        },
                    },
                    src,
                )
            } else {
                StateHandlerOutcome::do_nothing(src)
            }
        },
        NetworkSegmentControllerState::Deleting {
            deletion_state: NetworkSegmentDeletionState::DrainAllocatedIps { delete_at },
        } => {
            if allocated_ip_count > 0 {
                StateHandlerOutcome::transition(
                    NetworkSegmentControllerState::Deleting {
                        deletion_state: NetworkSegmentDeletionState::DrainAllocatedIps {
                            delete_at: now_micros + drain_period_micros,
                        },
                    },
                    src,
                )
            } else if now_micros >= *delete_at {
                StateHandlerOutcome::transition(
                    NetworkSegmentControllerState::Deleting {
                        deletion_state: NetworkSegmentDeletionState::DBDelete,
                    },
                    src,
                )
            } else {
                let mut reason: String =
                    "cannot delete from the store until draining completes at ".to_string();
                let deadline = crate::clock::format_rfc3339(*delete_at);
                reason.append(deadline.as_str());
                StateHandlerOutcome::wait(reason, src)
            }
        },
        NetworkSegmentControllerState::Deleting {
            deletion_state: NetworkSegmentDeletionState::DBDelete,
        } => StateHandlerOutcome::deleted(src),
    }
}

impl StateHandler for NetworkSegmentStateHandler {
    type ObjectId = u128;

    type State = NetworkSegment;

    type ControllerState = NetworkSegmentControllerState;

    type ContextObjects = NetworkSegmentStateHandlerContextObjects;

    /// One reconciliation step for a segment. Metrics are recorded first;
    /// an out-of-range clock is refused; the final-delete state releases the
    /// segment's VNI and VLAN back to their pools before the decision, which
    /// is exactly [`spec_segment_outcome_matches`]. The framework removes
    /// the row when the outcome is `Deleted`.
    fn handle_object_state(
        &self,
        object_id: &u128,
        state: &mut NetworkSegment,
        controller_state: &NetworkSegmentControllerState,
        ctx: &mut StateHandlerContext<NetworkSegmentStateHandlerContextObjects>,
    ) -> (r: Result<StateHandlerOutcome<NetworkSegmentControllerState>, StateHandlerError>)
        ensures
            ({
                let now = old(ctx).services.now_micros;
                let drain = self.drain_period_micros;
                let guard_ok = now >= 0 && drain >= 0 && now + drain <= i64::MAX;
                let db_delete = *controller_state == (NetworkSegmentControllerState::Deleting {
                    deletion_state: NetworkSegmentDeletionState::DBDelete,
                });
                let all_wf = forall|j: int|
                    0 <= j < old(state).prefixes@.len() ==> (
                    #[trigger] old(state).prefixes@[j]).prefix.wf();
                &&& (r is Err <==> !guard_ok)
                &&& (r matches Err(e) ==> e matches StateHandlerError::InvalidState { .. })
                // the payload stands, except the resources released below
                &&& *final(state) == (NetworkSegment {
                    vni: final(state).vni,
                    vlan_id: final(state).vlan_id,
                    ..*old(state)
                })
                &&& (r is Ok && db_delete ==> final(state).vni is None && final(state).vlan_id
                    is None)
                &&& (r is Ok && db_delete ==> (match old(state).vni {
                    Some(v) => final(ctx).services.vni_pool.free@ == old(
                        ctx,
                    ).services.vni_pool.free@.push(v as i64),
                    None => final(ctx).services.vni_pool.free@ == old(
                        ctx,
                    ).services.vni_pool.free@,
                }))
                &&& (r is Ok && db_delete ==> (match old(state).vlan_id {
                    Some(v) => final(ctx).services.vlan_pool.free@ == old(
                        ctx,
                    ).services.vlan_pool.free@.push(v as i64),
                    None => final(ctx).services.vlan_pool.free@ == old(
                        ctx,
                    ).services.vlan_pool.free@,
                }))
                &&& (!(r is Ok && db_delete) ==> final(state).vni == old(state).vni)
                &&& (!(r is Ok && db_delete) ==> final(state).vlan_id == old(state).vlan_id)
                &&& (!(r is Ok && db_delete) ==> final(ctx).services.vni_pool == old(
                    ctx,
                ).services.vni_pool)
                &&& (!(r is Ok && db_delete) ==> final(ctx).services.vlan_pool == old(
                    ctx,
                ).services.vlan_pool)
                &&& final(ctx).services.allocated_ip_count == old(ctx).services.allocated_ip_count
                &&& final(ctx).services.now_micros == old(ctx).services.now_micros
                &&& final(ctx).pending_db_writes == old(ctx).pending_db_writes
                &&& (all_wf ==> spec_metrics_recorded(
                    *old(state),
                    old(ctx).metrics,
                    final(ctx).metrics,
                ))
                &&& (!all_wf ==> final(ctx).metrics == old(ctx).metrics)
                &&& (r matches Ok(o) ==> (exists|src: SourceLocation|
                    #[trigger] spec_segment_outcome_matches(
                        *controller_state,
                        old(state).deleted is Some,
                        old(ctx).services.allocated_ip_count,
                        now,
                        drain,
                        src,
                        o,
                    )))
            }),
    {
        let wf_prefixes = check_prefixes_wf(&state.prefixes);
        if wf_prefixes {
            self.record_metrics(state, ctx);
        }
        let now = ctx.services.now_micros;
        if now < 0 || self.drain_period_micros < 0 || now > i64::MAX - self.drain_period_micros {
            return Err(
                StateHandlerError::InvalidState { detail: "clock out of range".to_string() },
            );
        }
        let is_db_delete = match controller_state {
            NetworkSegmentControllerState::Deleting {
                deletion_state: NetworkSegmentDeletionState::DBDelete,
            } => true,
            _ => false,
        };
        if is_db_delete {
            // release pool-backed resources before the row goes away
            if let Some(vni) = state.vni {
                ctx.services.vni_pool.release(vni as i64);
                state.vni = None;
            }
            if let Some(vlan_id) = state.vlan_id {
                ctx.services.vlan_pool.release(vlan_id as i64);
                state.vlan_id = None;
            }
        }
        let deleted = state.is_marked_as_deleted();
        let src = SourceLocation::new("network_segment_handler", 1);
        let o = segment_next_outcome(
            controller_state,
            deleted,
            ctx.services.allocated_ip_count,
            now,
            self.drain_period_micros,
            src,
        );
        proof {
            assert(spec_segment_outcome_matches(
                *controller_state,
                old(state).deleted is Some,
                old(ctx).services.allocated_ip_count,
                old(ctx).services.now_micros,
                self.drain_period_micros,
                src,
                o,
            ));
        }
        Ok(o)
    }
}

/// Whether every prefix of a segment is well-formed.
fn check_prefixes_wf(prefixes: &Vec<crate::segment::NetworkPrefix>) -> (r: bool)
    ensures
        r == (forall|j: int|
            0 <= j < prefixes@.len() ==> (#[trigger] prefixes@[j]).prefix.wf()),
{
    let mut i: usize = 0;
    while i < prefixes.len()
        invariant
            i <= prefixes@.len(),
            forall|j: int| 0 <= j < i ==> (#[trigger] prefixes@[j]).prefix.wf(),
        decreases prefixes@.len() - i,
    {
        if !prefixes[i].prefix.is_well_formed() {
            return false;
        }
        i = i + 1;
    }
    true
}

} // verus!
