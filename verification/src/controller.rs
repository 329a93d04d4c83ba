//! The reconciliation core: the object store shape the framework persists
//! into, and the finalize step that lands a handler's outcome.
//!
//! Finalize is the unit of work of one iteration on one object: the state
//! transition, the history append, the outcome record and the deferred
//! writes all land together, or none of them do and an error outcome is
//! recorded instead.

use vstd::prelude::*;

use crate::outcome::{PersistentStateHandlerOutcome, SourceLocation, StateHandlerError, StateHandlerOutcome};
use crate::version::{ConfigVersion, StateSla};
use crate::write_batch::{apply_batch_table, DbWriteBatch, MachineTable};

verus! {

/// A value that can be duplicated exactly; controller states implement this
/// so a transition can be recorded both on the row and in its history.
pub trait StateValue: Sized {
    fn dup(&self) -> (r: Self)
        ensures
            r == *self,
    ;
}

/// One history row: the state that was entered and the version that entered
/// it. History is append-only.
#[derive(Debug)]
pub struct HistoryEntry<CS> {
    pub state: CS,
    pub version: ConfigVersion,
}

/// One persisted object: id, domain payload, controller state with its
/// clock-tagged version, the most recent outcome, and the state history.
#[derive(Debug)]
pub struct ObjectRow<St, CS> {
    pub id: u128,
    pub state: St,
    pub controller_state: CS,
    pub version: ConfigVersion,
    pub outcome: Option<PersistentStateHandlerOutcome>,
    pub history: Vec<HistoryEntry<CS>>,
}

/// The object table of one kind.
#[derive(Debug)]
pub struct ObjectStore<St, CS> {
    pub rows: Vec<ObjectRow<St, CS>>,
}

/// Read-only access to the candidate set, the capability handed to the
/// lease-acquisition step of an iteration.
pub trait DbReader {
    spec fn spec_ids(&self) -> Seq<u128>;

    /// The ids of every stored object, in store order.
    fn list_candidate_ids(&self) -> (r: Vec<u128>)
        ensures
            r@ == self.spec_ids(),
    ;
}

impl<St, CS> ObjectStore<St, CS> {
    /// The ids of the rows, in order.
    pub open spec fn ids(&self) -> Seq<u128> {
        self.rows@.map_values(|r: ObjectRow<St, CS>| r.id)
    }

    /// Ids are unique.
    pub open spec fn wf(&self) -> bool {
        forall|i: int, j: int|
            0 <= i < j < self.rows@.len() ==> (#[trigger] self.rows@[i]).id != (
            #[trigger] self.rows@[j]).id
    }

    pub open spec fn contains_id(&self, id: u128) -> bool {
        exists|i: int| 0 <= i < self.rows@.len() && (#[trigger] self.rows@[i]).id == id
    }

    pub open spec fn spec_index_of(&self, id: u128) -> int {
        choose|i: int| 0 <= i < self.rows@.len() && (#[trigger] self.rows@[i]).id == id
    }

    /// The row holding `id`.
    pub open spec fn spec_row(&self, id: u128) -> ObjectRow<St, CS> {
        self.rows@[self.spec_index_of(id)]
    }

    pub fn new() -> (r: ObjectStore<St, CS>)
        ensures
            r.wf(),
            r.rows@.len() == 0,
    {
        ObjectStore { rows: Vec::new() }
    }

    /// In a well-formed store an index holding `id` is the index of `id`.
    pub proof fn lemma_index_unique(&self, i: int, id: u128)
        requires
            self.wf(),
            0 <= i < self.rows@.len(),
            self.rows@[i].id == id,
        ensures
            self.contains_id(id),
            self.spec_index_of(id) == i,
    {
        assert(self.contains_id(id));
        let j = self.spec_index_of(id);
        if i != j {
            if i < j {
                assert(self.rows@[i].id != self.rows@[j].id);
            } else {
                assert(self.rows@[j].id != self.rows@[i].id);
            }
        }
    }

    fn find_index(&self, id: u128) -> (r: Option<usize>)
        requires
            self.wf(),
        ensures
            match r {
                Some(i) => self.contains_id(id) && self.spec_index_of(id) == i as int && 0 <= i
                    < self.rows@.len() && self.rows@[i as int].id == id,
                None => !self.contains_id(id),
            },
    {
        let mut i: usize = 0;
        while i < self.rows.len()
            invariant
                self.wf(),
                i <= self.rows@.len(),
                forall|j: int| 0 <= j < i ==> (#[trigger] self.rows@[j]).id != id,
            decreases self.rows@.len() - i,
        {
            if self.rows[i].id == id {
                proof {
                    self.lemma_index_unique(i as int, id);
                }
                return Some(i);
            }
            i = i + 1;
        }
        None
    }

    /// Whether an object with this id is stored. A deleted object is gone:
    /// reloading it finds nothing.
    pub fn lookup_exists(&self, id: u128) -> (r: bool)
        requires
            self.wf(),
        ensures
            r == self.contains_id(id),
    {
        match self.find_index(id) {
            Some(_) => true,
            None => false,
        }
    }

    /// Insert a row for a new object; its id must be fresh.
    pub fn insert_row(&mut self, row: ObjectRow<St, CS>)
        requires
            old(self).wf(),
            !old(self).contains_id(row.id),
        ensures
            final(self).wf(),
            final(self).rows@ == old(self).rows@.push(row),
    {
        self.rows.push(row);
        proof {
            let n = self.rows@.len() - 1;
            assert(self.rows@[n] == row);
            assert forall|i: int, j: int| 0 <= i < j < self.rows@.len() implies (
            #[trigger] self.rows@[i]).id != (#[trigger] self.rows@[j]).id by {
                if j == n {
                    assert(self.rows@[i] == old(self).rows@[i]);
                }
            }
        }
    }
}

impl<St, CS> DbReader for ObjectStore<St, CS> {
    open spec fn spec_ids(&self) -> Seq<u128> {
        self.ids()
    }

    fn list_candidate_ids(&self) -> (r: Vec<u128>)
        ensures
            r@ == self.spec_ids(),
    {
        let mut out: Vec<u128> = Vec::new();
        let mut i: usize = 0;
        while i < self.rows.len()
            invariant
                i <= self.rows@.len(),
                out@ == self.rows@.take(i as int).map_values(|r: ObjectRow<St, CS>| r.id),
            decreases self.rows@.len() - i,
        {
            out.push(self.rows[i].id);
            proof {
                assert(self.rows@.take(i + 1) =~= self.rows@.take(i as int).push(
                    self.rows@[i as int],
                ));
                assert(out@ =~= self.rows@.take(i + 1).map_values(
                    |r: ObjectRow<St, CS>| r.id,
                ));
            }
            i = i + 1;
        }
        proof {
            assert(self.rows@.take(self.rows@.len() as int) =~= self.rows@);
        }
        out
    }
}

/// What one object contributed to the iteration report: an error label if
/// the handler failed, and whether the object breached its state SLA.
#[derive(Debug)]
pub struct IterationEntry {
    pub object_id: u128,
    pub label: Option<String>,
    pub sla_breach: bool,
}

/// What finalizing one outcome does to the object store and the machine
/// table: the atomic unit of one iteration on one object.
pub open spec fn finalize_post<St, CS>(
    pre: ObjectStore<St, CS>,
    post: ObjectStore<St, CS>,
    pre_m: Seq<crate::write_batch::MachineRowV>,
    post_m: Seq<crate::write_batch::MachineRowV>,
    id: u128,
    outcome: StateHandlerOutcome<CS>,
    dwb: Seq<crate::write_batch::MachineWriteOpV>,
    now_micros: i64,
    commit_ok: bool,
) -> bool {
    let i = pre.spec_index_of(id);
    let oldr = pre.spec_row(id);
    if !commit_ok {
        // rollback: no deferred write lands, the state stands still, only an
        // error outcome is recorded
        &&& post_m == pre_m
        &&& post.rows@.len() == pre.rows@.len()
        &&& (forall|j: int| 0 <= j < pre.rows@.len() && j != i ==> post.rows@[j] == pre.rows@[j])
        &&& post.rows@[i].id == oldr.id
        &&& post.rows@[i].state == oldr.state
        &&& post.rows@[i].controller_state == oldr.controller_state
        &&& post.rows@[i].version == oldr.version
        &&& post.rows@[i].history@ == oldr.history@
        &&& post.rows@[i].outcome matches Some(
            PersistentStateHandlerOutcome::Error { err, source_ref },
        ) && err@ == "transaction_error"@ && source_ref is None
    } else {
        &&& post_m == apply_batch_table(pre_m, dwb)
        &&& match outcome {
            StateHandlerOutcome::Deleted { .. } => post.rows@ == pre.rows@.remove(i),
            _ => {
                &&& post.rows@.len() == pre.rows@.len()
                &&& (forall|j: int|
                    0 <= j < pre.rows@.len() && j != i ==> post.rows@[j] == pre.rows@[j])
                &&& post.rows@[i].id == oldr.id
                &&& post.rows@[i].state == oldr.state
                &&& match outcome {
                    StateHandlerOutcome::Wait { reason, source_ref } => {
                        // no transition: version, state and history stand
                        &&& post.rows@[i].controller_state == oldr.controller_state
                        &&& post.rows@[i].version == oldr.version
                        &&& post.rows@[i].history@ == oldr.history@
                        &&& post.rows@[i].outcome == Some(
                            PersistentStateHandlerOutcome::Wait {
                                reason,
                                source_ref: Some(source_ref),
                            },
                        )
                    },
                    StateHandlerOutcome::DoNothing { source_ref } => {
                        &&& post.rows@[i].controller_state == oldr.controller_state
                        &&& post.rows@[i].version == oldr.version
                        &&& post.rows@[i].history@ == oldr.history@
                        &&& post.rows@[i].outcome == Some(
                            PersistentStateHandlerOutcome::DoNothing {
                                source_ref: Some(source_ref),
                            },
                        )
                    },
                    StateHandlerOutcome::Transition { next_state, source_ref } => {
                        let newv = ConfigVersion {
                            serial: (oldr.version.serial + 1) as u64,
                            timestamp_micros: now_micros,
                        };
                        // the version strictly increases and exactly one
                        // history row is appended
                        &&& post.rows@[i].controller_state == next_state
                        &&& post.rows@[i].version == newv
                        &&& post.rows@[i].version.serial > oldr.version.serial
                        &&& post.rows@[i].history@ == oldr.history@.push(
                            HistoryEntry { state: next_state, version: newv },
                        )
                        &&& post.rows@[i].outcome == Some(
                            PersistentStateHandlerOutcome::Transition {
                                source_ref: Some(source_ref),
                            },
                        )
                    },
                    StateHandlerOutcome::Deleted { .. } => true,
                }
            },
        }
    }
}

/// Finalize one handler outcome inside the closing transaction.
///
/// With `commit_ok` the whole unit lands: the outcome record, on a
/// transition the new state with a strictly larger version and one appended
/// history row, on deletion the removal of the row — and every deferred
/// write, in order. Without it nothing of the unit lands; only an error
/// outcome is recorded on the row.
pub fn finalize_outcome<St, CS: StateValue>(
    store: &mut ObjectStore<St, CS>,
    machines: &mut MachineTable,
    id: u128,
    outcome: StateHandlerOutcome<CS>,
    dwb: DbWriteBatch,
    now_micros: i64,
    commit_ok: bool,
) -> (r: Result<(), StateHandlerError>)
    requires
        old(store).wf(),
        old(store).contains_id(id),
        old(store).spec_row(id).version.serial < u64::MAX,
    ensures
        final(store).wf(),
        r is Ok <==> commit_ok,
        finalize_post(
            *old(store),
            *final(store),
            old(machines)@,
            final(machines)@,
            id,
            outcome,
            dwb@,
            now_micros,
            commit_ok,
        ),
{
    let i = match store.find_index(id) {
        Some(i) => i,
        None => {
            return Err(StateHandlerError::InvalidState { detail: "object vanished".to_string() });
        },
    };
    if !commit_ok {
        let mut row = store.rows.remove(i);
        row.outcome = Some(
            PersistentStateHandlerOutcome::Error {
                err: "transaction_error".to_string(),
                source_ref: None,
            },
        );
        store.rows.insert(i, row);
        proof {
            assert(store.rows@ =~= old(store).rows@.update(i as int, store.rows@[i as int]));
            lemma_update_keeps_wf(old(store), store, i as int);
        }
        return Err(StateHandlerError::TransactionError { detail: "commit failed".to_string() });
    }
    match outcome {
        StateHandlerOutcome::Wait { reason, source_ref } => {
            let mut row = store.rows.remove(i);
            row.outcome = Some(
                PersistentStateHandlerOutcome::Wait { reason, source_ref: Some(source_ref) },
            );
            store.rows.insert(i, row);
            proof {
                assert(store.rows@ =~= old(store).rows@.update(i as int, store.rows@[i as int]));
                lemma_update_keeps_wf(old(store), store, i as int);
            }
        },
        StateHandlerOutcome::DoNothing { source_ref } => {
            let mut row = store.rows.remove(i);
            row.outcome = Some(
                PersistentStateHandlerOutcome::DoNothing { source_ref: Some(source_ref) },
            );
            store.rows.insert(i, row);
            proof {
                assert(store.rows@ =~= old(store).rows@.update(i as int, store.rows@[i as int]));
                lemma_update_keeps_wf(old(store), store, i as int);
            }
        },
        StateHandlerOutcome::Transition { next_state, source_ref } => {
            let mut row = store.rows.remove(i);
            let newv = row.version.bumped(now_micros);
            let hist_state = next_state.dup();
            row.history.push(HistoryEntry { state: hist_state, version: newv });
            row.controller_state = next_state;
            row.version = newv;
            row.outcome = Some(
                PersistentStateHandlerOutcome::Transition { source_ref: Some(source_ref) },
            );
            store.rows.insert(i, row);
            proof {
                assert(store.rows@ =~= old(store).rows@.update(i as int, store.rows@[i as int]));
                lemma_update_keeps_wf(old(store), store, i as int);
            }
        },
        StateHandlerOutcome::Deleted { .. } => {
            store.rows.remove(i);
            proof {
                lemma_remove_keeps_wf(old(store), store, i as int);
            }
        },
    }
    dwb.apply_all(machines);
    Ok(())
}

/// The controller-state version strictly increases on every committed
/// transition; across any sequence of successful iterations the versions of
/// an object's transitions therefore form a strictly increasing chain.
pub proof fn lemma_monotone_version<St, CS>(
    pre: ObjectStore<St, CS>,
    post: ObjectStore<St, CS>,
    pre_m: Seq<crate::write_batch::MachineRowV>,
    post_m: Seq<crate::write_batch::MachineRowV>,
    id: u128,
    outcome: StateHandlerOutcome<CS>,
    dwb: Seq<crate::write_batch::MachineWriteOpV>,
    now_micros: i64,
)
    requires
        finalize_post(pre, post, pre_m, post_m, id, outcome, dwb, now_micros, true),
        outcome matches StateHandlerOutcome::Transition { .. },
    ensures
        post.rows@[pre.spec_index_of(id)].version.serial > pre.spec_row(id).version.serial,
{
}

/// Finalize is atomic: when the transition commits, the state changes and
/// every deferred write of the batch is visible; when it does not, the
/// state stands and no deferred write is visible.
pub proof fn lemma_atomic_finalize<St, CS>(
    pre: ObjectStore<St, CS>,
    post: ObjectStore<St, CS>,
    pre_m: Seq<crate::write_batch::MachineRowV>,
    post_m: Seq<crate::write_batch::MachineRowV>,
    id: u128,
    outcome: StateHandlerOutcome<CS>,
    dwb: Seq<crate::write_batch::MachineWriteOpV>,
    now_micros: i64,
    commit_ok: bool,
)
    requires
        finalize_post(pre, post, pre_m, post_m, id, outcome, dwb, now_micros, commit_ok),
        outcome matches StateHandlerOutcome::Transition { .. },
    ensures
        commit_ok ==> post_m == apply_batch_table(pre_m, dwb) && post.rows@[pre.spec_index_of(
            id,
        )].version.serial > pre.spec_row(id).version.serial,
        !commit_ok ==> {
            let i = pre.spec_index_of(id);
            &&& post_m == pre_m
            &&& post.rows@[i].controller_state == pre.spec_row(id).controller_state
            &&& post.rows@[i].version == pre.spec_row(id).version
            &&& post.rows@[i].history@ == pre.spec_row(id).history@
        },
{
}

/// A failed handler leaves everything standing and only records the error
/// as the most recent outcome.
pub open spec fn error_post<St, CS>(
    pre: ObjectStore<St, CS>,
    post: ObjectStore<St, CS>,
    id: u128,
    err_label: Seq<char>,
) -> bool {
    let i = pre.spec_index_of(id);
    let oldr = pre.spec_row(id);
    &&& post.rows@.len() == pre.rows@.len()
    &&& (forall|j: int| 0 <= j < pre.rows@.len() && j != i ==> post.rows@[j] == pre.rows@[j])
    &&& post.rows@[i].id == oldr.id
    &&& post.rows@[i].state == oldr.state
    &&& post.rows@[i].controller_state == oldr.controller_state
    &&& post.rows@[i].version == oldr.version
    &&& post.rows@[i].history@ == oldr.history@
    &&& post.rows@[i].outcome matches Some(PersistentStateHandlerOutcome::Error { err, source_ref })
        && err@ == err_label && source_ref is None
}

/// Record a handler error as the object's most recent outcome.
fn record_error_outcome<St, CS>(
    store: &mut ObjectStore<St, CS>,
    id: u128,
    error: &StateHandlerError,
)
    requires
        old(store).wf(),
        old(store).contains_id(id),
    ensures
        final(store).wf(),
        error_post(*old(store), *final(store), id, error.metric_label_view()),
{
    let i = match store.find_index(id) {
        Some(i) => i,
        None => {
            return ;
        },
    };
    let mut row = store.rows.remove(i);
    row.outcome = Some(
        PersistentStateHandlerOutcome::Error { err: error.describe(), source_ref: None },
    );
    store.rows.insert(i, row);
    proof {
        assert(store.rows@ =~= old(store).rows@.update(i as int, store.rows@[i as int]));
        lemma_update_keeps_wf(old(store), store, i as int);
    }
}

/// Run the bookkeeping of one iteration on one object, after its handler
/// returned: SLA escalation, finalize or error recording, and the report
/// entry.
///
/// An object that sat in its state past the SLA while the handler found
/// nothing to do is flagged once in the report, as `time_in_state_above_sla`;
/// the persisted outcome still carries the handler's own reason and the
/// state stands unchanged. A handler error aborts this object only: its
/// deferred writes are discarded and the error becomes the most recent
/// outcome.
pub fn process_object<St, CS: StateValue>(
    store: &mut ObjectStore<St, CS>,
    machines: &mut MachineTable,
    id: u128,
    result: Result<StateHandlerOutcome<CS>, StateHandlerError>,
    dwb: DbWriteBatch,
    sla: StateSla,
    now_micros: i64,
    commit_ok: bool,
) -> (e: IterationEntry)
    requires
        old(store).wf(),
        old(store).contains_id(id),
        old(store).spec_row(id).version.serial < u64::MAX,
    ensures
        final(store).wf(),
        e.object_id == id,
        match result {
            Ok(outcome) => {
                &&& finalize_post(
                    *old(store),
                    *final(store),
                    old(machines)@,
                    final(machines)@,
                    id,
                    outcome,
                    dwb@,
                    now_micros,
                    commit_ok,
                )
                &&& e.sla_breach == (sla.spec_breached() && (outcome matches StateHandlerOutcome::Wait { .. }
                    || outcome matches StateHandlerOutcome::DoNothing { .. }))
                &&& (e.sla_breach ==> (e.label matches Some(l) && l@
                    == "time_in_state_above_sla"@))
                &&& (!e.sla_breach && !commit_ok ==> (e.label matches Some(l) && l@
                    == "transaction_error"@))
                &&& (!e.sla_breach && commit_ok ==> e.label is None)
            },
            Err(err) => {
                // the handler failed: no deferred write lands, the object
                // stands still, the error is recorded and reported
                &&& final(machines)@ == old(machines)@
                &&& error_post(*old(store), *final(store), id, err.metric_label_view())
                &&& e.label matches Some(l) && l@ == err.metric_label_view()
                &&& !e.sla_breach
            },
        },
{
    match result {
        Ok(outcome) => {
            let steady = match &outcome {
                StateHandlerOutcome::Wait { .. } => true,
                StateHandlerOutcome::DoNothing { .. } => true,
                _ => false,
            };
            let escalate = sla.breached() && steady;
            let res = finalize_outcome(store, machines, id, outcome, dwb, now_micros, commit_ok);
            let label: Option<String> = if escalate {
                Some("time_in_state_above_sla".to_string())
            } else {
                match res {
                    Ok(_) => None,
                    Err(_) => Some("transaction_error".to_string()),
                }
            };
            IterationEntry { object_id: id, label, sla_breach: escalate }
        },
        Err(err) => {
            record_error_outcome(store, id, &err);
            let label = err.describe();
            IterationEntry { object_id: id, label: Some(label), sla_breach: false }
        },
    }
}

/// Replacing a row with one of the same id keeps ids unique.
proof fn lemma_update_keeps_wf<St, CS>(
    pre: &ObjectStore<St, CS>,
    post: &ObjectStore<St, CS>,
    i: int,
)
    requires
        pre.wf(),
        0 <= i < pre.rows@.len(),
        post.rows@.len() == pre.rows@.len(),
        post.rows@[i].id == pre.rows@[i].id,
        forall|j: int| 0 <= j < pre.rows@.len() && j != i ==> post.rows@[j] == pre.rows@[j],
    ensures
        post.wf(),
{
    assert forall|k: int, l: int| 0 <= k < l < post.rows@.len() implies (
    #[trigger] post.rows@[k]).id != (#[trigger] post.rows@[l]).id by {
        assert(post.rows@[k].id == pre.rows@[k].id);
        assert(post.rows@[l].id == pre.rows@[l].id);
    }
}

/// Removing a row keeps ids unique.
proof fn lemma_remove_keeps_wf<St, CS>(
    pre: &ObjectStore<St, CS>,
    post: &ObjectStore<St, CS>,
    i: int,
)
    requires
        pre.wf(),
        0 <= i < pre.rows@.len(),
        post.rows@ == pre.rows@.remove(i),
    ensures
        post.wf(),
{
    assert forall|k: int, l: int| 0 <= k < l < post.rows@.len() implies (
    #[trigger] post.rows@[k]).id != (#[trigger] post.rows@[l]).id by {
        let ok = if k < i {
            k
        } else {
            k + 1
        };
        let ol = if l < i {
            l
        } else {
            l + 1
        };
        assert(post.rows@[k] == pre.rows@[ok]);
        assert(post.rows@[l] == pre.rows@[ol]);
    }
}

} // verus!
