//! The three collections as mathematical maps, what each operation of the
//! store does to them, and what holds of every store that these operations
//! built.

use crate::taskdb::{
    orphan_record, FinishedTask, FinishedTaskView, PendingTask, PendingTaskView, WorkingTask,
    WorkingTaskView,
};
use vstd::prelude::*;

verus! {

/// One change of the store: one statement.
#[derive(Debug)]
pub enum StoreOp {
    /// Add the task to the pending collection.
    InsertPending(PendingTask),
    /// Delete from the pending collection the task that has the same id.
    RemovePending(PendingTask),
    /// Add the task to the working collection.
    InsertWorking(WorkingTask),
    /// Delete from the working collection the task that has the same id.
    RemoveWorking(WorkingTask),
    /// Add the task to the finished collection.
    InsertFinished(FinishedTask),
}

/// One change of the store, as mathematical values.
pub enum StoreOpView {
    InsertPending(PendingTaskView),
    RemovePending(PendingTaskView),
    InsertWorking(WorkingTaskView),
    RemoveWorking(WorkingTaskView),
    InsertFinished(FinishedTaskView),
}

impl View for StoreOp {
    type V = StoreOpView;

    open spec fn view(&self) -> StoreOpView {
        match *self {
            StoreOp::InsertPending(t) => StoreOpView::InsertPending(t@),
            StoreOp::RemovePending(t) => StoreOpView::RemovePending(t@),
            StoreOp::InsertWorking(t) => StoreOpView::InsertWorking(t@),
            StoreOp::RemoveWorking(t) => StoreOpView::RemoveWorking(t@),
            StoreOp::InsertFinished(t) => StoreOpView::InsertFinished(t@),
        }
    }
}

/// The changes of a list, as mathematical values.
pub open spec fn op_views(ops: Seq<StoreOp>) -> Seq<StoreOpView> {
    Seq::new(ops.len(), |i: int| ops[i]@)
}

/// The working tasks of a list, as mathematical values.
pub open spec fn working_views(tasks: Seq<WorkingTask>) -> Seq<WorkingTaskView> {
    Seq::new(tasks.len(), |i: int| tasks[i]@)
}

/// The changes of startup for the working tasks of `listing`: for each, in
/// the order of the listing, its removal from the working collection, then
/// the insert of its cleanup record, ended at `time_finished`, into the
/// finished one.
pub open spec fn reconcile_changes(
    listing: Seq<WorkingTaskView>,
    time_finished: Seq<char>,
) -> Seq<StoreOpView> {
    Seq::new(
        2 * listing.len(),
        |i: int|
            if i % 2 == 0 {
                StoreOpView::RemoveWorking(listing[i / 2])
            } else {
                StoreOpView::InsertFinished(orphan_record(listing[i / 2], time_finished))
            },
    )
}

/// The pending, working and finished collections, each keyed by task id.
pub struct Collections {
    pub pending: Map<i64, PendingTaskView>,
    pub working: Map<i64, WorkingTaskView>,
    pub finished: Map<i64, FinishedTaskView>,
}

impl Collections {
    /// A store without tasks.
    pub open spec fn empty() -> Collections {
        Collections { pending: Map::empty(), working: Map::empty(), finished: Map::empty() }
    }

    /// Whether some collection holds a task with this id.
    pub open spec fn holds(self, id: i64) -> bool {
        self.pending.contains_key(id) || self.working.contains_key(id)
            || self.finished.contains_key(id)
    }

    /// Every record is filed under its own id.
    pub open spec fn keyed(self) -> bool {
        &&& forall|id: i64| #[trigger] self.pending.contains_key(id) ==> self.pending[id].id == id
        &&& forall|id: i64| #[trigger] self.working.contains_key(id) ==> self.working[id].id == id
        &&& forall|id: i64| #[trigger]
            self.finished.contains_key(id) ==> self.finished[id].id == id
    }

    /// No id is in two collections: a task is pending or working or
    /// finished, and a finished task does not run again.
    pub open spec fn disjoint(self) -> bool {
        &&& forall|id: i64|
            !(#[trigger] self.pending.contains_key(id) && #[trigger] self.working.contains_key(id))
        &&& forall|id: i64|
            !(#[trigger] self.pending.contains_key(id) && #[trigger] self.finished.contains_key(
                id,
            ))
        &&& forall|id: i64|
            !(#[trigger] self.working.contains_key(id) && #[trigger] self.finished.contains_key(
                id,
            ))
    }

    /// The invariant of the store.
    pub open spec fn wf(self) -> bool {
        self.keyed() && self.disjoint()
    }

    /// The store after `t` was added to the pending collection; none where
    /// the collection holds that id already.
    pub open spec fn insert_pending(self, t: PendingTaskView) -> Option<Collections> {
        if self.pending.contains_key(t.id) {
            None
        } else {
            Some(
                Collections {
                    pending: self.pending.insert(t.id, t),
                    working: self.working,
                    finished: self.finished,
                },
            )
        }
    }

    /// The store after `t` was added to the working collection; none where
    /// the collection holds that id already.
    pub open spec fn insert_working(self, t: WorkingTaskView) -> Option<Collections> {
        if self.working.contains_key(t.id) {
            None
        } else {
            Some(
                Collections {
                    pending: self.pending,
                    working: self.working.insert(t.id, t),
                    finished: self.finished,
                },
            )
        }
    }

    /// The store after `t` was added to the finished collection; none where
    /// the collection holds that id already.
    pub open spec fn insert_finished(self, t: FinishedTaskView) -> Option<Collections> {
        if self.finished.contains_key(t.id) {
            None
        } else {
            Some(
                Collections {
                    pending: self.pending,
                    working: self.working,
                    finished: self.finished.insert(t.id, t),
                },
            )
        }
    }

    /// The store after the pending task with this id was deleted.
    pub open spec fn remove_pending(self, id: i64) -> Collections {
        Collections {
            pending: self.pending.remove(id),
            working: self.working,
            finished: self.finished,
        }
    }

    /// The store after the working task with this id was deleted.
    pub open spec fn remove_working(self, id: i64) -> Collections {
        Collections {
            pending: self.pending,
            working: self.working.remove(id),
            finished: self.finished,
        }
    }

    /// Whether `r` may come back when the next pending task is asked for:
    /// one of the pending tasks, whichever, and none only where there is none.
    pub open spec fn offers(self, r: Option<PendingTaskView>) -> bool {
        match r {
            Some(t) => self.pending.contains_pair(t.id, t),
            None => self.pending.dom() =~= Set::empty(),
        }
    }

    /// Whether `listing` names every working task once.
    pub open spec fn lists_working(self, listing: Seq<WorkingTaskView>) -> bool {
        &&& forall|i: int|
            0 <= i < listing.len() ==> self.working.contains_pair(
                (#[trigger] listing[i]).id,
                listing[i],
            )
        &&& forall|i: int, j: int|
            0 <= i < j < listing.len() ==> (#[trigger] listing[i]).id != (#[trigger] listing[j]).id
        &&& forall|id: i64| #[trigger]
            self.working.contains_key(id) ==> exists|i: int|
                0 <= i < listing.len() && (#[trigger] listing[i]).id == id
    }

    /// The store after startup: no task is working, and each one that was
    /// has its cleanup record, ended at `time_finished`.
    pub open spec fn reconciled(self, time_finished: Seq<char>) -> Collections {
        Collections {
            pending: self.pending,
            working: Map::empty(),
            finished: Map::new(
                |id: i64| self.finished.contains_key(id) || self.working.contains_key(id),
                |id: i64|
                    if self.working.contains_key(id) {
                        orphan_record(self.working[id], time_finished)
                    } else {
                        self.finished[id]
                    },
            ),
        }
    }

    /// The store after one change; none where its statement fails.
    pub open spec fn apply(self, op: StoreOpView) -> Option<Collections> {
        match op {
            StoreOpView::InsertPending(t) => self.insert_pending(t),
            StoreOpView::RemovePending(t) => Some(self.remove_pending(t.id)),
            StoreOpView::InsertWorking(t) => self.insert_working(t),
            StoreOpView::RemoveWorking(t) => Some(self.remove_working(t.id)),
            StoreOpView::InsertFinished(t) => self.insert_finished(t),
        }
    }

    /// The store after the changes, in their order; none where one of their
    /// statements fails.
    pub open spec fn apply_all(self, ops: Seq<StoreOpView>) -> Option<Collections>
        decreases ops.len(),
    {
        if ops.len() == 0 {
            Some(self)
        } else {
            match self.apply(ops[0]) {
                Some(after) => after.apply_all(ops.skip(1)),
                None => None,
            }
        }
    }

    /// The store after the working tasks of `listing` were, one after the
    /// other, deleted and added as finished with their cleanup record; none
    /// where an insert failed.
    pub open spec fn reconcile_each(
        self,
        listing: Seq<WorkingTaskView>,
        time_finished: Seq<char>,
    ) -> Option<Collections>
        decreases listing.len(),
    {
        if listing.len() == 0 {
            Some(self)
        } else {
            let w = listing[0];
            match self.remove_working(w.id).insert_finished(orphan_record(w, time_finished)) {
                Some(next) => next.reconcile_each(listing.skip(1), time_finished),
                None => None,
            }
        }
    }
}

/// No change leaves the store as it is.
pub proof fn lemma_apply_none(s: Collections)
    ensures
        s.apply_all(Seq::empty()) == Some(s),
{
}

/// One change after the other: the first, then the second.
pub proof fn lemma_apply_two(s: Collections, a: StoreOpView, b: StoreOpView)
    ensures
        s.apply_all(seq![a, b]) == match s.apply(a) {
            Some(after) => after.apply(b),
            None => None,
        },
{
    assert(seq![a, b].skip(1) =~= seq![b]);
    assert(seq![b].skip(1) =~= Seq::<StoreOpView>::empty());
    reveal_with_fuel(Collections::apply_all, 3);
}

/// The changes of startup do to the store what startup is said to do, task
/// by task.
pub proof fn lemma_reconcile_changes(
    s: Collections,
    listing: Seq<WorkingTaskView>,
    time_finished: Seq<char>,
)
    ensures
        s.apply_all(reconcile_changes(listing, time_finished)) == s.reconcile_each(
            listing,
            time_finished,
        ),
    decreases listing.len(),
{
    let changes = reconcile_changes(listing, time_finished);
    if listing.len() > 0 {
        let w = listing[0];
        let rest = listing.skip(1);
        assert(changes[0] == StoreOpView::RemoveWorking(w));
        assert(changes[1] == StoreOpView::InsertFinished(orphan_record(w, time_finished)));
        assert(changes.skip(1)[0] == changes[1]);
        assert(changes.skip(1).skip(1) =~= reconcile_changes(rest, time_finished)) by {
            assert forall|i: int| 0 <= i < 2 * rest.len() implies changes.skip(1).skip(1)[i]
                == reconcile_changes(rest, time_finished)[i] by {
                assert(changes.skip(1).skip(1)[i] == changes[i + 2]);
                assert((i + 2) / 2 == i / 2 + 1);
                assert((i + 2) % 2 == i % 2);
                assert(rest[i / 2] == listing[i / 2 + 1]);
            }
        }
        let after = s.remove_working(w.id);
        let tail = changes.skip(1);
        assert(s.apply(changes[0]) == Some(after));
        assert(s.apply_all(changes) == after.apply_all(tail));
        assert(after.apply(tail[0]) == after.insert_finished(orphan_record(w, time_finished)));
        match after.insert_finished(orphan_record(w, time_finished)) {
            Some(next) => {
                assert(after.apply_all(tail) == next.apply_all(tail.skip(1)));
                lemma_reconcile_changes(next, rest, time_finished);
                assert(s.reconcile_each(listing, time_finished) == next.reconcile_each(
                    rest,
                    time_finished,
                ));
            },
            None => {
                assert(after.apply_all(tail) == None::<Collections>);
                assert(s.reconcile_each(listing, time_finished) == None::<Collections>);
            },
        }
    } else {
        assert(changes =~= Seq::empty());
    }
}

/// On a store that is in order, the changes of startup for a listing that
/// names every working task once fail on no statement and end in the
/// reconciled store.
pub proof fn lemma_startup_changes(
    s: Collections,
    listing: Seq<WorkingTaskView>,
    time_finished: Seq<char>,
)
    requires
        s.wf(),
        s.lists_working(listing),
    ensures
        s.apply_all(reconcile_changes(listing, time_finished)) == Some(
            s.reconciled(time_finished),
        ),
{
    lemma_reconcile_changes(s, listing, time_finished);
    lemma_reconcile_each(s, listing, time_finished);
}

/// Removing a pending task by an id that is not there changes nothing.
pub proof fn lemma_remove_absent_pending(s: Collections, id: i64)
    requires
        !s.pending.contains_key(id),
    ensures
        s.remove_pending(id) == s,
{
    assert(s.pending.remove(id) =~= s.pending);
}

/// Removing a working task by an id that is not there changes nothing.
pub proof fn lemma_remove_absent_working(s: Collections, id: i64)
    requires
        !s.working.contains_key(id),
    ensures
        s.remove_working(id) == s,
{
    assert(s.working.remove(id) =~= s.working);
}

/// Removing a task a second time changes nothing, and after a removal the
/// id is gone, whatever the store held.
pub proof fn lemma_remove_is_idempotent(s: Collections, id: i64)
    ensures
        s.remove_pending(id).remove_pending(id) == s.remove_pending(id),
        s.remove_working(id).remove_working(id) == s.remove_working(id),
        !s.remove_pending(id).pending.contains_key(id),
        !s.remove_working(id).working.contains_key(id),
{
    lemma_remove_absent_pending(s.remove_pending(id), id);
    lemma_remove_absent_working(s.remove_working(id), id);
}

/// Startup on a store that is in order leaves no task working: each task
/// that was working is finished once, with the reason "cleanup" and the exit
/// code -1; the pending tasks and the older finished records stay as they
/// were, and the store is in order again.
pub proof fn lemma_reconciled(s: Collections, time_finished: Seq<char>)
    requires
        s.wf(),
    ensures
        s.reconciled(time_finished).wf(),
        s.reconciled(time_finished).pending == s.pending,
        forall|id: i64|
            #[trigger] s.working.contains_key(id) ==> {
                let end = s.reconciled(time_finished);
                &&& !end.working.contains_key(id)
                &&& !end.pending.contains_key(id)
                &&& end.finished.contains_key(id)
                &&& end.finished[id] == orphan_record(s.working[id], time_finished)
                &&& end.finished[id].exit_reason == "cleanup"@
                &&& end.finished[id].exit_code == -1
            },
        forall|id: i64|
            #[trigger] s.finished.contains_key(id) ==> s.reconciled(
                time_finished,
            ).finished.contains_pair(id, s.finished[id]),
{
}

/// Deleting the working tasks one by one and adding each as finished, as
/// startup does, fails on no insert and ends in the reconciled store, in
/// whatever order the tasks were listed.
pub proof fn lemma_reconcile_each(
    s: Collections,
    listing: Seq<WorkingTaskView>,
    time_finished: Seq<char>,
)
    requires
        s.wf(),
        s.lists_working(listing),
    ensures
        s.reconcile_each(listing, time_finished) == Some(s.reconciled(time_finished)),
    decreases listing.len(),
{
    if listing.len() == 0 {
        assert(s.working =~= Map::empty()) by {
            assert forall|id: i64| !s.working.contains_key(id) by {
                if s.working.contains_key(id) {
                    let i = choose|i: int| 0 <= i < listing.len() && (#[trigger] listing[i]).id == id;
                }
            }
        }
        assert(s.reconciled(time_finished).finished =~= s.finished);
    } else {
        let w = listing[0];
        let rest = listing.skip(1);
        assert(s.working.contains_pair(w.id, w));
        let next = s.remove_working(w.id).insert_finished(orphan_record(w, time_finished)).unwrap();
        assert(next.wf());
        assert(next.lists_working(rest)) by {
            assert forall|i: int| 0 <= i < rest.len() implies next.working.contains_pair(
                (#[trigger] rest[i]).id,
                rest[i],
            ) by {
                assert(rest[i] == listing[i + 1]);
                assert(listing[0].id != listing[i + 1].id);
            }
            assert forall|i: int, j: int| 0 <= i < j < rest.len() implies (#[trigger] rest[i]).id != (
            #[trigger] rest[j]).id by {
                assert(rest[i] == listing[i + 1]);
                assert(rest[j] == listing[j + 1]);
            }
            assert forall|id: i64| #[trigger] next.working.contains_key(id) implies exists|i: int|
                0 <= i < rest.len() && (#[trigger] rest[i]).id == id by {
                assert(s.working.contains_key(id));
                let k = choose|k: int| 0 <= k < listing.len() && (#[trigger] listing[k]).id == id;
                assert(k != 0);
                assert(rest[k - 1] == listing[k]);
            }
        }
        lemma_reconcile_each(next, rest, time_finished);
        assert(next.reconciled(time_finished).finished =~= s.reconciled(time_finished).finished);
    }
}

} // verus!
