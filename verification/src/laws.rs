//! What holds of the registry whatever is asked of it, proved of the model
//! that the operations are specified by.

use crate::model::{Call, HostView, StoreView};
use crate::task::{TaskError, TaskStatus, TaskView};
use vstd::prelude::*;

verus! {

/// On a store in which nothing was written yet, the first task created
/// gets the id 1.
pub proof fn law_first_id_is_one(description: Seq<u8>, owner: Seq<char>, timestamp: u64)
    requires
        description.len() > 0,
    ensures
        StoreView::empty().add_task(description, owner, timestamp) matches Ok((_, id)) && id == 1,
{
}

/// A created task can be read back at once under the id that the creation
/// returned: pending, with the description, the owner and the ledger time
/// it was created with. The next creation gets the id after it.
pub proof fn law_created_task_is_retrievable(
    store: StoreView,
    description: Seq<u8>,
    owner: Seq<char>,
    timestamp: u64,
)
    requires
        description.len() > 0,
        store.next_task_id() < u32::MAX,
    ensures
        store.add_task(description, owner, timestamp) matches Ok((after, id)) && {
            &&& id == store.next_task_id()
            &&& after.task(id) == Some(
                TaskView { id, description, owner, status: TaskStatus::Pending, timestamp },
            )
            &&& after.next_task_id() == id + 1
            &&& after.owner_ids(owner) == store.owner_ids(owner).push(id)
        },
{
}

/// The next id moves by creations only, and by one: after a creation
/// that succeeds it is one higher, after anything else it is what it was.
pub proof fn law_next_id_moves_by_creations_only(store: StoreView, call: Call)
    requires
        store.admits(call),
    ensures
        store.after(call).next_task_id() == if call is AddTask && store.outcome(call) is Ok {
            store.next_task_id() + 1
        } else {
            store.next_task_id() as int
        },
{
}

/// No sequence of operations lowers the next id.
pub proof fn law_next_id_never_decreases_over(store: StoreView, calls: Seq<Call>)
    requires
        store.admits_all(calls),
    ensures
        store.next_task_id() <= store.after_all(calls).next_task_id(),
    decreases calls.len(),
{
    if calls.len() > 0 {
        law_next_id_never_decreases_over(store, calls.drop_last());
        law_next_id_moves_by_creations_only(store.after_all(calls.drop_last()), calls.last());
    }
}

/// The ids that creations return strictly increase: a task gets a higher
/// id than every task created before it, whatever was done in between.
pub proof fn law_ids_strictly_increase(
    store: StoreView,
    earlier: Call,
    between: Seq<Call>,
    later: Call,
)
    requires
        earlier is AddTask,
        later is AddTask,
        store.admits(earlier),
        store.outcome(earlier) is Ok,
        store.after(earlier).admits_all(between),
        store.after(earlier).after_all(between).admits(later),
        store.after(earlier).after_all(between).outcome(later) is Ok,
    ensures
        store.add_task(earlier->description, earlier->owner, earlier->timestamp) matches Ok(
            (_, first),
        ) && store.after(earlier).after_all(between).add_task(
            later->description,
            later->owner,
            later->timestamp,
        ) matches Ok((_, second)) && first < second,
{
    law_next_id_moves_by_creations_only(store, earlier);
    law_next_id_never_decreases_over(store.after(earlier), between);
}

/// The empty store is well formed.
pub proof fn law_empty_store_is_well_formed()
    ensures
        StoreView::empty().wf(),
{
}

/// Every operation leaves a well-formed store well formed.
pub proof fn law_well_formed_is_kept(store: StoreView, call: Call)
    requires
        store.wf(),
        store.admits(call),
    ensures
        store.after(call).wf(),
{
}

/// Every sequence of operations leaves a well-formed store well formed;
/// so every store built from the empty one is.
pub proof fn law_well_formed_is_kept_over(store: StoreView, calls: Seq<Call>)
    requires
        store.wf(),
        store.admits_all(calls),
    ensures
        store.after_all(calls).wf(),
    decreases calls.len(),
{
    if calls.len() > 0 {
        law_well_formed_is_kept_over(store, calls.drop_last());
        law_well_formed_is_kept(store.after_all(calls.drop_last()), calls.last());
    }
}

/// A creation with an empty description fails with `InvalidTaskData`
/// and changes nothing: the next id stays, and no task can be read under it.
pub proof fn law_empty_description_is_rejected(store: StoreView, owner: Seq<char>, timestamp: u64)
    requires
        store.wf(),
    ensures
        store.add_task(Seq::empty(), owner, timestamp) == Err::<(StoreView, u32), TaskError>(
            TaskError::InvalidTaskData,
        ),
        store.after(Call::AddTask { description: Seq::empty(), owner, timestamp }) == store,
        store.task(store.next_task_id()) is None,
{
}

/// What a completion does: it fails with `TaskNotFound` on an id without a
/// task, else with `Unauthorized` on a task of another identity, else with
/// `TaskAlreadyCompleted` on a completed task; otherwise it sets the status
/// to completed and leaves the rest of the task and all other tasks alone.
pub proof fn law_completion_outcomes(store: StoreView, id: u32, caller: Seq<char>)
    ensures
        match store.task_completed(id, caller) {
            Ok(after) => {
                &&& store.task(id) matches Some(task)
                &&& task.owner == caller
                &&& task.status != TaskStatus::Completed
                &&& after == store.with_task(id, TaskView { status: TaskStatus::Completed, ..task })
            },
            Err(TaskError::TaskNotFound) => store.task(id) is None,
            Err(TaskError::Unauthorized) => store.task(id) matches Some(task) && task.owner != caller,
            Err(TaskError::TaskAlreadyCompleted) => {
                &&& store.task(id) matches Some(task)
                &&& task.owner == caller
                &&& task.status == TaskStatus::Completed
            },
            Err(TaskError::InvalidTaskData) => false,
        },
{
}

/// A completion is applied once: after one that succeeded, the same call
/// fails with `TaskAlreadyCompleted`.
pub proof fn law_second_completion_fails(store: StoreView, id: u32, caller: Seq<char>)
    requires
        store.task_completed(id, caller) is Ok,
    ensures
        store.task_completed(id, caller) matches Ok(after) && {
            &&& after.task(id) matches Some(task) && task.status == TaskStatus::Completed
            &&& after.task_completed(id, caller) == Err::<StoreView, TaskError>(
                TaskError::TaskAlreadyCompleted,
            )
        },
{
}

/// A stored task changes only by an operation on that task that its owner
/// asks for and has authorized.
pub proof fn law_only_the_owner_changes_a_task(host: HostView, id: u32, call: Call)
    requires
        host.store.wf(),
        host.permits(call),
        host.store.tasks.contains_key(id),
        host.store.after(call).task(id) != host.store.task(id),
    ensures
        call.target() == Some(id),
        call.caller() == host.store.tasks[id].owner,
        host.authorized(host.store.tasks[id].owner),
{
}

/// A transfer hands the task over. It is then read with the new owner and
/// otherwise unchanged; the new owner may delete it, and may complete it
/// unless it is completed already; the former owner, where the task went
/// to another identity, is refused both with `Unauthorized`. The index of
/// the owners stays as it was.
pub proof fn law_transfer_hands_over(
    store: StoreView,
    id: u32,
    caller: Seq<char>,
    new_owner: Seq<char>,
)
    requires
        store.transfer_ownership(id, caller, new_owner) is Ok,
    ensures
        store.transfer_ownership(id, caller, new_owner) matches Ok(after) && {
            &&& after.task(id) == Some(TaskView { owner: new_owner, ..store.tasks[id] })
            &&& after.task_deleted(id, new_owner) is Ok
            &&& store.tasks[id].status != TaskStatus::Completed ==> after.task_completed(
                id,
                new_owner,
            ) is Ok
            &&& store.tasks[id].status == TaskStatus::Completed ==> after.task_completed(
                id,
                new_owner,
            ) == Err::<StoreView, TaskError>(TaskError::TaskAlreadyCompleted)
            &&& new_owner != caller ==> {
                &&& after.task_completed(id, caller) == Err::<StoreView, TaskError>(
                    TaskError::Unauthorized,
                )
                &&& after.task_deleted(id, caller) == Err::<StoreView, TaskError>(
                    TaskError::Unauthorized,
                )
            }
            &&& after.owner_tasks == store.owner_tasks
        },
{
}

/// What a listing holds: the ids that it shows are ids of `ids` that the
/// store shows, every such id of `ids` is among them, and the listing
/// gives for each the task stored under it.
proof fn lemma_shown_ids(store: StoreView, ids: Seq<u32>)
    ensures
        forall|i: int|
            0 <= i < store.shown_ids(ids).len() ==> store.shows(#[trigger] store.shown_ids(ids)[i])
                && ids.contains(store.shown_ids(ids)[i]),
        forall|i: int|
            0 <= i < ids.len() && store.shows(ids[i])
                ==> store.shown_ids(ids).contains(#[trigger] ids[i]),
        store.listing(ids).len() == store.shown_ids(ids).len(),
        forall|i: int|
            0 <= i < store.listing(ids).len() ==> #[trigger] store.listing(ids)[i]
                == store.tasks[store.shown_ids(ids)[i]],
{
    let shown = |id: u32| store.shows(id);
    assert forall|i: int| 0 <= i < store.shown_ids(ids).len()
        implies store.shows(#[trigger] store.shown_ids(ids)[i])
            && ids.contains(store.shown_ids(ids)[i]) by {
        ids.lemma_filter_pred(shown, i);
        ids.lemma_filter_contains_rev(shown, ids.filter(shown)[i]);
    }
    assert forall|i: int| 0 <= i < ids.len() && store.shows(ids[i])
        implies store.shown_ids(ids).contains(#[trigger] ids[i]) by {
        ids.lemma_filter_contains(shown, i);
    }
}

/// Filtering keeps the order: of a strictly ascending sequence, what is
/// left is strictly ascending.
proof fn lemma_filter_keeps_ascending(ids: Seq<u32>, keep: spec_fn(u32) -> bool)
    requires
        forall|i: int, j: int| 0 <= i < j < ids.len() ==> ids[i] < ids[j],
    ensures
        forall|i: int, j: int|
            0 <= i < j < ids.filter(keep).len() ==> ids.filter(keep)[i] < ids.filter(keep)[j],
        forall|i: int| 0 <= i < ids.filter(keep).len() ==> ids.contains(#[trigger] ids.filter(keep)[i]),
    decreases ids.len(),
{
    reveal(Seq::filter);
    if ids.len() > 0 {
        let rest = ids.drop_last();
        let kept = rest.filter(keep);
        lemma_filter_keeps_ascending(rest, keep);
        assert forall|i: int| 0 <= i < kept.len()
            implies ids.contains(#[trigger] kept[i]) && kept[i] < ids.last() by {
            let k = choose|k: int| 0 <= k < rest.len() && rest[k] == kept[i];
            assert(ids[k] == kept[i]);
        }
    }
}

/// A listing over strictly ascending ids holds the tasks under those ids
/// that exist and are not deleted: each as it is stored, none twice, by
/// strictly ascending id.
pub proof fn law_listing_goes_by_the_ids(store: StoreView, ids: Seq<u32>)
    requires
        store.wf(),
        forall|i: int, j: int| 0 <= i < j < ids.len() ==> ids[i] < ids[j],
    ensures
        forall|i: int, j: int|
            0 <= i < j < store.listing(ids).len()
                ==> (#[trigger] store.listing(ids)[i]).id < (#[trigger] store.listing(ids)[j]).id,
        forall|i: int|
            0 <= i < store.listing(ids).len() ==> {
                let task = #[trigger] store.listing(ids)[i];
                &&& task.status != TaskStatus::Deleted
                &&& store.task(task.id) == Some(task)
                &&& ids.contains(task.id)
            },
        forall|k: int|
            0 <= k < ids.len() && store.shows(#[trigger] ids[k])
                ==> store.listing(ids).contains(store.tasks[ids[k]]),
{
    let keys = store.shown_ids(ids);
    let listing = store.listing(ids);
    lemma_shown_ids(store, ids);
    lemma_filter_keeps_ascending(ids, |id: u32| store.shows(id));
    assert forall|k: int| 0 <= k < ids.len() && store.shows(#[trigger] ids[k])
        implies listing.contains(store.tasks[ids[k]]) by {
        let i = choose|i: int| 0 <= i < keys.len() && keys[i] == ids[k];
        assert(listing[i] == store.tasks[ids[k]]);
    }
}

/// The full listing holds every task that exists and is not deleted, each
/// once and as it is stored, by strictly ascending id, whatever the
/// statuses in the store are.
pub proof fn law_full_listing_is_ascending_and_complete(store: StoreView)
    requires
        store.wf(),
    ensures
        ({
            let all = store.listing(store.all_ids());
            &&& forall|i: int, j: int|
                0 <= i < j < all.len() ==> (#[trigger] all[i]).id < (#[trigger] all[j]).id
            &&& forall|i: int|
                0 <= i < all.len() ==> {
                    let task = #[trigger] all[i];
                    task.status != TaskStatus::Deleted && store.task(task.id) == Some(task)
                }
            &&& forall|id: u32|
                (#[trigger] store.task(id) matches Some(task) && task.status != TaskStatus::Deleted)
                    ==> all.contains(store.tasks[id])
        }),
{
    let ids = store.all_ids();
    law_listing_goes_by_the_ids(store, ids);
    assert forall|id: u32|
        (#[trigger] store.task(id) matches Some(task) && task.status != TaskStatus::Deleted)
        implies store.listing(ids).contains(store.tasks[id]) by {
        assert(store.shows(ids[id - 1]));
    }
}

/// The listing of an owner holds the tasks indexed under that owner that
/// are not deleted, in the order in which they were created.
pub proof fn law_owner_listing_is_in_order_of_creation(store: StoreView, owner: Seq<char>)
    requires
        store.wf(),
    ensures
        ({
            let ids = store.owner_ids(owner);
            let listing = store.listing(ids);
            &&& forall|i: int, j: int|
                0 <= i < j < listing.len()
                    ==> (#[trigger] listing[i]).id < (#[trigger] listing[j]).id
            &&& forall|i: int|
                0 <= i < listing.len() ==> {
                    let task = #[trigger] listing[i];
                    &&& task.status != TaskStatus::Deleted
                    &&& store.task(task.id) == Some(task)
                    &&& ids.contains(task.id)
                }
            &&& forall|k: int|
                0 <= k < ids.len() && store.tasks[#[trigger] ids[k]].status != TaskStatus::Deleted
                    ==> listing.contains(store.tasks[ids[k]])
        }),
{
    law_listing_goes_by_the_ids(store, store.owner_ids(owner));
}

/// A soft-deleted task is kept and hidden: it can still be read under its
/// id, with the status deleted and otherwise unchanged, and no listing
/// shows it, whatever ids the listing goes over.
pub proof fn law_deleted_task_is_kept_and_hidden(
    store: StoreView,
    id: u32,
    caller: Seq<char>,
    ids: Seq<u32>,
)
    requires
        store.wf(),
        store.task_deleted(id, caller) is Ok,
    ensures
        store.task_deleted(id, caller) matches Ok(after) && {
            &&& after.task(id) == Some(TaskView { status: TaskStatus::Deleted, ..store.tasks[id] })
            &&& !after.shown_ids(ids).contains(id)
            &&& forall|i: int|
                0 <= i < after.listing(ids).len() ==> (#[trigger] after.listing(ids)[i]).id != id
        },
{
    let call = Call::TaskDeleted { task_id: id, caller };
    lemma_shown_ids(store.after(call), ids);
    law_well_formed_is_kept(store, call);
}

/// A deleted task stays deleted under every operation but one: the
/// completion of that task by its owner.
pub proof fn law_deleted_stays_deleted(store: StoreView, id: u32, call: Call)
    requires
        store.wf(),
        store.admits(call),
        store.task(id) matches Some(task) && task.status == TaskStatus::Deleted,
        !(call matches Call::TaskCompleted { task_id, caller } && task_id == id
            && caller == store.tasks[id].owner),
    ensures
        store.after(call).task(id) matches Some(task) && task.status == TaskStatus::Deleted,
{
}

/// A deleted task stays deleted under every sequence of operations in
/// which no completion of that task succeeds.
pub proof fn law_deleted_stays_deleted_over(store: StoreView, id: u32, calls: Seq<Call>)
    requires
        store.wf(),
        store.admits_all(calls),
        store.task(id) matches Some(task) && task.status == TaskStatus::Deleted,
        forall|k: int|
            0 <= k < calls.len() && (#[trigger] calls[k] matches Call::TaskCompleted { task_id, .. }
                && task_id == id) ==> store.after_all(calls.take(k)).outcome(calls[k]) is Err,
    ensures
        store.after_all(calls).task(id) matches Some(task) && task.status == TaskStatus::Deleted,
    decreases calls.len(),
{
    if calls.len() > 0 {
        let before = calls.drop_last();
        assert forall|k: int|
            0 <= k < before.len() && (#[trigger] before[k] matches Call::TaskCompleted { task_id, .. }
                && task_id == id)
            implies store.after_all(before.take(k)).outcome(before[k]) is Err by {
            assert(before.take(k) == calls.take(k));
        }
        law_deleted_stays_deleted_over(store, id, before);
        law_well_formed_is_kept_over(store, before);
        law_deleted_stays_deleted(store.after_all(before), id, calls.last());
    }
}

/// An operation reads only the records that it names: on two stores that
/// hold the same there, it ends the same way, and what it writes is the
/// same. So an operation can run on a store that holds no more than that.
pub proof fn law_operation_reads_only_what_it_names(
    store: StoreView,
    other: StoreView,
    call: Call,
)
    requires
        store.same_for(other, call),
    ensures
        (store.outcome(call) is Ok) == (other.outcome(call) is Ok),
        store.outcome(call) matches Err(error) ==> other.outcome(call) matches Err(same)
            && same == error,
        store.after(call).same_for(other.after(call), call),
        call is AddTask && store.outcome(call) is Ok ==> store.after(call).task(
            store.next_task_id(),
        ) == other.after(call).task(other.next_task_id()),
{
}

/// An operation writes only the records that it names: a creation the new
/// task, the index of its owner and the counter, a change to a task the
/// record under its id. Everything else stays as it was.
pub proof fn law_operation_writes_only_what_it_names(store: StoreView, call: Call)
    ensures
        forall|id: u32|
            call.target() != Some(id) && !(call is AddTask && id == store.next_task_id())
                ==> #[trigger] store.after(call).task(id) == store.task(id),
        forall|owner: Seq<char>|
            !(call is AddTask && owner == call.caller()) ==> {
                &&& #[trigger] store.after(call).owner_tasks.contains_key(owner)
                    == store.owner_tasks.contains_key(owner)
                &&& store.after(call).owner_ids(owner) == store.owner_ids(owner)
            },
        !(call is AddTask) ==> store.after(call).next_id == store.next_id,
{
}

/// A listing reads only the records under the ids that it goes over: two
/// stores that hold the same there give the same listing.
pub proof fn law_listing_reads_only_its_ids(store: StoreView, other: StoreView, ids: Seq<u32>)
    requires
        forall|i: int| 0 <= i < ids.len() ==> store.task(#[trigger] ids[i]) == other.task(ids[i]),
    ensures
        store.listing(ids) == other.listing(ids),
    decreases ids.len(),
{
    if ids.len() == 0 {
        store.lemma_listing_empty();
        other.lemma_listing_empty();
    } else {
        let i = ids.len() - 1;
        law_listing_reads_only_its_ids(store, other, ids.take(i));
        store.lemma_listing_next(ids, i);
        other.lemma_listing_next(ids, i);
        assert(ids.take(i + 1) == ids);
    }
}

/// What never changes of a task, and what changes one way only: under
/// every operation a stored task stays stored with its id and its
/// creation time; it is never set back to pending; and its description
/// changes only while it is pending, and never to an empty one.
pub proof fn law_task_history_is_one_way(store: StoreView, id: u32, call: Call)
    requires
        store.wf(),
        store.admits(call),
        store.tasks.contains_key(id),
    ensures
        store.after(call).task(id) matches Some(after) && {
            let before = store.tasks[id];
            &&& after.id == before.id
            &&& after.timestamp == before.timestamp
            &&& after.status == TaskStatus::Pending ==> before.status == TaskStatus::Pending
            &&& after.description != before.description ==> before.status == TaskStatus::Pending
            &&& after.description.len() > 0
        },
{
}

} // verus!
