//! The registry as a mathematical state: what the record store holds, and
//! what each operation makes of it.

use crate::task::{TaskError, TaskStatus, TaskView};
use vstd::prelude::*;

verus! {

/// What the record store holds: the tasks by id, for each identity the ids
/// of the tasks it created, and the id counter.
#[verifier::ext_equal]
pub struct StoreView {
    pub tasks: Map<u32, TaskView>,
    pub owner_tasks: Map<Seq<char>, Seq<u32>>,
    pub next_id: Option<u32>,
}

/// What an invocation runs in: the record store, the ledger time, and the
/// identities that authorized the invocation.
#[verifier::ext_equal]
pub struct HostView {
    pub store: StoreView,
    pub timestamp: u64,
    pub signers: Set<Seq<char>>,
}

impl HostView {
    /// An empty store at ledger time 0, with no invocation authorized.
    pub open spec fn fresh() -> HostView {
        HostView { store: StoreView::empty(), timestamp: 0, signers: Set::empty() }
    }

    /// The same host around another store.
    pub open spec fn with_store(self, store: StoreView) -> HostView {
        HostView { store, ..self }
    }

    /// Whether `who` authorized the invocation.
    pub open spec fn authorized(self, who: Seq<char>) -> bool {
        self.signers.contains(who)
    }

    /// What an operation asks of the host that it runs on: that its caller
    /// authorized the invocation, and that the store admits the call.
    pub open spec fn permits(self, call: Call) -> bool {
        self.authorized(call.caller()) && self.store.admits(call)
    }
}

/// An operation that changes the registry, with what its caller passes and,
/// for a creation, the ledger time at which it runs.
pub enum Call {
    AddTask { description: Seq<u8>, owner: Seq<char>, timestamp: u64 },
    TaskCompleted { task_id: u32, caller: Seq<char> },
    UpdateTaskDescription { task_id: u32, caller: Seq<char>, new_description: Seq<u8> },
    TaskDeleted { task_id: u32, caller: Seq<char> },
    TransferOwnership { task_id: u32, caller: Seq<char>, new_owner: Seq<char> },
}

impl Call {
    /// The identity that asks for the operation: it has to have authorized
    /// the invocation.
    pub open spec fn caller(self) -> Seq<char> {
        match self {
            Call::AddTask { owner, .. } => owner,
            Call::TaskCompleted { caller, .. } => caller,
            Call::UpdateTaskDescription { caller, .. } => caller,
            Call::TaskDeleted { caller, .. } => caller,
            Call::TransferOwnership { caller, .. } => caller,
        }
    }

    /// The id of the task that the operation is to change; a creation names none.
    pub open spec fn target(self) -> Option<u32> {
        match self {
            Call::AddTask { .. } => None,
            Call::TaskCompleted { task_id, .. } => Some(task_id),
            Call::UpdateTaskDescription { task_id, .. } => Some(task_id),
            Call::TaskDeleted { task_id, .. } => Some(task_id),
            Call::TransferOwnership { task_id, .. } => Some(task_id),
        }
    }
}

impl StoreView {
    /// The store in which nothing was written yet.
    pub open spec fn empty() -> StoreView {
        StoreView { tasks: Map::empty(), owner_tasks: Map::empty(), next_id: None }
    }

    /// The id that the next created task gets: the counter, or 1 while the
    /// counter is unset.
    pub open spec fn next_task_id(self) -> u32 {
        match self.next_id {
            Some(n) => n,
            None => 1,
        }
    }

    /// The record under `id`, whatever its status.
    pub open spec fn task(self, id: u32) -> Option<TaskView> {
        if self.tasks.contains_key(id) {
            Some(self.tasks[id])
        } else {
            None
        }
    }

    /// The ids indexed under `owner`, in the order in which they were added.
    pub open spec fn owner_ids(self, owner: Seq<char>) -> Seq<u32> {
        if self.owner_tasks.contains_key(owner) {
            self.owner_tasks[owner]
        } else {
            Seq::empty()
        }
    }

    /// Every id from 1 up to the one before the next id, ascending.
    pub open spec fn all_ids(self) -> Seq<u32> {
        let next = self.next_task_id();
        Seq::new(
            if next >= 1 {
                (next - 1) as nat
            } else {
                0
            },
            |i: int| (i + 1) as u32,
        )
    }

    /// Whether a listing shows the record under `id`: it exists and is not
    /// deleted.
    pub open spec fn shows(self, id: u32) -> bool {
        self.tasks.contains_key(id) && self.tasks[id].status != TaskStatus::Deleted
    }

    /// The ids among `ids` that a listing shows, in the order of `ids`.
    pub open spec fn shown_ids(self, ids: Seq<u32>) -> Seq<u32> {
        ids.filter(|id: u32| self.shows(id))
    }

    /// The tasks that a listing over `ids` returns.
    pub open spec fn listing(self, ids: Seq<u32>) -> Seq<TaskView> {
        self.shown_ids(ids).map_values(|id: u32| self.tasks[id])
    }

    /// A listing takes the ids one by one: each adds its task where it is
    /// shown, and nothing where it is not.
    pub(crate) proof fn lemma_listing_next(self, ids: Seq<u32>, i: int)
        requires
            0 <= i < ids.len(),
        ensures
            self.listing(ids.take(i + 1)) == if self.shows(ids[i]) {
                self.listing(ids.take(i)).push(self.tasks[ids[i]])
            } else {
                self.listing(ids.take(i))
            },
    {
        let shown = |id: u32| self.shows(id);
        assert(ids.take(i + 1) == ids.take(i).push(ids[i]));
        ids.take(i).lemma_filter_push(ids[i], shown);
    }

    /// A listing over no ids is empty.
    pub(crate) proof fn lemma_listing_empty(self)
        ensures
            self.listing(Seq::empty()) == Seq::<TaskView>::empty(),
    {
        Seq::<u32>::empty().lemma_filter_len(|id: u32| self.shows(id));
    }

    /// The store with `task` written under `id`.
    pub open spec fn with_task(self, id: u32, task: TaskView) -> StoreView {
        StoreView { tasks: self.tasks.insert(id, task), ..self }
    }

    /// Creation: rejected for an empty description; else the new task gets
    /// the next id, is indexed under its owner, and the counter moves on.
    pub open spec fn add_task(
        self,
        description: Seq<u8>,
        owner: Seq<char>,
        timestamp: u64,
    ) -> Result<(StoreView, u32), TaskError> {
        if description.len() == 0 {
            Err(TaskError::InvalidTaskData)
        } else {
            let id = self.next_task_id();
            let task = TaskView { id, description, owner, status: TaskStatus::Pending, timestamp };
            Ok(
                (
                    StoreView {
                        tasks: self.tasks.insert(id, task),
                        owner_tasks: self.owner_tasks.insert(owner, self.owner_ids(owner).push(id)),
                        next_id: Some((id + 1) as u32),
                    },
                    id,
                ),
            )
        }
    }

    /// The first reason for which `caller` may not change the task under
    /// `id`, if there is one: it is absent, or owned by another identity.
    pub open spec fn refusal(self, id: u32, caller: Seq<char>) -> Option<TaskError> {
        if !self.tasks.contains_key(id) {
            Some(TaskError::TaskNotFound)
        } else if self.tasks[id].owner != caller {
            Some(TaskError::Unauthorized)
        } else {
            None
        }
    }

    /// Completion: of a task of the caller's that is not completed yet.
    pub open spec fn task_completed(self, id: u32, caller: Seq<char>) -> Result<StoreView, TaskError> {
        match self.refusal(id, caller) {
            Some(error) => Err(error),
            None => if self.tasks[id].status == TaskStatus::Completed {
                Err(TaskError::TaskAlreadyCompleted)
            } else {
                Ok(self.with_task(id, TaskView { status: TaskStatus::Completed, ..self.tasks[id] }))
            },
        }
    }

    /// A new description: not empty, for a pending task of the caller's.
    pub open spec fn update_task_description(
        self,
        id: u32,
        caller: Seq<char>,
        new_description: Seq<u8>,
    ) -> Result<StoreView, TaskError> {
        match self.refusal(id, caller) {
            Some(error) => Err(error),
            None => if new_description.len() == 0 {
                Err(TaskError::InvalidTaskData)
            } else if self.tasks[id].status != TaskStatus::Pending {
                Err(TaskError::TaskAlreadyCompleted)
            } else {
                Ok(self.with_task(id, TaskView { description: new_description, ..self.tasks[id] }))
            },
        }
    }

    /// Soft deletion: of any task of the caller's, whatever its status.
    pub open spec fn task_deleted(self, id: u32, caller: Seq<char>) -> Result<StoreView, TaskError> {
        match self.refusal(id, caller) {
            Some(error) => Err(error),
            None => Ok(self.with_task(id, TaskView { status: TaskStatus::Deleted, ..self.tasks[id] })),
        }
    }

    /// Handing a task of the caller's to `new_owner`. The index of the
    /// owners is left as it is.
    pub open spec fn transfer_ownership(
        self,
        id: u32,
        caller: Seq<char>,
        new_owner: Seq<char>,
    ) -> Result<StoreView, TaskError> {
        match self.refusal(id, caller) {
            Some(error) => Err(error),
            None => Ok(self.with_task(id, TaskView { owner: new_owner, ..self.tasks[id] })),
        }
    }

    /// Whether `call` can run on this store: a creation needs a next id
    /// below the largest one, so that the counter can move on.
    pub open spec fn admits(self, call: Call) -> bool {
        call matches Call::AddTask { description, .. } ==> description.len() > 0 ==> self.next_task_id()
            < u32::MAX
    }

    /// What `call` comes to: the store that it leaves where it succeeds, or
    /// the error with which it ends.
    pub open spec fn outcome(self, call: Call) -> Result<StoreView, TaskError> {
        match call {
            Call::AddTask { description, owner, timestamp } => match self.add_task(
                description,
                owner,
                timestamp,
            ) {
                Ok((store, _)) => Ok(store),
                Err(error) => Err(error),
            },
            Call::TaskCompleted { task_id, caller } => self.task_completed(task_id, caller),
            Call::UpdateTaskDescription {
                task_id,
                caller,
                new_description,
            } => self.update_task_description(task_id, caller, new_description),
            Call::TaskDeleted { task_id, caller } => self.task_deleted(task_id, caller),
            Call::TransferOwnership { task_id, caller, new_owner } => self.transfer_ownership(
                task_id,
                caller,
                new_owner,
            ),
        }
    }

    /// The store after `call`: changed as the operation says where it
    /// succeeds, untouched where it ends with an error.
    pub open spec fn after(self, call: Call) -> StoreView {
        match self.outcome(call) {
            Ok(store) => store,
            Err(_) => self,
        }
    }

    /// Whether the two stores hold the same in what `call` reads: for a
    /// creation the counter and the index of the new owner, for a change to
    /// a task the record under its id.
    pub open spec fn same_for(self, other: StoreView, call: Call) -> bool {
        match call {
            Call::AddTask { owner, .. } => {
                &&& self.next_id == other.next_id
                &&& self.owner_tasks.contains_key(owner) == other.owner_tasks.contains_key(owner)
                &&& self.owner_ids(owner) == other.owner_ids(owner)
            },
            Call::TaskCompleted { task_id, .. } => self.task(task_id) == other.task(task_id),
            Call::UpdateTaskDescription { task_id, .. } => self.task(task_id) == other.task(task_id),
            Call::TaskDeleted { task_id, .. } => self.task(task_id) == other.task(task_id),
            Call::TransferOwnership { task_id, .. } => self.task(task_id) == other.task(task_id),
        }
    }

    /// The store after the calls of `calls`, one after the other.
    pub open spec fn after_all(self, calls: Seq<Call>) -> StoreView
        decreases calls.len(),
    {
        if calls.len() == 0 {
            self
        } else {
            self.after_all(calls.drop_last()).after(calls.last())
        }
    }

    /// Whether each call of `calls` can run on the store that the calls
    /// before it leave.
    pub open spec fn admits_all(self, calls: Seq<Call>) -> bool
        decreases calls.len(),
    {
        calls.len() > 0 ==> self.admits_all(calls.drop_last()) && self.after_all(
            calls.drop_last(),
        ).admits(calls.last())
    }

    /// What holds of every store that the operations build from the empty
    /// one: the tasks are those with the ids from 1 up to the one before
    /// the next id, each is kept under its own id with a description that
    /// is not empty, and the index names tasks that exist, each owner's in
    /// ascending order.
    pub open spec fn wf(self) -> bool {
        &&& self.next_task_id() >= 1
        &&& forall|id: u32| self.tasks.contains_key(id) <==> 1 <= id < self.next_task_id()
        &&& forall|id: u32| #[trigger]
            self.tasks.contains_key(id) ==> self.tasks[id].id == id && self.tasks[id].description.len()
                > 0
        &&& forall|owner: Seq<char>, i: int|
            self.owner_tasks.contains_key(owner) && 0 <= i < self.owner_tasks[owner].len()
                ==> self.tasks.contains_key(#[trigger] self.owner_tasks[owner][i])
        &&& forall|owner: Seq<char>, i: int, j: int|
            self.owner_tasks.contains_key(owner) && 0 <= i < j < self.owner_tasks[owner].len()
                ==> #[trigger] self.owner_tasks[owner][i] < #[trigger] self.owner_tasks[owner][j]
    }
}

} // verus!
