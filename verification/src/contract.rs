//! The operations of the registry: creation, the changes that a task's owner
//! may make, and the listings.

use crate::host::Host;
use crate::task::{task_views, Address, Task, TaskError, TaskStatus};
use vstd::prelude::*;

verus! {

/// The task registry. Its operations run on a [`Host`]; those that change
/// a task are for callers that authorized the invocation.
pub struct ToDoListContract;

impl ToDoListContract {
    /// Creates a pending task of `owner` under the next id, stamped with the
    /// ledger time, indexes it under `owner`, moves the id counter on, and
    /// returns the id. An empty description is rejected with
    /// `InvalidTaskData`, and nothing changes.
    ///
    /// `owner` has to have authorized the invocation, and the next id has to
    /// be below the largest `u32` for a task to be created.
    pub fn add_task(env: &mut Host, description: Vec<u8>, owner: Address) -> (result: Result<
        u32,
        TaskError,
    >)
        requires
            old(env)@.authorized(owner@),
            description@.len() > 0 ==> old(env)@.store.next_task_id() < u32::MAX,
        ensures
            match old(env)@.store.add_task(description@, owner@, old(env)@.timestamp) {
                Ok((store, id)) => result == Ok::<u32, TaskError>(id) && final(env)@ == old(
                    env,
                )@.with_store(store),
                Err(error) => result == Err::<u32, TaskError>(error) && final(env)@ == old(env)@,
            },
    {
        if description.len() == 0 {
            return Err(TaskError::InvalidTaskData);
        }
        let next_id = Self::get_next_task_id(env);
        let timestamp = env.timestamp();
        let new_task = Task {
            id: next_id,
            description,
            owner: owner.clone(),
            status: TaskStatus::Pending,
            timestamp,
        };
        env.store_mut().set_task(next_id, new_task);

        let mut owner_tasks = match env.store().get_owner_tasks(&owner) {
            Some(task_ids) => task_ids,
            None => Vec::new(),
        };
        owner_tasks.push(next_id);
        env.store_mut().set_owner_tasks(owner, owner_tasks);

        env.store_mut().set_next_id(next_id + 1);
        Ok(next_id)
    }

    /// The task under `task_id`, whatever its status and whoever asks.
    pub fn get_task_by_id(env: &Host, task_id: u32) -> (found: Option<Task>)
        ensures
            match found {
                Some(task) => env@.store.task(task_id) == Some(task@),
                None => env@.store.task(task_id) is None,
            },
    {
        env.store().get_task(task_id)
    }

    /// The tasks indexed under `owner` that exist and are not deleted, in
    /// the order in which they were indexed.
    pub fn get_tasks_by_owner(env: &Host, owner: Address) -> (tasks: Vec<Task>)
        ensures
            task_views(tasks@) == env@.store.listing(env@.store.owner_ids(owner@)),
    {
        let mut tasks: Vec<Task> = Vec::new();
        proof {
            env@.store.lemma_listing_empty();
        }
        if let Some(task_ids) = env.store().get_owner_tasks(&owner) {
            for i in 0..task_ids.len()
                invariant
                    task_views(tasks@) == env@.store.listing(task_ids@.take(i as int)),
            {
                proof {
                    env@.store.lemma_listing_next(task_ids@, i as int);
                }
                if let Some(task) = Self::get_task_by_id(env, task_ids[i]) {
                    if task.status != TaskStatus::Deleted {
                        tasks.push(task);
                    }
                }
            }
            assert(task_ids@.take(task_ids@.len() as int) == task_ids@);
        }
        tasks
    }

    /// Marks a task of the caller's as completed. Fails with `TaskNotFound`
    /// where there is no such task, else with `Unauthorized` where it is
    /// another's, else with `TaskAlreadyCompleted` where it is completed. A
    /// failure changes nothing.
    ///
    /// `caller` has to have authorized the invocation.
    pub fn task_completed(env: &mut Host, task_id: u32, caller: Address) -> (result: Result<
        (),
        TaskError,
    >)
        requires
            old(env)@.authorized(caller@),
        ensures
            match old(env)@.store.task_completed(task_id, caller@) {
                Ok(store) => result == Ok::<(), TaskError>(()) && final(env)@ == old(env)@.with_store(
                    store,
                ),
                Err(error) => result == Err::<(), TaskError>(error) && final(env)@ == old(env)@,
            },
    {
        let mut task = match env.store().get_task(task_id) {
            Some(task) => task,
            None => {
                return Err(TaskError::TaskNotFound);
            },
        };
        if task.owner != caller {
            return Err(TaskError::Unauthorized);
        }
        if task.status == TaskStatus::Completed {
            return Err(TaskError::TaskAlreadyCompleted);
        }
        task.status = TaskStatus::Completed;

        env.store_mut().set_task(task_id, task);
        Ok(())
    }

    /// Gives a pending task of the caller's a new description. Fails with
    /// `TaskNotFound` where there is no such task, else with `Unauthorized`
    /// where it is another's, else with `InvalidTaskData` where the new
    /// description is empty, else with `TaskAlreadyCompleted` where the task
    /// is not pending. A failure changes nothing.
    ///
    /// `caller` has to have authorized the invocation.
    pub fn update_task_description(
        env: &mut Host,
        task_id: u32,
        caller: Address,
        new_description: Vec<u8>,
    ) -> (result: Result<(), TaskError>)
        requires
            old(env)@.authorized(caller@),
        ensures
            match old(env)@.store.update_task_description(task_id, caller@, new_description@) {
                Ok(store) => result == Ok::<(), TaskError>(()) && final(env)@ == old(env)@.with_store(
                    store,
                ),
                Err(error) => result == Err::<(), TaskError>(error) && final(env)@ == old(env)@,
            },
    {
        let mut task = match env.store().get_task(task_id) {
            Some(task) => task,
            None => {
                return Err(TaskError::TaskNotFound);
            },
        };
        if task.owner != caller {
            return Err(TaskError::Unauthorized);
        }
        if new_description.len() == 0 {
            return Err(TaskError::InvalidTaskData);
        }
        if task.status != TaskStatus::Pending {
            return Err(TaskError::TaskAlreadyCompleted);
        }
        task.description = new_description;

        env.store_mut().set_task(task_id, task);
        Ok(())
    }

    /// Marks a task of the caller's as deleted, whatever its status; the
    /// record is kept. Fails with `TaskNotFound` where there is no such
    /// task, else with `Unauthorized` where it is another's. A failure
    /// changes nothing.
    ///
    /// `caller` has to have authorized the invocation.
    pub fn task_deleted(env: &mut Host, task_id: u32, caller: Address) -> (result: Result<
        (),
        TaskError,
    >)
        requires
            old(env)@.authorized(caller@),
        ensures
            match old(env)@.store.task_deleted(task_id, caller@) {
                Ok(store) => result == Ok::<(), TaskError>(()) && final(env)@ == old(env)@.with_store(
                    store,
                ),
                Err(error) => result == Err::<(), TaskError>(error) && final(env)@ == old(env)@,
            },
    {
        let mut task = match env.store().get_task(task_id) {
            Some(task) => task,
            None => {
                return Err(TaskError::TaskNotFound);
            },
        };
        if task.owner != caller {
            return Err(TaskError::Unauthorized);
        }
        task.status = TaskStatus::Deleted;

        env.store_mut().set_task(task_id, task);
        Ok(())
    }

    /// Hands a task of the caller's to `new_owner`. The index of the owners
    /// is not touched: the task stays listed under the identity that
    /// created it. Fails with `TaskNotFound` where there is no such task,
    /// else with `Unauthorized` where it is another's. A failure changes
    /// nothing.
    ///
    /// `caller` has to have authorized the invocation.
    pub fn transfer_ownership(
        env: &mut Host,
        task_id: u32,
        caller: Address,
        new_owner: Address,
    ) -> (result: Result<(), TaskError>)
        requires
            old(env)@.authorized(caller@),
        ensures
            match old(env)@.store.transfer_ownership(task_id, caller@, new_owner@) {
                Ok(store) => result == Ok::<(), TaskError>(()) && final(env)@ == old(env)@.with_store(
                    store,
                ),
                Err(error) => result == Err::<(), TaskError>(error) && final(env)@ == old(env)@,
            },
    {
        let mut task = match env.store().get_task(task_id) {
            Some(task) => task,
            None => {
                return Err(TaskError::TaskNotFound);
            },
        };
        if task.owner != caller {
            return Err(TaskError::Unauthorized);
        }
        task.owner = new_owner;

        env.store_mut().set_task(task_id, task);
        Ok(())
    }

    /// The tasks under the ids from 1 up to the one before the next id that
    /// exist and are not deleted, by ascending id. Every id ever given out
    /// is looked up, the deleted ones too.
    pub fn get_all(env: &Host) -> (tasks: Vec<Task>)
        ensures
            task_views(tasks@) == env@.store.listing(env@.store.all_ids()),
    {
        let mut tasks: Vec<Task> = Vec::new();
        let last_id = Self::get_next_task_id(env);
        let ghost ids = env@.store.all_ids();
        proof {
            env@.store.lemma_listing_empty();
        }
        let mut id: u32 = 1;
        while id < last_id
            invariant
                1 <= id,
                id == 1 || id <= last_id,
                last_id == env@.store.next_task_id(),
                ids == env@.store.all_ids(),
                task_views(tasks@) == env@.store.listing(ids.take(id - 1)),
            decreases last_id - id,
        {
            proof {
                env@.store.lemma_listing_next(ids, id - 1);
            }
            if let Some(task) = Self::get_task_by_id(env, id) {
                if task.status != TaskStatus::Deleted {
                    tasks.push(task);
                }
            }
            id = id + 1;
        }
        assert(ids.take(id - 1) == ids);
        tasks
    }

    /// The id that the next created task gets: the counter, or 1 while the
    /// counter was never set.
    pub fn get_next_task_id(env: &Host) -> (next_id: u32)
        ensures
            next_id == env@.store.next_task_id(),
    {
        match env.store().get_next_id() {
            Some(next_id) => next_id,
            None => 1,
        }
    }
}

} // verus!
