//! The records of the registry: identities, task states, errors and tasks.

use vstd::prelude::*;

verus! {

/// The lifecycle state of a task.
#[derive(Clone, Copy, Debug, PartialEq, Eq, Structural)]
pub enum TaskStatus {
    Completed,
    Pending,
    Deleted,
}

/// The errors an operation on the registry reports.
#[derive(Copy, Clone, Debug, PartialEq, Eq, PartialOrd, Ord, Structural)]
pub enum TaskError {
    /// The referenced id has no record.
    TaskNotFound,
    /// An empty description was given.
    InvalidTaskData,
    /// The caller is not the task's current owner.
    Unauthorized,
    /// The task is already completed, or is not pending when an edit asks for that.
    TaskAlreadyCompleted,
}

impl TaskError {
    /// The numbers of the errors, from 1 in the order of the variants.
    pub open spec fn spec_code(self) -> u32 {
        match self {
            TaskError::TaskNotFound => 1,
            TaskError::InvalidTaskData => 2,
            TaskError::Unauthorized => 3,
            TaskError::TaskAlreadyCompleted => 4,
        }
    }

    /// The number under which the error is reported to an invoker.
    #[verifier::when_used_as_spec(spec_code)]
    pub fn code(self) -> (code: u32)
        ensures
            code == self.spec_code(),
    {
        match self {
            TaskError::TaskNotFound => 1,
            TaskError::InvalidTaskData => 2,
            TaskError::Unauthorized => 3,
            TaskError::TaskAlreadyCompleted => 4,
        }
    }
}

/// An identity that can authorize operations, held by its textual key.
#[derive(Debug)]
pub struct Address {
    strkey: String,
}

impl View for Address {
    type V = Seq<char>;

    closed spec fn view(&self) -> Seq<char> {
        self.strkey@
    }
}

impl Clone for Address {
    fn clone(&self) -> (copy: Self)
        ensures
            copy == *self,
    {
        Address { strkey: self.strkey.clone() }
    }
}

impl PartialEq for Address {
    fn eq(&self, other: &Self) -> (same: bool) {
        self.strkey == other.strkey
    }
}

impl Eq for Address {}

impl vstd::std_specs::cmp::PartialEqSpecImpl for Address {
    open spec fn obeys_eq_spec() -> bool {
        true
    }

    open spec fn eq_spec(&self, other: &Self) -> bool {
        self@ == other@
    }
}

impl Address {
    /// The identity with the given textual key.
    pub fn from_str(strkey: &str) -> (address: Address)
        ensures
            address@ == strkey@,
    {
        Address { strkey: strkey.to_owned() }
    }

    /// The textual key of this identity.
    pub fn as_str(&self) -> (strkey: &str)
        ensures
            strkey@ == self@,
    {
        self.strkey.as_str()
    }
}

/// What a task is, as plain values.
#[verifier::ext_equal]
pub struct TaskView {
    pub id: u32,
    pub description: Seq<u8>,
    pub owner: Seq<char>,
    pub status: TaskStatus,
    pub timestamp: u64,
}

/// A task of the registry.
#[derive(Debug, PartialEq, Eq)]
pub struct Task {
    /// Assigned once at creation.
    pub id: u32,
    /// The bytes of the description's text; never empty while the task is kept.
    pub description: Vec<u8>,
    /// The identity that may change the task.
    pub owner: Address,
    pub status: TaskStatus,
    /// The ledger time at creation.
    pub timestamp: u64,
}

impl View for Task {
    type V = TaskView;

    open spec fn view(&self) -> TaskView {
        TaskView {
            id: self.id,
            description: self.description@,
            owner: self.owner@,
            status: self.status,
            timestamp: self.timestamp,
        }
    }
}

/// The tasks of `tasks` as plain values, in the same order.
pub open spec fn task_views(tasks: Seq<Task>) -> Seq<TaskView> {
    tasks.map_values(|task: Task| task@)
}

impl Clone for Task {
    fn clone(&self) -> (copy: Self)
        ensures
            copy@ == self@,
    {
        Task {
            id: self.id,
            description: self.description.clone(),
            owner: self.owner.clone(),
            status: self.status,
            timestamp: self.timestamp,
        }
    }
}

} // verus!
