//! The record store: tasks by id, the index of the owners, and the id
//! counter, each read and written under its key.

use crate::model::StoreView;
use crate::task::{Address, Task};
use std::collections::HashMap;
use vstd::prelude::*;

verus! {

/// One line of the index of the owners.
struct OwnerEntry {
    owner: Address,
    task_ids: Vec<u32>,
}

/// The index as a map: a later line for an identity stands for an earlier one.
spec fn index_view(entries: Seq<OwnerEntry>) -> Map<Seq<char>, Seq<u32>>
    decreases entries.len(),
{
    if entries.len() == 0 {
        Map::empty()
    } else {
        index_view(entries.drop_last()).insert(entries.last().owner@, entries.last().task_ids@)
    }
}

/// An identity that no line names is not in the index.
proof fn lemma_index_absent(entries: Seq<OwnerEntry>, key: Seq<char>)
    requires
        forall|j: int| 0 <= j < entries.len() ==> entries[j].owner@ != key,
    ensures
        !index_view(entries).contains_key(key),
    decreases entries.len(),
{
    if entries.len() > 0 {
        lemma_index_absent(entries.drop_last(), key);
    }
}

/// The index gives an identity what its last line holds.
proof fn lemma_index_lookup(entries: Seq<OwnerEntry>, i: int, key: Seq<char>)
    requires
        0 <= i < entries.len(),
        entries[i].owner@ == key,
        forall|j: int| i < j < entries.len() ==> entries[j].owner@ != key,
    ensures
        index_view(entries).contains_key(key),
        index_view(entries)[key] == entries[i].task_ids@,
    decreases entries.len(),
{
    if i < entries.len() - 1 {
        lemma_index_lookup(entries.drop_last(), i, key);
    }
}

/// Replacing an identity's last line sets what the index gives it.
proof fn lemma_index_replace(entries: Seq<OwnerEntry>, i: int, entry: OwnerEntry)
    requires
        0 <= i < entries.len(),
        entries[i].owner@ == entry.owner@,
        forall|j: int| i < j < entries.len() ==> entries[j].owner@ != entry.owner@,
    ensures
        index_view(entries.update(i, entry)) == index_view(entries).insert(
            entry.owner@,
            entry.task_ids@,
        ),
    decreases entries.len(),
{
    let changed = entries.update(i, entry);
    if i == entries.len() - 1 {
        assert(changed.drop_last() == entries.drop_last());
    } else {
        assert(changed.drop_last() == entries.drop_last().update(i, entry));
        lemma_index_replace(entries.drop_last(), i, entry);
    }
}

/// An in-memory record store.
pub struct RecordStore {
    tasks: HashMap<u32, Task>,
    owner_index: Vec<OwnerEntry>,
    next_id: Option<u32>,
}

impl View for RecordStore {
    type V = StoreView;

    closed spec fn view(&self) -> StoreView {
        StoreView {
            tasks: Map::new(|id: u32| self.tasks@.contains_key(id), |id: u32| self.tasks@[id]@),
            owner_tasks: index_view(self.owner_index@),
            next_id: self.next_id,
        }
    }
}

impl RecordStore {
    /// A store in which nothing was written yet.
    pub fn new() -> (store: RecordStore)
        ensures
            store@ == StoreView::empty(),
    {
        RecordStore { tasks: HashMap::new(), owner_index: Vec::new(), next_id: None }
    }

    /// The task kept under `id`, if there is one.
    pub fn get_task(&self, id: u32) -> (found: Option<Task>)
        ensures
            (found is Some) == self@.tasks.contains_key(id),
            found matches Some(task) ==> task@ == self@.tasks[id],
    {
        match self.tasks.get(&id) {
            Some(task) => Some(task.clone()),
            None => None,
        }
    }

    /// Keeps `task` under `id`, in place of what was kept there.
    pub fn set_task(&mut self, id: u32, task: Task)
        ensures
            final(self)@ == old(self)@.with_task(id, task@),
    {
        self.tasks.insert(id, task);
    }

    /// The place of the last line of the index that names `owner`.
    fn find_owner(&self, owner: &Address) -> (place: Option<usize>)
        ensures
            match place {
                Some(i) => {
                    &&& i < self.owner_index@.len()
                    &&& self.owner_index@[i as int].owner@ == owner@
                    &&& forall|j: int|
                        i < j < self.owner_index@.len() ==> self.owner_index@[j].owner@ != owner@
                },
                None => forall|j: int|
                    0 <= j < self.owner_index@.len() ==> self.owner_index@[j].owner@ != owner@,
            },
    {
        let mut i: usize = self.owner_index.len();
        while i > 0
            invariant
                i <= self.owner_index@.len(),
                forall|j: int|
                    i <= j < self.owner_index@.len() ==> self.owner_index@[j].owner@ != owner@,
            decreases i,
        {
            i = i - 1;
            if self.owner_index[i].owner == *owner {
                return Some(i);
            }
        }
        None
    }

    /// The ids indexed under `owner`, if the index has a line for it.
    pub fn get_owner_tasks(&self, owner: &Address) -> (found: Option<Vec<u32>>)
        ensures
            (found is Some) == self@.owner_tasks.contains_key(owner@),
            found matches Some(ids) ==> ids@ == self@.owner_tasks[owner@],
    {
        match self.find_owner(owner) {
            Some(i) => {
                proof {
                    lemma_index_lookup(self.owner_index@, i as int, owner@);
                }
                Some(self.owner_index[i].task_ids.clone())
            },
            None => {
                proof {
                    lemma_index_absent(self.owner_index@, owner@);
                }
                None
            },
        }
    }

    /// Indexes `task_ids` under `owner`, in place of what was indexed there.
    pub fn set_owner_tasks(&mut self, owner: Address, task_ids: Vec<u32>)
        ensures
            final(self)@ == (StoreView {
                owner_tasks: old(self)@.owner_tasks.insert(owner@, task_ids@),
                ..old(self)@
            }),
    {
        let place = self.find_owner(&owner);
        let entry = OwnerEntry { owner, task_ids };
        match place {
            Some(i) => {
                proof {
                    lemma_index_replace(self.owner_index@, i as int, entry);
                }
                self.owner_index.set(i, entry);
            },
            None => {
                assert(self.owner_index@.push(entry).drop_last() == self.owner_index@);
                self.owner_index.push(entry);
            },
        }
    }

    /// The id counter, if it was ever set.
    pub fn get_next_id(&self) -> (next_id: Option<u32>)
        ensures
            next_id == self@.next_id,
    {
        self.next_id
    }

    /// Sets the id counter.
    pub fn set_next_id(&mut self, next_id: u32)
        ensures
            final(self)@ == (StoreView { next_id: Some(next_id), ..old(self)@ }),
    {
        self.next_id = Some(next_id);
    }
}

} // verus!
