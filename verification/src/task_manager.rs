//! The task manager behind the command line: tasks are added, completed,
//! shown, and deleted from the stored form.

use crate::error::StoreError;
use crate::json::{empty_object, json_bytes_of, json_entries_of};
use crate::model::{after_complete, after_insert, is_listing_of, no_tasks};
use crate::store::TaskStore;
use vstd::prelude::*;
use vstd::string::StringExecFns;

verus! {

/// What `complete_task` says of the task `task` once it is completed.
pub open spec fn completion_notice(task: Seq<char>) -> Seq<char> {
    task + " is now complete"@
}

/// The scheduled tasks. The view maps each task to its status: `true` for a
/// task that is still to be done, `false` for a completed one.
#[derive(Debug)]
pub struct TaskManager {
    tasks: TaskStore,
}

impl View for TaskManager {
    type V = Map<Seq<char>, bool>;

    closed spec fn view(&self) -> Map<Seq<char>, bool> {
        self.tasks@
    }
}

impl TaskManager {
    /// There are never more than finitely many tasks.
    pub proof fn lemma_finite(self)
        ensures
            self@.dom().finite(),
    {
        self.tasks.lemma_finite();
    }

    /// Opens the tasks that the content of the backing file holds. A file
    /// without content gives no tasks; content that is not a JSON object of
    /// tasks and booleans is reported as a decoding failure.
    pub fn new(content: &[u8]) -> (opened: Result<TaskManager, StoreError>)
        ensures
            content@.len() == 0 ==> (opened matches Ok(manager) && manager@ == no_tasks()),
            content@.len() > 0 ==> match json_entries_of(content@) {
                Some(tasks) => opened matches Ok(manager) && manager@ == tasks,
                None => opened matches Err(StoreError::SerdeJsonDeserializeError(_)),
            },
    {
        match TaskStore::load(content) {
            Ok(tasks) => Ok(TaskManager { tasks }),
            Err(e) => Err(e),
        }
    }

    /// Schedules the task `key` as still to be done, whether or not it was
    /// scheduled before, and returns the status that it had.
    pub fn insert_task(&mut self, key: &str) -> (previous: Option<bool>)
        ensures
            final(self)@ == after_insert(old(self)@, key@),
            previous == old(self)@.get(key@),
    {
        self.tasks.insert(key)
    }

    /// The tasks as pretty-printed JSON, to replace the content of the
    /// backing file; without any task that is `{}`. The tasks themselves
    /// stay as they are, whatever comes of it.
    pub fn save_task_to_db(&self) -> (written: Result<Vec<u8>, StoreError>)
        ensures
            match json_bytes_of(self@) {
                Some(bytes) => written matches Ok(out) && out@ == bytes,
                None => written matches Err(StoreError::SerdeJsonSerializeError(_)),
            },
            self@ == no_tasks() ==> (written matches Ok(out) && out@ == empty_object()),
    {
        self.tasks.encode()
    }

    /// Deletes the task `task` from the stored form: reads the tasks that
    /// `content` holds, and returns the content that holds all of them but
    /// `task`, which is `{}` where none is left. Content that is no JSON
    /// object of tasks and booleans, an empty file among it, is reported as
    /// a decoding failure.
    pub fn delete_task_from_db(content: &[u8], task: &str) -> (rewritten: Result<
        Vec<u8>,
        StoreError,
    >)
        ensures
            match json_entries_of(content@) {
                Some(tasks) => match json_bytes_of(tasks.remove(task@)) {
                    Some(bytes) => rewritten matches Ok(out) && out@ == bytes,
                    None => rewritten matches Err(StoreError::SerdeJsonSerializeError(_)),
                },
                None => rewritten matches Err(StoreError::SerdeJsonDeserializeError(_)),
            },
            json_entries_of(content@) matches Some(tasks) && tasks.remove(task@) == no_tasks()
                ==> (rewritten matches Ok(out) && out@ == empty_object()),
    {
        match TaskStore::parse(content) {
            Ok(stored) => {
                let mut remaining = stored;
                remaining.remove(task);
                remaining.encode()
            },
            Err(e) => Err(e),
        }
    }

    /// Marks the task `task` as completed and says so. Returns `None`, and
    /// changes nothing, where the task is not scheduled.
    pub fn complete_task(&mut self, task: &str) -> (notice: Option<String>)
        ensures
            final(self)@ == after_complete(old(self)@, task@),
            match notice {
                Some(text) => old(self)@.contains_key(task@) && text@ == completion_notice(task@),
                None => !old(self)@.contains_key(task@),
            },
    {
        match self.tasks.complete(task) {
            Some(_) => {
                let mut text = task.to_owned();
                text.append(" is now complete");
                Some(text)
            },
            None => None,
        }
    }

    /// One row for each task: the task, and `"Incomplete"` or `"Complete"`.
    /// The rows come in no particular order.
    pub fn display_all_tasks(&self) -> (rows: Vec<(String, String)>)
        ensures
            is_listing_of(rows@, self@),
    {
        self.tasks.list()
    }

    /// The number of tasks.
    pub fn len(&self) -> (n: usize)
        ensures
            n == self@.len(),
    {
        self.tasks.len()
    }

    /// The status of the task `key`, if it is scheduled.
    pub fn get(&self, key: &str) -> (status: Option<bool>)
        ensures
            status == self@.get(key@),
    {
        self.tasks.get(key)
    }
}

} // verus!
