//! The task collection: every label once, each with its status.
//!
//! The entries are kept in a list and found by going through it. vstd
//! specifies `HashMap` only for key types that are known to obey its model
//! of a key, and `String` is not among them; with a list, every operation is
//! proved against the mapping that the list stands for.

use crate::error::StoreError;
use crate::json::{
    empty_object, json_bytes_of, json_entries_of, parse_entries, render_entries,
};
use crate::model::{
    after_complete, after_insert, entries_map, is_listing_of, labels_distinct,
    lemma_entries_map_distinct, lemma_entries_map_domain, lemma_entries_map_push,
    lemma_entries_map_remove, lemma_entries_map_update, no_tasks, occurs_at, row_of, status_text,
    COMPLETED, INCOMPLETE,
};
use crate::text::same_text;
use vstd::prelude::*;

verus! {

/// A collection of tasks. Its view is the mapping from each label to the
/// status of the task.
#[derive(Debug)]
pub struct TaskStore {
    entries: Vec<(String, bool)>,
}

impl View for TaskStore {
    type V = Map<Seq<char>, bool>;

    closed spec fn view(&self) -> Map<Seq<char>, bool> {
        entries_map(self.entries@)
    }
}

impl TaskStore {
    #[verifier::type_invariant]
    spec fn well_formed(self) -> bool {
        labels_distinct(self.entries@)
    }

    /// A collection never holds more than finitely many tasks.
    pub proof fn lemma_finite(self)
        ensures
            self@.dom().finite(),
    {
        lemma_entries_map_domain(self.entries@);
    }

    /// The collection without any task.
    pub fn empty() -> (store: Self)
        ensures
            store@ == no_tasks(),
    {
        TaskStore { entries: Vec::new() }
    }

    /// Where the entry of `label` stands, if the collection has one.
    fn position(&self, label: &str) -> (at: Option<usize>)
        ensures
            match at {
                Some(i) => occurs_at(self.entries@, label@, i as int),
                None => !self@.contains_key(label@),
            },
    {
        let n: usize = self.entries.len();
        let mut i: usize = 0;
        while i < n
            invariant
                n == self.entries@.len(),
                i <= n,
                forall|k: int| 0 <= k < i ==> self.entries@[k].0@ != label@,
            decreases n - i,
        {
            if same_text(self.entries[i].0.as_str(), label) {
                return Some(i);
            }
            i += 1;
        }
        proof {
            lemma_entries_map_domain(self.entries@);
        }
        None
    }

    /// The number of tasks.
    pub fn len(&self) -> (n: usize)
        ensures
            n == self@.len(),
    {
        proof {
            use_type_invariant(self);
            lemma_entries_map_distinct(self.entries@);
        }
        self.entries.len()
    }

    /// The status of the task `label`, if the collection has it.
    pub fn get(&self, label: &str) -> (status: Option<bool>)
        ensures
            status == self@.get(label@),
    {
        proof {
            use_type_invariant(self);
            lemma_entries_map_distinct(self.entries@);
        }
        match self.position(label) {
            Some(i) => Some(self.entries[i].1),
            None => None,
        }
    }

    /// Sets the status of the entry at position `at` and returns the status
    /// that stood there.
    fn overwrite(&mut self, at: usize, status: bool) -> (before: bool)
        requires
            at < old(self).entries@.len(),
        ensures
            final(self)@ == old(self)@.insert(old(self).entries@[at as int].0@, status),
            old(self)@.get(old(self).entries@[at as int].0@) == Some(before),
    {
        proof {
            use_type_invariant(&*self);
            lemma_entries_map_distinct(self.entries@);
        }
        let mut entries: Vec<(String, bool)> = Vec::new();
        std::mem::swap(&mut entries, &mut self.entries);
        let ghost unchanged = entries@;
        let before = entries[at].1;
        entries[at].1 = status;
        proof {
            let entry = (unchanged[at as int].0, status);
            lemma_entries_map_update(unchanged, at as int, entry);
        }
        self.entries = entries;
        before
    }

    /// Gives the task `label` the status `status`, adding the task where the
    /// collection did not have it, and returns the status it had before.
    pub fn put(&mut self, label: String, status: bool) -> (previous: Option<bool>)
        ensures
            final(self)@ == old(self)@.insert(label@, status),
            previous == old(self)@.get(label@),
    {
        proof {
            use_type_invariant(&*self);
        }
        match self.position(label.as_str()) {
            Some(at) => Some(self.overwrite(at, status)),
            None => {
                let mut entries: Vec<(String, bool)> = Vec::new();
                std::mem::swap(&mut entries, &mut self.entries);
                let entry = (label, status);
                proof {
                    lemma_entries_map_push(entries@, entry);
                }
                entries.push(entry);
                self.entries = entries;
                None
            },
        }
    }

    /// Records the task `label` as not completed, whether or not the
    /// collection had it, and returns the status it had before.
    pub fn insert(&mut self, label: &str) -> (previous: Option<bool>)
        ensures
            final(self)@ == after_insert(old(self)@, label@),
            previous == old(self)@.get(label@),
    {
        self.put(label.to_owned(), INCOMPLETE)
    }

    /// Marks the task `label` as completed. Returns `None`, and changes
    /// nothing, where the collection does not have the task.
    pub fn complete(&mut self, label: &str) -> (done: Option<()>)
        ensures
            final(self)@ == after_complete(old(self)@, label@),
            done is Some <==> old(self)@.contains_key(label@),
    {
        match self.position(label) {
            Some(at) => {
                self.overwrite(at, COMPLETED);
                Some(())
            },
            None => None,
        }
    }

    /// Takes the task `label` out of the collection and returns the status it
    /// had. Changes nothing where the collection does not have the task.
    pub fn remove(&mut self, label: &str) -> (removed: Option<bool>)
        ensures
            final(self)@ == old(self)@.remove(label@),
            removed == old(self)@.get(label@),
    {
        proof {
            use_type_invariant(&*self);
            lemma_entries_map_distinct(self.entries@);
        }
        match self.position(label) {
            Some(at) => {
                let mut entries: Vec<(String, bool)> = Vec::new();
                std::mem::swap(&mut entries, &mut self.entries);
                proof {
                    lemma_entries_map_remove(entries@, at as int);
                }
                let entry = entries.remove(at);
                self.entries = entries;
                Some(entry.1)
            },
            None => None,
        }
    }

    /// One row for each task: its label, and its status in words. The rows
    /// come in no particular order.
    pub fn list(&self) -> (rows: Vec<(String, String)>)
        ensures
            is_listing_of(rows@, self@),
    {
        proof {
            use_type_invariant(self);
            lemma_entries_map_distinct(self.entries@);
            lemma_entries_map_domain(self.entries@);
        }
        let n: usize = self.entries.len();
        let mut rows: Vec<(String, String)> = Vec::new();
        let mut i: usize = 0;
        while i < n
            invariant
                n == self.entries@.len(),
                i <= n,
                rows@.len() == i,
                forall|k: int|
                    0 <= k < i ==> (#[trigger] rows@[k]).0@ == self.entries@[k].0@ && rows@[k].1@
                        == status_text(self.entries@[k].1),
            decreases n - i,
        {
            let word = if self.entries[i].1 {
                "Incomplete".to_owned()
            } else {
                "Complete".to_owned()
            };
            rows.push((self.entries[i].0.clone(), word));
            i += 1;
        }
        proof {
            assert forall|label: Seq<char>| self@.contains_key(label) implies exists|k: int|
                row_of(rows@, label, k) by {
                let k = choose|k: int| occurs_at(self.entries@, label, k);
                assert(row_of(rows@, label, k));
            }
        }
        rows
    }

    /// The collection that a list of entries stands for. Where a label occurs
    /// more than once, the entry nearest the end of the list counts.
    pub fn from_entries(entries: Vec<(String, bool)>) -> (store: Self)
        ensures
            store@ == entries_map(entries@),
    {
        let mut store = TaskStore::empty();
        let ghost all = entries@;
        for entry in it: entries
            invariant
                it.seq() == all,
                store@ == entries_map(all.take(it.index() as int)),
        {
            proof {
                let done = it.index() as int;
                assert(all.take(done + 1).drop_last() =~= all.take(done));
            }
            store.put(entry.0, entry.1);
        }
        proof {
            assert(all.take(all.len() as int) =~= all);
        }
        store
    }

    /// Turns what the JSON reader made of some stored content into a
    /// collection, or into the failure to report.
    pub fn from_parsed(parsed: Result<Vec<(String, bool)>, serde_json::Error>) -> (loaded: Result<
        Self,
        StoreError,
    >)
        ensures
            match parsed {
                Ok(entries) => loaded matches Ok(store) && store@ == entries_map(entries@),
                Err(cause) => loaded matches Err(StoreError::SerdeJsonDeserializeError(e)) && e
                    == cause,
            },
    {
        match parsed {
            Ok(entries) => Ok(TaskStore::from_entries(entries)),
            Err(cause) => Err(StoreError::SerdeJsonDeserializeError(cause)),
        }
    }

    /// Reads a collection from stored content, which has to be a JSON object
    /// of labels and booleans.
    pub fn parse(content: &[u8]) -> (loaded: Result<Self, StoreError>)
        ensures
            match json_entries_of(content@) {
                Some(tasks) => loaded matches Ok(store) && store@ == tasks,
                None => loaded matches Err(StoreError::SerdeJsonDeserializeError(_)),
            },
    {
        TaskStore::from_parsed(parse_entries(content))
    }

    /// Reads a collection from the content of its backing file. A file
    /// without any content is a new one and gives the empty collection;
    /// any other content has to be a JSON object of labels and booleans.
    pub fn load(content: &[u8]) -> (loaded: Result<Self, StoreError>)
        ensures
            content@.len() == 0 ==> (loaded matches Ok(store) && store@ == no_tasks()),
            content@.len() > 0 ==> match json_entries_of(content@) {
                Some(tasks) => loaded matches Ok(store) && store@ == tasks,
                None => loaded matches Err(StoreError::SerdeJsonDeserializeError(_)),
            },
    {
        if content.len() == 0 {
            Ok(TaskStore::empty())
        } else {
            TaskStore::parse(content)
        }
    }

    /// The collection as pretty-printed JSON, ready to replace the content of
    /// the backing file; for the collection without any task that is `{}`.
    pub fn encode(&self) -> (written: Result<Vec<u8>, StoreError>)
        ensures
            match json_bytes_of(self@) {
                Some(bytes) => written matches Ok(out) && out@ == bytes,
                None => written matches Err(StoreError::SerdeJsonSerializeError(_)),
            },
            self@ == no_tasks() ==> (written matches Ok(out) && out@ == empty_object()),
    {
        proof {
            use_type_invariant(self);
            lemma_entries_map_distinct(self.entries@);
        }
        StoreError::from_rendered(render_entries(&self.entries))
    }
}

impl Clone for TaskStore {
    /// A collection with the same tasks.
    fn clone(&self) -> (copy: TaskStore)
        ensures
            copy@ == self@,
    {
        proof {
            use_type_invariant(self);
        }
        let n: usize = self.entries.len();
        let mut entries: Vec<(String, bool)> = Vec::new();
        let mut i: usize = 0;
        while i < n
            invariant
                n == self.entries@.len(),
                i <= n,
                entries@.len() == i,
                forall|k: int| 0 <= k < i ==> entries@[k] == self.entries@[k],
            decreases n - i,
        {
            entries.push((self.entries[i].0.clone(), self.entries[i].1));
            i += 1;
        }
        assert(entries@ =~= self.entries@);
        TaskStore { entries }
    }
}

} // verus!
