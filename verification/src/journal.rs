//! A journal of entries to work through.

use crate::error::StoreError;
use crate::json::{empty_object, json_bytes_of, json_entries_of};
use crate::model::{after_complete, after_insert, no_tasks};
use crate::store::TaskStore;
use vstd::prelude::*;

verus! {

/// A journal. Its view maps each entry to its status: `true` for an entry
/// that is still open, `false` for a completed one.
#[derive(Debug)]
pub struct Journal {
    store: TaskStore,
}

impl View for Journal {
    type V = Map<Seq<char>, bool>;

    closed spec fn view(&self) -> Map<Seq<char>, bool> {
        self.store@
    }
}

impl Journal {
    /// A journal never holds more than finitely many entries.
    pub proof fn lemma_finite(self)
        ensures
            self@.dom().finite(),
    {
        self.store.lemma_finite();
    }

    /// Opens the journal that the content of the backing file holds. A file
    /// without content gives the empty journal; content that is not a JSON
    /// object of entries and booleans is reported as a decoding failure.
    pub fn new(content: &[u8]) -> (opened: Result<Journal, StoreError>)
        ensures
            content@.len() == 0 ==> (opened matches Ok(journal) && journal@ == no_tasks()),
            content@.len() > 0 ==> match json_entries_of(content@) {
                Some(tasks) => opened matches Ok(journal) && journal@ == tasks,
                None => opened matches Err(StoreError::SerdeJsonDeserializeError(_)),
            },
    {
        match TaskStore::load(content) {
            Ok(store) => Ok(Journal { store }),
            Err(e) => Err(e),
        }
    }

    /// Enters `key` as still open, whether or not the journal had it, and
    /// returns the status that it had before.
    pub fn insert(&mut self, key: &str) -> (previous: Option<bool>)
        ensures
            final(self)@ == after_insert(old(self)@, key@),
            previous == old(self)@.get(key@),
    {
        self.store.insert(key)
    }

    /// The journal as pretty-printed JSON, to replace the content of the
    /// backing file; for the empty journal that is `{}`. The journal itself
    /// stays as it is, whatever comes of it.
    pub fn save(&self) -> (written: Result<Vec<u8>, StoreError>)
        ensures
            match json_bytes_of(self@) {
                Some(bytes) => written matches Ok(out) && out@ == bytes,
                None => written matches Err(StoreError::SerdeJsonSerializeError(_)),
            },
            self@ == no_tasks() ==> (written matches Ok(out) && out@ == empty_object()),
    {
        self.store.encode()
    }

    /// Marks the entry `key` as completed. Returns `None`, and changes
    /// nothing, where the journal does not have the entry.
    pub fn complete(&mut self, key: &str) -> (done: Option<()>)
        ensures
            final(self)@ == after_complete(old(self)@, key@),
            done is Some <==> old(self)@.contains_key(key@),
    {
        self.store.complete(key)
    }

    /// The number of entries.
    pub fn len(&self) -> (n: usize)
        ensures
            n == self@.len(),
    {
        self.store.len()
    }

    /// The status of the entry `key`, if the journal has it.
    pub fn get(&self, key: &str) -> (status: Option<bool>)
        ensures
            status == self@.get(key@),
    {
        self.store.get(key)
    }
}

impl Default for Journal {
    /// The empty journal.
    fn default() -> (journal: Journal)
        ensures
            journal@ == no_tasks(),
    {
        Journal { store: TaskStore::empty() }
    }
}

impl Clone for Journal {
    /// A journal with the same entries.
    fn clone(&self) -> (copy: Journal)
        ensures
            copy@ == self@,
    {
        Journal { store: self.store.clone() }
    }
}

} // verus!
