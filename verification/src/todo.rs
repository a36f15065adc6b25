//! A to-do list with its listing.

use crate::error::StoreError;
use crate::json::{empty_object, json_bytes_of, json_entries_of};
use crate::model::{after_complete, after_insert, is_listing_of, no_tasks};
use crate::store::TaskStore;
use vstd::prelude::*;

verus! {

/// A to-do list. Its view maps each item to its status: `true` for an item
/// that is still to be done, `false` for a completed one.
#[derive(Debug)]
pub struct Todo {
    store: TaskStore,
}

impl View for Todo {
    type V = Map<Seq<char>, bool>;

    closed spec fn view(&self) -> Map<Seq<char>, bool> {
        self.store@
    }
}

impl Todo {
    /// A list never holds more than finitely many items.
    pub proof fn lemma_finite(self)
        ensures
            self@.dom().finite(),
    {
        self.store.lemma_finite();
    }

    /// Opens the list that the content of the backing file holds. A file
    /// without content gives the empty list; content that is not a JSON
    /// object of items and booleans is reported as a decoding failure.
    pub fn new(content: &[u8]) -> (opened: Result<Todo, StoreError>)
        ensures
            content@.len() == 0 ==> (opened matches Ok(todo) && todo@ == no_tasks()),
            content@.len() > 0 ==> match json_entries_of(content@) {
                Some(tasks) => opened matches Ok(todo) && todo@ == tasks,
                None => opened matches Err(StoreError::SerdeJsonDeserializeError(_)),
            },
    {
        match TaskStore::load(content) {
            Ok(store) => Ok(Todo { store }),
            Err(e) => Err(e),
        }
    }

    /// Puts the item `key` on the list as still to be done, whether or not
    /// the list had it, and returns the status that it had before.
    pub fn insert(&mut self, key: &str) -> (previous: Option<bool>)
        ensures
            final(self)@ == after_insert(old(self)@, key@),
            previous == old(self)@.get(key@),
    {
        self.store.insert(key)
    }

    /// The list as pretty-printed JSON, to replace the content of the
    /// backing file; for the empty list that is `{}`. The list itself
    /// stays as it is, whatever comes of it.
    pub fn save(&self) -> (written: Result<Vec<u8>, StoreError>)
        ensures
            match json_bytes_of(self@) {
                Some(bytes) => written matches Ok(out) && out@ == bytes,
                None => written matches Err(StoreError::SerdeJsonSerializeError(_)),
            },
            self@ == no_tasks() ==> (written matches Ok(out) && out@ == empty_object()),
    {
        self.store.encode()
    }

    /// Marks the item `key` as completed. Returns `None`, and changes
    /// nothing, where the list does not have the item.
    pub fn complete(&mut self, key: &str) -> (done: Option<()>)
        ensures
            final(self)@ == after_complete(old(self)@, key@),
            done is Some <==> old(self)@.contains_key(key@),
    {
        self.store.complete(key)
    }

    /// One row for each item: the item, and `"Incomplete"` or `"Complete"`.
    /// The rows come in no particular order.
    pub fn read(&self) -> (rows: Vec<(String, String)>)
        ensures
            is_listing_of(rows@, self@),
    {
        self.store.list()
    }

    /// The number of items.
    pub fn len(&self) -> (n: usize)
        ensures
            n == self@.len(),
    {
        self.store.len()
    }

    /// The status of the item `key`, if the list has it.
    pub fn get(&self, key: &str) -> (status: Option<bool>)
        ensures
            status == self@.get(key@),
    {
        self.store.get(key)
    }
}

impl Default for Todo {
    /// The empty list.
    fn default() -> (todo: Todo)
        ensures
            todo@ == no_tasks(),
    {
        Todo { store: TaskStore::empty() }
    }
}

impl Clone for Todo {
    /// A list with the same items.
    fn clone(&self) -> (copy: Todo)
        ensures
            copy@ == self@,
    {
        Todo { store: self.store.clone() }
    }
}

} // verus!
