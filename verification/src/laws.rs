//! What holds of the operations taken together.

use crate::model::{after_complete, after_insert, INCOMPLETE};
use vstd::prelude::*;

verus! {

/// Inserting the same label twice in a row: the second insertion finds the
/// status that the first one set, which is what it reports as the previous
/// status, and it leaves the collection, and so the number of its tasks, as
/// the first one left it.
pub proof fn lemma_insert_twice(tasks: Map<Seq<char>, bool>, label: Seq<char>)
    ensures
        after_insert(tasks, label).get(label) == Some(INCOMPLETE),
        after_insert(after_insert(tasks, label), label) == after_insert(tasks, label),
        after_insert(after_insert(tasks, label), label).len() == after_insert(tasks, label).len(),
{
}

/// Completing a label that the collection does not hold leaves the
/// collection, and so the number of its tasks, as it was.
pub proof fn lemma_complete_unknown(tasks: Map<Seq<char>, bool>, label: Seq<char>)
    requires
        !tasks.contains_key(label),
    ensures
        after_complete(tasks, label) == tasks,
        after_complete(tasks, label).len() == tasks.len(),
{
}

} // verus!
