//! The mathematical side of a task collection: the mapping that a list of
//! entries stands for, and what each operation makes of it.
//!
//! A status is a boolean. `true` says that the task is still open, `false`
//! that it has been completed; every operation and the stored form use the
//! booleans in that sense.

use vstd::prelude::*;

verus! {

/// The status of a task that has not been completed yet.
pub const INCOMPLETE: bool = true;

/// The status of a completed task.
pub const COMPLETED: bool = false;

/// The collection without any task.
pub open spec fn no_tasks() -> Map<Seq<char>, bool> {
    Map::empty()
}

/// What a collection holds after `label` has been inserted.
pub open spec fn after_insert(tasks: Map<Seq<char>, bool>, label: Seq<char>) -> Map<
    Seq<char>,
    bool,
> {
    tasks.insert(label, INCOMPLETE)
}

/// What a collection holds after `label` has been completed: the task is
/// marked where the collection has it, and nothing changes where it has not.
pub open spec fn after_complete(tasks: Map<Seq<char>, bool>, label: Seq<char>) -> Map<
    Seq<char>,
    bool,
> {
    if tasks.contains_key(label) {
        tasks.insert(label, COMPLETED)
    } else {
        tasks
    }
}

/// The word under which a status is shown.
pub open spec fn status_text(status: bool) -> Seq<char> {
    if status == INCOMPLETE {
        "Incomplete"@
    } else {
        "Complete"@
    }
}

/// Row `k` of a listing is the row of `label`.
pub open spec fn row_of(rows: Seq<(String, String)>, label: Seq<char>, k: int) -> bool {
    0 <= k < rows.len() && rows[k].0@ == label
}

/// The rows show the tasks of the collection: as many rows as tasks, each
/// task in exactly one row, beside the word for its status, and no row for
/// anything else.
pub open spec fn is_listing_of(rows: Seq<(String, String)>, tasks: Map<Seq<char>, bool>) -> bool {
    &&& rows.len() == tasks.len()
    &&& forall|k: int|
        0 <= k < rows.len() ==> tasks.contains_key((#[trigger] rows[k]).0@) && rows[k].1@
            == status_text(tasks[rows[k].0@])
    &&& forall|j: int, k: int| 0 <= j < k < rows.len() ==> rows[j].0@ != rows[k].0@
    &&& forall|label: Seq<char>| tasks.contains_key(label) ==> exists|k: int| row_of(rows, label, k)
}

/// The mapping that a list of entries stands for. Where a label occurs more
/// than once, the entry nearest the end of the list counts.
pub open spec fn entries_map(entries: Seq<(String, bool)>) -> Map<Seq<char>, bool>
    decreases entries.len(),
{
    if entries.len() == 0 {
        no_tasks()
    } else {
        entries_map(entries.drop_last()).insert(entries.last().0@, entries.last().1)
    }
}

/// No two entries of the list carry the same label.
pub open spec fn labels_distinct(entries: Seq<(String, bool)>) -> bool {
    forall|i: int, j: int| 0 <= i < j < entries.len() ==> entries[i].0@ != entries[j].0@
}

/// The position of `label` in the list, if it occurs.
pub open spec fn occurs_at(entries: Seq<(String, bool)>, label: Seq<char>, i: int) -> bool {
    0 <= i < entries.len() && entries[i].0@ == label
}

/// The mapping of a list holds exactly the labels of the list.
pub proof fn lemma_entries_map_domain(entries: Seq<(String, bool)>)
    ensures
        entries_map(entries).dom().finite(),
        forall|label: Seq<char>|
            entries_map(entries).contains_key(label) <==> exists|i: int|
                occurs_at(entries, label, i),
    decreases entries.len(),
{
    if entries.len() > 0 {
        let front = entries.drop_last();
        lemma_entries_map_domain(front);
        assert forall|label: Seq<char>|
            entries_map(entries).contains_key(label) <==> exists|i: int|
                occurs_at(entries, label, i) by {
            if entries_map(entries).contains_key(label) {
                if label == entries.last().0@ {
                    assert(occurs_at(entries, label, entries.len() - 1));
                } else {
                    let i = choose|i: int| occurs_at(front, label, i);
                    assert(occurs_at(entries, label, i));
                }
            }
            if exists|i: int| occurs_at(entries, label, i) {
                let i = choose|i: int| occurs_at(entries, label, i);
                if i < entries.len() - 1 {
                    assert(occurs_at(front, label, i));
                }
            }
        }
    }
}

/// In a list of distinct labels, the mapping gives each label the status that
/// stands beside it, and has as many keys as the list has entries.
pub proof fn lemma_entries_map_distinct(entries: Seq<(String, bool)>)
    requires
        labels_distinct(entries),
    ensures
        entries_map(entries).len() == entries.len(),
        forall|i: int|
            0 <= i < entries.len() ==> entries_map(entries).contains_key(#[trigger] entries[i].0@)
                && entries_map(entries)[entries[i].0@] == entries[i].1,
    decreases entries.len(),
{
    if entries.len() > 0 {
        let front = entries.drop_last();
        let last = entries.last();
        lemma_entries_map_distinct(front);
        lemma_entries_map_domain(front);
        assert(!entries_map(front).contains_key(last.0@)) by {
            if entries_map(front).contains_key(last.0@) {
                let i = choose|i: int| occurs_at(front, last.0@, i);
                assert(entries[i].0@ == entries[entries.len() - 1].0@);
            }
        }
        assert forall|i: int| 0 <= i < entries.len() implies entries_map(entries).contains_key(
            #[trigger] entries[i].0@,
        ) && entries_map(entries)[entries[i].0@] == entries[i].1 by {
            if i < entries.len() - 1 {
                assert(front[i] == entries[i]);
            }
        }
    }
}

/// Adding an entry at the end of a list adds it to the mapping; where its
/// label is new, the labels stay distinct.
pub proof fn lemma_entries_map_push(entries: Seq<(String, bool)>, entry: (String, bool))
    ensures
        entries_map(entries.push(entry)) == entries_map(entries).insert(entry.0@, entry.1),
        labels_distinct(entries) && !entries_map(entries).contains_key(entry.0@)
            ==> labels_distinct(entries.push(entry)),
{
    let longer = entries.push(entry);
    assert(longer.drop_last() =~= entries);
    if labels_distinct(entries) && !entries_map(entries).contains_key(entry.0@) {
        lemma_entries_map_domain(entries);
        assert forall|a: int, b: int| 0 <= a < b < longer.len() implies longer[a].0@
            != longer[b].0@ by {
            if b == entries.len() && longer[a].0@ == entry.0@ {
                assert(occurs_at(entries, entry.0@, a));
            }
        }
    }
}

/// Changing the status at one position of a list of distinct labels changes
/// the mapping at that label and nowhere else.
pub proof fn lemma_entries_map_update(entries: Seq<(String, bool)>, i: int, entry: (String, bool))
    requires
        labels_distinct(entries),
        0 <= i < entries.len(),
        entry.0@ == entries[i].0@,
    ensures
        labels_distinct(entries.update(i, entry)),
        entries_map(entries.update(i, entry)) == entries_map(entries).insert(entry.0@, entry.1),
{
    let changed = entries.update(i, entry);
    let before = entries_map(entries);
    let after = entries_map(changed);
    assert(labels_distinct(changed)) by {
        assert forall|a: int, b: int| 0 <= a < b < changed.len() implies changed[a].0@
            != changed[b].0@ by {
            assert(changed[a].0@ == entries[a].0@ && changed[b].0@ == entries[b].0@);
        }
    }
    lemma_entries_map_domain(entries);
    lemma_entries_map_domain(changed);
    lemma_entries_map_distinct(entries);
    lemma_entries_map_distinct(changed);
    assert forall|label: Seq<char>| after.contains_key(label) <==> before.contains_key(
        label,
    ) by {
        if after.contains_key(label) {
            let k = choose|k: int| occurs_at(changed, label, k);
            assert(occurs_at(entries, label, k));
        }
        if before.contains_key(label) {
            let k = choose|k: int| occurs_at(entries, label, k);
            assert(occurs_at(changed, label, k));
        }
    }
    assert forall|label: Seq<char>| after.contains_key(label) implies after[label]
        == before.insert(entry.0@, entry.1)[label] by {
        let k = choose|k: int| occurs_at(changed, label, k);
        assert(after[changed[k].0@] == changed[k].1);
        if k != i {
            assert(before[entries[k].0@] == entries[k].1);
        }
    }
}

/// Taking one entry out of a list of distinct labels takes its label out of
/// the mapping and leaves the rest as it was.
pub proof fn lemma_entries_map_remove(entries: Seq<(String, bool)>, i: int)
    requires
        labels_distinct(entries),
        0 <= i < entries.len(),
    ensures
        labels_distinct(entries.remove(i)),
        entries_map(entries.remove(i)) == entries_map(entries).remove(entries[i].0@),
{
    let shorter = entries.remove(i);
    let before = entries_map(entries);
    let after = entries_map(shorter);
    let gone = entries[i].0@;
    // Entry `k` of the shorter list is entry `from(k)` of the longer one.
    let from = |k: int| if k < i { k } else { k + 1 };
    assert(labels_distinct(shorter)) by {
        assert forall|a: int, b: int| 0 <= a < b < shorter.len() implies shorter[a].0@
            != shorter[b].0@ by {
            assert(shorter[a] == entries[from(a)] && shorter[b] == entries[from(b)]);
        }
    }
    lemma_entries_map_domain(entries);
    lemma_entries_map_domain(shorter);
    lemma_entries_map_distinct(entries);
    lemma_entries_map_distinct(shorter);
    assert forall|label: Seq<char>| after.contains_key(label) <==> before.contains_key(label)
        && label != gone by {
        if after.contains_key(label) {
            let k = choose|k: int| occurs_at(shorter, label, k);
            assert(occurs_at(entries, label, from(k)));
        }
        if before.contains_key(label) && label != gone {
            let k = choose|k: int| occurs_at(entries, label, k);
            assert(occurs_at(shorter, label, if k < i { k } else { k - 1 }));
        }
    }
    assert forall|label: Seq<char>| after.contains_key(label) implies after[label]
        == before[label] by {
        let k = choose|k: int| occurs_at(shorter, label, k);
        assert(after[shorter[k].0@] == shorter[k].1);
        assert(before[entries[from(k)].0@] == entries[from(k)].1);
    }
}

} // verus!
