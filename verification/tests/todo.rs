use scheduler::error::StoreError;
use scheduler::journal::Journal;
use scheduler::todo::Todo;
use std::collections::HashMap;

fn listed(todo: &Todo) -> HashMap<String, String> {
    todo.read().into_iter().collect()
}

fn one_row(label: &str, word: &str) -> HashMap<String, String> {
    let mut rows = HashMap::new();
    rows.insert(label.to_string(), word.to_string());
    rows
}

#[test]
fn test_todo_insert() {
    let mut todo = Todo::new(b"").unwrap();
    assert_eq!(todo.insert("Task 1"), None);
    assert_eq!(todo.len(), 1);
    assert_eq!(todo.insert("Task 1"), Some(true));
    assert_eq!(todo.len(), 1);
}

#[test]
fn test_todo_complete() {
    let mut todo = Todo::new(b"").unwrap();
    todo.insert("Task 1");
    assert_eq!(todo.complete("Task 2"), None);
    assert_eq!(todo.complete("Task 1"), Some(()));
    assert_eq!(todo.get("Task 1"), Some(false));
}

#[test]
fn test_todo_save() {
    let mut todo = Todo::new(b"").unwrap();
    todo.insert("Task 1");
    let saved = todo.save().unwrap();
    let new_todo = Todo::new(&saved).unwrap();
    assert_eq!(new_todo.get("Task 1"), Some(true));
}

#[test]
fn todo_insert_twice_keeps_size_for_any_label() {
    for label in ["a", "", "Buy milk", "caf\u{e9}", "quote\"d", "line\nbreak"] {
        let mut todo = Todo::new(b"{\"other\": false}").unwrap();
        todo.insert(label);
        let size = todo.len();
        assert_eq!(todo.insert(label), Some(true));
        assert_eq!(todo.len(), size);
        assert_eq!(size, 2);
    }
}

#[test]
fn todo_complete_unknown_is_not_found() {
    let mut todo = Todo::new(b"{\"a\": true, \"b\": false}").unwrap();
    assert_eq!(todo.complete("c"), None);
    assert_eq!(todo.len(), 2);
    assert_eq!(todo.get("a"), Some(true));
    assert_eq!(todo.get("b"), Some(false));
    assert_eq!(todo.get("c"), None);
}

#[test]
fn todo_opens_empty_content_as_empty_list() {
    let todo = Todo::new(b"").unwrap();
    assert_eq!(todo.len(), 0);
    assert!(todo.read().is_empty());
    let fresh = Todo::default();
    assert_eq!(fresh.len(), 0);
}

#[test]
fn todo_rejects_corrupt_content() {
    let corrupt: [&[u8]; 8] = [
        b"hello",
        b"{",
        b"{\"a\": tr",
        b" ",
        b"\n",
        b"[true, false]",
        b"{\"a\": \"yes\"}",
        b"{\"a\": true} trailing",
    ];
    for content in corrupt {
        assert!(
            matches!(Todo::new(content), Err(StoreError::SerdeJsonDeserializeError(_))),
            "{:?}",
            content
        );
    }
}

#[test]
fn todo_save_then_open_gives_the_same_list() {
    let labels = [
        "Buy milk",
        "Write report",
        "",
        "with \"quotes\" and \\ backslash",
        "tab\tand\nnewline",
        "\u{1}\u{1f}\u{7f}",
        "gr\u{fc}\u{df}e \u{4e16}\u{754c} \u{1f600}",
    ];
    let mut todo = Todo::new(b"").unwrap();
    for (i, label) in labels.iter().enumerate() {
        todo.insert(label);
        if i % 2 == 1 {
            todo.complete(label);
        }
    }
    let saved = todo.save().unwrap();
    let again = Todo::new(&saved).unwrap();
    assert_eq!(again.len(), labels.len());
    for (i, label) in labels.iter().enumerate() {
        assert_eq!(again.get(label), Some(i % 2 == 0));
    }
}

#[test]
fn todo_save_of_empty_list_is_an_empty_object() {
    let todo = Todo::new(b"").unwrap();
    assert_eq!(todo.save().unwrap(), b"{}".to_vec());
    let todo = Todo::new(b"{}").unwrap();
    assert_eq!(todo.len(), 0);
}

#[test]
fn todo_scenario_buy_milk() {
    let mut todo = Todo::new(b"").unwrap();
    todo.insert("Buy milk");
    assert_eq!(listed(&todo), one_row("Buy milk", "Incomplete"));
    assert_eq!(todo.complete("Buy milk"), Some(()));
    assert_eq!(listed(&todo), one_row("Buy milk", "Complete"));
    let saved = todo.save().unwrap();
    assert_eq!(
        String::from_utf8(saved.clone()).unwrap(),
        "{\n  \"Buy milk\": false\n}"
    );
    let reopened = Todo::new(&saved).unwrap();
    assert_eq!(listed(&reopened), one_row("Buy milk", "Complete"));
}

#[test]
fn todo_scenario_complete_nonexistent() {
    let mut todo = Todo::new(b"").unwrap();
    assert_eq!(todo.complete("Nonexistent"), None);
    assert_eq!(todo.len(), 0);
    assert!(todo.read().is_empty());
    assert_eq!(todo.save().unwrap(), b"{}".to_vec());
}

#[test]
fn todo_reads_the_documented_file_format() {
    let content = b"{\n  \"Buy milk\": true,\n  \"Write report\": false\n}\n";
    let todo = Todo::new(content).unwrap();
    assert_eq!(todo.len(), 2);
    assert_eq!(todo.get("Buy milk"), Some(true));
    assert_eq!(todo.get("Write report"), Some(false));
    let rows = listed(&todo);
    assert_eq!(rows.get("Buy milk"), Some(&"Incomplete".to_string()));
    assert_eq!(rows.get("Write report"), Some(&"Complete".to_string()));
}

#[test]
fn todo_repeated_key_in_content_counts_once() {
    let todo = Todo::new(b"{\"a\": true, \"a\": false}").unwrap();
    assert_eq!(todo.len(), 1);
    assert_eq!(todo.get("a"), Some(false));
}

#[test]
fn journal_insert_complete_and_save() {
    let mut journal = Journal::new(b"").unwrap();
    assert_eq!(journal.insert("entry"), None);
    assert_eq!(journal.insert("entry"), Some(true));
    assert_eq!(journal.complete("other"), None);
    assert_eq!(journal.complete("entry"), Some(()));
    assert_eq!(journal.get("entry"), Some(false));
    assert_eq!(journal.len(), 1);
    let saved = journal.save().unwrap();
    assert_eq!(String::from_utf8(saved.clone()).unwrap(), "{\n  \"entry\": false\n}");
    let reopened = Journal::new(&saved).unwrap();
    assert_eq!(reopened.get("entry"), Some(false));
    assert_eq!(Journal::default().len(), 0);
}

#[test]
fn journal_rejects_corrupt_content() {
    assert!(matches!(
        Journal::new(b"{\"entry\": null}"),
        Err(StoreError::SerdeJsonDeserializeError(_))
    ));
}

#[test]
fn todo_clone_holds_the_same_items_and_goes_its_own_way() {
    let mut todo = Todo::new(b"{\"a\": true, \"b\": false}").unwrap();
    let copy = todo.clone();
    todo.complete("a");
    todo.insert("c");
    assert_eq!(copy.len(), 2);
    assert_eq!(copy.get("a"), Some(true));
    assert_eq!(copy.get("b"), Some(false));
    assert_eq!(copy.get("c"), None);
    assert_eq!(todo.len(), 3);
    let journal = Journal::new(b"{\"a\": true}").unwrap();
    let copy = journal.clone();
    assert_eq!(copy.len(), 1);
    assert_eq!(copy.get("a"), Some(true));
}
