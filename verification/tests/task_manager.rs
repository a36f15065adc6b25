use scheduler::error::StoreError;
use scheduler::task_manager::TaskManager;
use std::collections::HashMap;

fn rows_of(tm: &TaskManager) -> HashMap<String, String> {
    tm.display_all_tasks().into_iter().collect()
}

#[test]
fn test_task_manager_insert_task() {
    // Ensure that inserting a task into a `TaskManager` works as expected.
    let mut tm = TaskManager::new(b"").unwrap();
    let task_name = "task1";
    tm.insert_task(task_name);
    assert_eq!(tm.get(task_name), Some(true));
}

#[test]
fn test_task_manager_save_task_to_db() {
    // Ensure that saving a `TaskManager` gives content that holds its tasks.
    let mut tm = TaskManager::new(b"").unwrap();
    tm.insert_task("task1");
    let saved = tm.save_task_to_db();
    assert!(saved.is_ok());
    let tasks: HashMap<String, bool> = serde_json::from_slice(&saved.unwrap()).unwrap();
    assert_eq!(tasks.get("task1"), Some(&true));
}

#[test]
fn test_task_manager_delete_task_from_db() {
    // Ensure that deleting a task from the stored content works as expected.
    let mut tm = TaskManager::new(b"").unwrap();
    tm.insert_task("task1");
    let saved = tm.save_task_to_db();
    assert!(saved.is_ok());
    let rewritten = TaskManager::delete_task_from_db(&saved.unwrap(), "task1").unwrap();
    let tasks: HashMap<String, bool> = serde_json::from_slice(&rewritten).unwrap();
    assert_eq!(tasks.get("task1"), None);
}

#[test]
fn test_task_manager_complete_task() {
    // Ensure that marking a task as `complete` works as expected.
    let mut tm = TaskManager::new(b"").unwrap();
    tm.insert_task("task1");
    tm.complete_task("task1");
    assert_eq!(tm.get("task1"), Some(false));
}

#[test]
fn test_task_manager_display_all_tasks() {
    // Ensure that displaying all tasks works as expected.
    let mut tm = TaskManager::new(b"").unwrap();
    tm.insert_task("task1");
    tm.insert_task("task2");
    let tasks = rows_of(&tm);
    assert_eq!(
        tasks.get(&"task1".to_string()),
        Some(&"Incomplete".to_string())
    );
    assert_eq!(
        tasks.get(&"task2".to_string()),
        Some(&"Incomplete".to_string())
    );
}

#[test]
fn task_manager_insert_reports_previous_status() {
    let mut tm = TaskManager::new(b"").unwrap();
    assert_eq!(tm.insert_task("task1"), None);
    assert_eq!(tm.insert_task("task1"), Some(true));
    tm.complete_task("task1");
    assert_eq!(tm.insert_task("task1"), Some(false));
    assert_eq!(tm.get("task1"), Some(true));
    assert_eq!(tm.len(), 1);
}

#[test]
fn task_manager_complete_task_gives_notice() {
    let mut tm = TaskManager::new(b"").unwrap();
    tm.insert_task("write report");
    assert_eq!(
        tm.complete_task("write report"),
        Some("write report is now complete".to_string())
    );
    assert_eq!(tm.complete_task("missing"), None);
    assert_eq!(tm.len(), 1);
    assert_eq!(tm.get("missing"), None);
}

#[test]
fn task_manager_display_shows_completed_tasks() {
    let mut tm = TaskManager::new(b"{\"a\": true, \"b\": false}").unwrap();
    let rows = tm.display_all_tasks();
    assert_eq!(rows.len(), 2);
    let tasks = rows_of(&tm);
    assert_eq!(tasks.get("a"), Some(&"Incomplete".to_string()));
    assert_eq!(tasks.get("b"), Some(&"Complete".to_string()));
    tm.complete_task("a");
    let tasks = rows_of(&tm);
    assert_eq!(tasks.get("a"), Some(&"Complete".to_string()));
}

#[test]
fn task_manager_save_writes_pretty_json_in_key_order() {
    let mut tm = TaskManager::new(b"").unwrap();
    assert_eq!(tm.save_task_to_db().unwrap(), b"{}".to_vec());
    tm.insert_task("Write report");
    tm.insert_task("Buy milk");
    tm.complete_task("Write report");
    let text = String::from_utf8(tm.save_task_to_db().unwrap()).unwrap();
    assert_eq!(text, "{\n  \"Buy milk\": true,\n  \"Write report\": false\n}");
    // Saving leaves the tasks as they are.
    assert_eq!(tm.len(), 2);
    assert_eq!(tm.get("Buy milk"), Some(true));
}

#[test]
fn task_manager_delete_keeps_the_other_tasks() {
    let content = b"{\"a\": true, \"b\": false, \"c\": true}";
    let rewritten = TaskManager::delete_task_from_db(content, "b").unwrap();
    let text = String::from_utf8(rewritten).unwrap();
    assert_eq!(text, "{\n  \"a\": true,\n  \"c\": true\n}");
    let same = TaskManager::delete_task_from_db(content, "zzz").unwrap();
    let tm = TaskManager::new(&same).unwrap();
    assert_eq!(tm.len(), 3);
    assert_eq!(tm.get("b"), Some(false));
}

#[test]
fn task_manager_delete_rejects_content_without_tasks() {
    assert!(matches!(
        TaskManager::delete_task_from_db(b"", "a"),
        Err(StoreError::SerdeJsonDeserializeError(_))
    ));
    assert!(matches!(
        TaskManager::delete_task_from_db(b"[1, 2]", "a"),
        Err(StoreError::SerdeJsonDeserializeError(_))
    ));
}

#[test]
fn task_manager_new_rejects_corrupt_content() {
    assert!(matches!(
        TaskManager::new(b"not json"),
        Err(StoreError::SerdeJsonDeserializeError(_))
    ));
    assert!(matches!(
        TaskManager::new(b"{\"a\": 1}"),
        Err(StoreError::SerdeJsonDeserializeError(_))
    ));
}

#[test]
fn task_manager_delete_of_the_last_task_leaves_an_empty_object() {
    let rewritten = TaskManager::delete_task_from_db(b"{\"only\": false}", "only").unwrap();
    assert_eq!(rewritten, b"{}".to_vec());
    assert_eq!(TaskManager::new(&rewritten).unwrap().len(), 0);
}
