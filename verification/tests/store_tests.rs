use task_scheduler::domain::{Execution, ExecutionStatus, Task, TaskType};
use task_scheduler::errors::AppError;
use task_scheduler::store::Store;

fn payload_example() -> String {
    let mut m = serde_json::Map::new();
    m.insert(
        "target_url".to_string(),
        serde_json::Value::String("https://example.com".to_string()),
    );
    m.insert("retries".to_string(), serde_json::Value::from(3));
    serde_json::Value::Object(m).to_string()
}

#[test]
fn test_create_and_get_task() {
    let mut store = Store::new();

    let payload = payload_example();
    let trigger_at = chrono::Utc::now().timestamp();

    let new_task = Task::new_once("test_task".to_string(), trigger_at, payload.clone());
    let id = new_task.id;

    store.create_task(new_task).expect("insert failed");

    let fetched_task = store.get_task(id);
    assert!(fetched_task.is_some());
    let fetched_task = fetched_task.unwrap();

    assert_eq!(fetched_task.id, id);
    assert_eq!(fetched_task.name, "test_task");
    assert_eq!(fetched_task.task_type, TaskType::Once);
    assert_eq!(fetched_task.trigger_at, trigger_at, "Timestamps should match closely");
    assert_eq!(fetched_task.payload, payload);

    let deleted_count = store.delete_task(id, trigger_at + 1);
    assert_eq!(deleted_count, 1);

    let deleted_task = store.get_task(id);
    assert!(deleted_task.is_some(), "Soft deleted task should still be retrievable");

    let deleted_task = deleted_task.unwrap();
    assert!(deleted_task.deleted_at.is_some(), "Deleted task should have deleted_at set");
}

#[test]
fn test_get_next_pending_task_logic() {
    let mut store = Store::new();

    let now = chrono::Utc::now().timestamp();
    let future_time = now + 3600;
    let past_time_old = now - 7200;
    let past_time_recent = now - 3600;

    let future_task = Task::new_once("future".to_string(), future_time, "{}".to_string());
    let future_id = future_task.id;
    store.create_task(future_task).unwrap();

    // A future-only store still yields its earliest task; the dispatcher
    // sleeps until its trigger rather than idling.
    let pending = store.get_next_pending_task();
    assert!(pending.is_some());
    assert_eq!(pending.unwrap().id, future_id);

    let past_recent = Task::new_once("past_recent".to_string(), past_time_recent, "{}".to_string());
    store.create_task(past_recent).unwrap();

    let past_old = Task::new_once("past_old".to_string(), past_time_old, "{}".to_string());
    let past_old_id = past_old.id;
    store.create_task(past_old).unwrap();

    let pending = store.get_next_pending_task();
    assert!(pending.is_some());
    let pending = pending.unwrap();

    assert_eq!(pending.id, past_old_id, "Should pick the oldest pending task first");
}

#[test]
fn test_interval_persistence() {
    let mut store = Store::new();

    let mut m = serde_json::Map::new();
    m.insert("type".to_string(), serde_json::Value::String("heartbeat".to_string()));
    let payload = serde_json::Value::Object(m).to_string();

    let task = Task::new_interval(
        "recur_task".to_string(),
        chrono::Utc::now().timestamp(),
        60,
        payload,
    );
    let id = task.id;

    store.create_task(task).unwrap();

    let fetched = store.get_task(id).unwrap();

    assert_eq!(fetched.task_type, TaskType::Interval);
    assert_eq!(fetched.interval_seconds, Some(60));
}

#[test]
fn test_duplicate_id_is_refused() {
    let mut store = Store::new();

    let first = Task {
        id: 7,
        name: "a".to_string(),
        task_type: TaskType::Once,
        trigger_at: 1_000,
        interval_seconds: None,
        payload: "{}".to_string(),
        deleted_at: None,
    };
    let second = Task {
        id: 7,
        name: "b".to_string(),
        task_type: TaskType::Once,
        trigger_at: 2_000,
        interval_seconds: None,
        payload: "{}".to_string(),
        deleted_at: None,
    };

    assert!(store.create_task(first).is_ok());
    let err = store.create_task(second).unwrap_err();
    assert!(matches!(err, AppError::Database(_)));
    assert_eq!(err.status_code(), 500);

    // The first row is untouched.
    assert_eq!(store.get_task(7).unwrap().name, "a");
}

#[test]
fn test_next_pending_ties_go_to_first_inserted() {
    let mut store = Store::new();

    let a = Task::new_once("first".to_string(), 500, "{}".to_string());
    let a_id = a.id;
    store.create_task(a).unwrap();
    let b = Task::new_once("second".to_string(), 500, "{}".to_string());
    store.create_task(b).unwrap();

    let pending = store.get_next_pending_task().unwrap();
    assert_eq!(pending.id, a_id);
}

#[test]
fn test_next_pending_skips_retired_tasks() {
    let mut store = Store::new();

    let early = Task::new_once("early".to_string(), 100, "{}".to_string());
    let early_id = early.id;
    store.create_task(early).unwrap();
    let late = Task::new_once("late".to_string(), 200, "{}".to_string());
    let late_id = late.id;
    store.create_task(late).unwrap();

    assert_eq!(store.delete_task(early_id, 150), 1);

    let pending = store.get_next_pending_task().unwrap();
    assert_eq!(pending.id, late_id);

    assert_eq!(store.delete_task(late_id, 250), 1);
    assert!(store.get_next_pending_task().is_none());
}

#[test]
fn test_delete_task_affects_one_row_once() {
    let mut store = Store::new();

    let task = Task::new_once("gone".to_string(), 100, "{}".to_string());
    let id = task.id;
    store.create_task(task).unwrap();

    assert_eq!(store.delete_task(id, 120), 1);
    // Repeated deletes are harmless and affect nothing.
    assert_eq!(store.delete_task(id, 130), 0);
    assert_eq!(store.get_task(id).unwrap().deleted_at, Some(120));

    // An unknown identifier affects nothing.
    assert_eq!(store.delete_task(id.wrapping_add(1), 120), 0);
}

#[test]
fn test_update_trigger_overwrites() {
    let mut store = Store::new();

    let task = Task::new_interval("recur".to_string(), 100, 60, "{}".to_string());
    let id = task.id;
    store.create_task(task).unwrap();

    assert_eq!(store.update_trigger(id, 900), 1);
    assert_eq!(store.get_task(id).unwrap().trigger_at, 900);

    assert_eq!(store.update_trigger(id.wrapping_add(1), 900), 0);
}

#[test]
fn test_get_all_tasks_newest_first() {
    let mut store = Store::new();

    let a = Task::new_once("a".to_string(), 100, "{}".to_string());
    let a_id = a.id;
    store.create_task(a).unwrap();
    let b = Task::new_once("b".to_string(), 200, "{}".to_string());
    let b_id = b.id;
    store.create_task(b).unwrap();
    store.delete_task(b_id, 300);

    let all = store.get_all_tasks();
    assert_eq!(all.len(), 2);
    // Newest first, retired tasks included.
    assert_eq!(all[0].id, b_id);
    assert_eq!(all[0].deleted_at, Some(300));
    assert_eq!(all[1].id, a_id);
}

#[test]
fn test_execution_record_references_task() {
    let mut store = Store::new();
    let task = Task::new_once("host".to_string(), 100, "{}".to_string());
    let id = task.id;
    store.create_task(task).unwrap();

    let exec = Execution::new(id, "{\"status\":200}".to_string(), ExecutionStatus::Success);
    store.insert_execution(exec);

    let execs = store.executions();
    assert_eq!(execs.len(), 1);
    assert_eq!(execs[0].task_id, id);
    assert_eq!(execs[0].output, "{\"status\":200}");
    assert!(matches!(execs[0].status, ExecutionStatus::Success));
}
