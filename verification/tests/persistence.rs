use task_with_me::error::AppError;
use task_with_me::model::{AppTheme, Config, ExecutionLog, Task};
use task_with_me::persist::{delete_task, load_config, load_logs, load_tasks, save_task, upsert_task};

fn task(id: u128, title: &str) -> Task {
    Task {
        id,
        title: title.to_string(),
        command: "true".to_string(),
        interval_seconds: 60,
        is_active: false,
        last_run: None,
        next_run: None,
        created_at: 0,
        success_count: 0,
        failure_count: 0,
        last_output: String::new(),
    }
}

fn malformed() -> serde_json::Error {
    serde_json::from_str::<serde_json::Value>("[{\"id\": ").unwrap_err()
}

fn titles(tasks: &[Task]) -> Vec<&str> {
    tasks.iter().map(|t| t.title.as_str()).collect()
}

#[test]
fn an_absent_task_document_holds_no_tasks() {
    let tasks = load_tasks(None).expect("no error");
    assert!(tasks.is_empty());
}

#[test]
fn a_malformed_task_document_is_a_serialization_error() {
    let text = malformed().to_string();
    match load_tasks(Some(Err(malformed()))) {
        Err(AppError::Serialization(message)) => assert_eq!(message, text),
        other => panic!("unexpected result: {:?}", other),
    }
}

#[test]
fn a_task_document_yields_its_tasks() {
    let tasks = load_tasks(Some(Ok(vec![task(1, "a"), task(2, "b")]))).unwrap();
    assert_eq!(titles(&tasks), vec!["a", "b"]);
}

#[test]
fn logs_load_like_tasks() {
    assert!(load_logs(None).unwrap().is_empty());
    assert!(matches!(load_logs(Some(Err(malformed()))), Err(AppError::Serialization(_))));
    let entry = ExecutionLog {
        id: 1,
        task_id: 2,
        timestamp: 3,
        success: false,
        output: "x".to_string(),
        duration_ms: 4,
    };
    let logs = load_logs(Some(Ok(vec![entry]))).unwrap();
    assert_eq!(logs.len(), 1);
    assert_eq!(logs[0].output, "x");
}

#[test]
fn an_absent_settings_document_gives_the_defaults_to_write() {
    let (config, write) = load_config(None).unwrap();
    assert!(write);
    assert_eq!(config.refresh_interval, 5);
    assert_eq!(config.max_logs, 500);
    assert_eq!(config.theme, AppTheme::Dark);
    assert!(config.log_to_file);
}

#[test]
fn a_settings_document_is_taken_as_it_is() {
    let stored = Config { refresh_interval: 9, max_logs: 12, theme: AppTheme::Light, log_to_file: false };
    let (config, write) = load_config(Some(Ok(stored))).unwrap();
    assert!(!write);
    assert_eq!(config.refresh_interval, 9);
    assert_eq!(config.max_logs, 12);
    assert_eq!(config.theme, AppTheme::Light);
    assert!(matches!(load_config(Some(Err(malformed()))), Err(AppError::Serialization(_))));
}

#[test]
fn save_appends_a_new_task() {
    let document = save_task(Some(Ok(vec![task(1, "a")])), task(2, "b")).unwrap();
    assert_eq!(titles(&document), vec!["a", "b"]);
    let document = save_task(None, task(3, "c")).unwrap();
    assert_eq!(titles(&document), vec!["c"]);
    let document = save_task(Some(Ok(vec![])), task(4, "d")).unwrap();
    assert_eq!(titles(&document), vec!["d"]);
}

#[test]
fn save_replaces_the_task_with_the_same_id() {
    let document = save_task(
        Some(Ok(vec![task(1, "a"), task(2, "b"), task(3, "c")])),
        task(2, "B"),
    )
    .unwrap();
    assert_eq!(titles(&document), vec!["a", "B", "c"]);
}

#[test]
fn save_fails_on_a_malformed_document() {
    let text = malformed().to_string();
    match save_task(Some(Err(malformed())), task(1, "a")) {
        Err(AppError::Serialization(message)) => assert_eq!(message, text),
        other => panic!("unexpected result: {:?}", other),
    }
}

#[test]
fn upsert_replaces_the_first_of_two_twins() {
    let mut tasks = vec![task(1, "a"), task(1, "b")];
    upsert_task(&mut tasks, task(1, "c"));
    assert_eq!(titles(&tasks), vec!["c", "b"]);
    upsert_task(&mut tasks, task(1, "c"));
    assert_eq!(titles(&tasks), vec!["c", "b"]);
}

#[test]
fn delete_drops_the_task_from_the_document() {
    let rest = delete_task(Some(Ok(vec![task(1, "a"), task(2, "b"), task(1, "c")])), 1)
        .unwrap()
        .expect("a document to write");
    assert_eq!(titles(&rest), vec!["b"]);
    let rest = delete_task(Some(Ok(vec![task(1, "a")])), 5).unwrap().unwrap();
    assert_eq!(titles(&rest), vec!["a"]);
}

#[test]
fn delete_writes_nothing_without_a_document() {
    assert!(delete_task(None, 1).unwrap().is_none());
}

#[test]
fn delete_fails_on_a_malformed_document() {
    assert!(matches!(delete_task(Some(Err(malformed())), 1), Err(AppError::Serialization(_))));
}
