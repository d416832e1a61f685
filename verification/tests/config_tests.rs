use task_scheduler::config::{parse_u16, Config};
use task_scheduler::domain::Task;
use task_scheduler::dto::summarize_tasks;
use task_scheduler::errors::AppError;

#[test]
fn test_parse_u16_accepts_decimal_numbers() {
    assert_eq!(parse_u16("8080"), Some(8080));
    assert_eq!(parse_u16("0"), Some(0));
    assert_eq!(parse_u16("007"), Some(7));
    assert_eq!(parse_u16("+80"), Some(80));
    assert_eq!(parse_u16("65535"), Some(65535));
}

#[test]
fn test_parse_u16_rejects_everything_else() {
    assert_eq!(parse_u16(""), None);
    assert_eq!(parse_u16("+"), None);
    assert_eq!(parse_u16("-1"), None);
    assert_eq!(parse_u16("12a"), None);
    assert_eq!(parse_u16("port"), None);
    assert_eq!(parse_u16("65536"), None);
    assert_eq!(parse_u16("999999999999999999999"), None);
    assert_eq!(parse_u16(" 80"), None);
}

#[test]
fn test_config_resolve_applies_defaults() {
    let config = Config::resolve(None, None, None).unwrap();
    assert_eq!(config.db_url, "sqlite:./scheduler.db");
    assert_eq!(config.server_port, 8080);
    assert_eq!(config.rust_log, "info");
}

#[test]
fn test_config_resolve_takes_given_values() {
    let config = Config::resolve(
        Some("sqlite:./elsewhere.db".to_string()),
        Some("3000".to_string()),
        Some("debug".to_string()),
    )
    .unwrap();
    assert_eq!(config.db_url, "sqlite:./elsewhere.db");
    assert_eq!(config.server_port, 3000);
    assert_eq!(config.rust_log, "debug");
}

#[test]
fn test_config_resolve_rejects_bad_port() {
    let err = Config::resolve(None, Some("eight".to_string()), None).unwrap_err();
    assert!(matches!(err, AppError::Config(_)));
    assert_eq!(err.status_code(), 500);
    assert_eq!(err.message(), "SERVER_PORT 'eight' is not a valid port number");

    let err = Config::resolve(None, Some("70000".to_string()), None).unwrap_err();
    assert_eq!(err.message(), "SERVER_PORT '70000' is not a valid port number");
}

#[test]
fn test_error_surface_mapping() {
    assert_eq!(AppError::Database("disk gone".to_string()).status_code(), 500);
    assert_eq!(AppError::Database("disk gone".to_string()).message(), "Internal Server Error");
    assert_eq!(AppError::NotFound.status_code(), 404);
    assert_eq!(AppError::NotFound.message(), "Resource Not Found");
    assert_eq!(AppError::ValidationError("bad".to_string()).status_code(), 400);
    assert_eq!(AppError::ValidationError("bad".to_string()).message(), "bad");
    assert_eq!(AppError::Config("boom".to_string()).status_code(), 500);
    assert_eq!(AppError::Config("boom".to_string()).message(), "boom");
}

#[test]
fn test_summarize_tasks_flags_retired_rows() {
    let live = Task::new_once("up".to_string(), 100, "{}".to_string());
    let live_id = live.id;
    let mut gone = Task::new_once("down".to_string(), 200, "{}".to_string());
    gone.deleted_at = Some(250);
    let gone_id = gone.id;

    let summaries = summarize_tasks(&vec![live, gone]);
    assert_eq!(summaries.len(), 2);
    assert_eq!(summaries[0].id, live_id);
    assert_eq!(summaries[0].status, "active");
    assert_eq!(summaries[0].deleted_at, None);
    assert_eq!(summaries[1].id, gone_id);
    assert_eq!(summaries[1].name, "down");
    assert_eq!(summaries[1].status, "deleted");
    assert_eq!(summaries[1].deleted_at, Some(250));
}
