use task_services::service::cli::AppCli;
use task_services::service::config::PostgresConfig;
use task_services::service::errors::{DbFailure, ServerError, TaskServiceError};
use task_services::service::queue::{
    listened_channels, listener_step, ListenerAction, ListenerEvent, TableChange,
};
use task_services::service::requests::CreateTaskRequest;
use task_services::service::tasks::{completion_found, NewTask, Timestamp};
use task_services::telemetry::{get_span_id, get_trace_id, LogLevel, TracingConfig};

fn s(x: &str) -> String {
    x.to_string()
}

fn args(v: &[&str]) -> Vec<String> {
    v.iter().map(|x| x.to_string()).collect()
}

fn status(f: DbFailure) -> u16 {
    ServerError::from(TaskServiceError::from(f)).status_code()
}

#[test]
fn database_failures_are_classified() {
    let dup = TaskServiceError::from(DbFailure::Database { unique_violation: true, message: s("dup") });
    assert!(matches!(dup, TaskServiceError::TaskExist(m) if m == "dup"));
    let other = TaskServiceError::from(DbFailure::Database { unique_violation: false, message: s("bad") });
    assert!(matches!(other, TaskServiceError::OtherError(m) if m == "bad"));
    let none = TaskServiceError::from(DbFailure::RowNotFound { message: s("no rows") });
    assert!(matches!(none, TaskServiceError::TaskNotFound(m) if m == "no rows"));
    let io = TaskServiceError::from(DbFailure::Other { message: s("io") });
    assert!(matches!(io, TaskServiceError::OtherError(m) if m == "io"));
}

#[test]
fn errors_map_to_statuses() {
    assert_eq!(status(DbFailure::Database { unique_violation: true, message: s("") }), 409);
    assert_eq!(status(DbFailure::Database { unique_violation: false, message: s("") }), 500);
    assert_eq!(status(DbFailure::RowNotFound { message: s("") }), 404);
    assert_eq!(status(DbFailure::Other { message: s("") }), 500);
    assert_eq!(ServerError::Deserialize(s("x")).status_code(), 400);
    assert_eq!(ServerError::Validation(s("x")).status_code(), 400);
}

#[test]
fn completing_a_missing_task_is_not_found() {
    assert!(!completion_found(0));
    assert!(completion_found(1));
    assert_eq!(status(DbFailure::RowNotFound { message: s("") }), 404);
}

#[test]
fn description_must_not_be_empty() {
    let bad = CreateTaskRequest { description: s("") }.validate().err().unwrap();
    assert_eq!(bad.field, "description");
    assert_eq!(bad.min, 1);
    assert_eq!(bad.value, "");
    assert!(CreateTaskRequest { description: s("x") }.validate().is_ok());
    assert!(CreateTaskRequest { description: s("é") }.validate().is_ok());
}

#[test]
fn new_task_is_pending_with_a_random_id() {
    let t = NewTask::from_request(CreateTaskRequest { description: s("write docs") });
    assert_eq!(t.description, "write docs");
    assert!(t.completed_at.is_none());
    assert_eq!((t.id >> 76) & 0xf, 4);
    assert_eq!((t.id >> 62) & 0x3, 2);
    assert!(t.created_at.secs > 1_600_000_000);
    assert!(t.created_at.nanos < 1_000_000_000);
    let u = NewTask::from_request(CreateTaskRequest { description: s("write docs") });
    assert_ne!(t.id, u.id);
    let p = NewTask::pending(CreateTaskRequest { description: s("d") }, 7, Timestamp { secs: 10, nanos: 5 });
    assert_eq!(p.id, 7);
    assert_eq!(p.created_at.secs, 10);
    assert_eq!(p.created_at.nanos, 5);
}

#[test]
fn table_changes_go_to_the_stream_of_their_channel() {
    let channels = listened_channels();
    assert_eq!(channels, vec![s("inserts"), s("updates")]);
    let change = TableChange::new("updates", 42u32, "{\"id\":1}");
    assert_eq!(change.payload, 42);
    let a = change.stream_append();
    assert_eq!(a.key, "updates");
    assert_eq!(a.id, "*");
    assert_eq!(a.fields, vec![(s("task"), s("{\"id\":1}"))]);
}

#[test]
fn migrations_path_is_configured() {
    let pg = PostgresConfig {
        host: s("db"),
        port: 5432,
        login: s("u"),
        password: s("p"),
        db: s("tasks"),
        max_connections: 5,
        idle_timeout_sec: 1,
        max_lifetime_sec: 2,
        acquire_time_sec: 3,
        path_migrations: s("./migrations"),
    };
    assert_eq!(pg.get_path_migrations(), "./migrations");
}

#[test]
fn span_ids_without_a_tracer_are_zero() {
    let span = tracing::Span::none();
    assert_eq!(get_span_id(&span), "0000000000000000");
    assert_eq!(get_trace_id(&span), "00000000000000000000000000000000");
}

fn cfg(level: &str) -> TracingConfig {
    TracingConfig { level_otel: s(level), level_stdout: s(level), url: s("http://otel:4317") }
}

#[test]
fn levels_parse_by_name_or_number() {
    assert!(matches!(cfg("info").stdout_filter().ok().unwrap().level, LogLevel::Info));
    assert!(matches!(cfg("WARN").stdout_filter().ok().unwrap().level, LogLevel::Warn));
    assert!(matches!(cfg("1").stdout_filter().ok().unwrap().level, LogLevel::Error));
    assert!(matches!(cfg("+5").otel_filter().ok().unwrap().level, LogLevel::Trace));
    assert!(matches!(cfg("04").otel_filter().ok().unwrap().level, LogLevel::Debug));
    assert!(cfg("0").stdout_filter().is_err());
    assert!(cfg("verbose").otel_filter().is_err());
    assert!(cfg("").otel_filter().is_err());
}

#[test]
fn console_and_collector_filters_differ_on_tower_http() {
    let out = cfg("debug").stdout_filter().ok().unwrap().directives;
    let col = cfg("debug").otel_filter().ok().unwrap().directives;
    assert_eq!(out.len(), 6);
    assert_eq!(out[5], "tower_http=off");
    assert_eq!(col[5], "tower_http=debug");
    assert_eq!(out[..5], col[..5]);
    assert_eq!(out[0], "tower=off");
}

#[test]
fn service_cli_reads_path_and_address() {
    let cli = AppCli::run(&args(&["task_service", "-a", "127.0.0.1:8080", "-p", "s.toml"]))
        .ok()
        .unwrap();
    assert_eq!(cli.path, "s.toml");
    assert_eq!(cli.address, "127.0.0.1:8080");
    assert_eq!(AppCli::run(&args(&["task_service", "-x"])).err().unwrap().exit_code, 2);
}

#[test]
fn new_task_id_text_shows_version_and_variant() {
    let t = NewTask::from_request(CreateTaskRequest { description: s("x") });
    let url = task_services::executor::worker::complete_task_url("", t.id);
    let text: Vec<char> = url.trim_start_matches("/tasks/").chars().collect();
    assert_eq!(text[14], '4');
    assert!(matches!(text[19], '8' | '9' | 'a' | 'b'));
}

#[test]
fn listener_forwards_readable_changes_only() {
    assert!(matches!(listener_step::<u8>(ListenerEvent::Cancelled), ListenerAction::Stop));
    assert!(matches!(listener_step::<u8>(ListenerEvent::RecvFailed), ListenerAction::ReportRecvError));
    let bad = listener_step::<u8>(ListenerEvent::Notified { channel: s("inserts"), payload: s("{"), parsed: None });
    assert!(matches!(bad, ListenerAction::ReportBadPayload));
    let good = listener_step(ListenerEvent::Notified { channel: s("inserts"), payload: s("{}"), parsed: Some(3u8) });
    match good {
        ListenerAction::Forward(change) => {
            assert_eq!(change.channel, "inserts");
            assert_eq!(change.payload, 3);
            assert_eq!(change.payload_for_send, "{}");
        }
        _ => panic!("expected a forwarded change"),
    }
}
