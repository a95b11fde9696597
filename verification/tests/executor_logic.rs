use task_services::executor::cli::AppCli;
use task_services::executor::config::{
    AppConfig, ExecutorConfig, LastTaskManagerConfig, RedisConfig,
};
use task_services::executor::receiver::ReceiverState;
use task_services::executor::worker::{complete_task_url, worker_ids};
use task_services::stream::StreamReply;
use task_services::telemetry::TracingConfig;

fn s(x: &str) -> String {
    x.to_string()
}

fn args(v: &[&str]) -> Vec<String> {
    v.iter().map(|x| x.to_string()).collect()
}

#[test]
fn fresh_receiver_has_no_backlog() {
    let state = ReceiverState::new(String::new());
    assert_eq!(state.get_last_task_id(), None);
    assert!(state.unprocessed_read().is_none());
    assert_eq!(state.stop(), "");
}

#[test]
fn saved_id_is_where_the_backlog_read_starts() {
    let state = ReceiverState::new(s("1700000000000-3"));
    assert_eq!(state.get_last_task_id(), Some(s("1700000000000-3")));
    let q = state.unprocessed_read().unwrap();
    assert_eq!(q.key, "inserts");
    assert_eq!(q.id, "1700000000000-3");
    assert_eq!(q.count, 2147483647);
    assert_eq!(q.block, None);
}

#[test]
fn live_read_blocks_for_one_new_entry() {
    let q = ReceiverState::live_read();
    assert_eq!(q.key, "inserts");
    assert_eq!(q.id, "$");
    assert_eq!(q.count, 1);
    assert_eq!(q.block, Some(0));
}

#[test]
fn send_hands_on_tasks_and_stop_returns_last_id() {
    let mut state = ReceiverState::new(s("1-0"));
    let reply: StreamReply<u32> = vec![(
        s("inserts"),
        vec![(s("2-0"), vec![(s("task"), 10)]), (s("3-0"), vec![(s("task"), 20)])],
    )];
    let tasks = state.send(reply);
    assert_eq!(tasks, vec![10, 20]);
    let next = state.unprocessed_read().unwrap();
    assert_eq!(next.id, "3-0");
    assert_eq!(state.stop(), "3-0");
}

#[test]
fn empty_reply_leaves_the_cursor() {
    let mut state = ReceiverState::new(s("4-0"));
    let tasks = state.send::<u32>(vec![]);
    assert!(tasks.is_empty());
    assert_eq!(state.stop(), "4-0");
}

#[test]
fn workers_are_numbered_from_one() {
    assert_eq!(worker_ids(3), vec![1, 2, 3]);
    assert!(worker_ids(0).is_empty());
}

#[test]
fn completion_url_holds_hyphenated_task_id() {
    let id = 0x67e5_5044_10b1_426f_9247_bb68_0e5f_e0c8u128;
    assert_eq!(
        complete_task_url("http://localhost:3000", id),
        "http://localhost:3000/tasks/67e55044-10b1-426f-9247-bb680e5fe0c8/complete"
    );
    assert_eq!(
        complete_task_url("", 0),
        "/tasks/00000000-0000-0000-0000-000000000000/complete"
    );
}

#[test]
fn executor_cli_reads_the_config_path() {
    let cli = AppCli::run(&args(&["task_executor", "-p", "config.toml"])).ok().unwrap();
    assert_eq!(cli.path, "config.toml");
    let attached = AppCli::run(&args(&["task_executor", "-pconf.toml"])).ok().unwrap();
    assert_eq!(attached.path, "conf.toml");
}

#[test]
fn executor_cli_refuses_a_missing_path() {
    let err = AppCli::run(&args(&["task_executor"])).err().unwrap();
    assert_eq!(err.exit_code, 2);
    assert!(err.message.contains("-p <PATH>"));
    let empty = AppCli::run(&args(&["task_executor", "-p", ""])).err().unwrap();
    assert_eq!(empty.exit_code, 2);
    let help = AppCli::run(&args(&["task_executor", "--help"])).err().unwrap();
    assert_eq!(help.exit_code, 0);
}

#[test]
fn executor_size_is_the_configured_worker_count() {
    let cfg = AppConfig {
        last_task_manager: LastTaskManagerConfig { path: s("last.txt") },
        redis: RedisConfig { host: s("localhost"), port: 6379, password: s("pw"), db: 0 },
        executor: ExecutorConfig { num_workers: 8, url: s("http://svc") },
        tracing: TracingConfig { level_otel: s("info"), level_stdout: s("debug"), url: s("http://otel") },
    };
    assert_eq!(cfg.get_executor_size(), 8);
}

#[test]
fn cursor_after_several_sends_is_last_entry_seen() {
    let mut state = ReceiverState::new(s("5-0"));
    let first: StreamReply<u32> = vec![(s("inserts"), vec![(s("6-0"), vec![(s("task"), 1)])])];
    let empty: StreamReply<u32> = vec![(s("inserts"), vec![])];
    let second: StreamReply<u32> = vec![(s("inserts"), vec![(s("7-0"), vec![]), (s("8-0"), vec![(s("task"), 2)])])];
    state.send(first);
    state.send(empty);
    state.send(second);
    state.send::<u32>(vec![]);
    assert_eq!(state.stop(), "8-0");
    assert_eq!(ReceiverState::new(s("5-0")).stop(), "5-0");
}

#[test]
fn saved_id_is_read_without_surrounding_space() {
    assert_eq!(task_services::stream::saved_record("  1700-0\n"), "1700-0");
    assert_eq!(task_services::stream::saved_record("\n"), "");
}

#[test]
fn redis_connection_always_carries_the_password() {
    let cfg = RedisConfig { host: s("redis"), port: 6380, password: s(""), db: 2 };
    let c = cfg.to_connect_info();
    assert_eq!(c.host, "redis");
    assert_eq!(c.port, 6380);
    assert_eq!(c.db, 2);
    assert!(c.username.is_none());
    assert_eq!(c.password, Some(s("")));
}
