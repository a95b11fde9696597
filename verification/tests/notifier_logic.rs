use task_services::notifier::cli::AppCli;
use task_services::notifier::models::{LastTasks, LastTasksRedis, TypeNotification};
use task_services::notifier::notifications::{
    last_tasks_from_parse, recover_last_tasks, JsonCategory, Notification,
};
use task_services::notifier::redis_stream::{
    live_read, read_unprocessed_notifications, send_notifications, stream_key,
};
use task_services::stream::StreamReply;

fn s(x: &str) -> String {
    x.to_string()
}

fn args(v: &[&str]) -> Vec<String> {
    v.iter().map(|x| x.to_string()).collect()
}

#[test]
fn last_tasks_keep_both_positions() {
    let t = LastTasks::new(s("5-0"), s("6-0"));
    assert_eq!(t.completed, "5-0");
    assert_eq!(t.non_completed, "6-0");
    let d = LastTasks::default();
    assert!(d.completed.is_empty() && d.non_completed.is_empty());
}

#[test]
fn positions_read_back_what_was_written() {
    let mut live = LastTasksRedis::from(LastTasks::new(s("1-0"), s("2-0")));
    assert_eq!(live.get_completed(), "1-0");
    assert_eq!(live.get_non_compeleted(), "2-0");
    live.update_completed(s("3-0"));
    assert_eq!(live.get_completed(), "3-0");
    assert_eq!(live.get_non_compeleted(), "2-0");
    live.update_non_completed(s("4-0"));
    assert_eq!(live.get(&TypeNotification::NonCompleted), "4-0");
    assert_eq!(live.get(&TypeNotification::Completed), "3-0");
    let saved = live.snapshot();
    assert_eq!(saved.completed, "3-0");
    assert_eq!(saved.non_completed, "4-0");
}

#[test]
fn each_kind_reads_its_own_stream() {
    assert_eq!(stream_key(&TypeNotification::Completed), "updates");
    assert_eq!(stream_key(&TypeNotification::NonCompleted), "inserts");
    let q = live_read(&TypeNotification::Completed);
    assert_eq!(q.key, "updates");
    assert_eq!(q.id, "$");
    assert_eq!(q.count, 1);
    assert_eq!(q.block, Some(0));
}

#[test]
fn backlog_read_only_for_a_kept_position() {
    let live = LastTasksRedis::from(LastTasks::new(s(""), s("8-2")));
    assert!(read_unprocessed_notifications(&live, &TypeNotification::Completed).is_none());
    let q = read_unprocessed_notifications(&live, &TypeNotification::NonCompleted).unwrap();
    assert_eq!(q.key, "inserts");
    assert_eq!(q.id, "8-2");
    assert_eq!(q.count, 2147483647);
    assert_eq!(q.block, None);
}

#[test]
fn notifications_move_only_their_kind() {
    let mut live = LastTasksRedis::from(LastTasks::new(s("1-0"), s("2-0")));
    let reply: StreamReply<&str> = vec![(
        s("updates"),
        vec![(s("5-0"), vec![(s("task"), "t1")]), (s("6-0"), vec![(s("task"), "t2")])],
    )];
    let tasks = send_notifications(&mut live, reply, &TypeNotification::Completed);
    assert_eq!(tasks, vec!["t1", "t2"]);
    assert_eq!(live.get_completed(), "6-0");
    assert_eq!(live.get_non_compeleted(), "2-0");
}

#[test]
fn empty_notification_is_no_content() {
    assert_eq!(Notification::<u8>::new(vec![]).status_code(), 204);
    assert_eq!(Notification::new(vec![1u8]).status_code(), 200);
}

#[test]
fn empty_positions_file_means_nothing_read() {
    let r = recover_last_tasks(Err(JsonCategory::Eof)).ok().unwrap();
    assert!(r.completed.is_empty() && r.non_completed.is_empty());
    assert!(matches!(recover_last_tasks(Err(JsonCategory::Syntax)), Err(JsonCategory::Syntax)));
    let kept = recover_last_tasks(Ok(LastTasks::new(s("a"), s("b")))).ok().unwrap();
    assert_eq!(kept.completed, "a");
}

#[test]
fn positions_file_parse_errors() {
    let eof = serde_json::from_str::<serde_json::Value>("").unwrap_err();
    let r = last_tasks_from_parse(Err(eof)).ok().unwrap();
    assert!(r.non_completed.is_empty());
    let syntax = serde_json::from_str::<serde_json::Value>("x").unwrap_err();
    assert!(last_tasks_from_parse(Err(syntax)).is_err());
}

#[test]
fn notifier_cli_reads_path_and_address() {
    let cli = AppCli::run(&args(&["task_notifier", "-p", "n.toml", "-a", "0.0.0.0:8081"]))
        .ok()
        .unwrap();
    assert_eq!(cli.path, "n.toml");
    assert_eq!(cli.address, "0.0.0.0:8081");
    let err = AppCli::run(&args(&["task_notifier", "-p", "n.toml"])).err().unwrap();
    assert_eq!(err.exit_code, 2);
    assert!(err.message.contains("-a <ADDRESS>"));
}

#[test]
fn first_run_reads_no_backlog() {
    let eof = serde_json::from_str::<serde_json::Value>("").unwrap_err();
    let saved = last_tasks_from_parse(Err(eof)).ok().unwrap();
    let live = LastTasksRedis::from(saved);
    assert!(read_unprocessed_notifications(&live, &TypeNotification::Completed).is_none());
    assert!(read_unprocessed_notifications(&live, &TypeNotification::NonCompleted).is_none());
}

#[test]
fn resuming_without_reads_saves_the_same_positions() {
    let live = LastTasksRedis::from(LastTasks::new(s("3-1"), s("4-2")));
    let saved = live.snapshot();
    assert_eq!(saved.completed, "3-1");
    assert_eq!(saved.non_completed, "4-2");
}
