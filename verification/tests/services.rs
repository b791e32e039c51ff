use shelx::application::ports::TransportError;
use shelx::text::str_contains;
use shelx::application::json_tree::{merge_objects, JsonMember, JsonTree};
use shelx::application::monitoring::{
    session_gone, probe_outcome, check_probe, cpu_delta, mem_used, monitor_interval, net_delta, ring_capacity, swap_used,
    MonitorError, SampleRing,
};
use shelx::application::prompt::{auth_answers, hostkey_verdict, PromptAnswer, PromptBook, PromptError};
use shelx::application::sftp::{DeleteStep, DeleteWalk, StepOutcome};
use shelx::application::settings::{
    check_layout, check_patch, validate_settings, ConnectionSettings, MonitorSettings, TerminalColorScheme,
    TerminalSettings, TransferSettings, MAX_LAYOUT_BYTES,
};
use shelx::application::terminals::{ensure_dimension, TerminalBook, TerminalError};
use shelx::application::transfers::engine::engine_limits;
use shelx::application::update::{
    auto_check_enabled, CheckOutcome, UpdateCheckError, UpdateNotice, UpdateState, CHECK_INTERVAL_SECS,
    RETRY_INTERVAL_SECS,
};

#[test]
fn terminal_sizes() {
    assert!(ensure_dimension(80, 24).is_ok());
    assert!(ensure_dimension(1000, 1000).is_ok());
    match ensure_dimension(0, 24) {
        Err(TerminalError::InvalidArgument(m)) => assert_eq!(m, "终端尺寸非法: 0x24"),
        other => panic!("unexpected {other:?}"),
    }
    assert!(matches!(ensure_dimension(80, 1001), Err(TerminalError::InvalidArgument(_))));
}

#[test]
fn monitor_interval_and_ring() {
    assert_eq!(monitor_interval(1), 2);
    assert_eq!(monitor_interval(5), 5);
    assert_eq!(monitor_interval(600), 60);
    assert_eq!(ring_capacity(5), 720);
    let mut ring = SampleRing::new(2);
    ring.push(1);
    ring.push(2);
    ring.push(3);
    assert_eq!(ring.items(), &vec![2, 3]);
}

#[test]
fn raw_reading_differences() {
    let old = [100, 0, 50, 800, 50, 0, 0, 0];
    let cur = [150, 0, 70, 880, 50, 0, 0, 0];
    assert_eq!(cpu_delta(&cur, &old), (70, 150));
    assert_eq!(cpu_delta(&old, &old), (0, 0));
    assert_eq!(mem_used(Some(1000), Some(400), None, None, None), 600);
    assert_eq!(mem_used(Some(1000), None, Some(100), Some(50), Some(50)), 800);
    assert_eq!(mem_used(None, Some(10), None, None, None), 0);
    assert_eq!(swap_used(Some(100), Some(30)), 70);
    assert_eq!(swap_used(Some(100), None), 0);
    assert_eq!(net_delta(&vec![(100, 50), (10, 5)], &vec![(40, 20), (20, 1)]), Some((60, 34)));
    assert_eq!(net_delta(&vec![(1, 1)], &vec![]), None);
    assert!(check_probe("ok\n").is_ok());
    assert!(matches!(check_probe("no"), Err(MonitorError::Unsupported)));
}

fn notice() -> UpdateNotice {
    UpdateNotice {
        current_version: "0.1.0".into(),
        version: "0.2.0".into(),
        notes: Some("- fixes".into()),
        checked_at_ms: 1,
    }
}

#[test]
fn update_rounds() {
    let mut state = UpdateState::new();
    assert!(state.last_notice().is_none());
    let (delay, announce) = state.after_check(CheckOutcome::Found(notice()));
    assert_eq!(delay, CHECK_INTERVAL_SECS);
    assert_eq!(announce.unwrap().version, "0.2.0");
    assert_eq!(state.last_notice().unwrap().version, "0.2.0");
    let (delay, announce) = state.after_check(CheckOutcome::Failed(UpdateCheckError("offline".into())));
    assert_eq!(delay, RETRY_INTERVAL_SECS);
    assert!(announce.is_none());
    assert_eq!(state.last_notice().unwrap().version, "0.2.0");
    assert_eq!(state.after_check(CheckOutcome::UpToDate).0, CHECK_INTERVAL_SECS);
    assert_eq!(state.skipped(), CHECK_INTERVAL_SECS);
    assert!(auto_check_enabled(None));
    assert!(!auto_check_enabled(Some(false)));
}

#[test]
fn prompt_requests_answered_once() {
    let mut book = PromptBook::new();
    let id = book.register();
    assert_eq!(book.respond(&id), Ok(()));
    assert_eq!(book.respond(&id), Err(PromptError::UnknownRequest));
    let id2 = book.register();
    book.forget(&id2);
    assert_eq!(book.respond(&id2), Err(PromptError::UnknownRequest));
    assert_eq!(auth_answers(PromptAnswer::Auth(vec!["123".into()])), Ok(vec!["123".to_string()]));
    assert_eq!(auth_answers(PromptAnswer::Hostkey(true)), Err(PromptError::UnknownRequest));
    assert_eq!(hostkey_verdict(PromptAnswer::Hostkey(false)), Ok(false));
    assert_eq!(PromptError::Timeout.message(), "等待用户输入超时");
}

#[test]
fn delete_walk_order() {
    let mut walk = DeleteWalk::new(&vec!["/a".to_string(), "/b".to_string()]);
    let step = walk.next_step().unwrap();
    assert!(matches!(step, DeleteStep::Visit(ref p) if p == "/a"));
    walk.expand("/a", &vec!["x".to_string(), "y".to_string()]);
    assert!(matches!(walk.next_step().unwrap(), DeleteStep::Visit(ref p) if p == "/a/x"));
    walk.fail("/a/x", "denied".to_string());
    assert!(matches!(walk.next_step().unwrap(), DeleteStep::Visit(ref p) if p == "/a/y"));
    assert!(matches!(walk.next_step().unwrap(), DeleteStep::RemoveDir(ref p) if p == "/a"));
    assert!(matches!(walk.next_step().unwrap(), DeleteStep::Visit(ref p) if p == "/b"));
    assert!(walk.next_step().is_none());
    let failures = walk.failures();
    assert_eq!(failures.len(), 1);
    assert_eq!((failures[0].path.as_str(), failures[0].message.as_str()), ("/a/x", "denied"));
}

fn limits() -> shelx::application::settings::SettingsLimits {
    shelx::application::settings::SettingsLimits {
        font_size: 13,
        scrollback: 5000,
        keepalive_interval_secs: 30,
        max_concurrent_tasks: 2,
        chunk_size_kib: 32,
        monitor_interval_secs: 5,
    }
}

fn invalid_message(r: Result<(), shelx::application::settings::SettingsError>) -> String {
    match r {
        Err(shelx::application::settings::SettingsError::Invalid(m)) => m,
        other => panic!("unexpected {other:?}"),
    }
}

#[test]
fn settings_ranges_are_checked_in_order() {
    assert!(validate_settings(&limits(), true).is_ok());
    assert_eq!(invalid_message(validate_settings(&limits(), false)), "行距必须在 1.0–2.0 之间");
    let bad = shelx::application::settings::SettingsLimits { font_size: 40, scrollback: 10, ..limits() };
    assert_eq!(invalid_message(validate_settings(&bad, true)), "字号必须在 8–32 之间");
    let bad = shelx::application::settings::SettingsLimits { scrollback: 100_001, ..limits() };
    assert_eq!(invalid_message(validate_settings(&bad, true)), "回滚缓冲必须在 100–100000 行之间");
    let bad = shelx::application::settings::SettingsLimits { keepalive_interval_secs: 601, ..limits() };
    assert_eq!(invalid_message(validate_settings(&bad, true)), "keepalive 间隔不能超过 600 秒");
    let bad = shelx::application::settings::SettingsLimits { max_concurrent_tasks: 9, ..limits() };
    assert_eq!(invalid_message(validate_settings(&bad, true)), "并发任务数必须在 1–8 之间");
    let bad = shelx::application::settings::SettingsLimits { chunk_size_kib: 2, ..limits() };
    assert_eq!(invalid_message(validate_settings(&bad, true)), "分块大小必须在 4–1024 KiB 之间");
    let bad = shelx::application::settings::SettingsLimits { monitor_interval_secs: 1, ..limits() };
    assert_eq!(invalid_message(validate_settings(&bad, true)), "采样间隔必须在 2–60 秒之间");
    assert!(check_patch(true).is_ok());
    assert_eq!(invalid_message(check_patch(false)), "设置补丁必须是对象");
    assert!(check_layout(true, MAX_LAYOUT_BYTES).is_ok());
    assert_eq!(invalid_message(check_layout(false, 2)), "布局必须是对象");
    assert_eq!(invalid_message(check_layout(true, MAX_LAYOUT_BYTES + 1)), "布局数据过大");
}

#[test]
fn engine_limits_have_floors() {
    assert_eq!(engine_limits(0, 1), (1, 4096));
    assert_eq!(engine_limits(3, 32), (3, 32768));
}

#[test]
fn update_error_text() {
    assert_eq!(UpdateCheckError("timeout".into()).message(), "更新检查失败:timeout");
}

fn leaf(text: &str) -> JsonTree {
    JsonTree::Other(text.to_string())
}

fn obj(members: Vec<(&str, JsonTree)>) -> JsonTree {
    JsonTree::Object(members.into_iter().map(|(k, v)| JsonMember { key: k.to_string(), value: v }).collect())
}

#[test]
fn settings_patch_merges_objects_member_by_member() {
    let base = obj(vec![("a", obj(vec![("x", leaf("1")), ("y", leaf("2"))])), ("b", leaf("\"s\""))]);
    let patch = obj(vec![("a", obj(vec![("y", leaf("3")), ("z", leaf("4"))])), ("c", leaf("true"))]);
    let want = obj(vec![
        ("a", obj(vec![("x", leaf("1")), ("y", leaf("3")), ("z", leaf("4"))])),
        ("b", leaf("\"s\"")),
        ("c", leaf("true")),
    ]);
    assert_eq!(merge_objects(base, patch), want);
}

#[test]
fn settings_patch_replaces_what_is_not_an_object() {
    assert_eq!(merge_objects(leaf("1"), obj(vec![("a", leaf("2"))])), obj(vec![("a", leaf("2"))]));
    assert_eq!(merge_objects(obj(vec![("a", leaf("2"))]), leaf("null")), leaf("null"));
    let base = obj(vec![("a", obj(vec![("x", leaf("1"))]))]);
    assert_eq!(merge_objects(base, obj(vec![("a", leaf("5"))])), obj(vec![("a", leaf("5"))]));
    assert_eq!(merge_objects(obj(vec![("k", leaf("1"))]), obj(vec![])), obj(vec![("k", leaf("1"))]));
}

#[test]
fn sampling_stops_only_when_the_session_is_gone() {
    assert!(session_gone(&TransportError::Network("会话已断开".to_string())));
    assert!(session_gone(&TransportError::Network("exec 失败: 会话已断开(eof)".to_string())));
    assert!(!session_gone(&TransportError::Network("超时".to_string())));
    assert!(!session_gone(&TransportError::Prompt("会话已断开".to_string())));
}

#[test]
fn text_search() {
    assert!(str_contains("abcabd", "abd"));
    assert!(str_contains("abc", ""));
    assert!(!str_contains("ab", "abc"));
    assert!(!str_contains("abcab", "abd"));
}

#[test]
fn returns_defaults_when_never_saved() {
    let terminal = TerminalSettings::default();
    assert_eq!(terminal.scrollback, 5000);
    assert_eq!(terminal.color_scheme, TerminalColorScheme::GithubLight);
    assert_eq!(ConnectionSettings::default().keepalive_interval_secs, 30);
    assert_eq!(TransferSettings::default().max_concurrent_tasks, 2);
    assert_eq!(MonitorSettings::default().default_interval_secs, 5);
}

#[test]
fn terminal_book_lifecycle() {
    let mut book = TerminalBook::new();
    let id = book.mint(80, 24).expect("a valid size gets an identity");
    assert_eq!(id.len(), 36);
    assert!(matches!(book.route_write(&id, 7), Err(TerminalError::NotFound)));
    book.register(id.clone());
    assert_eq!(book.route_write(&id, 7).unwrap(), true);
    assert!(book.route_resize(&id, 120, 40).is_ok());
    assert!(book.close(&id));
    assert!(!book.close(&id));
    assert!(matches!(book.route_write(&id, 1), Err(TerminalError::NotFound)));
    assert!(matches!(book.route_resize(&id, 120, 40), Err(TerminalError::NotFound)));
}

#[test]
fn terminal_book_routes_terminals_independently() {
    let mut book = TerminalBook::new();
    let first = book.mint(80, 24).unwrap();
    let second = book.mint(100, 30).unwrap();
    assert_ne!(first, second);
    book.register(first.clone());
    book.register(second.clone());
    assert!(book.close(&first));
    assert!(matches!(book.route_write(&first, 3), Err(TerminalError::NotFound)));
    assert_eq!(book.route_write(&second, 3).unwrap(), true);
}

#[test]
fn terminal_book_refuses_bad_sizes_and_unknown_terminals() {
    let book = TerminalBook::new();
    assert!(matches!(book.mint(0, 24), Err(TerminalError::InvalidArgument(m)) if m == "终端尺寸非法: 0x24"));
    assert!(matches!(book.route_write("ghost", 1), Err(TerminalError::NotFound)));
    assert!(matches!(book.route_resize("ghost", 2000, 10), Err(TerminalError::InvalidArgument(m)) if m == "终端尺寸非法: 2000x10"));
    assert!(matches!(book.route_resize("ghost", 20, 10), Err(TerminalError::NotFound)));
    assert_eq!(book.route_write("ghost", 0).unwrap(), false);
}

#[test]
fn delete_walk_records_every_outcome() {
    let mut walk = DeleteWalk::new(&vec!["/d".to_string(), "/f".to_string()]);
    assert!(matches!(walk.next_step().unwrap(), DeleteStep::Visit(ref p) if p == "/d"));
    walk.record("/d", StepOutcome::Listed(vec!["k".to_string()]));
    assert!(matches!(walk.next_step().unwrap(), DeleteStep::Visit(ref p) if p == "/d/k"));
    walk.record("/d/k", StepOutcome::Failed("busy".to_string()));
    assert!(matches!(walk.next_step().unwrap(), DeleteStep::RemoveDir(ref p) if p == "/d"));
    walk.record("/d", StepOutcome::Failed("not empty".to_string()));
    assert!(matches!(walk.next_step().unwrap(), DeleteStep::Visit(ref p) if p == "/f"));
    walk.record("/f", StepOutcome::Removed);
    assert!(walk.next_step().is_none());
    let failures = walk.failures();
    assert_eq!(failures.len(), 2);
    assert_eq!((failures[0].path.as_str(), failures[0].message.as_str()), ("/d/k", "busy"));
    assert_eq!((failures[1].path.as_str(), failures[1].message.as_str()), ("/d", "not empty"));
}

#[test]
fn probe_outcomes() {
    assert!(probe_outcome(Ok("ok\n".to_string())).is_ok());
    assert!(matches!(probe_outcome(Ok("".to_string())), Err(MonitorError::Unsupported)));
    match probe_outcome(Err(TransportError::Network("超时".to_string()))) {
        Err(MonitorError::Collect(m)) => assert!(m.contains("超时")),
        _ => panic!("a failed run is a collection error"),
    }
}
