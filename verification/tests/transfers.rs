use shelx::application::ports::TransferDirection;
use shelx::application::transfers::book::{
    AfterError, ConflictDecision, ConflictPolicy, TransferBook, MAX_RETRIES,
};
use shelx::application::transfers::engine::{fresh_group, skip_reason, staged_paths};
use shelx::application::transfers::paths::{
    base_name, download_target, file_name_of, join_remote, local_candidate, local_child, local_mode, parent_local,
    parent_remote, partial_path, remote_candidate, split_ext, split_remote,
};
use shelx::application::transfers::walk::{sort_pairs, Walk};
use shelx::domain::transfer::TransferStatus;

fn upload(book: &mut TransferBook, name: &str, group: Option<String>) -> String {
    book.spawn("s1", TransferDirection::Upload, format!("/tmp/{name}"), format!("/srv/{name}"), group)
}

#[test]
fn remote_paths() {
    assert_eq!(join_remote("/srv/", "a.txt"), "/srv/a.txt");
    assert_eq!(join_remote("", "a.txt"), "/a.txt");
    assert_eq!(join_remote("/", "a.txt"), "/a.txt");
    assert_eq!(parent_remote("/a/b/"), Some("/a".to_string()));
    assert_eq!(parent_remote("/a"), Some("/".to_string()));
    assert_eq!(parent_remote("a"), None);
    assert_eq!(split_remote("/d/x.txt"), ("/d".to_string(), "x.txt".to_string()));
    assert_eq!(split_remote("/x.txt"), ("".to_string(), "x.txt".to_string()));
    assert_eq!(split_ext("a.tar.gz"), ("a.tar".to_string(), ".gz".to_string()));
    assert_eq!(split_ext(".bashrc"), (".bashrc".to_string(), "".to_string()));
    assert_eq!(file_name_of("/srv/app/x.log"), "x.log");
    assert_eq!(partial_path("/srv/a.bin"), "/srv/a.bin.shelx-partial");
}

#[test]
fn keep_both_names() {
    assert_eq!(remote_candidate("/d/a.txt", 1), "/d/a (1).txt");
    assert_eq!(remote_candidate("/d/archive", 12), "/d/archive (12)");
    assert_eq!(remote_candidate("/a.txt", 2), "/a (2).txt");
    assert_eq!(remote_candidate("doc.txt", 1), "doc (1).txt");
    assert_eq!(local_candidate("C:\\dl\\a.txt", 3, '\\'), "C:\\dl\\a (3).txt");
    assert_eq!(local_candidate("/home/u/a.txt", 1, '/'), "/home/u/a (1).txt");
}

#[test]
fn local_paths() {
    assert_eq!(parent_local("C:\\dl\\a.txt", '\\'), Some("C:/dl".to_string()));
    assert_eq!(parent_local("/home/u/a.txt", '/'), Some("/home/u".to_string()));
    assert_eq!(base_name("C:\\dl/sub\\a.txt", '\\'), "a.txt");
    assert_eq!(download_target("/home/u/dl/", "dir/a.txt", '\\'), "/home/u/dl/dir\\a.txt");
}

#[test]
fn staged_targets_and_skip_reasons() {
    assert_eq!(
        staged_paths(TransferDirection::Upload, "/l/a", "/r/a"),
        ("/l/a".to_string(), "/r/a.shelx-partial".to_string())
    );
    assert_eq!(
        staged_paths(TransferDirection::Download, "/l/a", "/r/a"),
        ("/l/a.shelx-partial".to_string(), "/r/a".to_string())
    );
    assert_eq!(skip_reason(TransferDirection::Upload), "已跳过(同名保留远端)");
    assert_eq!(skip_reason(TransferDirection::Download), "已跳过(同名保留本地)");
    assert!(fresh_group(1).is_none());
    assert_eq!(fresh_group(2).unwrap().len(), 36);
}

#[test]
fn spawn_queues_and_lists() {
    let mut book = TransferBook::new();
    let id = upload(&mut book, "a.txt", None);
    let t = book.task(&id).unwrap();
    assert_eq!(t.status, TransferStatus::Queued);
    assert_eq!(t.file_name, "a.txt");
    assert_eq!(t.remote_path, "/srv/a.txt");
    assert_eq!(book.list().len(), 1);
    assert!(book.task("ghost").is_none());
}

#[test]
fn failing_task_retries_twice_then_fails() {
    let mut book = TransferBook::new();
    let id = upload(&mut book, "a.txt", None);
    assert!(book.begin_attempt(&id));
    assert_eq!(book.after_error(&id, "boom"), AfterError::Retry(1000));
    assert_eq!(book.task(&id).unwrap().error.as_deref(), Some("boom"));
    assert_eq!(book.after_error(&id, "boom"), AfterError::Retry(2000));
    assert_eq!(book.after_error(&id, "last"), AfterError::Failed);
    let t = book.task(&id).unwrap();
    assert_eq!(t.status, TransferStatus::Failed);
    assert_eq!(t.error.as_deref(), Some("last"));
    assert_eq!(MAX_RETRIES, 2);
}

#[test]
fn cancel_wins_over_retry() {
    let mut book = TransferBook::new();
    let id = upload(&mut book, "a.txt", None);
    assert!(!book.cancel(&id));
    assert_eq!(book.after_error(&id, "boom"), AfterError::Cancelled);
    assert_eq!(book.task(&id).unwrap().status, TransferStatus::Cancelled);
    assert!(!book.begin_attempt(&id));
}

#[test]
fn retry_requeues_only_failed_or_cancelled_tasks() {
    let mut book = TransferBook::new();
    let id = upload(&mut book, "a.txt", None);
    assert!(!book.retry(&id));
    book.complete(&id);
    assert!(!book.retry(&id));
    assert_eq!(book.task(&id).unwrap().status, TransferStatus::Completed);

    let failed = upload(&mut book, "b.txt", None);
    book.begin_attempt(&failed);
    book.add_progress(&failed, 10, Some(5));
    book.after_error(&failed, "x");
    book.after_error(&failed, "y");
    assert_eq!(book.after_error(&failed, "z"), AfterError::Failed);
    assert!(AfterError::Failed.removes_partials());
    assert!(!AfterError::Cancelled.removes_partials());
    assert!(!AfterError::Retry(1000).removes_partials());
    assert!(book.retry(&failed));
    let t = book.task(&failed).unwrap();
    assert_eq!(t.status, TransferStatus::Queued);
    assert_eq!(t.transferred_bytes, 0);
    assert_eq!(t.speed_bps, None);
    assert_eq!(t.error, None);
    assert_eq!(book.retry_policy(&failed), ConflictPolicy::Overwrite);

    let cancelled = upload(&mut book, "c.txt", None);
    book.cancel(&cancelled);
    assert!(book.retry(&cancelled));
    assert_eq!(book.task(&cancelled).unwrap().status, TransferStatus::Queued);
}

#[test]
fn cancel_ends_idle_tasks_at_once() {
    let mut book = TransferBook::new();
    let queued = upload(&mut book, "a.txt", None);
    assert!(!book.cancel(&queued));
    assert_eq!(book.task(&queued).unwrap().status, TransferStatus::Cancelled);
    let parked = upload(&mut book, "b.txt", None);
    book.park(&parked);
    assert!(book.cancel(&parked));
    assert_eq!(book.task(&parked).unwrap().status, TransferStatus::Cancelled);
    let running = upload(&mut book, "c.txt", None);
    book.begin_attempt(&running);
    book.set_status(&running, TransferStatus::Transferring);
    assert!(!book.cancel(&running));
    assert_eq!(book.task(&running).unwrap().status, TransferStatus::Transferring);
    assert!(book.is_cancelled(&running));
}

#[test]
fn clear_drops_finished_only_when_asked() {
    let mut book = TransferBook::new();
    let done = upload(&mut book, "a.txt", None);
    let running = upload(&mut book, "b.txt", None);
    let queued = upload(&mut book, "c.txt", None);
    book.complete(&done);
    book.set_status(&running, TransferStatus::Transferring);
    book.clear(true);
    let left = book.list();
    assert_eq!(left.len(), 2);
    assert_eq!(left[0].task_id, running);
    assert_eq!(left[1].task_id, queued);
    book.clear(false);
    assert!(book.list().is_empty());
}

#[test]
fn conflict_answer_applies_to_group() {
    let mut book = TransferBook::new();
    let g = Some("g-1".to_string());
    let a = upload(&mut book, "a.txt", g.clone());
    let b = upload(&mut book, "b.txt", g.clone());
    let c = upload(&mut book, "c.txt", None);
    assert_eq!(book.conflict_choice(&a, ConflictPolicy::Ask), None);
    book.park(&a);
    book.park(&b);
    book.park(&c);
    assert_eq!(book.task(&a).unwrap().status, TransferStatus::AwaitingConflict);
    let mut woken = book.respond_conflict(&a, ConflictDecision::KeepBoth, true);
    woken.sort();
    let mut expected = vec![a.clone(), b.clone()];
    expected.sort();
    assert_eq!(woken, expected);
    assert_eq!(book.conflict_choice(&b, ConflictPolicy::Skip), Some(ConflictDecision::KeepBoth));
    assert_eq!(book.group_decision(Some("g-1")), Some(ConflictDecision::KeepBoth));
    assert_eq!(book.retry_policy(&b), ConflictPolicy::KeepBoth);
    assert!(book.cancel(&c));
    assert!(!book.cancel(&c));
}

#[test]
fn answer_without_apply_wakes_only_the_task() {
    let mut book = TransferBook::new();
    let g = Some("g-2".to_string());
    let a = upload(&mut book, "a.txt", g.clone());
    let b = upload(&mut book, "b.txt", g.clone());
    book.park(&a);
    book.park(&b);
    assert_eq!(book.respond_conflict(&a, ConflictDecision::Overwrite, false), vec![a.clone()]);
    assert_eq!(book.group_decision(Some("g-2")), None);
    assert_eq!(book.conflict_choice(&b, ConflictPolicy::Overwrite), Some(ConflictDecision::Overwrite));
    assert_eq!(ConflictPolicy::from(ConflictDecision::Skip), ConflictPolicy::Skip);
}

#[test]
fn skip_and_progress() {
    let mut book = TransferBook::new();
    let id = upload(&mut book, "a.txt", None);
    book.set_total(&id, 100);
    book.add_progress(&id, 40, None);
    book.add_progress(&id, 20, Some(7));
    let t = book.task(&id).unwrap();
    assert_eq!((t.transferred_bytes, t.total_bytes, t.speed_bps), (60, 100, Some(7)));
    book.reset_progress(&id);
    assert_eq!(book.task(&id).unwrap().transferred_bytes, 0);
    book.set_remote(&id, "/srv/a (1).txt".to_string());
    assert_eq!(book.task(&id).unwrap().file_name, "a (1).txt");
    book.skip(&id, "已跳过(同名保留远端)");
    let t = book.task(&id).unwrap();
    assert_eq!(t.status, TransferStatus::Cancelled);
    assert_eq!(t.error.as_deref(), Some("已跳过(同名保留远端)"));
}

#[test]
fn enqueue_expands_walked_files() {
    let mut book = TransferBook::new();
    let files = vec![
        ("/l/d/a.txt".to_string(), "a.txt".to_string()),
        ("/l/d/sub/b.txt".to_string(), "sub/b.txt".to_string()),
    ];
    let ids = book.enqueue_uploads("s1", &files, "/srv/", Some("grp".to_string()));
    assert_eq!(ids.len(), 2);
    assert_eq!(book.task(&ids[1]).unwrap().remote_path, "/srv/sub/b.txt");
    assert_eq!(book.task(&ids[0]).unwrap().group_id.as_deref(), Some("grp"));
    let ids = book.enqueue_downloads("s1", &files, "/home/u/", '/', None);
    let t = book.task(&ids[1]).unwrap();
    assert_eq!(t.local_path, "/home/u/sub/b.txt");
    assert_eq!(t.direction, TransferDirection::Download);
}

#[test]
fn walk_collects_and_sorts() {
    let mut walk = Walk::new("/data/");
    let (dir, prefix) = walk.next_dir().unwrap();
    assert_eq!((dir.as_str(), prefix.as_str()), ("/data", ""));
    walk.absorb(&dir, &prefix, &vec![("z.txt".to_string(), false), ("sub".to_string(), true), ("a.txt".to_string(), false)]);
    let (dir, prefix) = walk.next_dir().unwrap();
    assert_eq!((dir.as_str(), prefix.as_str()), ("/data/sub", "sub"));
    walk.absorb(&dir, &prefix, &vec![("m.txt".to_string(), false)]);
    assert!(walk.next_dir().is_none());
    let files = walk.finish();
    assert_eq!(
        files,
        vec![
            ("/data/a.txt".to_string(), "a.txt".to_string()),
            ("/data/sub/m.txt".to_string(), "sub/m.txt".to_string()),
            ("/data/z.txt".to_string(), "z.txt".to_string()),
        ]
    );
    let sorted = sort_pairs(&vec![("b".to_string(), "2".to_string()), ("b".to_string(), "1".to_string()), ("a".to_string(), "9".to_string())]);
    assert_eq!(sorted[0].0, "a");
    assert_eq!(sorted[1], ("b".to_string(), "1".to_string()));
}

#[test]
fn progress_event_reports_the_task() {
    let mut book = TransferBook::new();
    let id = upload(&mut book, "a.txt", Some("g".to_string()));
    book.set_total(&id, 9);
    book.park(&id);
    let e = book.progress_event(&id).unwrap();
    assert_eq!(e.task_id, id);
    assert_eq!(e.group_id.as_deref(), Some("g"));
    assert_eq!(e.status, "awaiting_conflict");
    assert_eq!(e.total_bytes, 9);
    assert!(book.progress_event("ghost").is_none());
}

#[test]
fn local_listing_paths() {
    assert_eq!(local_child("C:\\dl\\", "a.txt", '\\'), "C:\\dl\\a.txt");
    assert_eq!(local_child("/home/u//", "a.txt", '/'), "/home/u/a.txt");
    assert_eq!(local_mode(true), 0o755);
    assert_eq!(local_mode(false), 0o644);
}
