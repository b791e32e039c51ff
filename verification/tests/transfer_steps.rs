use shelx::application::ports::TransferDirection;
use shelx::application::transfers::book::{ConflictDecision, ConflictPolicy};
use shelx::application::transfers::commit::{Commit, CommitAction, CommitEvent};
use shelx::application::transfers::prepare::{PrepAction, PrepEvent, Preparation};

fn is_path(a: &PrepAction, kind: &str, want: &str) -> bool {
    match (a, kind) {
        (PrepAction::MeasureSource(p), "measure") => p == want,
        (PrepAction::MakeRemoteParents(p), "parents") => p == want,
        (PrepAction::ProbeTarget(p), "target") => p == want,
        (PrepAction::ProbeName(p), "name") => p == want,
        (PrepAction::MakeLocalDir(p), "dir") => p == want,
        (PrepAction::Skip(r), "skip") => r == want,
        (PrepAction::Fail(m), "fail") => m == want,
        _ => false,
    }
}

fn is_transfer(a: &PrepAction, l: &str, r: &str, o: bool) -> bool {
    matches!(a, PrepAction::Transfer { local, remote, overwrite } if local == l && remote == r && *overwrite == o)
}

#[test]
fn upload_without_conflict_goes_to_the_temporary_remote_name() {
    let mut p = Preparation::new(TransferDirection::Upload, "/tmp/a.txt", "/srv/a.txt", ConflictPolicy::Ask, '/');
    assert!(is_path(&p.pending(), "measure", "/tmp/a.txt"));
    p.step(PrepEvent::Measured(Ok(Some(10))));
    assert_eq!(p.total, Some(10));
    assert!(is_path(&p.pending(), "parents", "/srv/a.txt"));
    p.step(PrepEvent::Made(Ok(())));
    assert!(is_path(&p.pending(), "target", "/srv/a.txt"));
    p.step(PrepEvent::Exists(false));
    assert!(is_transfer(&p.pending(), "/tmp/a.txt", "/srv/a.txt.shelx-partial", false));
}

#[test]
fn missing_sources_fail_with_their_side() {
    let mut up = Preparation::new(TransferDirection::Upload, "/tmp/a", "/srv/a", ConflictPolicy::Ask, '/');
    up.step(PrepEvent::Measured(Ok(None)));
    assert!(is_path(&up.pending(), "fail", "本地文件不存在"));
    let mut down = Preparation::new(TransferDirection::Download, "/tmp/a", "/srv/a", ConflictPolicy::Ask, '/');
    assert!(is_path(&down.pending(), "measure", "/srv/a"));
    down.step(PrepEvent::Measured(Ok(None)));
    assert!(is_path(&down.pending(), "fail", "远端文件不存在"));
    let mut err = Preparation::new(TransferDirection::Upload, "/tmp/a", "/srv/a", ConflictPolicy::Ask, '/');
    err.step(PrepEvent::Measured(Err("io".to_string())));
    assert!(is_path(&err.pending(), "fail", "io"));
}

#[test]
fn keep_both_download_takes_the_first_free_name() {
    let mut p = Preparation::new(TransferDirection::Download, "/home/u/a.txt", "/srv/a.txt", ConflictPolicy::Ask, '/');
    p.step(PrepEvent::Measured(Ok(Some(5))));
    assert!(is_path(&p.pending(), "target", "/home/u/a.txt"));
    p.step(PrepEvent::Exists(true));
    assert!(matches!(p.pending(), PrepAction::Decide));
    p.step(PrepEvent::Decided(Ok(ConflictDecision::KeepBoth)));
    assert_eq!(p.policy, ConflictPolicy::KeepBoth);
    assert!(is_path(&p.pending(), "name", "/home/u/a (1).txt"));
    p.step(PrepEvent::Exists(true));
    assert!(is_path(&p.pending(), "name", "/home/u/a (2).txt"));
    p.step(PrepEvent::Exists(false));
    assert_eq!(p.local, "/home/u/a (2).txt");
    assert!(is_path(&p.pending(), "dir", "/home/u"));
    p.step(PrepEvent::Made(Err("denied".to_string())));
    assert!(is_path(&p.pending(), "fail", "本地目录创建失败:denied"));
}

#[test]
fn skip_and_overwrite_decisions() {
    let mut s = Preparation::new(TransferDirection::Upload, "/tmp/a", "/srv/a", ConflictPolicy::Ask, '/');
    s.step(PrepEvent::Measured(Ok(Some(1))));
    s.step(PrepEvent::Made(Ok(())));
    s.step(PrepEvent::Exists(true));
    s.step(PrepEvent::Decided(Ok(ConflictDecision::Skip)));
    assert!(is_path(&s.pending(), "skip", "已跳过(同名保留远端)"));
    assert_eq!(s.policy, ConflictPolicy::Skip);

    let mut o = Preparation::new(TransferDirection::Download, "/home/u/a.txt", "/srv/a.txt", ConflictPolicy::Ask, '/');
    o.step(PrepEvent::Measured(Ok(Some(1))));
    o.step(PrepEvent::Exists(true));
    o.step(PrepEvent::Decided(Ok(ConflictDecision::Overwrite)));
    assert!(is_path(&o.pending(), "dir", "/home/u"));
    o.step(PrepEvent::Made(Ok(())));
    assert!(is_transfer(&o.pending(), "/home/u/a.txt.shelx-partial", "/srv/a.txt", true));

    let mut c = Preparation::new(TransferDirection::Download, "a.txt", "/srv/a.txt", ConflictPolicy::Ask, '/');
    c.step(PrepEvent::Measured(Ok(Some(1))));
    c.step(PrepEvent::Exists(true));
    c.step(PrepEvent::Decided(Err("已取消".to_string())));
    assert!(is_path(&c.pending(), "fail", "已取消"));
}

#[test]
fn keep_both_upload_with_every_name_taken_falls_back_to_the_temporary_name() {
    let mut p = Preparation::new(TransferDirection::Upload, "/tmp/a.txt", "/srv/a.txt", ConflictPolicy::Ask, '/');
    p.step(PrepEvent::Measured(Ok(Some(1))));
    p.step(PrepEvent::Made(Ok(())));
    p.step(PrepEvent::Exists(true));
    p.step(PrepEvent::Decided(Ok(ConflictDecision::KeepBoth)));
    assert!(is_path(&p.pending(), "name", "/srv/a (1).txt"));
    for _ in 0..99 {
        p.step(PrepEvent::Exists(true));
    }
    assert_eq!(p.remote, "/srv/a.txt.shelx-partial");
    assert!(is_transfer(&p.pending(), "/tmp/a.txt", "/srv/a.txt.shelx-partial.shelx-partial", false));
}

#[test]
fn an_event_that_answers_nothing_changes_nothing() {
    let mut p = Preparation::new(TransferDirection::Upload, "/tmp/a", "/srv/a", ConflictPolicy::Ask, '/');
    p.step(PrepEvent::Exists(true));
    assert!(is_path(&p.pending(), "measure", "/tmp/a"));
    p.step(PrepEvent::Measured(Ok(Some(3))));
    p.step(PrepEvent::Decided(Ok(ConflictDecision::Skip)));
    assert!(is_path(&p.pending(), "parents", "/srv/a"));
}

#[test]
fn commit_replaces_then_renames() {
    let mut up = Commit::new(TransferDirection::Upload, "/srv/a.txt", true);
    assert!(matches!(up.pending(), CommitAction::ProbeTarget(p) if p == "/srv/a.txt"));
    up.step(CommitEvent::Exists(true));
    assert!(matches!(up.pending(), CommitAction::RemoveTarget(p) if p == "/srv/a.txt"));
    up.step(CommitEvent::Finished(Ok(())));
    assert!(matches!(up.pending(), CommitAction::Rename { from, to } if from == "/srv/a.txt.shelx-partial" && to == "/srv/a.txt"));
    up.step(CommitEvent::Finished(Ok(())));
    assert!(matches!(up.pending(), CommitAction::Done));

    let mut failed = Commit::new(TransferDirection::Upload, "/srv/a.txt", true);
    failed.step(CommitEvent::Exists(true));
    failed.step(CommitEvent::Finished(Err("perm".to_string())));
    assert!(matches!(failed.pending(), CommitAction::Fail(m) if m == "远端覆盖删除失败:perm"));

    let mut down = Commit::new(TransferDirection::Download, "/home/a.txt", false);
    assert!(matches!(down.pending(), CommitAction::Rename { from, to } if from == "/home/a.txt.shelx-partial" && to == "/home/a.txt"));
    down.step(CommitEvent::Finished(Err("busy".to_string())));
    assert!(matches!(down.pending(), CommitAction::Fail(m) if m == "本地改名失败:busy"));

    let mut absent = Commit::new(TransferDirection::Download, "/home/a.txt", true);
    absent.step(CommitEvent::Exists(false));
    assert!(matches!(absent.pending(), CommitAction::Rename { .. }));
    let mut upfail = Commit::new(TransferDirection::Upload, "/srv/a.txt", false);
    upfail.step(CommitEvent::Finished(Err("busy".to_string())));
    assert!(matches!(upfail.pending(), CommitAction::Fail(m) if m == "busy"));
}
