//! Decisions of one transfer run that do not depend on the bytes: which tasks a
//! walked source becomes, where an attempt writes before its final rename, and
//! what a skipped conflict is reported as.

use vstd::prelude::*;

use super::book::{placed, queued, unique_ids, TaskModel, TransferBook};
use super::paths::{
    download_target, download_target_spec, join_remote, opt_chars, partial_path, partial_suffix,
    remote_join,
};
use crate::application::connections::{is_uuid_text, new_id};
use crate::application::ports::TransferDirection;
use crate::domain::connection::clone_opt_string;

verus! {

/// The tasks `ms` added one after the other.
pub open spec fn placed_all(ts: Seq<TaskModel>, ms: Seq<TaskModel>) -> Seq<TaskModel>
    decreases ms.len(),
{
    if ms.len() == 0 {
        ts
    } else {
        placed(placed_all(ts, ms.drop_last()), ms.last())
    }
}

/// The upload tasks of walked local files `(path, relative name)` into `remote_dir`.
pub open spec fn upload_models(
    ids: Seq<String>,
    group: Option<Seq<char>>,
    session: Seq<char>,
    files: Seq<(String, String)>,
    remote_dir: Seq<char>,
) -> Seq<TaskModel> {
    Seq::new(
        ids.len(),
        |k: int|
            queued(
                ids[k]@,
                group,
                session,
                TransferDirection::Upload,
                files[k].0@,
                remote_join(remote_dir, files[k].1@),
            ),
    )
}

/// The download tasks of walked remote files `(path, relative name)` into `local_dir`.
pub open spec fn download_models(
    ids: Seq<String>,
    group: Option<Seq<char>>,
    session: Seq<char>,
    files: Seq<(String, String)>,
    local_dir: Seq<char>,
    sep: char,
) -> Seq<TaskModel> {
    Seq::new(
        ids.len(),
        |k: int|
            queued(
                ids[k]@,
                group,
                session,
                TransferDirection::Download,
                download_target_spec(local_dir, files[k].1@, sep),
                files[k].0@,
            ),
    )
}

/// The group identity of a walk of `count` files: a fresh one for more than one.
pub fn fresh_group(count: usize) -> (g: Option<String>)
    ensures
        count > 1 ==> g is Some && is_uuid_text(g.unwrap()@),
        count <= 1 ==> g is None,
{
    if count > 1 {
        Some(new_id())
    } else {
        None
    }
}

impl TransferBook {
    /// Queues one upload per walked local file `(path, relative name)`; the
    /// remote target is the relative name under `remote_dir`. Gives back the
    /// new identities in file order.
    pub fn enqueue_uploads(
        &mut self,
        session_id: &str,
        files: &Vec<(String, String)>,
        remote_dir: &str,
        group: Option<String>,
    ) -> (ids: Vec<String>)
        ensures
            ids.len() == files.len(),
            forall|k: int| 0 <= k < ids.len() ==> is_uuid_text(#[trigger] ids[k]@),
            final(self)@.tasks == placed_all(
                old(self)@.tasks,
                upload_models(ids@, opt_chars(group), session_id@, files@, remote_dir@),
            ),
            final(self)@.parked == old(self)@.parked,
            final(self)@.decisions == old(self)@.decisions,
            unique_ids(old(self)@.tasks) ==> unique_ids(final(self)@.tasks),
    {
        let ghost ts = old(self)@.tasks;
        let mut ids: Vec<String> = Vec::new();
        let mut k: usize = 0;
        assert(upload_models(ids@, opt_chars(group), session_id@, files@, remote_dir@) =~= Seq::<
            TaskModel,
        >::empty());
        while k < files.len()
            invariant
                k <= files@.len(),
                ids.len() == k,
                forall|q: int| 0 <= q < ids.len() ==> is_uuid_text(#[trigger] ids[q]@),
                self@.tasks == placed_all(
                    ts,
                    upload_models(ids@, opt_chars(group), session_id@, files@, remote_dir@),
                ),
                self@.parked == old(self)@.parked,
                self@.decisions == old(self)@.decisions,
                unique_ids(ts) ==> unique_ids(self@.tasks),
            decreases files@.len() - k,
        {
            let remote = join_remote(remote_dir, files[k].1.as_str());
            let local = files[k].0.clone();
            let g = clone_opt_string(&group);
            let ghost before = ids@;
            let id = self.spawn(session_id, TransferDirection::Upload, local, remote, g);
            ids.push(id);
            proof {
                let ms = upload_models(ids@, opt_chars(group), session_id@, files@, remote_dir@);
                let ms0 = upload_models(before, opt_chars(group), session_id@, files@, remote_dir@);
                assert(ms.drop_last() =~= ms0);
                assert(ids@[k as int] == id);
            }
            k = k + 1;
        }
        ids
    }

    /// Queues one download per walked remote file `(path, relative name)`; the
    /// local target is the relative name under `local_dir`, its slashes turned
    /// into `sep`. Gives back the new identities in file order.
    pub fn enqueue_downloads(
        &mut self,
        session_id: &str,
        files: &Vec<(String, String)>,
        local_dir: &str,
        sep: char,
        group: Option<String>,
    ) -> (ids: Vec<String>)
        ensures
            ids.len() == files.len(),
            forall|k: int| 0 <= k < ids.len() ==> is_uuid_text(#[trigger] ids[k]@),
            final(self)@.tasks == placed_all(
                old(self)@.tasks,
                download_models(ids@, opt_chars(group), session_id@, files@, local_dir@, sep),
            ),
            final(self)@.parked == old(self)@.parked,
            final(self)@.decisions == old(self)@.decisions,
            unique_ids(old(self)@.tasks) ==> unique_ids(final(self)@.tasks),
    {
        let ghost ts = old(self)@.tasks;
        let mut ids: Vec<String> = Vec::new();
        let mut k: usize = 0;
        assert(download_models(ids@, opt_chars(group), session_id@, files@, local_dir@, sep)
            =~= Seq::<TaskModel>::empty());
        while k < files.len()
            invariant
                k <= files@.len(),
                ids.len() == k,
                forall|q: int| 0 <= q < ids.len() ==> is_uuid_text(#[trigger] ids[q]@),
                self@.tasks == placed_all(
                    ts,
                    download_models(ids@, opt_chars(group), session_id@, files@, local_dir@, sep),
                ),
                self@.parked == old(self)@.parked,
                self@.decisions == old(self)@.decisions,
                unique_ids(ts) ==> unique_ids(self@.tasks),
            decreases files@.len() - k,
        {
            let local = download_target(local_dir, files[k].1.as_str(), sep);
            let remote = files[k].0.clone();
            let g = clone_opt_string(&group);
            let ghost before = ids@;
            let id = self.spawn(session_id, TransferDirection::Download, local, remote, g);
            ids.push(id);
            proof {
                let ms = download_models(ids@, opt_chars(group), session_id@, files@, local_dir@, sep);
                let ms0 = download_models(before, opt_chars(group), session_id@, files@, local_dir@, sep);
                assert(ms.drop_last() =~= ms0);
                assert(ids@[k as int] == id);
            }
            k = k + 1;
        }
        ids
    }
}

/// Where an attempt writes: an upload writes the remote temporary name, a
/// download the local one; the other side is the task's own path.
pub fn staged_paths(direction: TransferDirection, local: &str, remote: &str) -> (r: (String, String))
    ensures
        direction == TransferDirection::Upload ==> r.0@ == local@ && r.1@ == remote@
            + partial_suffix(),
        direction == TransferDirection::Download ==> r.0@ == local@ + partial_suffix() && r.1@
            == remote@,
{
    match direction {
        TransferDirection::Upload => (String::from_str(local), partial_path(remote)),
        TransferDirection::Download => (partial_path(local), String::from_str(remote)),
    }
}

/// Why a task skipped on a conflict ended: the target that was kept.
pub fn skip_reason(direction: TransferDirection) -> (s: &'static str)
    ensures
        direction == TransferDirection::Upload ==> s@ == "已跳过(同名保留远端)"@,
        direction == TransferDirection::Download ==> s@ == "已跳过(同名保留本地)"@,
{
    match direction {
        TransferDirection::Upload => "已跳过(同名保留远端)",
        TransferDirection::Download => "已跳过(同名保留本地)",
    }
}

/// Concurrency and chunk size of the engine from the transfer settings: at
/// least one task at a time, chunks of at least 4 KiB.
pub fn engine_limits(max_concurrent_tasks: u8, chunk_size_kib: u32) -> (r: (usize, usize))
    requires
        1024 * (chunk_size_kib as int) <= usize::MAX,
    ensures
        r.0 == if max_concurrent_tasks < 1 { 1 } else { max_concurrent_tasks as int },
        r.1 == 1024 * (if chunk_size_kib < 4 { 4 } else { chunk_size_kib as int }),
{
    let tasks: usize = if max_concurrent_tasks < 1 { 1 } else { max_concurrent_tasks as usize };
    let kib: usize = if chunk_size_kib < 4 { 4 } else { chunk_size_kib as usize };
    (tasks, kib * 1024)
}

} // verus!
