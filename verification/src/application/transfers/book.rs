//! The transfer task book: every task's state, the tasks parked on a conflict
//! question, and the per-group conflict decisions ("apply to the remaining").
//!
//! The worker that moves the bytes asks the book what to do next (start an
//! attempt, decide a conflict, retry or give up after an error) and reports its
//! progress to it; the user's commands (cancel, answer a conflict, retry, clear)
//! act on it too.

use vstd::prelude::*;

use super::keyed::Keyed;
use super::paths::{
    download_target, download_target_spec, file_name_of, file_name_spec, join_remote, opt_chars,
    remote_join,
};
use crate::application::connections::{is_uuid_text, new_id};
use crate::application::ports::{TransferDirection, TransferProgressEvent};
use crate::domain::connection::clone_opt_string;
use crate::domain::transfer::{transfer_name, transfer_terminal, TransferStatus};

verus! {

/// Automatic retries of a task after a failed attempt.
pub const MAX_RETRIES: u32 = 2;

/// Backoff before a retry, in milliseconds: 500 doubled `step` times.
pub open spec fn backoff_ms(step: nat) -> nat
    decreases step,
{
    if step == 0 {
        500
    } else {
        2 * backoff_ms((step - 1) as nat)
    }
}

/// Answer to a name conflict at the target.
#[derive(Debug, Clone, Copy, PartialEq, Eq, Structural)]
pub enum ConflictDecision {
    /// Replace the existing target.
    Overwrite,
    /// Leave the target alone; the task ends as skipped.
    Skip,
    /// Keep both: the new file takes the name `name (1).ext`.
    KeepBoth,
}

/// Default answer to name conflicts (`Ask` puts the question to the user).
#[derive(Debug, Clone, Copy, PartialEq, Eq, Structural)]
pub enum ConflictPolicy {
    /// Ask each time.
    Ask,
    /// Always replace.
    Overwrite,
    /// Always skip.
    Skip,
    /// Always keep both.
    KeepBoth,
}

/// The policy that repeats a decision.
pub open spec fn policy_of(d: ConflictDecision) -> ConflictPolicy {
    match d {
        ConflictDecision::Overwrite => ConflictPolicy::Overwrite,
        ConflictDecision::Skip => ConflictPolicy::Skip,
        ConflictDecision::KeepBoth => ConflictPolicy::KeepBoth,
    }
}

impl From<ConflictDecision> for ConflictPolicy {
    fn from(value: ConflictDecision) -> (p: Self) {
        match value {
            ConflictDecision::Overwrite => ConflictPolicy::Overwrite,
            ConflictDecision::Skip => ConflictPolicy::Skip,
            ConflictDecision::KeepBoth => ConflictPolicy::KeepBoth,
        }
    }
}

impl vstd::std_specs::convert::FromSpecImpl<ConflictDecision> for ConflictPolicy {
    open spec fn obeys_from_spec() -> bool {
        true
    }

    open spec fn from_spec(v: ConflictDecision) -> Self {
        policy_of(v)
    }
}

/// What a task is, as the contracts see it.
pub struct TaskModel {
    pub id: Seq<char>,
    pub group: Option<Seq<char>>,
    pub session: Seq<char>,
    pub direction: TransferDirection,
    pub local: Seq<char>,
    pub remote: Seq<char>,
    pub status: TransferStatus,
    pub transferred: u64,
    pub total: u64,
    pub speed: Option<u64>,
    pub error: Option<Seq<char>>,
    pub cancel: bool,
    pub retries_left: u32,
}

/// What the book is, as the contracts see it.
pub struct BookModel {
    /// The tasks, in the order they were first added.
    pub tasks: Seq<TaskModel>,
    /// Tasks waiting for the user's conflict answer.
    pub parked: Set<Seq<char>>,
    /// Decisions applied to the rest of a group, by group.
    pub decisions: Map<Seq<char>, ConflictDecision>,
}

/// A finished task (completed, cancelled or failed): what `clear(true)` drops.
pub open spec fn finished(s: TransferStatus) -> bool {
    transfer_terminal(s) || s == TransferStatus::Failed
}

/// A task that a manual retry restarts: failed or cancelled.
pub open spec fn retryable(s: TransferStatus) -> bool {
    s == TransferStatus::Failed || s == TransferStatus::Cancelled
}

/// A task that a cancel ends at once: one still queued or waiting for the
/// user's conflict answer (no worker is moving its bytes).
pub open spec fn idle(s: TransferStatus) -> bool {
    s == TransferStatus::Queued || s == TransferStatus::AwaitingConflict
}

/// The task as a cancel leaves it: flagged, and ended as cancelled if idle.
pub open spec fn cancelled(m: TaskModel) -> TaskModel {
    if idle(m.status) {
        TaskModel { cancel: true, status: TransferStatus::Cancelled, error: None, ..m }
    } else {
        TaskModel { cancel: true, ..m }
    }
}

/// Index of the last task with identity `id`.
pub open spec fn locate(ts: Seq<TaskModel>, id: Seq<char>) -> Option<int>
    decreases ts.len(),
{
    if ts.len() == 0 {
        None
    } else if ts.last().id == id {
        Some(ts.len() - 1)
    } else {
        locate(ts.drop_last(), id)
    }
}

/// No two tasks share an identity.
pub open spec fn unique_ids(ts: Seq<TaskModel>) -> bool {
    forall|i: int, j: int|
        0 <= i < ts.len() && 0 <= j < ts.len() && i != j ==> ts[i].id != ts[j].id
}

/// `m` put in place of the task with its identity, or appended.
pub open spec fn placed(ts: Seq<TaskModel>, m: TaskModel) -> Seq<TaskModel> {
    match locate(ts, m.id) {
        Some(i) => ts.update(i, m),
        None => ts.push(m),
    }
}

/// A new task waiting for its turn.
pub open spec fn queued(
    id: Seq<char>,
    group: Option<Seq<char>>,
    session: Seq<char>,
    direction: TransferDirection,
    local: Seq<char>,
    remote: Seq<char>,
) -> TaskModel {
    TaskModel {
        id,
        group,
        session,
        direction,
        local,
        remote,
        status: TransferStatus::Queued,
        transferred: 0,
        total: 0,
        speed: None,
        error: None,
        cancel: false,
        retries_left: MAX_RETRIES,
    }
}

/// The task back in the queue for a manual retry: progress, error and cancel
/// flag cleared, the full retry budget restored.
pub open spec fn requeued(m: TaskModel) -> TaskModel {
    TaskModel {
        status: TransferStatus::Queued,
        transferred: 0,
        error: None,
        speed: None,
        retries_left: MAX_RETRIES,
        cancel: false,
        ..m
    }
}

/// The task ended in `status` with `error`.
pub open spec fn ended(m: TaskModel, status: TransferStatus, error: Option<Seq<char>>) -> TaskModel {
    TaskModel { status, error, ..m }
}

/// The tasks `clear(finished_only)` keeps.
pub open spec fn kept(ts: Seq<TaskModel>, finished_only: bool) -> Seq<TaskModel>
    decreases ts.len(),
{
    if ts.len() == 0 {
        Seq::empty()
    } else if finished_only && !finished(ts.last().status) {
        kept(ts.drop_last(), finished_only).push(ts.last())
    } else {
        kept(ts.drop_last(), finished_only)
    }
}

/// The group of the task with identity `id`, if it has one.
pub open spec fn group_of(ts: Seq<TaskModel>, id: Seq<char>) -> Option<Seq<char>> {
    match locate(ts, id) {
        Some(i) => ts[i].group,
        None => None,
    }
}

/// Some task other than `id` has identity `s` and belongs to group `g`.
pub open spec fn other_in_group(ts: Seq<TaskModel>, s: Seq<char>, id: Seq<char>, g: Seq<char>) -> bool {
    s != id && exists|j: int| 0 <= j < ts.len() && #[trigger] ts[j].id == s && ts[j].group == Some(g)
}

/// The parked tasks an answer to `id` wakes: `id` itself, and with
/// `apply_to_remaining` every other parked task of its group.
pub open spec fn woken_set(b: BookModel, id: Seq<char>, apply_to_remaining: bool) -> Set<Seq<char>> {
    Set::new(
        |s: Seq<char>|
            b.parked.contains(s) && (s == id || (apply_to_remaining && match group_of(b.tasks, id) {
                Some(g) => other_in_group(b.tasks, s, id, g),
                None => false,
            })),
    )
}

/// What the conflict check of task `id` decides under `policy`: the group's
/// recorded decision first, then a policy that is not `Ask`; none means ask.
pub open spec fn conflict_choice_spec(b: BookModel, id: Seq<char>, policy: ConflictPolicy) -> Option<
    ConflictDecision,
> {
    let g = group_of(b.tasks, id);
    if g.is_some() && b.decisions.contains_key(g.unwrap()) {
        Some(b.decisions[g.unwrap()])
    } else {
        match policy {
            ConflictPolicy::Ask => None,
            ConflictPolicy::Overwrite => Some(ConflictDecision::Overwrite),
            ConflictPolicy::Skip => Some(ConflictDecision::Skip),
            ConflictPolicy::KeepBoth => Some(ConflictDecision::KeepBoth),
        }
    }
}

/// The policy a manual retry runs under: the group's recorded decision, else
/// overwrite (a same-named target is most likely the failed attempt's leftover).
pub open spec fn retry_policy_spec(b: BookModel, id: Seq<char>) -> ConflictPolicy {
    let g = group_of(b.tasks, id);
    if g.is_some() && b.decisions.contains_key(g.unwrap()) {
        policy_of(b.decisions[g.unwrap()])
    } else {
        ConflictPolicy::Overwrite
    }
}

/// The tasks with the task `id` changed by `f`.
pub open spec fn edited(ts: Seq<TaskModel>, id: Seq<char>, f: spec_fn(TaskModel) -> TaskModel) -> Seq<
    TaskModel,
> {
    match locate(ts, id) {
        Some(i) => ts.update(i, f(ts[i])),
        None => ts,
    }
}

/// Backoff of the retry that leaves `left_after` retries.
pub open spec fn retry_backoff(left_after: u32) -> u64 {
    backoff_ms((MAX_RETRIES - left_after) as nat) as u64
}

/// A failed attempt of task `m` with `message`: the task as it stands after,
/// and what follows.
pub open spec fn after_error_spec(m: TaskModel, message: Seq<char>) -> (TaskModel, AfterError) {
    if m.cancel {
        (ended(m, TransferStatus::Cancelled, None), AfterError::Cancelled)
    } else if m.retries_left == 0 {
        (ended(m, TransferStatus::Failed, Some(message)), AfterError::Failed)
    } else {
        (
            TaskModel { retries_left: (m.retries_left - 1) as u32, error: Some(message), ..m },
            AfterError::Retry(retry_backoff((m.retries_left - 1) as u32)),
        )
    }
}

/// What a failed attempt leads to.
#[derive(Debug, Clone, Copy, PartialEq, Eq, Structural)]
pub enum AfterError {
    /// The task was cancelled meanwhile; it ends as cancelled.
    Cancelled,
    /// Wait this many milliseconds, then start a new attempt.
    Retry(u64),
    /// No retry left: the task failed.
    Failed,
}

/// Whether what follows a failed attempt removes the attempt's temporary
/// (`.shelx-partial`) files: only a final failure does; a cancelled task keeps
/// its partial file, and a retry writes it afresh.
pub open spec fn removes_partials(a: AfterError) -> bool {
    a is Failed
}

impl AfterError {
    /// Whether the temporary files of the attempt are to be removed (see
    /// `removes_partials`).
    pub fn removes_partials(&self) -> (b: bool)
        ensures
            b == removes_partials(*self),
    {
        match self {
            AfterError::Failed => true,
            _ => false,
        }
    }
}

/// A snapshot of one task.
#[derive(Debug)]
pub struct TransferTask {
    pub task_id: String,
    pub group_id: Option<String>,
    pub session_id: String,
    pub direction: TransferDirection,
    /// What follows the last `/` of the remote path.
    pub file_name: String,
    pub local_path: String,
    pub remote_path: String,
    pub total_bytes: u64,
    pub transferred_bytes: u64,
    pub status: TransferStatus,
    /// Average speed in bytes per second.
    pub speed_bps: Option<u64>,
    /// Why it failed or was skipped.
    pub error: Option<String>,
}

/// `t` shows the task `m`.
pub open spec fn shows(t: TransferTask, m: TaskModel) -> bool {
    &&& t.task_id@ == m.id
    &&& opt_chars(t.group_id) == m.group
    &&& t.session_id@ == m.session
    &&& t.direction == m.direction
    &&& t.file_name@ == file_name_spec(m.remote)
    &&& t.local_path@ == m.local
    &&& t.remote_path@ == m.remote
    &&& t.total_bytes == m.total
    &&& t.transferred_bytes == m.transferred
    &&& t.status == m.status
    &&& t.speed_bps == m.speed
    &&& opt_chars(t.error) == m.error
}

/// `e` reports the task `m`.
pub open spec fn reports(e: TransferProgressEvent, m: TaskModel) -> bool {
    &&& e.task_id@ == m.id
    &&& opt_chars(e.group_id) == m.group
    &&& e.status@ == transfer_name(m.status)@
    &&& e.transferred_bytes == m.transferred
    &&& e.total_bytes == m.total
    &&& e.speed_bps == m.speed
    &&& opt_chars(e.error) == m.error
}

/// One task's record.
pub struct TaskEntry {
    task_id: String,
    group_id: Option<String>,
    session_id: String,
    direction: TransferDirection,
    local_path: String,
    remote_path: String,
    status: TransferStatus,
    transferred_bytes: u64,
    total_bytes: u64,
    speed_bps: Option<u64>,
    error: Option<String>,
    cancel: bool,
    retries_left: u32,
}

impl TaskEntry {
    /// The retry budget never exceeds its initial value.
    #[verifier::type_invariant]
    closed spec fn inv(self) -> bool {
        self.retries_left <= MAX_RETRIES
    }

    /// The record as a model.
    pub closed spec fn model(self) -> TaskModel {
        TaskModel {
            id: self.task_id@,
            group: opt_chars(self.group_id),
            session: self.session_id@,
            direction: self.direction,
            local: self.local_path@,
            remote: self.remote_path@,
            status: self.status,
            transferred: self.transferred_bytes,
            total: self.total_bytes,
            speed: self.speed_bps,
            error: opt_chars(self.error),
            cancel: self.cancel,
            retries_left: self.retries_left,
        }
    }

    /// A field-by-field copy.
    fn duplicate(&self) -> (e: TaskEntry)
        ensures
            e.model() == self.model(),
            e.retries_left <= MAX_RETRIES,
    {
        proof {
            use_type_invariant(self);
        }
        let g = clone_opt_string(&self.group_id);
        let er = clone_opt_string(&self.error);
        TaskEntry {
            task_id: self.task_id.clone(),
            group_id: g,
            session_id: self.session_id.clone(),
            direction: self.direction,
            local_path: self.local_path.clone(),
            remote_path: self.remote_path.clone(),
            status: self.status,
            transferred_bytes: self.transferred_bytes,
            total_bytes: self.total_bytes,
            speed_bps: self.speed_bps,
            error: er,
            cancel: self.cancel,
            retries_left: self.retries_left,
        }
    }

    /// The snapshot of this record.
    fn snapshot(&self) -> (t: TransferTask)
        ensures
            shows(t, self.model()),
    {
        TransferTask {
            task_id: self.task_id.clone(),
            group_id: clone_opt_string(&self.group_id),
            session_id: self.session_id.clone(),
            direction: self.direction,
            file_name: file_name_of(self.remote_path.as_str()),
            local_path: self.local_path.clone(),
            remote_path: self.remote_path.clone(),
            total_bytes: self.total_bytes,
            transferred_bytes: self.transferred_bytes,
            status: self.status,
            speed_bps: self.speed_bps,
            error: clone_opt_string(&self.error),
        }
    }
}

/// The models of a list of records.
pub closed spec fn models(s: Seq<TaskEntry>) -> Seq<TaskModel> {
    s.map_values(|e: TaskEntry| e.model())
}

/// Where `locate` points, and that nothing after it has the identity.
pub proof fn lemma_locate(ts: Seq<TaskModel>, id: Seq<char>)
    ensures
        match locate(ts, id) {
            Some(i) => 0 <= i < ts.len() && ts[i].id == id && forall|j: int|
                i < j < ts.len() ==> ts[j].id != id,
            None => forall|j: int| 0 <= j < ts.len() ==> ts[j].id != id,
        },
    decreases ts.len(),
{
    if ts.len() > 0 {
        lemma_locate(ts.drop_last(), id);
        assert(forall|j: int| 0 <= j < ts.len() - 1 ==> ts.drop_last()[j] == ts[j]);
    }
}

/// The task book.
pub struct TransferBook {
    tasks: Vec<TaskEntry>,
    parked: Keyed<()>,
    decisions: Keyed<ConflictDecision>,
}

impl View for TransferBook {
    type V = BookModel;

    closed spec fn view(&self) -> BookModel {
        BookModel {
            tasks: models(self.tasks@),
            parked: self.parked@.dom(),
            decisions: self.decisions@,
        }
    }
}

impl TransferBook {
    /// An empty book.
    pub fn new() -> (b: Self)
        ensures
            b@.tasks.len() == 0,
            b@.parked == Set::<Seq<char>>::empty(),
            b@.decisions == Map::<Seq<char>, ConflictDecision>::empty(),
    {
        let b = TransferBook { tasks: Vec::new(), parked: Keyed::new(), decisions: Keyed::new() };
        assert(models(b.tasks@) =~= Seq::<TaskModel>::empty());
        assert(b.parked@.dom() =~= Set::<Seq<char>>::empty());
        b
    }

    /// Index of the task with identity `id`, as `locate` finds it.
    fn find(&self, id: &str) -> (r: Option<usize>)
        ensures
            match r {
                Some(i) => locate(self@.tasks, id@) == Some(i as int),
                None => locate(self@.tasks, id@).is_none(),
            },
            r matches Some(i) ==> i < self.tasks@.len(),
    {
        let k = String::from_str(id);
        let mut i = self.tasks.len();
        let ghost ts = self@.tasks;
        assert(ts.subrange(0, i as int) =~= ts);
        while i > 0
            invariant
                i <= self.tasks@.len(),
                ts == models(self.tasks@),
                k@ == id@,
                locate(ts, id@) == locate(ts.subrange(0, i as int), id@),
            decreases i,
        {
            let ghost p = ts.subrange(0, i as int);
            assert(p.drop_last() =~= ts.subrange(0, i - 1));
            assert(p.last() == self.tasks@[i - 1].model());
            if self.tasks[i - 1].task_id == k {
                return Some(i - 1);
            }
            i = i - 1;
        }
        None
    }

    /// Replaces the task at `i` by `e`.
    fn put_at(&mut self, i: usize, e: TaskEntry)
        requires
            i < old(self).tasks@.len(),
        ensures
            final(self)@.tasks == old(self)@.tasks.update(i as int, e.model()),
            final(self)@.parked == old(self)@.parked,
            final(self)@.decisions == old(self)@.decisions,
    {
        self.tasks.set(i, e);
        assert(models(self.tasks@) =~= old(self)@.tasks.update(i as int, e.model()));
    }

    /// Adds `e`, replacing a task with the same identity.
    fn place(&mut self, e: TaskEntry)
        ensures
            final(self)@.tasks == placed(old(self)@.tasks, e.model()),
            final(self)@.parked == old(self)@.parked,
            final(self)@.decisions == old(self)@.decisions,
            unique_ids(old(self)@.tasks) ==> unique_ids(final(self)@.tasks),
    {
        let ghost ts = old(self)@.tasks;
        proof {
            lemma_locate(ts, e.model().id);
        }
        match self.find(e.task_id.as_str()) {
            Some(i) => {
                self.put_at(i, e);
            },
            None => {
                self.tasks.push(e);
                assert(models(self.tasks@) =~= ts.push(e.model()));
            },
        }
    }

    /// Adds a queued task and gives back its fresh identity.
    pub fn spawn(
        &mut self,
        session_id: &str,
        direction: TransferDirection,
        local_path: String,
        remote_path: String,
        group_id: Option<String>,
    ) -> (id: String)
        ensures
            is_uuid_text(id@),
            final(self)@.tasks == placed(
                old(self)@.tasks,
                queued(id@, opt_chars(group_id), session_id@, direction, local_path@, remote_path@),
            ),
            final(self)@.parked == old(self)@.parked,
            final(self)@.decisions == old(self)@.decisions,
            unique_ids(old(self)@.tasks) ==> unique_ids(final(self)@.tasks),
    {
        let id = new_id();
        let e = TaskEntry {
            task_id: id.clone(),
            group_id,
            session_id: String::from_str(session_id),
            direction,
            local_path,
            remote_path,
            status: TransferStatus::Queued,
            transferred_bytes: 0,
            total_bytes: 0,
            speed_bps: None,
            error: None,
            cancel: false,
            retries_left: MAX_RETRIES,
        };
        self.place(e);
        id
    }

    /// Flags task `id` as cancelled; a task still queued or waiting for a
    /// conflict answer ends as cancelled at once, one in progress stops at its
    /// next cancel check. Says whether it was parked on a conflict question,
    /// which it leaves: its worker is then woken to stop.
    pub fn cancel(&mut self, id: &str) -> (wake: bool)
        ensures
            match locate(old(self)@.tasks, id@) {
                Some(i) => {
                    &&& final(self)@.tasks == old(self)@.tasks.update(i, cancelled(old(self)@.tasks[i]))
                    &&& wake == old(self)@.parked.contains(id@)
                    &&& final(self)@.parked == old(self)@.parked.remove(id@)
                },
                None => final(self)@ == old(self)@ && !wake,
            },
            final(self)@.decisions == old(self)@.decisions,
            unique_ids(old(self)@.tasks) ==> unique_ids(final(self)@.tasks),
    {
        match self.find(id) {
            Some(i) => {
                let mut e = self.tasks[i].duplicate();
                e.cancel = true;
                if e.status == TransferStatus::Queued || e.status == TransferStatus::AwaitingConflict {
                    e.status = TransferStatus::Cancelled;
                    e.error = None;
                }
                self.put_at(i, e);
                let was = self.parked.remove(id);
                assert(self.parked@.dom() =~= old(self)@.parked.remove(id@));
                was
            },
            None => false,
        }
    }
}

impl TransferBook {
    /// The decision recorded for `group`, if any.
    pub fn group_decision(&self, group: Option<&str>) -> (r: Option<ConflictDecision>)
        ensures
            r == match group {
                Some(g) => if self@.decisions.contains_key(g@) {
                    Some(self@.decisions[g@])
                } else {
                    None
                },
                None => None,
            },
    {
        match group {
            Some(g) => self.decisions.get(g),
            None => None,
        }
    }

    /// The group of task `id`.
    fn group_of_task(&self, id: &str) -> (g: Option<String>)
        ensures
            opt_chars(g) == group_of(self@.tasks, id@),
    {
        match self.find(id) {
            Some(i) => clone_opt_string(&self.tasks[i].group_id),
            None => None,
        }
    }

    /// What the conflict check of task `id` decides under `policy`; none means
    /// the question goes to the user.
    pub fn conflict_choice(&self, id: &str, policy: ConflictPolicy) -> (r: Option<ConflictDecision>)
        ensures
            r == conflict_choice_spec(self@, id@, policy),
    {
        let g = self.group_of_task(id);
        if let Some(gs) = g {
            if let Some(d) = self.decisions.get(gs.as_str()) {
                return Some(d);
            }
        }
        match policy {
            ConflictPolicy::Ask => None,
            ConflictPolicy::Overwrite => Some(ConflictDecision::Overwrite),
            ConflictPolicy::Skip => Some(ConflictDecision::Skip),
            ConflictPolicy::KeepBoth => Some(ConflictDecision::KeepBoth),
        }
    }

    /// The policy a manual retry of task `id` runs under.
    pub fn retry_policy(&self, id: &str) -> (p: ConflictPolicy)
        ensures
            p == retry_policy_spec(self@, id@),
    {
        let g = self.group_of_task(id);
        if let Some(gs) = g {
            if let Some(d) = self.decisions.get(gs.as_str()) {
                return ConflictPolicy::from(d);
            }
        }
        ConflictPolicy::Overwrite
    }

    /// Puts a failed or cancelled task back in the queue with its progress,
    /// error and cancel flag cleared and its retries restored. Says whether it
    /// did; any other task (a completed one too) is left alone.
    pub fn retry(&mut self, id: &str) -> (restarted: bool)
        ensures
            match locate(old(self)@.tasks, id@) {
                Some(i) => if retryable(old(self)@.tasks[i].status) {
                    &&& final(self)@.tasks == old(self)@.tasks.update(i, requeued(old(self)@.tasks[i]))
                    &&& restarted
                } else {
                    final(self)@.tasks == old(self)@.tasks && !restarted
                },
                None => final(self)@.tasks == old(self)@.tasks && !restarted,
            },
            final(self)@.parked == old(self)@.parked,
            final(self)@.decisions == old(self)@.decisions,
            unique_ids(old(self)@.tasks) ==> unique_ids(final(self)@.tasks),
    {
        match self.find(id) {
            Some(i) => {
                let mut e = self.tasks[i].duplicate();
                if e.status == TransferStatus::Failed || e.status == TransferStatus::Cancelled {
                    let next = match e.status.transition_to(TransferStatus::Queued) {
                        Ok(s) => s,
                        Err(_) => TransferStatus::Queued,
                    };
                    e.status = next;
                    e.transferred_bytes = 0;
                    e.error = None;
                    e.speed_bps = None;
                    e.retries_left = MAX_RETRIES;
                    e.cancel = false;
                    self.put_at(i, e);
                    true
                } else {
                    false
                }
            },
            None => false,
        }
    }

    /// Drops task records: all of them, or with `finished_only` only the
    /// finished ones (completed, cancelled and failed), keeping the rest in
    /// order.
    pub fn clear(&mut self, finished_only: bool)
        ensures
            final(self)@.tasks == kept(old(self)@.tasks, finished_only),
            final(self)@.parked == old(self)@.parked,
            final(self)@.decisions == old(self)@.decisions,
    {
        let ghost ts = old(self)@.tasks;
        let mut out: Vec<TaskEntry> = Vec::new();
        let mut i: usize = 0;
        while i < self.tasks.len()
            invariant
                i <= self.tasks@.len(),
                ts == models(self.tasks@),
                models(out@) == kept(ts.subrange(0, i as int), finished_only),
            decreases self.tasks@.len() - i,
        {
            let ghost p = ts.subrange(0, i + 1);
            assert(p.drop_last() =~= ts.subrange(0, i as int));
            assert(p.last() == self.tasks@[i as int].model());
            let st = self.tasks[i].status;
            if finished_only && !(st.is_terminal() || st == TransferStatus::Failed) {
                let e = self.tasks[i].duplicate();
                let ghost before = out@;
                out.push(e);
                assert(models(out@) =~= models(before).push(e.model()));
            }
            i = i + 1;
        }
        assert(ts.subrange(0, self.tasks@.len() as int) =~= ts);
        self.tasks = out;
    }

    /// Snapshots of all tasks, in book order.
    pub fn list(&self) -> (r: Vec<TransferTask>)
        ensures
            r.len() == self@.tasks.len(),
            forall|i: int| 0 <= i < r.len() ==> shows(#[trigger] r[i], self@.tasks[i]),
    {
        let mut r: Vec<TransferTask> = Vec::new();
        let mut i: usize = 0;
        while i < self.tasks.len()
            invariant
                i <= self.tasks@.len(),
                r.len() == i,
                forall|k: int| 0 <= k < i ==> shows(#[trigger] r[k], self@.tasks[k]),
            decreases self.tasks@.len() - i,
        {
            r.push(self.tasks[i].snapshot());
            i = i + 1;
        }
        r
    }

    /// Whether task `id` was asked to cancel.
    pub fn is_cancelled(&self, id: &str) -> (b: bool)
        ensures
            b == match locate(self@.tasks, id@) {
                Some(i) => self@.tasks[i].cancel,
                None => false,
            },
    {
        match self.find(id) {
            Some(i) => self.tasks[i].cancel,
            None => false,
        }
    }

    /// The progress event of task `id`, as the front end receives it.
    pub fn progress_event(&self, id: &str) -> (r: Option<TransferProgressEvent>)
        ensures
            match locate(self@.tasks, id@) {
                Some(i) => r is Some && reports(r->Some_0, self@.tasks[i]),
                None => r is None,
            },
    {
        match self.find(id) {
            Some(i) => {
                let e = &self.tasks[i];
                Some(
                    TransferProgressEvent {
                        task_id: e.task_id.clone(),
                        group_id: clone_opt_string(&e.group_id),
                        status: String::from_str(e.status.as_str()),
                        transferred_bytes: e.transferred_bytes,
                        total_bytes: e.total_bytes,
                        speed_bps: e.speed_bps,
                        error: clone_opt_string(&e.error),
                    },
                )
            },
            None => None,
        }
    }

    /// Snapshot of task `id`.
    pub fn task(&self, id: &str) -> (r: Option<TransferTask>)
        ensures
            match locate(self@.tasks, id@) {
                Some(i) => r is Some && shows(r.unwrap(), self@.tasks[i]),
                None => r is None,
            },
    {
        match self.find(id) {
            Some(i) => Some(self.tasks[i].snapshot()),
            None => None,
        }
    }
}

impl TransferBook {
    /// Sets the status of task `id` (setting the same status again is allowed).
    pub fn set_status(&mut self, id: &str, next: TransferStatus)
        ensures
            final(self)@.tasks == edited(
                old(self)@.tasks,
                id@,
                |m: TaskModel| TaskModel { status: next, ..m },
            ),
            final(self)@.parked == old(self)@.parked,
            final(self)@.decisions == old(self)@.decisions,
            unique_ids(old(self)@.tasks) ==> unique_ids(final(self)@.tasks),
    {
        if let Some(i) = self.find(id) {
            let mut e = self.tasks[i].duplicate();
            if e.status != next {
                e.status = match e.status.transition_to(next) {
                    Ok(s) => s,
                    Err(_) => next,
                };
            }
            self.put_at(i, e);
        }
    }

    /// Ends task `id` in `status` with `error`.
    fn finish(&mut self, id: &str, status: TransferStatus, error: Option<String>)
        ensures
            final(self)@.tasks == edited(
                old(self)@.tasks,
                id@,
                |m: TaskModel| ended(m, status, opt_chars(error)),
            ),
            final(self)@.parked == old(self)@.parked,
            final(self)@.decisions == old(self)@.decisions,
            unique_ids(old(self)@.tasks) ==> unique_ids(final(self)@.tasks),
    {
        if let Some(i) = self.find(id) {
            let mut e = self.tasks[i].duplicate();
            e.error = error;
            e.status = status;
            self.put_at(i, e);
        }
    }

    /// Start of an attempt of task `id`: a cancelled task ends as cancelled
    /// (false); otherwise it is preparing (true).
    pub fn begin_attempt(&mut self, id: &str) -> (go: bool)
        ensures
            match locate(old(self)@.tasks, id@) {
                Some(i) => if old(self)@.tasks[i].cancel {
                    &&& final(self)@.tasks == old(self)@.tasks.update(
                        i,
                        ended(old(self)@.tasks[i], TransferStatus::Cancelled, None),
                    )
                    &&& !go
                } else {
                    &&& final(self)@.tasks == old(self)@.tasks.update(
                        i,
                        TaskModel { status: TransferStatus::Preparing, ..old(self)@.tasks[i] },
                    )
                    &&& go
                },
                None => final(self)@.tasks == old(self)@.tasks && !go,
            },
            final(self)@.parked == old(self)@.parked,
            final(self)@.decisions == old(self)@.decisions,
            unique_ids(old(self)@.tasks) ==> unique_ids(final(self)@.tasks),
    {
        match self.find(id) {
            Some(i) => {
                if self.tasks[i].cancel {
                    self.finish(id, TransferStatus::Cancelled, None);
                    false
                } else {
                    self.set_status(id, TransferStatus::Preparing);
                    true
                }
            },
            None => false,
        }
    }

    /// Records the size of task `id`'s source.
    pub fn set_total(&mut self, id: &str, total: u64)
        ensures
            final(self)@.tasks == edited(
                old(self)@.tasks,
                id@,
                |m: TaskModel| TaskModel { total: total, ..m },
            ),
            final(self)@.parked == old(self)@.parked,
            final(self)@.decisions == old(self)@.decisions,
            unique_ids(old(self)@.tasks) ==> unique_ids(final(self)@.tasks),
    {
        if let Some(i) = self.find(id) {
            let mut e = self.tasks[i].duplicate();
            e.total_bytes = total;
            self.put_at(i, e);
        }
    }

    /// Moves task `id`'s local target (a "keep both" rename).
    pub fn set_local(&mut self, id: &str, path: String)
        ensures
            final(self)@.tasks == edited(
                old(self)@.tasks,
                id@,
                |m: TaskModel| TaskModel { local: path@, ..m },
            ),
            final(self)@.parked == old(self)@.parked,
            final(self)@.decisions == old(self)@.decisions,
            unique_ids(old(self)@.tasks) ==> unique_ids(final(self)@.tasks),
    {
        if let Some(i) = self.find(id) {
            let mut e = self.tasks[i].duplicate();
            e.local_path = path;
            self.put_at(i, e);
        }
    }

    /// Moves task `id`'s remote target (a "keep both" rename).
    pub fn set_remote(&mut self, id: &str, path: String)
        ensures
            final(self)@.tasks == edited(
                old(self)@.tasks,
                id@,
                |m: TaskModel| TaskModel { remote: path@, ..m },
            ),
            final(self)@.parked == old(self)@.parked,
            final(self)@.decisions == old(self)@.decisions,
            unique_ids(old(self)@.tasks) ==> unique_ids(final(self)@.tasks),
    {
        if let Some(i) = self.find(id) {
            let mut e = self.tasks[i].duplicate();
            e.remote_path = path;
            self.put_at(i, e);
        }
    }

    /// Adds `bytes` to task `id`'s progress; a measured speed replaces the last.
    pub fn add_progress(&mut self, id: &str, bytes: u64, speed: Option<u64>)
        requires
            match locate(old(self)@.tasks, id@) {
                Some(i) => old(self)@.tasks[i].transferred + bytes <= u64::MAX,
                None => true,
            },
        ensures
            final(self)@.tasks == edited(
                old(self)@.tasks,
                id@,
                |m: TaskModel|
                    TaskModel {
                        transferred: (m.transferred + bytes) as u64,
                        speed: if speed.is_some() {
                            speed
                        } else {
                            m.speed
                        },
                        ..m
                    },
            ),
            final(self)@.parked == old(self)@.parked,
            final(self)@.decisions == old(self)@.decisions,
            unique_ids(old(self)@.tasks) ==> unique_ids(final(self)@.tasks),
    {
        if let Some(i) = self.find(id) {
            let mut e = self.tasks[i].duplicate();
            e.transferred_bytes = e.transferred_bytes + bytes;
            if speed.is_some() {
                e.speed_bps = speed;
            }
            self.put_at(i, e);
        }
    }

    /// Clears task `id`'s progress before a new attempt.
    pub fn reset_progress(&mut self, id: &str)
        ensures
            final(self)@.tasks == edited(
                old(self)@.tasks,
                id@,
                |m: TaskModel| TaskModel { transferred: 0, speed: None, ..m },
            ),
            final(self)@.parked == old(self)@.parked,
            final(self)@.decisions == old(self)@.decisions,
            unique_ids(old(self)@.tasks) ==> unique_ids(final(self)@.tasks),
    {
        if let Some(i) = self.find(id) {
            let mut e = self.tasks[i].duplicate();
            e.transferred_bytes = 0;
            e.speed_bps = None;
            self.put_at(i, e);
        }
    }

    /// Task `id` was skipped on a conflict: it ends as cancelled with `reason`.
    pub fn skip(&mut self, id: &str, reason: &str)
        ensures
            final(self)@.tasks == edited(
                old(self)@.tasks,
                id@,
                |m: TaskModel| ended(m, TransferStatus::Cancelled, Some(reason@)),
            ),
            final(self)@.parked == old(self)@.parked,
            final(self)@.decisions == old(self)@.decisions,
            unique_ids(old(self)@.tasks) ==> unique_ids(final(self)@.tasks),
    {
        self.finish(id, TransferStatus::Cancelled, Some(String::from_str(reason)));
    }

    /// Task `id` was transferred and renamed into place.
    pub fn complete(&mut self, id: &str)
        ensures
            final(self)@.tasks == edited(
                old(self)@.tasks,
                id@,
                |m: TaskModel| ended(m, TransferStatus::Completed, None),
            ),
            final(self)@.parked == old(self)@.parked,
            final(self)@.decisions == old(self)@.decisions,
            unique_ids(old(self)@.tasks) ==> unique_ids(final(self)@.tasks),
    {
        self.finish(id, TransferStatus::Completed, None);
    }

    /// Task `id` waits for the user's conflict answer.
    pub fn park(&mut self, id: &str)
        ensures
            final(self)@.tasks == edited(
                old(self)@.tasks,
                id@,
                |m: TaskModel| TaskModel { status: TransferStatus::AwaitingConflict, ..m },
            ),
            final(self)@.parked == old(self)@.parked.insert(id@),
            final(self)@.decisions == old(self)@.decisions,
            unique_ids(old(self)@.tasks) ==> unique_ids(final(self)@.tasks),
    {
        self.set_status(id, TransferStatus::AwaitingConflict);
        self.parked.insert(id, ());
        assert(self.parked@.dom() =~= old(self)@.parked.insert(id@));
    }

    /// A failed attempt of task `id` with `message`: a cancelled task ends as
    /// cancelled; with retries left one is used up, the message recorded and a
    /// backoff returned; otherwise the task failed with the message.
    pub fn after_error(&mut self, id: &str, message: &str) -> (r: AfterError)
        ensures
            match locate(old(self)@.tasks, id@) {
                Some(i) => {
                    &&& final(self)@.tasks == old(self)@.tasks.update(
                        i,
                        after_error_spec(old(self)@.tasks[i], message@).0,
                    )
                    &&& r == after_error_spec(old(self)@.tasks[i], message@).1
                },
                None => final(self)@.tasks == old(self)@.tasks && r == AfterError::Failed,
            },
            final(self)@.parked == old(self)@.parked,
            final(self)@.decisions == old(self)@.decisions,
            unique_ids(old(self)@.tasks) ==> unique_ids(final(self)@.tasks),
    {
        match self.find(id) {
            Some(i) => {
                let mut e = self.tasks[i].duplicate();
                if e.cancel {
                    e.error = None;
                    e.status = TransferStatus::Cancelled;
                    self.put_at(i, e);
                    AfterError::Cancelled
                } else if e.retries_left == 0 {
                    e.error = Some(String::from_str(message));
                    e.status = TransferStatus::Failed;
                    self.put_at(i, e);
                    AfterError::Failed
                } else {
                    let left = e.retries_left - 1;
                    e.retries_left = left;
                    e.error = Some(String::from_str(message));
                    self.put_at(i, e);
                    let step = MAX_RETRIES - left;
                    let ms: u64 = if step == 1 {
                        1000
                    } else {
                        2000
                    };
                    proof {
                        reveal_with_fuel(backoff_ms, 3);
                    }
                    AfterError::Retry(ms)
                }
            },
            None => AfterError::Failed,
        }
    }
}

/// The parked tasks among the first `n` tasks of group `g` other than `id`, plus
/// `id` itself if parked.
pub open spec fn woken_prefix(
    parked: Set<Seq<char>>,
    ts: Seq<TaskModel>,
    id: Seq<char>,
    g: Seq<char>,
    n: int,
) -> Set<Seq<char>> {
    Set::new(
        |s: Seq<char>|
            parked.contains(s) && (s == id || other_in_group(ts.subrange(0, n), s, id, g)),
    )
}

impl TransferBook {
    /// Answers the conflict question of task `id`: wakes it if it is parked,
    /// and with `apply_to_remaining` records the decision for its group and
    /// wakes every other parked task of the group. Gives back the identities
    /// to wake with `decision`.
    pub fn respond_conflict(
        &mut self,
        id: &str,
        decision: ConflictDecision,
        apply_to_remaining: bool,
    ) -> (woken: Vec<String>)
        ensures
            final(self)@.tasks == old(self)@.tasks,
            final(self)@.parked == old(self)@.parked.difference(
                woken_set(old(self)@, id@, apply_to_remaining),
            ),
            forall|k: int|
                0 <= k < woken.len() ==> woken_set(old(self)@, id@, apply_to_remaining).contains(
                    #[trigger] woken[k]@,
                ),
            forall|x: Seq<char>|
                woken_set(old(self)@, id@, apply_to_remaining).contains(x) ==> exists|k: int|
                    0 <= k < woken.len() && #[trigger] woken[k]@ == x,
            final(self)@.decisions == match group_of(old(self)@.tasks, id@) {
                Some(g) => if apply_to_remaining {
                    old(self)@.decisions.insert(g, decision)
                } else {
                    old(self)@.decisions
                },
                None => old(self)@.decisions,
            },
    {
        let ghost b0 = old(self)@;
        let ghost ws = woken_set(b0, id@, apply_to_remaining);
        let mut woken: Vec<String> = Vec::new();
        let was = self.parked.remove(id);
        if was {
            woken.push(String::from_str(id));
        }
        let group = self.group_of_task(id);
        if apply_to_remaining && group.is_some() {
            let g = group.unwrap();
            let ghost gs = g@;
            self.decisions.insert(g.as_str(), decision);
            let k = String::from_str(id);
            let mut j: usize = 0;
            assert(b0.tasks.subrange(0, 0) =~= Seq::<TaskModel>::empty());
            proof {
                let w0 = woken_prefix(b0.parked, b0.tasks, id@, gs, 0);
                assert forall|x: Seq<char>| w0.contains(x) implies x == id@ by {
                    if x != id@ {
                        assert(!other_in_group(b0.tasks.subrange(0, 0), x, id@, gs));
                    }
                }
                assert(self.parked@.dom() =~= b0.parked.difference(w0));
                assert forall|x: Seq<char>| w0.contains(x) implies exists|q: int|
                    0 <= q < woken.len() && #[trigger] woken[q]@ == x by {
                    assert(woken[0]@ == x);
                }
            }
            while j < self.tasks.len()
                invariant
                    j <= self.tasks@.len(),
                    b0.tasks == models(self.tasks@),
                    self.decisions@ == b0.decisions.insert(gs, decision),
                    k@ == id@,
                    g@ == gs,
                    self.parked@.dom() == b0.parked.difference(
                        woken_prefix(b0.parked, b0.tasks, id@, gs, j as int),
                    ),
                    forall|q: int|
                        0 <= q < woken.len() ==> woken_prefix(
                            b0.parked,
                            b0.tasks,
                            id@,
                            gs,
                            j as int,
                        ).contains(#[trigger] woken[q]@),
                    forall|x: Seq<char>|
                        woken_prefix(b0.parked, b0.tasks, id@, gs, j as int).contains(x) ==> exists|
                            q: int,
                        | 0 <= q < woken.len() && #[trigger] woken[q]@ == x,
                decreases self.tasks@.len() - j,
            {
                let ghost before = woken_prefix(b0.parked, b0.tasks, id@, gs, j as int);
                let ghost after = woken_prefix(b0.parked, b0.tasks, id@, gs, j + 1);
                let ghost m = b0.tasks[j as int];
                assert(m == self.tasks@[j as int].model());
                let in_group = match &self.tasks[j].group_id {
                    Some(x) => *x == g,
                    None => false,
                };
                let differs = !(self.tasks[j].task_id == k);
                proof {
                    assert forall|x: Seq<char>|
                        other_in_group(b0.tasks.subrange(0, j + 1), x, id@, gs) == (
                        other_in_group(b0.tasks.subrange(0, j as int), x, id@, gs) || (x == m.id
                            && x != id@ && m.group == Some(gs))) by {
                        let p = b0.tasks.subrange(0, j + 1);
                        let q = b0.tasks.subrange(0, j as int);
                        if other_in_group(p, x, id@, gs) {
                            let w = choose|w: int|
                                0 <= w < p.len() && #[trigger] p[w].id == x && p[w].group == Some(
                                    gs,
                                );
                            if w < j {
                                assert(q[w] == p[w]);
                            }
                        }
                        if other_in_group(q, x, id@, gs) {
                            let w = choose|w: int|
                                0 <= w < q.len() && #[trigger] q[w].id == x && q[w].group == Some(
                                    gs,
                                );
                            assert(p[w] == q[w]);
                        }
                        if x == m.id && x != id@ && m.group == Some(gs) {
                            assert(p[j as int] == m);
                        }
                    }
                }
                if in_group && differs {
                    let removed = self.parked.remove(self.tasks[j].task_id.as_str());
                    if removed {
                        let ghost prev = woken@;
                        woken.push(self.tasks[j].task_id.clone());
                        assert(after =~= before.insert(m.id));
                        proof {
                            assert forall|x: Seq<char>| after.contains(x) implies exists|q: int|
                                0 <= q < woken.len() && #[trigger] woken[q]@ == x by {
                                if x == m.id {
                                    assert(woken[prev.len() as int]@ == x);
                                } else {
                                    let q = choose|q: int|
                                        0 <= q < prev.len() && #[trigger] prev[q]@ == x;
                                    assert(woken[q] == prev[q]);
                                }
                            }
                            assert forall|q: int| 0 <= q < woken.len() implies after.contains(
                                #[trigger] woken[q]@,
                            ) by {
                                if q < prev.len() {
                                    assert(woken[q] == prev[q]);
                                }
                            }
                        }
                    } else {
                        assert(after =~= before);
                    }
                    assert(self.parked@.dom() =~= b0.parked.difference(after));
                } else {
                    assert(after =~= before);
                }
                j = j + 1;
            }
            assert(b0.tasks.subrange(0, self.tasks@.len() as int) =~= b0.tasks);
            assert(ws =~= woken_prefix(b0.parked, b0.tasks, id@, gs, self.tasks@.len() as int));
            assert(self.decisions@ == b0.decisions.insert(gs, decision));
        } else {
            assert(ws =~= (if was { set![id@] } else { Set::empty() }));
            assert(self.parked@.dom() =~= b0.parked.difference(ws));
            assert forall|x: Seq<char>| ws.contains(x) implies exists|q: int|
                0 <= q < woken.len() && #[trigger] woken[q]@ == x by {
                assert(woken[0]@ == x);
            }
        }
        woken
    }
}

} // verus!
