//! The preparation of one transfer attempt as a step machine: measure the
//! source, make the remote parents (uploads), look for a file at the target,
//! settle a name conflict (skip, overwrite, or find a free "keep both" name),
//! make the local parent (downloads), and name the paths the bytes go between.
//!
//! The worker performs each action (file system and network calls, waiting
//! for the user's answer) and hands the outcome back as an event.

use vstd::prelude::*;

use super::book::{policy_of, ConflictDecision, ConflictPolicy};
use super::engine::{skip_reason, staged_paths};
use super::paths::{
    local_candidate, local_candidate_spec, local_parent, parent_local, partial_path,
    partial_suffix, remote_candidate, remote_candidate_spec,
};
use crate::application::ports::TransferDirection;

verus! {

/// The last index tried for a "keep both" name (`name (1)` … `name (99)`).
pub const LAST_NAME_INDEX: u64 = 99;

/// Where a preparation stands.
pub enum PrepStage {
    /// Waiting for the source file's size.
    Measuring,
    /// Waiting for the remote parents of the target (uploads).
    MakingRemoteParents,
    /// Waiting to learn whether a file is at the target.
    ProbingTarget,
    /// Waiting for the conflict decision.
    Deciding,
    /// Waiting to learn whether the `index`-th "keep both" name is taken.
    ProbingName(u64),
    /// Waiting for this local directory (the download target's parent).
    MakingLocalDir(String),
    /// Ended: the conflict was answered with "skip".
    Skipped,
    /// Ended: the transfer may start.
    Ready,
    /// Ended: the attempt failed with this message.
    Failed(String),
}

/// What the worker does next.
pub enum PrepAction {
    /// Read the size of the source file (the local file of an upload, the
    /// remote file of a download) at this path.
    MeasureSource(String),
    /// Create the missing remote parents of this path.
    MakeRemoteParents(String),
    /// Tell whether a file is at this target path.
    ProbeTarget(String),
    /// Get the conflict decision (the group's, the policy's, or the user's).
    Decide,
    /// Tell whether this candidate name is taken.
    ProbeName(String),
    /// Create this local directory.
    MakeLocalDir(String),
    /// Ended: the task is skipped, for this reason.
    Skip(String),
    /// Ended: move the bytes from `local` to `remote` (an upload) or from
    /// `remote` to `local` (a download); one of them is the temporary name.
    /// `overwrite` says that an existing target is to be replaced.
    Transfer { local: String, remote: String, overwrite: bool },
    /// Ended: the attempt failed with this message.
    Fail(String),
}

/// The outcome of the last action.
pub enum PrepEvent {
    /// The source's size, `None` where no such file exists.
    Measured(Result<Option<u64>, String>),
    /// A directory (or the remote parents) was made, or not.
    Made(Result<(), String>),
    /// Whether a file is at the probed path (target or candidate name).
    Exists(bool),
    /// The conflict decision, or why none came.
    Decided(Result<ConflictDecision, String>),
}

/// A stage as the contracts see it.
pub enum StageModel {
    Measuring,
    MakingRemoteParents,
    ProbingTarget,
    Deciding,
    ProbingName(nat),
    MakingLocalDir(Seq<char>),
    Skipped,
    Ready,
    Failed(Seq<char>),
}

/// An action as the contracts see it.
pub enum ActionModel {
    MeasureSource(Seq<char>),
    MakeRemoteParents(Seq<char>),
    ProbeTarget(Seq<char>),
    Decide,
    ProbeName(Seq<char>),
    MakeLocalDir(Seq<char>),
    Skip(Seq<char>),
    Transfer(Seq<char>, Seq<char>, bool),
    Fail(Seq<char>),
}

/// A preparation as the contracts see it.
pub struct PrepModel {
    pub direction: TransferDirection,
    pub local: Seq<char>,
    pub remote: Seq<char>,
    pub total: Option<u64>,
    pub overwrite: bool,
    pub policy: ConflictPolicy,
    pub sep: char,
    pub stage: StageModel,
}

/// The preparation of one attempt of a task.
pub struct Preparation {
    /// The task's direction.
    pub direction: TransferDirection,
    /// The local path (renamed by a "keep both" download).
    pub local: String,
    /// The remote path (renamed by a "keep both" upload).
    pub remote: String,
    /// The source's size, once measured.
    pub total: Option<u64>,
    /// Whether an existing target is to be replaced.
    pub overwrite: bool,
    /// The conflict policy; a decision replaces it, so that later attempts
    /// repeat the answer.
    pub policy: ConflictPolicy,
    /// The local path separator.
    pub sep: char,
    /// Where the preparation stands.
    pub stage: PrepStage,
}

impl View for PrepStage {
    type V = StageModel;

    open spec fn view(&self) -> StageModel {
        match self {
            PrepStage::Measuring => StageModel::Measuring,
            PrepStage::MakingRemoteParents => StageModel::MakingRemoteParents,
            PrepStage::ProbingTarget => StageModel::ProbingTarget,
            PrepStage::Deciding => StageModel::Deciding,
            PrepStage::ProbingName(k) => StageModel::ProbingName(*k as nat),
            PrepStage::MakingLocalDir(p) => StageModel::MakingLocalDir(p@),
            PrepStage::Skipped => StageModel::Skipped,
            PrepStage::Ready => StageModel::Ready,
            PrepStage::Failed(m) => StageModel::Failed(m@),
        }
    }
}

impl View for PrepAction {
    type V = ActionModel;

    open spec fn view(&self) -> ActionModel {
        match self {
            PrepAction::MeasureSource(p) => ActionModel::MeasureSource(p@),
            PrepAction::MakeRemoteParents(p) => ActionModel::MakeRemoteParents(p@),
            PrepAction::ProbeTarget(p) => ActionModel::ProbeTarget(p@),
            PrepAction::Decide => ActionModel::Decide,
            PrepAction::ProbeName(p) => ActionModel::ProbeName(p@),
            PrepAction::MakeLocalDir(p) => ActionModel::MakeLocalDir(p@),
            PrepAction::Skip(r) => ActionModel::Skip(r@),
            PrepAction::Transfer { local, remote, overwrite } => ActionModel::Transfer(
                local@,
                remote@,
                *overwrite,
            ),
            PrepAction::Fail(m) => ActionModel::Fail(m@),
        }
    }
}

impl View for Preparation {
    type V = PrepModel;

    open spec fn view(&self) -> PrepModel {
        PrepModel {
            direction: self.direction,
            local: self.local@,
            remote: self.remote@,
            total: self.total,
            overwrite: self.overwrite,
            policy: self.policy,
            sep: self.sep,
            stage: self.stage@,
        }
    }
}

/// The message of a source that does not exist.
pub open spec fn missing_source(d: TransferDirection) -> Seq<char> {
    match d {
        TransferDirection::Upload => "本地文件不存在"@,
        TransferDirection::Download => "远端文件不存在"@,
    }
}

/// The reason a skipped task reports: the target that was kept.
pub open spec fn skip_text(d: TransferDirection) -> Seq<char> {
    match d {
        TransferDirection::Upload => "已跳过(同名保留远端)"@,
        TransferDirection::Download => "已跳过(同名保留本地)"@,
    }
}

/// The message of a local directory that could not be made.
pub open spec fn local_dir_failure(e: Seq<char>) -> Seq<char> {
    "本地目录创建失败:"@ + e
}

/// The path a conflict is about: the remote file of an upload, the local file
/// of a download.
pub open spec fn target_of(m: PrepModel) -> Seq<char> {
    match m.direction {
        TransferDirection::Upload => m.remote,
        TransferDirection::Download => m.local,
    }
}

/// The `k`-th "keep both" name of the target.
pub open spec fn candidate_of(m: PrepModel, k: nat) -> Seq<char> {
    match m.direction {
        TransferDirection::Upload => remote_candidate_spec(m.remote, k),
        TransferDirection::Download => local_candidate_spec(m.local, k, m.sep),
    }
}

/// The target's name when every candidate is taken: the temporary name of an
/// upload, the unchanged name of a download.
pub open spec fn fallback_of(m: PrepModel) -> Seq<char> {
    match m.direction {
        TransferDirection::Upload => m.remote + partial_suffix(),
        TransferDirection::Download => m.local,
    }
}

/// `m` with its target renamed to `name`.
pub open spec fn renamed(m: PrepModel, name: Seq<char>) -> PrepModel {
    match m.direction {
        TransferDirection::Upload => PrepModel { remote: name, ..m },
        TransferDirection::Download => PrepModel { local: name, ..m },
    }
}

/// Once the conflict is settled: an upload is ready; a download first makes
/// its local parent directory, where the path has one.
pub open spec fn settled(m: PrepModel) -> PrepModel {
    match m.direction {
        TransferDirection::Upload => PrepModel { stage: StageModel::Ready, ..m },
        TransferDirection::Download => match local_parent(m.local, m.sep) {
            Some(p) => PrepModel { stage: StageModel::MakingLocalDir(p), ..m },
            None => PrepModel { stage: StageModel::Ready, ..m },
        },
    }
}

/// `m` ended with this failure.
pub open spec fn failed(m: PrepModel, message: Seq<char>) -> PrepModel {
    PrepModel { stage: StageModel::Failed(message), ..m }
}

/// The next state after event `e`; an event that does not answer the pending
/// action changes nothing.
pub open spec fn step_spec(m: PrepModel, e: PrepEvent) -> PrepModel {
    match m.stage {
        StageModel::Measuring => match e {
            PrepEvent::Measured(Err(msg)) => failed(m, msg@),
            PrepEvent::Measured(Ok(None)) => failed(m, missing_source(m.direction)),
            PrepEvent::Measured(Ok(Some(n))) => PrepModel {
                total: Some(n),
                stage: match m.direction {
                    TransferDirection::Upload => StageModel::MakingRemoteParents,
                    TransferDirection::Download => StageModel::ProbingTarget,
                },
                ..m
            },
            _ => m,
        },
        StageModel::MakingRemoteParents => match e {
            PrepEvent::Made(Err(msg)) => failed(m, msg@),
            PrepEvent::Made(Ok(())) => PrepModel { stage: StageModel::ProbingTarget, ..m },
            _ => m,
        },
        StageModel::ProbingTarget => match e {
            PrepEvent::Exists(true) => PrepModel { stage: StageModel::Deciding, ..m },
            PrepEvent::Exists(false) => settled(m),
            _ => m,
        },
        StageModel::Deciding => match e {
            PrepEvent::Decided(Err(msg)) => failed(m, msg@),
            PrepEvent::Decided(Ok(d)) => {
                let m2 = PrepModel { policy: policy_of(d), ..m };
                match d {
                    ConflictDecision::Skip => PrepModel { stage: StageModel::Skipped, ..m2 },
                    ConflictDecision::KeepBoth => PrepModel {
                        stage: StageModel::ProbingName(1),
                        ..m2
                    },
                    ConflictDecision::Overwrite => settled(PrepModel { overwrite: true, ..m2 }),
                }
            },
            _ => m,
        },
        StageModel::ProbingName(k) => match e {
            PrepEvent::Exists(false) => settled(renamed(m, candidate_of(m, k))),
            PrepEvent::Exists(true) => if k < LAST_NAME_INDEX {
                PrepModel { stage: StageModel::ProbingName(k + 1), ..m }
            } else {
                settled(renamed(m, fallback_of(m)))
            },
            _ => m,
        },
        StageModel::MakingLocalDir(_) => match e {
            PrepEvent::Made(Err(msg)) => failed(m, local_dir_failure(msg@)),
            PrepEvent::Made(Ok(())) => PrepModel { stage: StageModel::Ready, ..m },
            _ => m,
        },
        _ => m,
    }
}

/// The action a state asks for.
pub open spec fn action_spec(m: PrepModel) -> ActionModel {
    match m.stage {
        StageModel::Measuring => ActionModel::MeasureSource(
            match m.direction {
                TransferDirection::Upload => m.local,
                TransferDirection::Download => m.remote,
            },
        ),
        StageModel::MakingRemoteParents => ActionModel::MakeRemoteParents(m.remote),
        StageModel::ProbingTarget => ActionModel::ProbeTarget(target_of(m)),
        StageModel::Deciding => ActionModel::Decide,
        StageModel::ProbingName(k) => ActionModel::ProbeName(candidate_of(m, k)),
        StageModel::MakingLocalDir(p) => ActionModel::MakeLocalDir(p),
        StageModel::Skipped => ActionModel::Skip(skip_text(m.direction)),
        StageModel::Ready => match m.direction {
            TransferDirection::Upload => ActionModel::Transfer(
                m.local,
                m.remote + partial_suffix(),
                m.overwrite,
            ),
            TransferDirection::Download => ActionModel::Transfer(
                m.local + partial_suffix(),
                m.remote,
                m.overwrite,
            ),
        },
        StageModel::Failed(msg) => ActionModel::Fail(msg),
    }
}

/// Whether the preparation has ended.
pub open spec fn ended(m: PrepModel) -> bool {
    m.stage is Skipped || m.stage is Ready || m.stage is Failed
}

/// A candidate index in range: between 1 and the last index.
pub open spec fn index_ok(s: StageModel) -> bool {
    s matches StageModel::ProbingName(k) ==> 1 <= k <= LAST_NAME_INDEX
}

/// Whether `e` answers the action that stage `s` asks for.
pub open spec fn answers(s: StageModel, e: PrepEvent) -> bool {
    match s {
        StageModel::Measuring => e is Measured,
        StageModel::MakingRemoteParents => e is Made,
        StageModel::ProbingTarget => e is Exists,
        StageModel::Deciding => e is Decided,
        StageModel::ProbingName(_) => e is Exists,
        StageModel::MakingLocalDir(_) => e is Made,
        _ => false,
    }
}

/// How many answered actions a preparation needs at most before it ends.
pub open spec fn steps_left(s: StageModel) -> int {
    match s {
        StageModel::Measuring => LAST_NAME_INDEX + 7,
        StageModel::MakingRemoteParents => LAST_NAME_INDEX + 6,
        StageModel::ProbingTarget => LAST_NAME_INDEX + 5,
        StageModel::Deciding => LAST_NAME_INDEX + 4,
        StageModel::ProbingName(k) => LAST_NAME_INDEX + 3 - k,
        StageModel::MakingLocalDir(_) => 1,
        _ => 0,
    }
}

/// Law: a preparation cannot go on for ever. Only an ended preparation has no
/// step left, and every event that answers the pending action leaves fewer
/// steps, so that at most `LAST_NAME_INDEX + 7` answered actions end it.
pub proof fn law_preparation_ends(m: PrepModel, e: PrepEvent)
    requires
        index_ok(m.stage),
    ensures
        ended(m) <==> steps_left(m.stage) == 0,
        0 <= steps_left(m.stage) <= LAST_NAME_INDEX + 7,
        answers(m.stage, e) ==> steps_left(step_spec(m, e).stage) < steps_left(m.stage),
        index_ok(step_spec(m, e).stage),
{
}

/// Law: an "overwrite" answer is carried to the transfer. From a conflict
/// question, answering "overwrite" (and, for a download, making its local
/// directory) leaves the preparation ready to move the bytes to the temporary
/// name with `overwrite` set, for uploads and downloads alike; and no step ever
/// clears an overwrite once chosen.
pub proof fn law_overwrite_answer_is_kept(m: PrepModel, e: PrepEvent)
    requires
        index_ok(m.stage),
    ensures
        m.stage is Deciding ==> ({
            let m1 = step_spec(m, PrepEvent::Decided(Ok(ConflictDecision::Overwrite)));
            let m2 = if m1.stage is MakingLocalDir {
                step_spec(m1, PrepEvent::Made(Ok(())))
            } else {
                m1
            };
            &&& m2.stage is Ready
            &&& action_spec(m2) == match m.direction {
                TransferDirection::Upload => ActionModel::Transfer(
                    m.local,
                    m.remote + partial_suffix(),
                    true,
                ),
                TransferDirection::Download => ActionModel::Transfer(
                    m.local + partial_suffix(),
                    m.remote,
                    true,
                ),
            }
        }),
        m.overwrite ==> step_spec(m, e).overwrite,
{
}

/// Law: a download makes its local directory before moving bytes, and an
/// upload with no file at its target moves them at once. When no file is at
/// the target, a download whose local path has a parent directory asks for that
/// directory to be made; otherwise the transfer to the temporary name follows.
pub proof fn law_free_target_goes_ahead(m: PrepModel)
    requires
        m.stage is ProbingTarget,
    ensures
        ({
            let a = action_spec(step_spec(m, PrepEvent::Exists(false)));
            match m.direction {
                TransferDirection::Upload => a == ActionModel::Transfer(
                    m.local,
                    m.remote + partial_suffix(),
                    m.overwrite,
                ),
                TransferDirection::Download => match local_parent(m.local, m.sep) {
                    Some(p) => a == ActionModel::MakeLocalDir(p),
                    None => a == ActionModel::Transfer(m.local + partial_suffix(), m.remote, m.overwrite),
                },
            }
        }),
{
}

impl Preparation {
    /// A fresh preparation of a task with these paths, whose local paths use
    /// `sep`, under the conflict policy `policy`.
    pub fn new(
        direction: TransferDirection,
        local: &str,
        remote: &str,
        policy: ConflictPolicy,
        sep: char,
    ) -> (p: Self)
        ensures
            p@ == (PrepModel {
                direction,
                local: local@,
                remote: remote@,
                total: None,
                overwrite: false,
                policy,
                sep,
                stage: StageModel::Measuring,
            }),
    {
        Preparation {
            direction,
            local: String::from_str(local),
            remote: String::from_str(remote),
            total: None,
            overwrite: false,
            policy,
            sep,
            stage: PrepStage::Measuring,
        }
    }

    /// The action the current state asks for.
    pub fn pending(&self) -> (a: PrepAction)
        requires
            index_ok(self@.stage),
        ensures
            a@ == action_spec(self@),
    {
        match &self.stage {
            PrepStage::Measuring => match self.direction {
                TransferDirection::Upload => PrepAction::MeasureSource(
                    String::from_str(self.local.as_str()),
                ),
                TransferDirection::Download => PrepAction::MeasureSource(
                    String::from_str(self.remote.as_str()),
                ),
            },
            PrepStage::MakingRemoteParents => PrepAction::MakeRemoteParents(
                String::from_str(self.remote.as_str()),
            ),
            PrepStage::ProbingTarget => match self.direction {
                TransferDirection::Upload => PrepAction::ProbeTarget(
                    String::from_str(self.remote.as_str()),
                ),
                TransferDirection::Download => PrepAction::ProbeTarget(
                    String::from_str(self.local.as_str()),
                ),
            },
            PrepStage::Deciding => PrepAction::Decide,
            PrepStage::ProbingName(k) => PrepAction::ProbeName(self.candidate(*k)),
            PrepStage::MakingLocalDir(p) => PrepAction::MakeLocalDir(String::from_str(p.as_str())),
            PrepStage::Skipped => PrepAction::Skip(String::from_str(skip_reason(self.direction))),
            PrepStage::Ready => {
                let (local, remote) = staged_paths(
                    self.direction,
                    self.local.as_str(),
                    self.remote.as_str(),
                );
                PrepAction::Transfer { local, remote, overwrite: self.overwrite }
            },
            PrepStage::Failed(m) => PrepAction::Fail(String::from_str(m.as_str())),
        }
    }

    /// The `k`-th "keep both" name of the target.
    fn candidate(&self, k: u64) -> (c: String)
        ensures
            c@ == candidate_of(self@, k as nat),
    {
        match self.direction {
            TransferDirection::Upload => remote_candidate(self.remote.as_str(), k),
            TransferDirection::Download => local_candidate(self.local.as_str(), k, self.sep),
        }
    }

    /// Moves on once the conflict is settled (see `settled`).
    fn settle(&mut self)
        ensures
            final(self)@ == settled(old(self)@),
    {
        match self.direction {
            TransferDirection::Upload => {
                self.stage = PrepStage::Ready;
            },
            TransferDirection::Download => {
                match parent_local(self.local.as_str(), self.sep) {
                    Some(p) => {
                        self.stage = PrepStage::MakingLocalDir(p);
                    },
                    None => {
                        self.stage = PrepStage::Ready;
                    },
                }
            },
        }
    }

    /// Renames the target to `name`.
    fn rename_target(&mut self, name: String)
        ensures
            final(self)@ == renamed(old(self)@, name@),
    {
        match self.direction {
            TransferDirection::Upload => {
                self.remote = name;
            },
            TransferDirection::Download => {
                self.local = name;
            },
        }
    }

    /// Takes in the outcome of the pending action.
    pub fn step(&mut self, event: PrepEvent)
        requires
            index_ok(old(self)@.stage),
        ensures
            final(self)@ == step_spec(old(self)@, event),
            index_ok(final(self)@.stage),
    {
        let mut stage = PrepStage::Skipped;
        std::mem::swap(&mut stage, &mut self.stage);
        match stage {
            PrepStage::Measuring => match event {
                PrepEvent::Measured(Err(msg)) => {
                    self.stage = PrepStage::Failed(msg);
                },
                PrepEvent::Measured(Ok(None)) => {
                    let text = match self.direction {
                        TransferDirection::Upload => "本地文件不存在",
                        TransferDirection::Download => "远端文件不存在",
                    };
                    self.stage = PrepStage::Failed(String::from_str(text));
                },
                PrepEvent::Measured(Ok(Some(n))) => {
                    self.total = Some(n);
                    self.stage = match self.direction {
                        TransferDirection::Upload => PrepStage::MakingRemoteParents,
                        TransferDirection::Download => PrepStage::ProbingTarget,
                    };
                },
                _ => {
                    self.stage = PrepStage::Measuring;
                },
            },
            PrepStage::MakingRemoteParents => match event {
                PrepEvent::Made(Err(msg)) => {
                    self.stage = PrepStage::Failed(msg);
                },
                PrepEvent::Made(Ok(())) => {
                    self.stage = PrepStage::ProbingTarget;
                },
                _ => {
                    self.stage = PrepStage::MakingRemoteParents;
                },
            },
            PrepStage::ProbingTarget => match event {
                PrepEvent::Exists(true) => {
                    self.stage = PrepStage::Deciding;
                },
                PrepEvent::Exists(false) => {
                    self.settle();
                },
                _ => {
                    self.stage = PrepStage::ProbingTarget;
                },
            },
            PrepStage::Deciding => match event {
                PrepEvent::Decided(Err(msg)) => {
                    self.stage = PrepStage::Failed(msg);
                },
                PrepEvent::Decided(Ok(d)) => {
                    self.policy = ConflictPolicy::from(d);
                    match d {
                        ConflictDecision::Skip => {
                            self.stage = PrepStage::Skipped;
                        },
                        ConflictDecision::KeepBoth => {
                            self.stage = PrepStage::ProbingName(1);
                        },
                        ConflictDecision::Overwrite => {
                            self.overwrite = true;
                            self.settle();
                        },
                    }
                },
                _ => {
                    self.stage = PrepStage::Deciding;
                },
            },
            PrepStage::ProbingName(k) => match event {
                PrepEvent::Exists(false) => {
                    let name = self.candidate(k);
                    self.rename_target(name);
                    self.settle();
                },
                PrepEvent::Exists(true) => {
                    if k < LAST_NAME_INDEX {
                        self.stage = PrepStage::ProbingName(k + 1);
                    } else {
                        let name = match self.direction {
                            TransferDirection::Upload => partial_path(self.remote.as_str()),
                            TransferDirection::Download => String::from_str(self.local.as_str()),
                        };
                        self.rename_target(name);
                        self.settle();
                    }
                },
                _ => {
                    self.stage = PrepStage::ProbingName(k);
                },
            },
            PrepStage::MakingLocalDir(p) => match event {
                PrepEvent::Made(Err(msg)) => {
                    let mut text = String::from_str("本地目录创建失败:");
                    text.append(msg.as_str());
                    self.stage = PrepStage::Failed(text);
                },
                PrepEvent::Made(Ok(())) => {
                    self.stage = PrepStage::Ready;
                },
                _ => {
                    self.stage = PrepStage::MakingLocalDir(p);
                },
            },
            other => {
                self.stage = other;
            },
        }
    }
}

} // verus!
