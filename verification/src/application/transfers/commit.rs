//! The last part of a transfer attempt as a step machine: once the bytes are
//! under the temporary name, an existing target that is to be replaced goes
//! first, then the temporary file takes the target's name.

use vstd::prelude::*;

use super::paths::{partial_path, partial_suffix};
use crate::application::ports::TransferDirection;

verus! {

/// Where a commit stands.
pub enum CommitStage {
    /// Waiting to learn whether a file is at the target (overwrite only).
    CheckingTarget,
    /// Waiting for the old target's removal.
    RemovingTarget,
    /// Waiting for the temporary file's rename.
    Renaming,
    /// Ended: the file is in place.
    Done,
    /// Ended: the attempt failed with this message.
    Failed(String),
}

/// What the worker does next.
pub enum CommitAction {
    /// Tell whether a file is at this target path.
    ProbeTarget(String),
    /// Remove the file at this target path.
    RemoveTarget(String),
    /// Rename the temporary file `from` to `to`.
    Rename { from: String, to: String },
    /// Ended: the file is in place.
    Done,
    /// Ended: the attempt failed with this message.
    Fail(String),
}

/// The outcome of the last action.
pub enum CommitEvent {
    /// Whether a file is at the target.
    Exists(bool),
    /// The removal or rename happened, or not.
    Finished(Result<(), String>),
}

/// A commit stage as the contracts see it.
pub enum CommitStageModel {
    CheckingTarget,
    RemovingTarget,
    Renaming,
    Done,
    Failed(Seq<char>),
}

/// A commit action as the contracts see it.
pub enum CommitActionModel {
    ProbeTarget(Seq<char>),
    RemoveTarget(Seq<char>),
    Rename(Seq<char>, Seq<char>),
    Done,
    Fail(Seq<char>),
}

/// The commit of one attempt.
pub struct Commit {
    /// The task's direction.
    pub direction: TransferDirection,
    /// The final path: the remote file of an upload, the local file of a download.
    pub target: String,
    /// Where the commit stands.
    pub stage: CommitStage,
}

impl View for CommitStage {
    type V = CommitStageModel;

    open spec fn view(&self) -> CommitStageModel {
        match self {
            CommitStage::CheckingTarget => CommitStageModel::CheckingTarget,
            CommitStage::RemovingTarget => CommitStageModel::RemovingTarget,
            CommitStage::Renaming => CommitStageModel::Renaming,
            CommitStage::Done => CommitStageModel::Done,
            CommitStage::Failed(m) => CommitStageModel::Failed(m@),
        }
    }
}

impl View for CommitAction {
    type V = CommitActionModel;

    open spec fn view(&self) -> CommitActionModel {
        match self {
            CommitAction::ProbeTarget(p) => CommitActionModel::ProbeTarget(p@),
            CommitAction::RemoveTarget(p) => CommitActionModel::RemoveTarget(p@),
            CommitAction::Rename { from, to } => CommitActionModel::Rename(from@, to@),
            CommitAction::Done => CommitActionModel::Done,
            CommitAction::Fail(m) => CommitActionModel::Fail(m@),
        }
    }
}

/// The message of an old target that could not be removed.
pub open spec fn removal_failure(d: TransferDirection, e: Seq<char>) -> Seq<char> {
    match d {
        TransferDirection::Upload => "远端覆盖删除失败:"@ + e,
        TransferDirection::Download => "本地覆盖删除失败:"@ + e,
    }
}

/// The message of a failed rename: the transport's own for an upload.
pub open spec fn rename_failure(d: TransferDirection, e: Seq<char>) -> Seq<char> {
    match d {
        TransferDirection::Upload => e,
        TransferDirection::Download => "本地改名失败:"@ + e,
    }
}

/// The stage after event `e`; an event that does not answer the pending
/// action changes nothing.
pub open spec fn commit_step_spec(d: TransferDirection, s: CommitStageModel, e: CommitEvent) -> CommitStageModel {
    match s {
        CommitStageModel::CheckingTarget => match e {
            CommitEvent::Exists(true) => CommitStageModel::RemovingTarget,
            CommitEvent::Exists(false) => CommitStageModel::Renaming,
            _ => s,
        },
        CommitStageModel::RemovingTarget => match e {
            CommitEvent::Finished(Err(msg)) => CommitStageModel::Failed(removal_failure(d, msg@)),
            CommitEvent::Finished(Ok(())) => CommitStageModel::Renaming,
            _ => s,
        },
        CommitStageModel::Renaming => match e {
            CommitEvent::Finished(Err(msg)) => CommitStageModel::Failed(rename_failure(d, msg@)),
            CommitEvent::Finished(Ok(())) => CommitStageModel::Done,
            _ => s,
        },
        _ => s,
    }
}

/// The action a stage asks for, for the final path `target`.
pub open spec fn commit_action_spec(target: Seq<char>, s: CommitStageModel) -> CommitActionModel {
    match s {
        CommitStageModel::CheckingTarget => CommitActionModel::ProbeTarget(target),
        CommitStageModel::RemovingTarget => CommitActionModel::RemoveTarget(target),
        CommitStageModel::Renaming => CommitActionModel::Rename(target + partial_suffix(), target),
        CommitStageModel::Done => CommitActionModel::Done,
        CommitStageModel::Failed(m) => CommitActionModel::Fail(m),
    }
}

impl Commit {
    /// The commit of an attempt whose final path is `target`: with
    /// `overwrite`, an existing target is looked for first.
    pub fn new(direction: TransferDirection, target: &str, overwrite: bool) -> (c: Self)
        ensures
            c.direction == direction,
            c.target@ == target@,
            c.stage@ == (if overwrite {
                CommitStageModel::CheckingTarget
            } else {
                CommitStageModel::Renaming
            }),
    {
        Commit {
            direction,
            target: String::from_str(target),
            stage: if overwrite {
                CommitStage::CheckingTarget
            } else {
                CommitStage::Renaming
            },
        }
    }

    /// The action the current stage asks for.
    pub fn pending(&self) -> (a: CommitAction)
        ensures
            a@ == commit_action_spec(self.target@, self.stage@),
    {
        match &self.stage {
            CommitStage::CheckingTarget => CommitAction::ProbeTarget(
                String::from_str(self.target.as_str()),
            ),
            CommitStage::RemovingTarget => CommitAction::RemoveTarget(
                String::from_str(self.target.as_str()),
            ),
            CommitStage::Renaming => CommitAction::Rename {
                from: partial_path(self.target.as_str()),
                to: String::from_str(self.target.as_str()),
            },
            CommitStage::Done => CommitAction::Done,
            CommitStage::Failed(m) => CommitAction::Fail(String::from_str(m.as_str())),
        }
    }

    /// Takes in the outcome of the pending action.
    pub fn step(&mut self, event: CommitEvent)
        ensures
            final(self).direction == old(self).direction,
            final(self).target@ == old(self).target@,
            final(self).stage@ == commit_step_spec(old(self).direction, old(self).stage@, event),
    {
        let mut stage = CommitStage::Done;
        std::mem::swap(&mut stage, &mut self.stage);
        match stage {
            CommitStage::CheckingTarget => match event {
                CommitEvent::Exists(true) => {
                    self.stage = CommitStage::RemovingTarget;
                },
                CommitEvent::Exists(false) => {
                    self.stage = CommitStage::Renaming;
                },
                _ => {
                    self.stage = CommitStage::CheckingTarget;
                },
            },
            CommitStage::RemovingTarget => match event {
                CommitEvent::Finished(Err(msg)) => {
                    let mut text = match self.direction {
                        TransferDirection::Upload => String::from_str("远端覆盖删除失败:"),
                        TransferDirection::Download => String::from_str("本地覆盖删除失败:"),
                    };
                    text.append(msg.as_str());
                    self.stage = CommitStage::Failed(text);
                },
                CommitEvent::Finished(Ok(())) => {
                    self.stage = CommitStage::Renaming;
                },
                _ => {
                    self.stage = CommitStage::RemovingTarget;
                },
            },
            CommitStage::Renaming => match event {
                CommitEvent::Finished(Err(msg)) => {
                    let text = match self.direction {
                        TransferDirection::Upload => msg,
                        TransferDirection::Download => {
                            let mut t = String::from_str("本地改名失败:");
                            t.append(msg.as_str());
                            t
                        },
                    };
                    self.stage = CommitStage::Failed(text);
                },
                CommitEvent::Finished(Ok(())) => {
                    self.stage = CommitStage::Done;
                },
                _ => {
                    self.stage = CommitStage::Renaming;
                },
            },
            other => {
                self.stage = other;
            },
        }
    }
}

} // verus!
