//! Transfer task state machine (queued → transferring → completed | failed | cancelled).

use vstd::prelude::*;

use super::error::DomainError;

verus! {

/// State of an SFTP transfer task.
///
/// Legal transitions:
/// - `Queued → Preparing | Transferring | Cancelled`
/// - `Preparing → AwaitingConflict | Transferring | Failed | Cancelled`
/// - `AwaitingConflict → Transferring | Failed | Cancelled`
/// - `Transferring → Completed | Failed | Cancelled`
/// - `Failed → Queued` (automatic or manual retry)
///
/// `Completed` and `Cancelled` are terminal.
#[derive(Debug, Clone, Copy, PartialEq, Eq, Structural)]
pub enum TransferStatus {
    /// Waiting for a scheduling slot.
    Queued,
    /// Directory expansion, conflict check, opening handles.
    Preparing,
    /// Waiting for the user's conflict decision.
    AwaitingConflict,
    /// Transferring.
    Transferring,
    /// Done.
    Completed,
    /// Failed; a retry puts it back in the queue.
    Failed,
    /// Cancelled; the partial file is kept.
    Cancelled,
}

/// The legal transitions of a transfer task.
pub open spec fn transfer_step(from: TransferStatus, to: TransferStatus) -> bool {
    match from {
        TransferStatus::Queued => to == TransferStatus::Preparing || to
            == TransferStatus::Transferring || to == TransferStatus::Cancelled,
        TransferStatus::Preparing => to == TransferStatus::AwaitingConflict || to
            == TransferStatus::Transferring || to == TransferStatus::Failed || to
            == TransferStatus::Cancelled,
        TransferStatus::AwaitingConflict => to == TransferStatus::Transferring || to
            == TransferStatus::Failed || to == TransferStatus::Cancelled,
        TransferStatus::Transferring => to == TransferStatus::Completed || to
            == TransferStatus::Failed || to == TransferStatus::Cancelled,
        TransferStatus::Failed => to == TransferStatus::Queued,
        TransferStatus::Completed => false,
        TransferStatus::Cancelled => false,
    }
}

/// Terminal states: completed and cancelled.
pub open spec fn transfer_terminal(s: TransferStatus) -> bool {
    s == TransferStatus::Completed || s == TransferStatus::Cancelled
}

/// The stable name of a transfer state.
pub open spec fn transfer_name(s: TransferStatus) -> &'static str {
    match s {
        TransferStatus::Queued => "queued",
        TransferStatus::Preparing => "preparing",
        TransferStatus::AwaitingConflict => "awaiting_conflict",
        TransferStatus::Transferring => "transferring",
        TransferStatus::Completed => "completed",
        TransferStatus::Failed => "failed",
        TransferStatus::Cancelled => "cancelled",
    }
}

impl TransferStatus {
    /// Whether the state may move to `next`.
    pub fn can_transition_to(self, next: Self) -> (b: bool)
        ensures
            b == transfer_step(self, next),
    {
        match self {
            Self::Queued => next == Self::Preparing || next == Self::Transferring || next
                == Self::Cancelled,
            Self::Preparing => next == Self::AwaitingConflict || next == Self::Transferring || next
                == Self::Failed || next == Self::Cancelled,
            Self::AwaitingConflict => next == Self::Transferring || next == Self::Failed || next
                == Self::Cancelled,
            Self::Transferring => next == Self::Completed || next == Self::Failed || next
                == Self::Cancelled,
            Self::Failed => next == Self::Queued,
            Self::Completed => false,
            Self::Cancelled => false,
        }
    }

    /// Performs the transition; an illegal one is a domain error naming both states.
    pub fn transition_to(self, next: Self) -> (r: Result<Self, DomainError>)
        ensures
            transfer_step(self, next) ==> r == Ok::<Self, DomainError>(next),
            !transfer_step(self, next) ==> r == Err::<Self, DomainError>(
                DomainError::InvalidStatusTransition {
                    from: transfer_name(self),
                    to: transfer_name(next),
                },
            ),
    {
        if self.can_transition_to(next) {
            Ok(next)
        } else {
            Err(DomainError::InvalidStatusTransition { from: self.as_str(), to: next.as_str() })
        }
    }

    /// Whether the state is terminal (completed or cancelled).
    pub fn is_terminal(self) -> (b: bool)
        ensures
            b == transfer_terminal(self),
    {
        self == Self::Completed || self == Self::Cancelled
    }

    /// The stable name of the state, for logs and error messages.
    pub fn as_str(self) -> (s: &'static str)
        ensures
            s == transfer_name(self),
    {
        match self {
            Self::Queued => "queued",
            Self::Preparing => "preparing",
            Self::AwaitingConflict => "awaiting_conflict",
            Self::Transferring => "transferring",
            Self::Completed => "completed",
            Self::Failed => "failed",
            Self::Cancelled => "cancelled",
        }
    }
}

/// A terminal transfer state admits no transition at all.
pub proof fn law_terminal_states_are_final(from: TransferStatus, to: TransferStatus)
    requires
        transfer_terminal(from),
    ensures
        !transfer_step(from, to),
{
}

/// Every non-terminal transfer state can still reach a terminal one in one or two steps.
pub proof fn law_non_terminal_can_finish(from: TransferStatus)
    requires
        !transfer_terminal(from),
    ensures
        transfer_step(from, TransferStatus::Cancelled) || (transfer_step(from, TransferStatus::Queued)
            && transfer_step(TransferStatus::Queued, TransferStatus::Cancelled)),
{
}

} // verus!
