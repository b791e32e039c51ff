//! SSH session state machine.

use vstd::prelude::*;

use super::error::DomainError;

verus! {

/// Connection state of a session.
///
/// Legal transitions:
/// - `Connecting → Online | Disconnected` (authenticated, or failed / dropped)
/// - `Online → Disconnected` (closed, network failure, server hang-up)
/// - `Disconnected → Connecting` (manual reconnect)
#[derive(Debug, Clone, Copy, PartialEq, Eq, Structural)]
pub enum SessionStatus {
    /// TCP/SSH connection and authentication in progress.
    Connecting,
    /// Authenticated; carries terminal, SFTP and monitor channels.
    Online,
    /// Closed; reconnecting goes through `Connecting` again.
    Disconnected,
}

/// The legal transitions of a session.
pub open spec fn session_step(from: SessionStatus, to: SessionStatus) -> bool {
    match (from, to) {
        (SessionStatus::Connecting, SessionStatus::Online) => true,
        (SessionStatus::Connecting, SessionStatus::Disconnected) => true,
        (SessionStatus::Online, SessionStatus::Disconnected) => true,
        (SessionStatus::Disconnected, SessionStatus::Connecting) => true,
        _ => false,
    }
}

/// The stable name of a session state.
pub open spec fn session_name(s: SessionStatus) -> &'static str {
    match s {
        SessionStatus::Connecting => "connecting",
        SessionStatus::Online => "online",
        SessionStatus::Disconnected => "disconnected",
    }
}

impl SessionStatus {
    /// Whether the state may move to `next`.
    pub fn can_transition_to(self, next: Self) -> (b: bool)
        ensures
            b == session_step(self, next),
    {
        match (self, next) {
            (Self::Connecting, Self::Online) => true,
            (Self::Connecting, Self::Disconnected) => true,
            (Self::Online, Self::Disconnected) => true,
            (Self::Disconnected, Self::Connecting) => true,
            _ => false,
        }
    }

    /// Performs the transition; an illegal one is a domain error naming both states.
    pub fn transition_to(self, next: Self) -> (r: Result<Self, DomainError>)
        ensures
            session_step(self, next) ==> r == Ok::<Self, DomainError>(next),
            !session_step(self, next) ==> r == Err::<Self, DomainError>(
                DomainError::InvalidStatusTransition {
                    from: session_name(self),
                    to: session_name(next),
                },
            ),
    {
        if self.can_transition_to(next) {
            Ok(next)
        } else {
            Err(DomainError::InvalidStatusTransition { from: self.as_str(), to: next.as_str() })
        }
    }

    /// The stable name of the state, for logs and error messages.
    pub fn as_str(self) -> (s: &'static str)
        ensures
            s == session_name(self),
    {
        match self {
            Self::Connecting => "connecting",
            Self::Online => "online",
            Self::Disconnected => "disconnected",
        }
    }
}

} // verus!
