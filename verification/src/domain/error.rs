//! Domain errors, raised when a business rule is violated.

use vstd::prelude::*;

verus! {

/// Domain-level error.
#[derive(Debug, Clone, PartialEq, Eq)]
pub enum DomainError {
    /// An identity or a name is empty or all whitespace.
    EmptyIdentity,
    /// The host address is empty or all whitespace.
    EmptyHost,
    /// The user name is empty or all whitespace.
    EmptyUsername,
    /// The port is outside 1–65535.
    InvalidPort(i64),
    /// A state machine was asked for an illegal transition.
    InvalidStatusTransition {
        /// Name of the state before the transition.
        from: &'static str,
        /// Name of the requested target state.
        to: &'static str,
    },
}

/// The display text of a domain error.
pub open spec fn domain_error_text(e: DomainError) -> Seq<char> {
    match e {
        DomainError::EmptyIdentity => "标识或名称不能为空"@,
        DomainError::EmptyHost => "主机地址不能为空"@,
        DomainError::EmptyUsername => "用户名不能为空"@,
        DomainError::InvalidPort(_) => "端口必须在 1–65535 之间"@,
        DomainError::InvalidStatusTransition { from, to } => "非法状态流转: "@ + from@ + " -> "@
            + to@,
    }
}

impl DomainError {
    /// The display text.
    pub fn message(&self) -> (m: String)
        ensures
            m@ == domain_error_text(*self),
    {
        match self {
            DomainError::EmptyIdentity => String::from_str("标识或名称不能为空"),
            DomainError::EmptyHost => String::from_str("主机地址不能为空"),
            DomainError::EmptyUsername => String::from_str("用户名不能为空"),
            DomainError::InvalidPort(_) => String::from_str("端口必须在 1–65535 之间"),
            DomainError::InvalidStatusTransition { from, to } => {
                let mut m = String::from_str("非法状态流转: ");
                m.append(from);
                m.append(" -> ");
                m.append(to);
                m
            },
        }
    }
}

} // verus!
