//! Error mapping of the session commands.

use vstd::prelude::*;

use crate::application::connections::ConnectionError;
use crate::application::ports::TransportError;
use crate::application::sessions::book::{session_error_text, SessionError};
use crate::application::prompt::PromptError;
use crate::ipc::{IpcError, IpcErrorCode, IpcResult};

verus! {

/// The IPC code of a session error.
pub open spec fn session_ipc_code(e: SessionError) -> IpcErrorCode {
    match e {
        SessionError::Connect(t) => match t {
            TransportError::AuthRejected { .. } | TransportError::Key(_) | TransportError::Prompt(
                _,
            ) => IpcErrorCode::AuthFailed,
            TransportError::HostkeyMismatch { .. } => IpcErrorCode::HostkeyChanged,
            TransportError::HostkeyRejected => IpcErrorCode::HostkeyRejected,
            TransportError::Network(_) => IpcErrorCode::NetUnreachable,
            _ => IpcErrorCode::Internal,
        },
        SessionError::ConnectionNotFound | SessionError::SessionNotFound => IpcErrorCode::NotFound,
        SessionError::SessionClosed => IpcErrorCode::SessionClosed,
        SessionError::CredentialsRequired => IpcErrorCode::AuthCredentialsRequired,
        SessionError::Connections(c) => match c {
            ConnectionError::NotFound(_) => IpcErrorCode::NotFound,
            _ => IpcErrorCode::Internal,
        },
        SessionError::Storage(_) => IpcErrorCode::Internal,
    }
}

/// The IPC error for a session error: its code by kind, its display text, and
/// for a changed host key both fingerprints as details.
pub fn to_ipc_error(err: SessionError) -> (e: IpcError)
    ensures
        e.code == session_ipc_code(err),
        e.message@ == session_error_text(err),
        match err {
            SessionError::Connect(TransportError::HostkeyMismatch { recorded, current }) => {
                &&& e.details is Some
                &&& e.details->Some_0@.len() == 2
                &&& e.details->Some_0@[0].0@ == "recordedFingerprint"@
                &&& e.details->Some_0@[0].1@ == recorded@
                &&& e.details->Some_0@[1].0@ == "currentFingerprint"@
                &&& e.details->Some_0@[1].1@ == current@
            },
            _ => e.details is None,
        },
{
    let message = err.message();
    match err {
        SessionError::Connect(TransportError::HostkeyMismatch { recorded, current }) => {
            let mut details: Vec<(String, String)> = Vec::new();
            details.push((String::from_str("recordedFingerprint"), recorded));
            details.push((String::from_str("currentFingerprint"), current));
            IpcError::with_details(IpcErrorCode::HostkeyChanged, message, details)
        },
        SessionError::Connect(t) => {
            let code = match t {
                TransportError::AuthRejected { .. } | TransportError::Key(_)
                | TransportError::Prompt(_) => IpcErrorCode::AuthFailed,
                TransportError::HostkeyRejected => IpcErrorCode::HostkeyRejected,
                TransportError::Network(_) => IpcErrorCode::NetUnreachable,
                _ => IpcErrorCode::Internal,
            };
            IpcError::new(code, message)
        },
        SessionError::ConnectionNotFound | SessionError::SessionNotFound => IpcError::new(
            IpcErrorCode::NotFound,
            message,
        ),
        SessionError::SessionClosed => IpcError::new(IpcErrorCode::SessionClosed, message),
        SessionError::CredentialsRequired => IpcError::new(
            IpcErrorCode::AuthCredentialsRequired,
            message,
        ),
        SessionError::Connections(ConnectionError::NotFound(_)) => IpcError::new(
            IpcErrorCode::NotFound,
            message,
        ),
        SessionError::Connections(_) => IpcError::new(IpcErrorCode::Internal, message),
        SessionError::Storage(_) => IpcError::new(IpcErrorCode::Internal, message),
    }
}

/// The reply to delivering keyboard-interactive answers: an unknown or already
/// answered request is not found; an abandoned or timed-out one is an
/// authentication failure.
pub fn auth_reply_result(r: Result<(), PromptError>) -> (out: IpcResult<()>)
    ensures
        r is Ok ==> out == IpcResult::<()>::Success(()),
        r == Err::<(), PromptError>(PromptError::UnknownRequest) ==> (out matches IpcResult::Failure(e)
            && e.code == IpcErrorCode::NotFound && e.message@ == "交互请求不存在或已失效"@
            && e.details is None),
        r is Err && r != Err::<(), PromptError>(PromptError::UnknownRequest) ==> (out matches IpcResult::Failure(e)
            && e.code == IpcErrorCode::AuthFailed && e.message@ == "键盘交互已取消或超时"@
            && e.details is None),
{
    match r {
        Ok(()) => IpcResult::ok(()),
        Err(PromptError::UnknownRequest) => IpcResult::err(
            IpcError::new(IpcErrorCode::NotFound, String::from_str("交互请求不存在或已失效")),
        ),
        Err(_) => IpcResult::err(
            IpcError::new(IpcErrorCode::AuthFailed, String::from_str("键盘交互已取消或超时")),
        ),
    }
}

/// The reply to delivering the user's answer on a host key: an unknown or already answered
/// request is not found; an abandoned or timed-out one counts as rejected.
pub fn hostkey_reply_result(r: Result<(), PromptError>) -> (out: IpcResult<()>)
    ensures
        r is Ok ==> out == IpcResult::<()>::Success(()),
        r == Err::<(), PromptError>(PromptError::UnknownRequest) ==> (out matches IpcResult::Failure(e)
            && e.code == IpcErrorCode::NotFound && e.message@ == "指纹确认请求不存在或已失效"@
            && e.details is None),
        r is Err && r != Err::<(), PromptError>(PromptError::UnknownRequest) ==> (out matches IpcResult::Failure(e)
            && e.code == IpcErrorCode::HostkeyRejected && e.message@ == "指纹确认已取消或超时"@
            && e.details is None),
{
    match r {
        Ok(()) => IpcResult::ok(()),
        Err(PromptError::UnknownRequest) => IpcResult::err(
            IpcError::new(IpcErrorCode::NotFound, String::from_str("指纹确认请求不存在或已失效")),
        ),
        Err(_) => IpcResult::err(
            IpcError::new(IpcErrorCode::HostkeyRejected, String::from_str("指纹确认已取消或超时")),
        ),
    }
}

} // verus!
