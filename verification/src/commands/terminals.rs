//! Error mapping of the terminal commands.

use vstd::prelude::*;

use crate::application::ports::TransportError;
use crate::application::sessions::SessionError;
use crate::application::terminals::{terminal_error_text, TerminalError};
use crate::ipc::{IpcError, IpcErrorCode};

verus! {

/// The IPC code of a terminal error.
pub open spec fn terminal_ipc_code(e: TerminalError) -> IpcErrorCode {
    match e {
        TerminalError::NotFound => IpcErrorCode::NotFound,
        TerminalError::InvalidArgument(_) => IpcErrorCode::InvalidArgument,
        TerminalError::Transport(TransportError::Network(_)) => IpcErrorCode::NetUnreachable,
        TerminalError::Transport(_) => IpcErrorCode::Internal,
        TerminalError::Session(SessionError::SessionClosed) => IpcErrorCode::SessionClosed,
        TerminalError::Session(SessionError::ConnectionNotFound)
        | TerminalError::Session(SessionError::SessionNotFound) => IpcErrorCode::NotFound,
        TerminalError::Session(_) => IpcErrorCode::Internal,
    }
}

/// The IPC error for a terminal error, with its display text.
pub fn to_ipc_error(err: TerminalError) -> (e: IpcError)
    ensures
        e.code == terminal_ipc_code(err),
        e.message@ == terminal_error_text(err),
        e.details is None,
{
    let message = err.message();
    let code = match err {
        TerminalError::NotFound => IpcErrorCode::NotFound,
        TerminalError::InvalidArgument(_) => IpcErrorCode::InvalidArgument,
        TerminalError::Transport(TransportError::Network(_)) => IpcErrorCode::NetUnreachable,
        TerminalError::Transport(_) => IpcErrorCode::Internal,
        TerminalError::Session(SessionError::SessionClosed) => IpcErrorCode::SessionClosed,
        TerminalError::Session(SessionError::ConnectionNotFound)
        | TerminalError::Session(SessionError::SessionNotFound) => IpcErrorCode::NotFound,
        TerminalError::Session(_) => IpcErrorCode::Internal,
    };
    IpcError::new(code, message)
}

} // verus!
