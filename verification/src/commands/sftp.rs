//! Error mapping of the SFTP commands.

use vstd::prelude::*;

use crate::application::ports::TransportError;
use crate::application::sessions::SessionError;
use crate::application::sftp::{sftp_error_text, SftpError};
use crate::ipc::{IpcError, IpcErrorCode};

verus! {

/// The IPC code of an SFTP error.
pub open spec fn sftp_ipc_code(e: SftpError) -> IpcErrorCode {
    match e {
        SftpError::Session(SessionError::SessionClosed) => IpcErrorCode::SessionClosed,
        SftpError::Session(SessionError::ConnectionNotFound)
        | SftpError::Session(SessionError::SessionNotFound) => IpcErrorCode::NotFound,
        SftpError::Session(_) => IpcErrorCode::Internal,
        SftpError::Transport(TransportError::RemotePermissionDenied(_)) => IpcErrorCode::PermissionDenied,
        SftpError::Transport(TransportError::RemoteFs(_)) => IpcErrorCode::RemoteFsError,
        SftpError::Transport(TransportError::Network(_)) => IpcErrorCode::NetUnreachable,
        SftpError::Transport(_) => IpcErrorCode::Internal,
    }
}

/// The IPC error for an SFTP error, with its display text.
pub fn to_ipc_error(err: SftpError) -> (e: IpcError)
    ensures
        e.code == sftp_ipc_code(err),
        e.message@ == sftp_error_text(err),
        e.details is None,
{
    let message = err.message();
    let code = match err {
        SftpError::Session(SessionError::SessionClosed) => IpcErrorCode::SessionClosed,
        SftpError::Session(SessionError::ConnectionNotFound)
        | SftpError::Session(SessionError::SessionNotFound) => IpcErrorCode::NotFound,
        SftpError::Session(_) => IpcErrorCode::Internal,
        SftpError::Transport(TransportError::RemotePermissionDenied(_)) => IpcErrorCode::PermissionDenied,
        SftpError::Transport(TransportError::RemoteFs(_)) => IpcErrorCode::RemoteFsError,
        SftpError::Transport(TransportError::Network(_)) => IpcErrorCode::NetUnreachable,
        SftpError::Transport(_) => IpcErrorCode::Internal,
    };
    IpcError::new(code, message)
}

} // verus!
