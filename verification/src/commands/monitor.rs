//! Error mapping of the monitoring commands.

use vstd::prelude::*;

use crate::application::monitoring::{monitor_error_text, MonitorError};
use crate::application::sessions::SessionError;
use crate::ipc::{IpcError, IpcErrorCode};

verus! {

/// The IPC code of a monitoring error.
pub open spec fn monitor_ipc_code(e: MonitorError) -> IpcErrorCode {
    match e {
        MonitorError::Unsupported => IpcErrorCode::MonitorUnsupported,
        MonitorError::Session(SessionError::SessionClosed) => IpcErrorCode::SessionClosed,
        MonitorError::Session(SessionError::ConnectionNotFound)
        | MonitorError::Session(SessionError::SessionNotFound) => IpcErrorCode::NotFound,
        _ => IpcErrorCode::Internal,
    }
}

/// The IPC error for a monitoring error, with its display text.
pub fn to_ipc_error(err: MonitorError) -> (e: IpcError)
    ensures
        e.code == monitor_ipc_code(err),
        e.message@ == monitor_error_text(err),
        e.details is None,
{
    let message = err.message();
    let code = match err {
        MonitorError::Unsupported => IpcErrorCode::MonitorUnsupported,
        MonitorError::Session(SessionError::SessionClosed) => IpcErrorCode::SessionClosed,
        MonitorError::Session(SessionError::ConnectionNotFound)
        | MonitorError::Session(SessionError::SessionNotFound) => IpcErrorCode::NotFound,
        _ => IpcErrorCode::Internal,
    };
    IpcError::new(code, message)
}

} // verus!
