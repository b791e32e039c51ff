//! Error mapping of the connection and group commands.

use vstd::prelude::*;

use crate::application::connections::{connection_error_text, ConnectionError};
use crate::ipc::{IpcError, IpcErrorCode};

verus! {

/// The IPC code of a connection management error.
pub open spec fn connection_ipc_code(e: ConnectionError) -> IpcErrorCode {
    match e {
        ConnectionError::Domain(_) | ConnectionError::GroupNotEmpty
        | ConnectionError::NestingTooDeep => IpcErrorCode::InvalidArgument,
        ConnectionError::NotFound(_) => IpcErrorCode::NotFound,
        ConnectionError::Storage(_) => IpcErrorCode::Internal,
        ConnectionError::Secret(_) => IpcErrorCode::KeyringUnavailable,
    }
}

/// The IPC error for a connection management error: refused input is an
/// invalid argument, a missing target not found, a storage failure internal,
/// a credential store failure "keyring unavailable"; the message is the
/// error's display text.
pub fn to_ipc_error(err: ConnectionError) -> (e: IpcError)
    ensures
        e.code == connection_ipc_code(err),
        e.message@ == connection_error_text(err),
        e.details is None,
{
    let message = err.message();
    let code = match err {
        ConnectionError::Domain(_) | ConnectionError::GroupNotEmpty
        | ConnectionError::NestingTooDeep => IpcErrorCode::InvalidArgument,
        ConnectionError::NotFound(_) => IpcErrorCode::NotFound,
        ConnectionError::Storage(_) => IpcErrorCode::Internal,
        ConnectionError::Secret(_) => IpcErrorCode::KeyringUnavailable,
    };
    IpcError::new(code, message)
}

} // verus!
