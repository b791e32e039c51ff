//! Error mapping of the settings commands.

use vstd::prelude::*;

use crate::application::settings::{settings_error_text, SettingsError};
use crate::ipc::{IpcError, IpcErrorCode};

verus! {

/// The IPC error for a settings error: refused content is an invalid argument,
/// a storage failure internal; the message is the error's display text.
pub fn to_ipc_error(err: SettingsError) -> (e: IpcError)
    ensures
        err is Invalid ==> e.code == IpcErrorCode::InvalidArgument,
        err is Storage ==> e.code == IpcErrorCode::Internal,
        e.message@ == settings_error_text(err),
        e.details is None,
{
    let message = err.message();
    match err {
        SettingsError::Invalid(_) => IpcError::new(IpcErrorCode::InvalidArgument, message),
        SettingsError::Storage(_) => IpcError::new(IpcErrorCode::Internal, message),
    }
}

} // verus!
