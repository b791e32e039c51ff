//! Error mapping of the data migration commands.

use vstd::prelude::*;

use crate::application::migration::{migration_error_text, MigrationError};
use crate::application::settings::settings_error_text;
use crate::ipc::{IpcError, IpcErrorCode};

verus! {

/// The IPC error for a migration error: an unknown identity or a refused state
/// is an invalid argument carrying the error text; a settings failure is
/// internal and carries the settings error text.
pub fn to_ipc_error(err: MigrationError) -> (e: IpcError)
    ensures
        err is Unknown || err is Invalid ==> e.code == IpcErrorCode::InvalidArgument && e.message@
            == migration_error_text(err),
        err matches MigrationError::Settings(s) ==> e.code == IpcErrorCode::Internal && e.message@
            == settings_error_text(s),
{
    match err {
        MigrationError::Unknown(_) | MigrationError::Invalid(_) => {
            let m = err.message();
            IpcError::new(IpcErrorCode::InvalidArgument, m)
        },
        MigrationError::Settings(s) => IpcError::new(IpcErrorCode::Internal, s.message()),
    }
}

} // verus!
