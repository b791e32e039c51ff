//! The stable error envelope handed across the IPC boundary.

use vstd::prelude::*;

verus! {

/// Stable error codes of the IPC contract.
#[derive(Debug, Clone, Copy, PartialEq, Eq, Structural)]
pub enum IpcErrorCode {
    /// The request was malformed or refused by a rule.
    InvalidArgument,
    /// The target does not exist.
    NotFound,
    /// An internal failure (storage and the like).
    Internal,
    /// The credential store is unavailable.
    KeyringUnavailable,
    /// Authentication failed.
    AuthFailed,
    /// Credentials are needed to authenticate.
    AuthCredentialsRequired,
    /// The host key changed.
    HostkeyChanged,
    /// The host key was not confirmed.
    HostkeyRejected,
    /// The network is unreachable.
    NetUnreachable,
    /// The session is closed.
    SessionClosed,
    /// Remote permission denied.
    PermissionDenied,
    /// A remote file operation failed.
    RemoteFsError,
    /// A local file operation failed.
    LocalFsError,
    /// The target system cannot be monitored.
    MonitorUnsupported,
}

/// An error as the front end receives it.
#[derive(Debug, Clone, PartialEq, Eq)]
pub struct IpcError {
    /// Stable code.
    pub code: IpcErrorCode,
    /// Human-readable message.
    pub message: String,
    /// Extra named fields for the front end (a JSON object of strings).
    pub details: Option<Vec<(String, String)>>,
}

impl IpcError {
    /// Builds an error from a code and a message.
    pub fn new(code: IpcErrorCode, message: String) -> (e: IpcError)
        ensures
            e == (IpcError { code, message, details: None }),
    {
        IpcError { code, message, details: None }
    }

    /// Builds an error that carries extra named fields.
    pub fn with_details(code: IpcErrorCode, message: String, details: Vec<(String, String)>) -> (e:
        IpcError)
        ensures
            e == (IpcError { code, message, details: Some(details) }),
    {
        IpcError { code, message, details: Some(details) }
    }
}

/// The result envelope of every command: data or an error.
#[derive(Debug, Clone, PartialEq, Eq)]
pub enum IpcResult<T> {
    /// Success with data.
    Success(T),
    /// Failure.
    Failure(IpcError),
}

impl<T> IpcResult<T> {
    /// A successful result.
    pub fn ok(data: T) -> (r: Self)
        ensures
            r == IpcResult::Success(data),
    {
        IpcResult::Success(data)
    }

    /// A failed result.
    pub fn err(error: IpcError) -> (r: Self)
        ensures
            r == IpcResult::<T>::Failure(error),
    {
        IpcResult::Failure(error)
    }

    /// The data, if the command succeeded.
    pub fn into_data(self) -> (r: Option<T>)
        ensures
            self matches IpcResult::Success(d) ==> r == Some(d),
            self is Failure ==> r is None,
    {
        match self {
            IpcResult::Success(d) => Some(d),
            IpcResult::Failure(_) => None,
        }
    }

    /// The error, if the command failed.
    pub fn into_err(self) -> (r: Option<IpcError>)
        ensures
            self matches IpcResult::Failure(e) ==> r == Some(e),
            self is Success ==> r is None,
    {
        match self {
            IpcResult::Success(_) => None,
            IpcResult::Failure(e) => Some(e),
        }
    }
}

} // verus!
