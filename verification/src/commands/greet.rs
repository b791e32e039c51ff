//! The greeting command: boundary validation, then the greeting use case.

use vstd::prelude::*;

use crate::application;
use crate::application::greet::greeting;
use crate::ipc::{IpcError, IpcErrorCode, IpcResult};
use crate::text::{trim, trimmed};

verus! {

/// Longest accepted name, in characters.
pub const MAX_NAME_LEN: usize = 64;

/// Request of the greeting command.
#[derive(Debug, Clone, PartialEq, Eq)]
pub struct GreetRequest {
    /// The name to greet.
    pub name: String,
}

/// Response of the greeting command.
#[derive(Debug, Clone, PartialEq, Eq)]
pub struct GreetResponse {
    /// The greeting.
    pub message: String,
}

/// What the greeting command answers for a requested name.
pub open spec fn greet_outcome(name: Seq<char>) -> Result<Seq<char>, Seq<char>> {
    let t = trim(name);
    if t.len() == 0 {
        Err("名称不能为空"@)
    } else if t.len() > MAX_NAME_LEN {
        Err("名称最多 64 个字符"@)
    } else {
        Ok(greeting(t))
    }
}

/// Trims the name, refuses blank or over-long names, and greets the rest.
pub fn greet(request: GreetRequest) -> (r: IpcResult<GreetResponse>)
    ensures
        greet_outcome(request.name@) matches Ok(g) ==> r matches IpcResult::Success(resp) && resp.message@
            == g,
        greet_outcome(request.name@) matches Err(m) ==> r matches IpcResult::Failure(e) && e.code
            == IpcErrorCode::InvalidArgument && e.message@ == m,
{
    let name = trimmed(request.name.as_str());
    let n = name.as_str().unicode_len();
    if n == 0 {
        return IpcResult::Failure(IpcError::new(IpcErrorCode::InvalidArgument, String::from_str("名称不能为空")));
    }
    if n > MAX_NAME_LEN {
        return IpcResult::Failure(IpcError::new(IpcErrorCode::InvalidArgument, String::from_str("名称最多 64 个字符")));
    }
    IpcResult::Success(GreetResponse { message: application::greet::greet(name.as_str()) })
}

} // verus!
