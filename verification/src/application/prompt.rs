//! Prompt bridge: requests for keyboard-interactive answers and host key
//! confirmations wait here until the user answers, gives up or times out.

use vstd::prelude::*;

use super::connections::{is_uuid_text, new_id};
use super::transfers::keyed::Keyed;

verus! {

/// Default time to wait for an answer, in seconds.
pub const DEFAULT_PROMPT_TIMEOUT_SECS: u64 = 120;

/// Failure of the bridge.
#[derive(Debug, Clone, Copy, PartialEq, Eq, Structural)]
pub enum PromptError {
    /// No answer in time.
    Timeout,
    /// The request does not exist or was already answered.
    UnknownRequest,
    /// The waiting side gave up (the connection was cancelled).
    Abandoned,
}

/// The display text of a bridge failure.
pub open spec fn prompt_error_text(e: PromptError) -> Seq<char> {
    match e {
        PromptError::Timeout => "等待用户输入超时"@,
        PromptError::UnknownRequest => "请求不存在或已失效"@,
        PromptError::Abandoned => "等待方已取消"@,
    }
}

impl PromptError {
    /// The display text.
    pub fn message(&self) -> (m: &'static str)
        ensures
            m@ == prompt_error_text(*self),
    {
        match self {
            PromptError::Timeout => "等待用户输入超时",
            PromptError::UnknownRequest => "请求不存在或已失效",
            PromptError::Abandoned => "等待方已取消",
        }
    }
}

/// An answer of the user.
#[derive(Debug)]
pub enum PromptAnswer {
    /// The answers to a keyboard-interactive round, in prompt order.
    Auth(Vec<String>),
    /// Whether the host key is accepted.
    Hostkey(bool),
}

/// The requests still waiting for an answer.
pub struct PromptBook {
    pending: Keyed<()>,
}

impl PromptBook {
    /// The identities of the waiting requests.
    pub closed spec fn waiting(&self) -> Set<Seq<char>> {
        self.pending@.dom()
    }

    /// No request waiting.
    pub fn new() -> (b: Self)
        ensures
            b.waiting() == Set::<Seq<char>>::empty(),
    {
        let b = PromptBook { pending: Keyed::new() };
        assert(b.waiting() =~= Set::<Seq<char>>::empty());
        b
    }

    /// Registers a new request (before it is announced, so that an early
    /// answer finds it) and gives back its fresh identity.
    pub fn register(&mut self) -> (id: String)
        ensures
            is_uuid_text(id@),
            final(self).waiting() == old(self).waiting().insert(id@),
    {
        let id = new_id();
        self.pending.insert(id.as_str(), ());
        assert(self.waiting() =~= old(self).waiting().insert(id@));
        id
    }

    /// An answer arrived for `id`: the request leaves the book; an unknown or
    /// already answered request is refused.
    pub fn respond(&mut self, id: &str) -> (r: Result<(), PromptError>)
        ensures
            final(self).waiting() == old(self).waiting().remove(id@),
            old(self).waiting().contains(id@) ==> r is Ok,
            !old(self).waiting().contains(id@) ==> r == Err::<(), PromptError>(
                PromptError::UnknownRequest,
            ),
    {
        let was = self.pending.remove(id);
        assert(self.waiting() =~= old(self).waiting().remove(id@));
        if was {
            Ok(())
        } else {
            Err(PromptError::UnknownRequest)
        }
    }

    /// The wait for `id` ended (answered or timed out): it leaves the book.
    pub fn forget(&mut self, id: &str)
        ensures
            final(self).waiting() == old(self).waiting().remove(id@),
    {
        self.pending.remove(id);
        assert(self.waiting() =~= old(self).waiting().remove(id@));
    }
}

/// The answers of a keyboard-interactive request; a host key answer does not
/// fit it.
pub fn auth_answers(answer: PromptAnswer) -> (r: Result<Vec<String>, PromptError>)
    ensures
        match answer {
            PromptAnswer::Auth(v) => r == Ok::<Vec<String>, PromptError>(v),
            PromptAnswer::Hostkey(_) => r == Err::<Vec<String>, PromptError>(
                PromptError::UnknownRequest,
            ),
        },
{
    match answer {
        PromptAnswer::Auth(v) => Ok(v),
        PromptAnswer::Hostkey(_) => Err(PromptError::UnknownRequest),
    }
}

/// The verdict of a host key request; keyboard answers do not fit it.
pub fn hostkey_verdict(answer: PromptAnswer) -> (r: Result<bool, PromptError>)
    ensures
        match answer {
            PromptAnswer::Hostkey(b) => r == Ok::<bool, PromptError>(b),
            PromptAnswer::Auth(_) => r == Err::<bool, PromptError>(PromptError::UnknownRequest),
        },
{
    match answer {
        PromptAnswer::Hostkey(b) => Ok(b),
        PromptAnswer::Auth(_) => Err(PromptError::UnknownRequest),
    }
}

/// A request is answered at most once: after an answer is taken in, a second
/// answer for the same request finds it no longer waiting.
pub proof fn law_answered_once(waiting: Set<Seq<char>>, id: Seq<char>)
    ensures
        !waiting.remove(id).contains(id),
{
}

} // verus!
