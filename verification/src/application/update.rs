//! Automatic update checks: the schedule of the background check and what each
//! round's outcome leads to (the check itself and the notification are I/O).

use vstd::prelude::*;

use crate::domain::connection::clone_opt_string;
use super::sessions::server_info::opt_text;

verus! {

/// Delay before the first check after start-up, in seconds.
pub const FIRST_CHECK_DELAY_SECS: u64 = 10;
/// Interval between regular checks, in seconds (four hours).
pub const CHECK_INTERVAL_SECS: u64 = 14400;
/// Interval before retrying a failed check, in seconds (five minutes).
pub const RETRY_INTERVAL_SECS: u64 = 300;

/// An available update.
#[derive(Debug)]
pub struct UpdateNotice {
    /// The running version.
    pub current_version: String,
    /// The new version (without a `v` prefix).
    pub version: String,
    /// Release notes (Markdown), if any.
    pub notes: Option<String>,
    /// When the check ran (Unix milliseconds; 0 when the clock is off).
    pub checked_at_ms: i64,
}

/// A failed check, with a readable reason (never a secret).
#[derive(Debug)]
pub struct UpdateCheckError(pub String);

/// The display text of a failed check.
pub open spec fn update_error_text(e: UpdateCheckError) -> Seq<char> {
    "更新检查失败:"@ + e.0@
}

impl UpdateCheckError {
    /// The display text.
    pub fn message(&self) -> (m: String)
        ensures
            m@ == update_error_text(*self),
    {
        let mut m = String::from_str("更新检查失败:");
        m.append(self.0.as_str());
        m
    }
}

/// The outcome of one check.
#[derive(Debug)]
pub enum CheckOutcome {
    /// A newer version exists.
    Found(UpdateNotice),
    /// The running version is the newest.
    UpToDate,
    /// The check failed (network or configuration).
    Failed(UpdateCheckError),
}

/// Two notices say the same.
pub open spec fn same_notice(a: UpdateNotice, b: UpdateNotice) -> bool {
    &&& a.current_version@ == b.current_version@
    &&& a.version@ == b.version@
    &&& opt_text(a.notes) == opt_text(b.notes)
    &&& a.checked_at_ms == b.checked_at_ms
}

/// A copy of a notice.
pub fn copy_notice(n: &UpdateNotice) -> (r: UpdateNotice)
    ensures
        same_notice(r, *n),
{
    UpdateNotice {
        current_version: n.current_version.clone(),
        version: n.version.clone(),
        notes: clone_opt_string(&n.notes),
        checked_at_ms: n.checked_at_ms,
    }
}

/// What the checker remembers between rounds: the last notice found.
pub struct UpdateState {
    last: Option<UpdateNotice>,
}

impl UpdateState {
    /// The last notice found, if any.
    pub closed spec fn last_found(&self) -> Option<UpdateNotice> {
        self.last
    }

    /// Nothing found yet.
    pub fn new() -> (s: Self)
        ensures
            s.last_found() is None,
    {
        UpdateState { last: None }
    }

    /// A copy of the last notice found.
    pub fn last_notice(&self) -> (r: Option<UpdateNotice>)
        ensures
            match self.last_found() {
                Some(n) => r is Some && same_notice(r->Some_0, n),
                None => r is None,
            },
    {
        match &self.last {
            Some(n) => Some(copy_notice(n)),
            None => None,
        }
    }

    /// A round with automatic checks switched off: no check, wait the regular
    /// interval.
    pub fn skipped(&self) -> (delay: u64)
        ensures
            delay == CHECK_INTERVAL_SECS,
    {
        CHECK_INTERVAL_SECS
    }

    /// Takes in a round's outcome: a found update is remembered and handed
    /// back to be announced; the next round comes after the regular interval,
    /// or after the retry interval when the check failed.
    pub fn after_check(&mut self, outcome: CheckOutcome) -> (r: (u64, Option<UpdateNotice>))
        ensures
            match outcome {
                CheckOutcome::Found(n) => {
                    &&& r.0 == CHECK_INTERVAL_SECS
                    &&& final(self).last_found() == Some(n)
                    &&& r.1 is Some && same_notice(r.1->Some_0, n)
                },
                CheckOutcome::UpToDate => {
                    &&& r.0 == CHECK_INTERVAL_SECS
                    &&& r.1 is None
                    &&& final(self).last_found() == old(self).last_found()
                },
                CheckOutcome::Failed(_) => {
                    &&& r.0 == RETRY_INTERVAL_SECS
                    &&& r.1 is None
                    &&& final(self).last_found() == old(self).last_found()
                },
            },
    {
        match outcome {
            CheckOutcome::Found(n) => {
                let announce = copy_notice(&n);
                self.last = Some(n);
                (CHECK_INTERVAL_SECS, Some(announce))
            },
            CheckOutcome::UpToDate => (CHECK_INTERVAL_SECS, None),
            CheckOutcome::Failed(_) => (RETRY_INTERVAL_SECS, None),
        }
    }
}

/// Whether this round checks: the setting as read, on when it cannot be read.
pub fn auto_check_enabled(setting: Option<bool>) -> (b: bool)
    ensures
        b == match setting {
            Some(v) => v,
            None => true,
        },
{
    match setting {
        Some(v) => v,
        None => true,
    }
}

} // verus!
