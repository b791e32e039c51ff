//! Host key trust on first use: the first connection records the fingerprint,
//! and any later change of it blocks the connection.

use vstd::prelude::*;

verus! {

/// A confirmed host key.
#[derive(Debug, Clone, PartialEq, Eq)]
pub struct HostKeyRecord {
    /// Public key algorithm (such as ssh-ed25519), for display only.
    pub algorithm: String,
    /// SHA256 fingerprint (`SHA256:<base64>`).
    pub fingerprint: String,
    /// Confirmation time (unix milliseconds).
    pub confirmed_at: i64,
}

/// Outcome of checking a host key.
#[derive(Debug, Clone, PartialEq, Eq)]
pub enum HostKeyVerdict {
    /// Same fingerprint: let the connection through.
    Trusted,
    /// Nothing recorded (first connection): the user must confirm.
    Unknown,
    /// The fingerprint changed: block (possible man in the middle).
    Mismatch {
        /// Recorded algorithm.
        recorded_algorithm: String,
        /// Recorded fingerprint.
        recorded_fingerprint: String,
    },
}

/// The verdict for a presented fingerprint against the recorded key.
pub open spec fn verdict_of(recorded: Option<HostKeyRecord>, fingerprint: Seq<char>) -> HostKeyVerdict {
    match recorded {
        None => HostKeyVerdict::Unknown,
        Some(record) => if record.fingerprint@ == fingerprint {
            HostKeyVerdict::Trusted
        } else {
            HostKeyVerdict::Mismatch {
                recorded_algorithm: record.algorithm,
                recorded_fingerprint: record.fingerprint,
            }
        },
    }
}

/// Compares the presented fingerprint with the recorded one.
///
/// Only the fingerprint is compared, not the algorithm: a server moving to an
/// algorithm of the same strength is routine; a changed fingerprint blocks.
pub fn verify(recorded: Option<HostKeyRecord>, fingerprint: &str) -> (v: HostKeyVerdict)
    ensures
        v == verdict_of(recorded, fingerprint@),
{
    match recorded {
        None => HostKeyVerdict::Unknown,
        Some(record) => {
            if record.fingerprint.as_str().unicode_len() == fingerprint.unicode_len()
                && same_text(record.fingerprint.as_str(), fingerprint) {
                HostKeyVerdict::Trusted
            } else {
                HostKeyVerdict::Mismatch {
                    recorded_algorithm: record.algorithm,
                    recorded_fingerprint: record.fingerprint,
                }
            }
        },
    }
}

/// Whether two texts are equal.
fn same_text(a: &str, b: &str) -> (r: bool)
    ensures
        r == (a@ == b@),
{
    let x = String::from_str(a);
    let y = String::from_str(b);
    x == y
}

} // verus!
