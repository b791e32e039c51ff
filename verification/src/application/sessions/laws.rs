//! What holds of the session book across its operations: a closed session can
//! reconnect, a live one cannot, and only an online session is taken down by
//! the disconnect watcher.

use vstd::prelude::*;

use super::book::{edited_session, locate_session, plan_for, AuthModel, SessionModel};
use crate::domain::connection::AuthMethod;
use crate::domain::session::{session_step, SessionStatus};

verus! {

/// After closing, the session is disconnected and may reconnect.
pub proof fn law_close_then_reconnect(ss: Seq<SessionModel>, id: Seq<char>)
    requires
        locate_session(ss, id) is Some,
    ensures
        ({
            let after = edited_session(
                ss,
                id,
                |m: SessionModel|
                    SessionModel { status: SessionStatus::Disconnected, connected: false, ..m },
            );
            &&& locate_session(after, id) == locate_session(ss, id)
            &&& after[locate_session(ss, id)->0].status == SessionStatus::Disconnected
            &&& session_step(
                after[locate_session(ss, id)->0].status,
                SessionStatus::Connecting,
            )
        }),
{
    super::book::lemma_locate_session(ss, id);
    let i = locate_session(ss, id)->0;
    let after = edited_session(
        ss,
        id,
        |m: SessionModel| SessionModel { status: SessionStatus::Disconnected, connected: false, ..m },
    );
    lemma_locate_same_ids(ss, after, id);
}

/// A session that is connecting or online cannot start another connection.
pub proof fn law_live_session_cannot_reconnect(s: SessionStatus)
    requires
        s == SessionStatus::Connecting || s == SessionStatus::Online,
    ensures
        !session_step(s, SessionStatus::Connecting),
{
}

/// Changing sessions without changing identities keeps where each is found.
pub proof fn lemma_locate_same_ids(a: Seq<SessionModel>, b: Seq<SessionModel>, id: Seq<char>)
    requires
        a.len() == b.len(),
        forall|k: int| 0 <= k < a.len() ==> #[trigger] a[k].id == b[k].id,
    ensures
        locate_session(a, id) == locate_session(b, id),
    decreases a.len(),
{
    if a.len() > 0 {
        lemma_locate_same_ids(a.drop_last(), b.drop_last(), id);
        assert(a.last().id == b.last().id);
    }
}

/// Law: only a password login without a password lacks credentials. Every
/// other login gets its parameters (so `build_params` succeeds); a key login
/// does whether or not a passphrase is given, and carries the key path and the
/// passphrase as given; a password login carries its password.
pub proof fn law_only_password_needs_credentials(
    auth: AuthMethod,
    password: Option<Seq<char>>,
    passphrase: Option<Seq<char>>,
    key_path: Option<Seq<char>>,
)
    ensures
        plan_for(auth, password, passphrase, key_path) is None <==> (auth == AuthMethod::Password
            && password is None),
        auth == AuthMethod::PrivateKey ==> plan_for(auth, password, passphrase, key_path) == Some(
            AuthModel::PrivateKey(key_path, passphrase),
        ),
        auth == AuthMethod::Password ==> (password matches Some(p) ==> plan_for(
            auth,
            password,
            passphrase,
            key_path,
        ) == Some(AuthModel::Password(p))),
{
}

} // verus!
