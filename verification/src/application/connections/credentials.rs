//! Credential orchestration on create and update: store, keep or clear.
//!
//! - input `None`: keep what is stored (on create: store nothing);
//! - `Keyring`: write the persistent store, record the reference key;
//! - `Session`: keep in process memory only, record no reference;
//! - `Never`: keep nothing and clear the persistent and session copies.

use vstd::prelude::*;

use super::{ConnectionDraft, ConnectionError, ConnectionService, CredentialInput, SecretState};
use crate::application::ports::{ConnectionStore, SecretSaveMode, SecretStore};
use crate::application::sessions::server_info::opt_text;
use crate::domain::connection::ConnId;

verus! {

/// Kind of credential.
#[derive(Debug, Clone, Copy, PartialEq, Eq, Structural)]
pub enum SecretKind {
    /// Login password.
    Password,
    /// Private key passphrase.
    Passphrase,
}

/// The reference key of a connection's credential (`conn:<id>:password` or
/// `conn:<id>:passphrase`).
pub open spec fn ref_key(id: Seq<char>, kind: SecretKind) -> Seq<char> {
    match kind {
        SecretKind::Password => "conn:"@ + id + ":password"@,
        SecretKind::Passphrase => "conn:"@ + id + ":passphrase"@,
    }
}

/// The effect of one credential input under `key`: the new tables and the
/// reference to record.
pub open spec fn apply_model(
    st: SecretState,
    key: Seq<char>,
    input: Option<CredentialInput>,
    existing: Option<Seq<char>>,
) -> (SecretState, Option<Seq<char>>) {
    match input {
        None => (st, existing),
        Some(inp) => match inp.save {
            SecretSaveMode::Keyring => (
                SecretState {
                    persist: st.persist.insert(key, inp.value@),
                    session: st.session.remove(key),
                },
                Some(key),
            ),
            SecretSaveMode::Session => (
                SecretState {
                    persist: if existing is Some {
                        st.persist.remove(key)
                    } else {
                        st.persist
                    },
                    session: st.session.insert(key, inp.value@),
                },
                None,
            ),
            SecretSaveMode::Never => (
                SecretState { persist: st.persist.remove(key), session: st.session.remove(key) },
                None,
            ),
        },
    }
}

/// The effect of a draft's password and passphrase inputs for connection `id`,
/// given the references recorded so far: the new tables and both references.
pub open spec fn apply_both(
    st: SecretState,
    id: Seq<char>,
    d: ConnectionDraft,
    existing_password: Option<Seq<char>>,
    existing_passphrase: Option<Seq<char>>,
) -> (SecretState, Option<Seq<char>>, Option<Seq<char>>) {
    let first = apply_model(st, ref_key(id, SecretKind::Password), d.password, existing_password);
    let second = apply_model(
        first.0,
        ref_key(id, SecretKind::Passphrase),
        d.passphrase,
        existing_passphrase,
    );
    (second.0, first.1, second.1)
}

/// The secret a connection resolves to: the persistent store first, then the
/// session table.
pub open spec fn resolved(st: SecretState, key: Seq<char>) -> Option<Seq<char>> {
    if st.persist.contains_key(key) {
        Some(st.persist[key])
    } else if st.session.contains_key(key) {
        Some(st.session[key])
    } else {
        None
    }
}

/// The reference keys to record for a connection.
pub struct CredentialRefs {
    /// Password reference.
    pub password: Option<String>,
    /// Passphrase reference.
    pub passphrase: Option<String>,
}

impl<S: ConnectionStore, K: SecretStore> ConnectionService<S, K> {
    /// The reference key of `id`'s credential of `kind`.
    pub fn ref_key(id: &ConnId, kind: SecretKind) -> (k: String)
        ensures
            k@ == ref_key(id@, kind),
    {
        let mut k = String::from_str("conn:");
        k.append(id.as_str());
        match kind {
            SecretKind::Password => k.append(":password"),
            SecretKind::Passphrase => k.append(":passphrase"),
        }
        k
    }

    /// Applies one credential input under `key`; returns the reference to record.
    fn apply_credential(
        &mut self,
        key: String,
        input: &Option<CredentialInput>,
        existing_ref: &Option<String>,
    ) -> (r: Result<Option<String>, ConnectionError>)
        ensures
            final(self).store == old(self).store,
            final(self).secrets.reliable() == old(self).secrets.reliable(),
            old(self).secrets.reliable() ==> (r matches Ok(reference) && opt_text(reference)
                == apply_model(old(self).secret_state(), key@, *input, opt_text(*existing_ref)).1),
            old(self).secrets.reliable() ==> final(self).secret_state() == apply_model(
                old(self).secret_state(),
                key@,
                *input,
                opt_text(*existing_ref),
            ).0,
    {
        let ghost st = self.secret_state();
        match input {
            None => Ok(crate::domain::connection::clone_opt_string(existing_ref)),
            Some(inp) => match inp.save {
                SecretSaveMode::Keyring => {
                    match self.secrets.put(key.as_str(), inp.value.as_str()) {
                        Ok(()) => {},
                        Err(e) => return Err(ConnectionError::Secret(e)),
                    }
                    self.session_secrets.remove(key.as_str());
                    Ok(Some(key))
                },
                SecretSaveMode::Session => {
                    self.session_secrets.insert(key.as_str(), inp.value.as_str());
                    if existing_ref.is_some() {
                        let _ = self.secrets.delete(key.as_str());
                    }
                    Ok(None)
                },
                SecretSaveMode::Never => {
                    let _ = self.secrets.delete(key.as_str());
                    self.session_secrets.remove(key.as_str());
                    Ok(None)
                },
            },
        }
    }

    /// Stores the credentials of a new connection; returns the references.
    pub(crate) fn store_credentials(&mut self, id: &ConnId, draft: &ConnectionDraft) -> (r: Result<
        CredentialRefs,
        ConnectionError,
    >)
        ensures
            final(self).store == old(self).store,
            final(self).secrets.reliable() == old(self).secrets.reliable(),
            old(self).secrets.reliable() ==> (r matches Ok(refs) && opt_text(refs.password) == apply_both(
                old(self).secret_state(),
                id@,
                *draft,
                None,
                None,
            ).1 && opt_text(refs.passphrase) == apply_both(
                old(self).secret_state(),
                id@,
                *draft,
                None,
                None,
            ).2),
            old(self).secrets.reliable() ==> final(self).secret_state() == apply_both(
                old(self).secret_state(),
                id@,
                *draft,
                None,
                None,
            ).0,
    {
        let password = self.apply_credential(Self::ref_key(id, SecretKind::Password), &draft.password, &None);
        let password = match password {
            Ok(p) => p,
            Err(e) => return Err(e),
        };
        let passphrase = self.apply_credential(
            Self::ref_key(id, SecretKind::Passphrase),
            &draft.passphrase,
            &None,
        );
        let passphrase = match passphrase {
            Ok(p) => p,
            Err(e) => return Err(e),
        };
        Ok(CredentialRefs { password, passphrase })
    }

    /// Stores the credentials of an edited connection: `None` inputs keep the
    /// existing references, others overwrite or clear; returns the references.
    pub(crate) fn update_credentials(
        &mut self,
        id: &ConnId,
        existing_password: &Option<String>,
        existing_passphrase: &Option<String>,
        draft: &ConnectionDraft,
    ) -> (r: Result<CredentialRefs, ConnectionError>)
        ensures
            final(self).store == old(self).store,
            final(self).secrets.reliable() == old(self).secrets.reliable(),
            old(self).secrets.reliable() ==> (r matches Ok(refs) && opt_text(refs.password) == apply_both(
                old(self).secret_state(),
                id@,
                *draft,
                opt_text(*existing_password),
                opt_text(*existing_passphrase),
            ).1 && opt_text(refs.passphrase) == apply_both(
                old(self).secret_state(),
                id@,
                *draft,
                opt_text(*existing_password),
                opt_text(*existing_passphrase),
            ).2),
            old(self).secrets.reliable() ==> final(self).secret_state() == apply_both(
                old(self).secret_state(),
                id@,
                *draft,
                opt_text(*existing_password),
                opt_text(*existing_passphrase),
            ).0,
    {
        let password = self.apply_credential(
            Self::ref_key(id, SecretKind::Password),
            &draft.password,
            existing_password,
        );
        let password = match password {
            Ok(p) => p,
            Err(e) => return Err(e),
        };
        let passphrase = self.apply_credential(
            Self::ref_key(id, SecretKind::Passphrase),
            &draft.passphrase,
            existing_passphrase,
        );
        let passphrase = match passphrase {
            Ok(p) => p,
            Err(e) => return Err(e),
        };
        Ok(CredentialRefs { password, passphrase })
    }

    /// The credential of kind `kind` of connection `id`, for connecting: the
    /// persistent store first, then the session table.
    pub fn resolve_secret(&self, id: &ConnId, kind: SecretKind) -> (r: Result<
        Option<String>,
        ConnectionError,
    >)
        ensures
            self.reliable() ==> (r matches Ok(o) && opt_text(o) == resolved(
                self.secret_state(),
                ref_key(id@, kind),
            )),
            r matches Ok(o) ==> opt_text(o) == resolved(self.secret_state(), ref_key(id@, kind)),
            r is Err ==> r matches Err(ConnectionError::Secret(_)),
    {
        let key = Self::ref_key(id, kind);
        match self.secrets.get(key.as_str()) {
            Ok(Some(value)) => Ok(Some(value)),
            Ok(None) => Ok(self.session_secrets.get(key.as_str())),
            Err(e) => Err(ConnectionError::Secret(e)),
        }
    }

    /// Compensation after a failed insert: deletes the persistent credentials
    /// that were just written, as far as possible.
    pub(crate) fn discard_credentials(&mut self, refs: &CredentialRefs)
        ensures
            final(self).store == old(self).store,
            final(self).session_secrets == old(self).session_secrets,
            final(self).secrets.reliable() == old(self).secrets.reliable(),
            old(self).secrets.reliable() ==> final(self).persisted() == remove_opt(
                remove_opt(old(self).persisted(), opt_text(refs.password)),
                opt_text(refs.passphrase),
            ),
    {
        if let Some(k) = &refs.password {
            let _ = self.secrets.delete(k.as_str());
        }
        if let Some(k) = &refs.passphrase {
            let _ = self.secrets.delete(k.as_str());
        }
    }
}

/// `m` without `key`, when there is a key.
pub open spec fn remove_opt(m: Map<Seq<char>, Seq<char>>, key: Option<Seq<char>>) -> Map<
    Seq<char>,
    Seq<char>,
> {
    match key {
        Some(k) => m.remove(k),
        None => m,
    }
}

} // verus!
