//! Connection management: connection and group CRUD, tree assembly, copy and
//! move, and credential orchestration.
//!
//! Order of work: group check → position → credentials → domain validation →
//! persistence. The one-level nesting limit of groups and the "group must be
//! empty" rule are checked here.

use vstd::prelude::*;

use super::ports::{
    find_conn, find_group, ConnectionStore, SecretStore, SecretStoreError, StoreError,
};
use super::secret_cache::SecretCache;
use crate::domain::connection::{
    clone_gid, clone_opt_string, config_error, opt_gid, AuthMethod, ConnConfig, ConnId, Encoding,
    GroupId,
};
use crate::domain::error::DomainError;
use crate::domain::group::Group;
use crate::application::sessions::server_info::opt_text;
use crate::text::is_blank;
use credentials::apply_both;

pub mod credentials;
pub mod groups;
pub mod laws;
pub mod tree;

pub use credentials::SecretKind;
pub use tree::ConnectionNode;

verus! {

/// Group deletion policy.
#[derive(Debug, Clone, Copy, PartialEq, Eq, Structural)]
pub enum DeleteGroupMode {
    /// Only an empty group may be deleted.
    RequireEmpty,
    /// Child connections and groups move up to the deleted group's parent first.
    PromoteChildren,
}

/// Error of the connection management use cases.
#[derive(Debug, Clone, PartialEq, Eq)]
pub enum ConnectionError {
    /// A domain rule refused the input.
    Domain(DomainError),
    /// Persistence failed.
    Storage(StoreError),
    /// The credential store failed.
    Secret(SecretStoreError),
    /// The named resource does not exist.
    NotFound(&'static str),
    /// The group still holds connections or groups and the policy requires it empty.
    GroupNotEmpty,
    /// Beyond the one level of nesting allowed.
    NestingTooDeep,
}

/// The display text of a connection management error.
pub open spec fn connection_error_text(e: ConnectionError) -> Seq<char> {
    match e {
        ConnectionError::Domain(d) => crate::domain::error::domain_error_text(d),
        ConnectionError::Storage(s) => super::ports::store_error_text(s),
        ConnectionError::Secret(s) => super::ports::secret_error_text(s),
        ConnectionError::NotFound(what) => what@ + "不存在"@,
        ConnectionError::GroupNotEmpty => "分组下仍有连接或子分组"@,
        ConnectionError::NestingTooDeep => "分组最多嵌套一层"@,
    }
}

impl ConnectionError {
    /// The display text.
    pub fn message(&self) -> (m: String)
        ensures
            m@ == connection_error_text(*self),
    {
        match self {
            ConnectionError::Domain(d) => d.message(),
            ConnectionError::Storage(s) => s.message(),
            ConnectionError::Secret(s) => s.message(),
            ConnectionError::NotFound(what) => {
                let mut m = String::from_str(what);
                m.append("不存在");
                m
            },
            ConnectionError::GroupNotEmpty => String::from_str("分组下仍有连接或子分组"),
            ConnectionError::NestingTooDeep => String::from_str("分组最多嵌套一层"),
        }
    }
}

/// A credential input: the secret in clear and how to keep it.
#[derive(Debug)]
pub struct CredentialInput {
    /// The secret; lives only here, never in logs or error messages.
    pub value: String,
    /// How to keep it.
    pub save: super::ports::SecretSaveMode,
}

/// Input of creating or editing a connection.
#[derive(Debug)]
pub struct ConnectionDraft {
    /// Owning group; `None` is the root.
    pub group_id: Option<GroupId>,
    /// Display name.
    pub name: String,
    /// Host.
    pub host: String,
    /// Port.
    pub port: u16,
    /// User name.
    pub username: String,
    /// Authentication method.
    pub auth: AuthMethod,
    /// Private key path.
    pub private_key_path: Option<String>,
    /// Password input; `None` keeps what is stored.
    pub password: Option<CredentialInput>,
    /// Key passphrase input; `None` keeps what is stored.
    pub passphrase: Option<CredentialInput>,
    /// Encoding.
    pub encoding: Encoding,
    /// Colour tag.
    pub tag_color: Option<String>,
    /// Remark.
    pub remark: Option<String>,
}

/// The two secret tables a connection service reads credentials from.
pub struct SecretState {
    /// The persistent credential store.
    pub persist: Map<Seq<char>, Seq<char>>,
    /// The in-memory "this session only" table.
    pub session: Map<Seq<char>, Seq<char>>,
}

/// Connection management service over a connection store and a credential store.
pub struct ConnectionService<S, K> {
    pub(crate) store: S,
    pub(crate) secrets: K,
    pub(crate) session_secrets: SecretCache,
}

/// Whether `s` is the text of a hyphenated lower-case UUID.
pub open spec fn is_uuid_text(s: Seq<char>) -> bool {
    &&& s.len() == 36
    &&& forall|i: int|
        0 <= i < 36 ==> (if i == 8 || i == 13 || i == 18 || i == 23 {
            #[trigger] s[i] == '-'
        } else {
            ('0' <= s[i] && s[i] <= '9') || ('a' <= s[i] && s[i] <= 'f')
        })
}

/// A fresh random identity (`uuid::Uuid::new_v4`, hyphenated lower-case text).
#[verifier::external_body]
pub(crate) fn new_id() -> (s: String)
    ensures
        is_uuid_text(s@),
{
    uuid::Uuid::new_v4().to_string()
}

/// A UUID text is never blank.
pub proof fn lemma_uuid_not_blank(s: Seq<char>)
    requires
        is_uuid_text(s),
    ensures
        !is_blank(s),
{
    assert(!crate::text::is_ws(s[0]));
}

/// The largest position among the connections in `scope`, or -1.
pub open spec fn max_conn_pos(s: Seq<ConnConfig>, scope: Option<Seq<char>>) -> int
    decreases s.len(),
{
    if s.len() == 0 {
        -1
    } else {
        let m = max_conn_pos(s.drop_last(), scope);
        if opt_gid(s.last().group_id) == scope && s.last().position > m {
            s.last().position as int
        } else {
            m
        }
    }
}

/// The largest position among the groups whose parent is `scope`, or -1.
pub open spec fn max_group_pos(s: Seq<Group>, scope: Option<Seq<char>>) -> int
    decreases s.len(),
{
    if s.len() == 0 {
        -1
    } else {
        let m = max_group_pos(s.drop_last(), scope);
        if opt_gid(s.last().parent_id) == scope && s.last().position > m {
            s.last().position as int
        } else {
            m
        }
    }
}

/// The next free position in `scope`: one past the largest position of any
/// connection or group there, or 0 in an empty scope.
pub open spec fn next_pos(conns: Seq<ConnConfig>, groups: Seq<Group>, scope: Option<Seq<char>>) -> int {
    let a = max_conn_pos(conns, scope);
    let b = max_group_pos(groups, scope);
    (if a > b { a } else { b }) + 1
}

/// Whether `g` names a group that the groups do not hold.
pub open spec fn group_missing(groups: Seq<Group>, g: Option<GroupId>) -> bool {
    g matches Some(id) && find_group(groups, id@) is None
}

/// `c` carries the draft's fields, with `position` and the given identity.
pub open spec fn config_from_draft(c: ConnConfig, d: ConnectionDraft, position: int) -> bool {
    &&& c.group_id == d.group_id
    &&& c.name == d.name
    &&& c.host == d.host
    &&& c.port == d.port
    &&& c.username == d.username
    &&& c.auth == d.auth
    &&& c.private_key_path == d.private_key_path
    &&& c.encoding == d.encoding
    &&& c.tag_color == d.tag_color
    &&& c.remark == d.remark
    &&& c.position == position
}

/// The domain error a draft is refused with, if any.
pub open spec fn draft_error(d: ConnectionDraft) -> Option<DomainError> {
    config_error(d.name@, d.host@, d.port, d.username@)
}

/// What a successful creation made of `d`: connection `c` appended to the
/// store, its credentials applied under `c`'s fresh identity.
pub open spec fn created<S: ConnectionStore, K: SecretStore>(
    pre: ConnectionService<S, K>,
    post: ConnectionService<S, K>,
    d: ConnectionDraft,
    c: ConnConfig,
) -> bool {
    let effect = apply_both(pre.secret_state(), c.id@, d, None, None);
    &&& is_uuid_text(c.id@)
    &&& config_from_draft(c, d, next_pos(pre.stored_conns(), pre.stored_groups(), opt_gid(d.group_id)))
    &&& opt_text(c.secret_ref_password) == effect.1
    &&& opt_text(c.secret_ref_passphrase) == effect.2
    &&& post.stored_conns() == pre.stored_conns().push(c)
    &&& post.stored_groups() == pre.stored_groups()
    &&& post.secret_state() == effect.0
}

/// The credentials after a creation whose record could not be stored: those
/// kept for the connection `id` from draft `d` are written, then the ones in
/// the persistent store are deleted again (session-only ones stay cached).
pub open spec fn rolled_back(st: SecretState, id: Seq<char>, d: ConnectionDraft) -> SecretState {
    let effect = apply_both(st, id, d, None, None);
    SecretState {
        persist: credentials::remove_opt(
            credentials::remove_opt(effect.0.persist, effect.1),
            effect.2,
        ),
        session: effect.0.session,
    }
}

/// What a successful edit of the existing connection `e` made of `d`: `c`
/// replaces it in the store, keeping its identity and position.
pub open spec fn updated<S: ConnectionStore, K: SecretStore>(
    pre: ConnectionService<S, K>,
    post: ConnectionService<S, K>,
    e: ConnConfig,
    d: ConnectionDraft,
    c: ConnConfig,
) -> bool {
    let effect = apply_both(
        pre.secret_state(),
        e.id@,
        d,
        opt_text(e.secret_ref_password),
        opt_text(e.secret_ref_passphrase),
    );
    &&& c.id == e.id
    &&& config_from_draft(c, d, e.position as int)
    &&& opt_text(c.secret_ref_password) == effect.1
    &&& opt_text(c.secret_ref_passphrase) == effect.2
    &&& post.stored_conns() == super::ports::replace_conn(pre.stored_conns(), c)
    &&& post.stored_groups() == pre.stored_groups()
    &&& post.secret_state() == effect.0
}

/// `c` is the copy of `s`: fresh identity, name suffixed with "(副本)", placed
/// at `position`, and no credential references.
pub open spec fn duplicate_of(c: ConnConfig, s: ConnConfig, position: int) -> bool {
    &&& is_uuid_text(c.id@)
    &&& c.name@ == s.name@ + "(副本)"@
    &&& c.position == position
    &&& c.secret_ref_password is None
    &&& c.secret_ref_passphrase is None
    &&& c.group_id == s.group_id
    &&& c.host == s.host
    &&& c.port == s.port
    &&& c.username == s.username
    &&& c.auth == s.auth
    &&& c.private_key_path == s.private_key_path
    &&& c.encoding == s.encoding
    &&& c.tag_color == s.tag_color
    &&& c.remark == s.remark
}

/// The service state is unchanged apart from what it does not model.
pub open spec fn unchanged<S: ConnectionStore, K: SecretStore>(
    pre: ConnectionService<S, K>,
    post: ConnectionService<S, K>,
) -> bool {
    &&& post.stored_conns() == pre.stored_conns()
    &&& post.stored_groups() == pre.stored_groups()
    &&& post.secret_state() == pre.secret_state()
}

impl<S: ConnectionStore, K: SecretStore> ConnectionService<S, K> {
    /// The stored groups.
    pub closed spec fn stored_groups(&self) -> Seq<Group> {
        self.store.groups_model()
    }

    /// The stored connections.
    pub closed spec fn stored_conns(&self) -> Seq<ConnConfig> {
        self.store.conns_model()
    }

    /// The persistent credentials.
    pub closed spec fn persisted(&self) -> Map<Seq<char>, Seq<char>> {
        self.secrets.secrets_model()
    }

    /// The credentials kept for this session only.
    pub closed spec fn session_kept(&self) -> Map<Seq<char>, Seq<char>> {
        self.session_secrets@
    }

    /// Both credential tables.
    pub open spec fn secret_state(&self) -> SecretState {
        SecretState { persist: self.persisted(), session: self.session_kept() }
    }

    /// Whether neither store ever fails.
    pub closed spec fn reliable(&self) -> bool {
        self.store.reliable() && self.secrets.reliable()
    }

    /// Whether the credential store never fails (the connection store may).
    pub closed spec fn secrets_reliable(&self) -> bool {
        self.secrets.reliable()
    }

    /// Builds the service over a connection store and a credential store.
    pub fn new(store: S, secrets: K) -> (s: Self)
        ensures
            s.stored_groups() == store.groups_model(),
            s.stored_conns() == store.conns_model(),
            s.persisted() == secrets.secrets_model(),
            s.session_kept() == Map::<Seq<char>, Seq<char>>::empty(),
            s.reliable() == (store.reliable() && secrets.reliable()),
    {
        ConnectionService { store, secrets, session_secrets: SecretCache::new() }
    }

    /// All connections, or the storage error.
    fn load_conns(&self) -> (r: Result<Vec<ConnConfig>, ConnectionError>)
        ensures
            self.store.reliable() ==> r is Ok,
            r matches Ok(v) ==> v@ == self.store.conns_model(),
            r is Err ==> r matches Err(ConnectionError::Storage(_)),
    {
        match self.store.connections() {
            Ok(v) => Ok(v),
            Err(e) => Err(ConnectionError::Storage(e)),
        }
    }

    /// All groups, or the storage error.
    fn load_groups(&self) -> (r: Result<Vec<Group>, ConnectionError>)
        ensures
            self.store.reliable() ==> r is Ok,
            r matches Ok(v) ==> v@ == self.store.groups_model(),
            r is Err ==> r matches Err(ConnectionError::Storage(_)),
    {
        match self.store.groups() {
            Ok(v) => Ok(v),
            Err(e) => Err(ConnectionError::Storage(e)),
        }
    }

    /// The next free sort position in `scope`.
    fn next_position(conns: &Vec<ConnConfig>, groups: &Vec<Group>, scope: &Option<GroupId>) -> (p: i64)
        requires
            next_pos(conns@, groups@, opt_gid(*scope)) <= i64::MAX,
        ensures
            p == next_pos(conns@, groups@, opt_gid(*scope)),
    {
        Self::last_position(conns, groups, scope) + 1
    }

    /// Whether a new connection or group in `scope` still gets a position:
    /// the last position among its siblings is below `i64::MAX`.
    pub fn position_available(&self, scope: &Option<GroupId>) -> (r: Result<bool, ConnectionError>)
        ensures
            self.reliable() ==> r is Ok,
            r matches Ok(b) ==> b == (next_pos(self.stored_conns(), self.stored_groups(), opt_gid(*scope))
                <= i64::MAX),
            r is Err ==> r matches Err(ConnectionError::Storage(_)),
    {
        let conns = match self.load_conns() {
            Ok(v) => v,
            Err(e) => return Err(e),
        };
        let groups = match self.load_groups() {
            Ok(v) => v,
            Err(e) => return Err(e),
        };
        Ok(Self::last_position(&conns, &groups, scope) < i64::MAX)
    }

    /// The last sort position in `scope` (-1 when it is empty).
    fn last_position(conns: &Vec<ConnConfig>, groups: &Vec<Group>, scope: &Option<GroupId>) -> (p: i64)
        ensures
            p + 1 == next_pos(conns@, groups@, opt_gid(*scope)),
    {
        let mut m: i64 = -1;
        let mut i: usize = 0;
        assert(conns@.subrange(0, 0) =~= Seq::<ConnConfig>::empty());
        while i < conns.len()
            invariant
                i <= conns@.len(),
                m == max_conn_pos(conns@.subrange(0, i as int), opt_gid(*scope)),
            decreases conns@.len() - i,
        {
            let ghost p = conns@.subrange(0, i + 1);
            assert(p.drop_last() =~= conns@.subrange(0, i as int));
            if crate::domain::connection::same_scope(&conns[i].group_id, scope) && conns[i].position > m {
                m = conns[i].position;
            }
            i = i + 1;
        }
        assert(conns@.subrange(0, conns@.len() as int) =~= conns@);
        let mut n: i64 = -1;
        let mut j: usize = 0;
        assert(groups@.subrange(0, 0) =~= Seq::<Group>::empty());
        while j < groups.len()
            invariant
                j <= groups@.len(),
                n == max_group_pos(groups@.subrange(0, j as int), opt_gid(*scope)),
            decreases groups@.len() - j,
        {
            let ghost p = groups@.subrange(0, j + 1);
            assert(p.drop_last() =~= groups@.subrange(0, j as int));
            if crate::domain::connection::same_scope(&groups[j].parent_id, scope) && groups[j].position > n {
                n = groups[j].position;
            }
            j = j + 1;
        }
        assert(groups@.subrange(0, groups@.len() as int) =~= groups@);
        if m > n { m } else { n }
    }

    /// Refuses a target group that does not exist.
    fn ensure_group_exists(&self, group: &Option<GroupId>) -> (r: Result<(), ConnectionError>)
        ensures
            self.store.reliable() ==> r is Ok || r == Err::<(), ConnectionError>(
                ConnectionError::NotFound("目标分组"),
            ),
            self.store.reliable() ==> (r is Ok <==> !group_missing(self.store.groups_model(), *group)),
            r is Ok ==> !group_missing(self.store.groups_model(), *group),
    {
        match group {
            Some(id) => match self.store.group(id) {
                Ok(Some(_)) => Ok(()),
                Ok(None) => Err(ConnectionError::NotFound("目标分组")),
                Err(e) => Err(ConnectionError::Storage(e)),
            },
            None => Ok(()),
        }
    }

    /// Builds the entity from a draft and the credential references, at `position`.
    fn assemble(
        id: ConnId,
        draft: &ConnectionDraft,
        password_ref: Option<String>,
        passphrase_ref: Option<String>,
        position: i64,
    ) -> (r: Result<ConnConfig, ConnectionError>)
        ensures
            draft_error(*draft) matches Some(e) ==> r == Err::<ConnConfig, ConnectionError>(
                ConnectionError::Domain(e),
            ),
            draft_error(*draft) is None ==> (r matches Ok(c) && config_from_draft(c, *draft, position as int)
                && c.id == id && c.secret_ref_password == password_ref && c.secret_ref_passphrase
                == passphrase_ref),
    {
        let built = ConnConfig::new(
            id,
            clone_gid(&draft.group_id),
            draft.name.clone(),
            draft.host.clone(),
            draft.port,
            draft.username.clone(),
            draft.auth,
        );
        let mut config = match built {
            Ok(c) => c,
            Err(e) => return Err(ConnectionError::Domain(e)),
        };
        config.private_key_path = clone_opt_string(&draft.private_key_path);
        config.secret_ref_password = password_ref;
        config.secret_ref_passphrase = passphrase_ref;
        config.encoding = draft.encoding;
        config.tag_color = clone_opt_string(&draft.tag_color);
        config.remark = clone_opt_string(&draft.remark);
        config.position = position;
        Ok(config)
    }

    /// One connection by identity.
    pub fn connection(&self, id: &ConnId) -> (r: Result<Option<ConnConfig>, ConnectionError>)
        ensures
            self.reliable() ==> r == Ok::<Option<ConnConfig>, ConnectionError>(
                find_conn(self.stored_conns(), id@),
            ),
            r matches Ok(o) ==> o == find_conn(self.stored_conns(), id@),
            r is Err ==> r matches Err(ConnectionError::Storage(_)),
    {
        match self.store.connection(id) {
            Ok(o) => Ok(o),
            Err(e) => Err(ConnectionError::Storage(e)),
        }
    }

    /// Creates a connection: the draft is validated first, then identity and
    /// position are assigned (the next free position among its siblings),
    /// credentials are kept as asked, and the record is stored. A refused
    /// draft leaves everything as it was. If storing fails, the credentials
    /// just written to the persistent store are deleted again.
    pub fn create_connection(&mut self, draft: ConnectionDraft) -> (r: Result<ConnConfig, ConnectionError>)
        requires
            !group_missing(old(self).stored_groups(), draft.group_id) ==> next_pos(
                old(self).stored_conns(),
                old(self).stored_groups(),
                opt_gid(draft.group_id),
            ) <= i64::MAX,
        ensures
            final(self).reliable() == old(self).reliable(),
            old(self).reliable() && group_missing(old(self).stored_groups(), draft.group_id) ==> r
                == Err::<ConnConfig, ConnectionError>(ConnectionError::NotFound("目标分组")),
            old(self).reliable() && group_missing(old(self).stored_groups(), draft.group_id)
                ==> unchanged(*old(self), *final(self)),
            old(self).reliable() && !group_missing(old(self).stored_groups(), draft.group_id)
                && draft_error(draft) is Some ==> r == Err::<ConnConfig, ConnectionError>(
                ConnectionError::Domain(draft_error(draft)->0),
            ),
            old(self).reliable() && !group_missing(old(self).stored_groups(), draft.group_id)
                && draft_error(draft) is Some ==> unchanged(*old(self), *final(self)),
            old(self).reliable() && !group_missing(old(self).stored_groups(), draft.group_id)
                && draft_error(draft) is None ==> (r matches Ok(c) && created(
                *old(self),
                *final(self),
                draft,
                c,
            )),
            final(self).secrets_reliable() == old(self).secrets_reliable(),
            old(self).secrets_reliable() ==> (r matches Ok(c) ==> created(*old(self), *final(self), draft, c)),
            old(self).secrets_reliable() && r is Err ==> final(self).stored_conns() == old(self).stored_conns()
                && final(self).stored_groups() == old(self).stored_groups() && (final(self).secret_state()
                == old(self).secret_state() || exists|id: Seq<char>|
                is_uuid_text(id) && final(self).secret_state() == #[trigger] rolled_back(
                old(self).secret_state(),
                id,
                draft,
            )),
    {
        match self.ensure_group_exists(&draft.group_id) {
            Ok(()) => {},
            Err(e) => return Err(e),
        }
        let conns = match self.load_conns() {
            Ok(v) => v,
            Err(e) => return Err(e),
        };
        let groups = match self.load_groups() {
            Ok(v) => v,
            Err(e) => return Err(e),
        };
        let position = Self::next_position(&conns, &groups, &draft.group_id);
        let raw = new_id();
        proof {
            lemma_uuid_not_blank(raw@);
        }
        let id = match ConnId::new(raw) {
            Ok(id) => id,
            Err(e) => return Err(ConnectionError::Domain(e)),
        };
        let mut config = match Self::assemble(id.clone(), &draft, None, None, position) {
            Ok(c) => c,
            Err(e) => return Err(e),
        };
        let refs = match self.store_credentials(&id, &draft) {
            Ok(refs) => refs,
            Err(e) => return Err(e),
        };
        config.secret_ref_password = clone_opt_string(&refs.password);
        config.secret_ref_passphrase = clone_opt_string(&refs.passphrase);
        let ghost written = self.secret_state();
        let ghost id_text = id@;
        match self.store.insert_connection(&config) {
            Ok(()) => Ok(config),
            Err(e) => {
                self.discard_credentials(&refs);
                proof {
                    if old(self).secrets_reliable() {
                        assert(is_uuid_text(id_text));
                        assert(written == apply_both(old(self).secret_state(), id_text, draft, None, None).0);
                        assert(self.secret_state() =~= rolled_back(old(self).secret_state(), id_text, draft));
                    }
                }
                Err(ConnectionError::Storage(e))
            },
        }
    }

    /// Edits a connection: the draft is validated first; the editable fields
    /// are replaced whole, identity and position are kept; a `None` credential
    /// input keeps what is stored, others overwrite or clear it. A refused
    /// draft leaves everything as it was.
    pub fn update_connection(&mut self, id: &ConnId, draft: ConnectionDraft) -> (r: Result<
        ConnConfig,
        ConnectionError,
    >)
        ensures
            final(self).reliable() == old(self).reliable(),
            old(self).reliable() && find_conn(old(self).stored_conns(), id@) is None ==> r == Err::<
                ConnConfig,
                ConnectionError,
            >(ConnectionError::NotFound("连接")),
            old(self).reliable() && find_conn(old(self).stored_conns(), id@) is None ==> unchanged(
                *old(self),
                *final(self),
            ),
            old(self).reliable() && find_conn(old(self).stored_conns(), id@) is Some && group_missing(
                old(self).stored_groups(),
                draft.group_id,
            ) ==> r == Err::<ConnConfig, ConnectionError>(ConnectionError::NotFound("目标分组"))
                && unchanged(*old(self), *final(self)),
            old(self).reliable() && find_conn(old(self).stored_conns(), id@) is Some && !group_missing(
                old(self).stored_groups(),
                draft.group_id,
            ) && draft_error(draft) is Some ==> r == Err::<ConnConfig, ConnectionError>(
                ConnectionError::Domain(draft_error(draft)->0),
            ) && unchanged(*old(self), *final(self)),
            old(self).reliable() && find_conn(old(self).stored_conns(), id@) is Some && !group_missing(
                old(self).stored_groups(),
                draft.group_id,
            ) && draft_error(draft) is None ==> (r matches Ok(c) && updated(
                *old(self),
                *final(self),
                find_conn(old(self).stored_conns(), id@)->0,
                draft,
                c,
            )),
            final(self).secrets_reliable() == old(self).secrets_reliable(),
            old(self).secrets_reliable() ==> (r matches Ok(c) ==> find_conn(old(self).stored_conns(), id@) is Some
                && updated(*old(self), *final(self), find_conn(old(self).stored_conns(), id@)->0, draft, c)),
            r is Err ==> final(self).stored_conns() == old(self).stored_conns() && final(self).stored_groups()
                == old(self).stored_groups(),
    {
        let existing = match self.store.connection(id) {
            Ok(Some(c)) => c,
            Ok(None) => return Err(ConnectionError::NotFound("连接")),
            Err(e) => return Err(ConnectionError::Storage(e)),
        };
        proof {
            super::ports::lemma_find_conn(self.store.conns_model(), id@);
        }
        match self.ensure_group_exists(&draft.group_id) {
            Ok(()) => {},
            Err(e) => return Err(e),
        }
        let mut config = match Self::assemble(existing.id.clone(), &draft, None, None, existing.position) {
            Ok(c) => c,
            Err(e) => return Err(e),
        };
        let refs = match self.update_credentials(
            &existing.id,
            &existing.secret_ref_password,
            &existing.secret_ref_passphrase,
            &draft,
        ) {
            Ok(refs) => refs,
            Err(e) => return Err(e),
        };
        config.secret_ref_password = refs.password;
        config.secret_ref_passphrase = refs.passphrase;
        match self.store.update_connection(&config) {
            Ok(()) => Ok(config),
            Err(e) => Err(ConnectionError::Storage(e)),
        }
    }

    /// Copies a connection: the name gets the suffix "(副本)" and the copy goes
    /// last among its siblings. Credentials are not copied: the references
    /// point at the copied connection's entries and would dangle.
    pub fn duplicate_connection(&mut self, id: &ConnId) -> (r: Result<ConnConfig, ConnectionError>)
        requires
            find_conn(old(self).stored_conns(), id@) matches Some(s) ==> next_pos(
                old(self).stored_conns(),
                old(self).stored_groups(),
                opt_gid(s.group_id),
            ) <= i64::MAX,
        ensures
            final(self).reliable() == old(self).reliable(),
            old(self).reliable() && find_conn(old(self).stored_conns(), id@) is None ==> r == Err::<
                ConnConfig,
                ConnectionError,
            >(ConnectionError::NotFound("连接")) && unchanged(*old(self), *final(self)),
            old(self).reliable() && find_conn(old(self).stored_conns(), id@) is Some ==> (r matches Ok(
                c,
            ) && ({
                let s = find_conn(old(self).stored_conns(), id@)->0;
                &&& duplicate_of(
                    c,
                    s,
                    next_pos(old(self).stored_conns(), old(self).stored_groups(), opt_gid(s.group_id)),
                )
                &&& final(self).stored_conns() == old(self).stored_conns().push(c)
                &&& final(self).stored_groups() == old(self).stored_groups()
                &&& final(self).secret_state() == old(self).secret_state()
            })),
            final(self).secret_state() == old(self).secret_state(),
            r is Err ==> unchanged(*old(self), *final(self)),
            r matches Ok(c) ==> find_conn(old(self).stored_conns(), id@) is Some && ({
                let s = find_conn(old(self).stored_conns(), id@)->0;
                &&& duplicate_of(
                    c,
                    s,
                    next_pos(old(self).stored_conns(), old(self).stored_groups(), opt_gid(s.group_id)),
                )
                &&& final(self).stored_conns() == old(self).stored_conns().push(c)
                &&& final(self).stored_groups() == old(self).stored_groups()
            }),
    {
        let src = match self.store.connection(id) {
            Ok(Some(c)) => c,
            Ok(None) => return Err(ConnectionError::NotFound("连接")),
            Err(e) => return Err(ConnectionError::Storage(e)),
        };
        let conns = match self.load_conns() {
            Ok(v) => v,
            Err(e) => return Err(e),
        };
        let groups = match self.load_groups() {
            Ok(v) => v,
            Err(e) => return Err(e),
        };
        let position = Self::next_position(&conns, &groups, &src.group_id);
        let raw = new_id();
        proof {
            lemma_uuid_not_blank(raw@);
        }
        let new_identity = match ConnId::new(raw) {
            Ok(v) => v,
            Err(e) => return Err(ConnectionError::Domain(e)),
        };
        let mut name = src.name.clone();
        name.append("(副本)");
        let mut copy = src.clone();
        copy.id = new_identity;
        copy.name = name;
        copy.position = position;
        copy.secret_ref_password = None;
        copy.secret_ref_passphrase = None;
        match self.store.insert_connection(&copy) {
            Ok(()) => Ok(copy),
            Err(e) => Err(ConnectionError::Storage(e)),
        }
    }

    /// Moves a connection under `target_group` (`None` is the root); without a
    /// position it goes last among its new siblings.
    pub fn move_connection(
        &mut self,
        id: &ConnId,
        target_group: Option<GroupId>,
        position: Option<i64>,
    ) -> (r: Result<(), ConnectionError>)
        requires
            position is None && find_conn(old(self).stored_conns(), id@) is Some && !group_missing(
                old(self).stored_groups(),
                target_group,
            ) ==> next_pos(old(self).stored_conns(), old(self).stored_groups(), opt_gid(target_group))
                <= i64::MAX,
        ensures
            final(self).reliable() == old(self).reliable(),
            old(self).reliable() && find_conn(old(self).stored_conns(), id@) is None ==> r == Err::<
                (),
                ConnectionError,
            >(ConnectionError::NotFound("连接")) && unchanged(*old(self), *final(self)),
            old(self).reliable() && find_conn(old(self).stored_conns(), id@) is Some && group_missing(
                old(self).stored_groups(),
                target_group,
            ) ==> r == Err::<(), ConnectionError>(ConnectionError::NotFound("目标分组")) && unchanged(
                *old(self),
                *final(self),
            ),
            old(self).reliable() && find_conn(old(self).stored_conns(), id@) is Some && !group_missing(
                old(self).stored_groups(),
                target_group,
            ) ==> r is Ok && final(self).stored_groups() == old(self).stored_groups()
                && final(self).secret_state() == old(self).secret_state() && final(self).stored_conns()
                == super::ports::replace_conn(
                old(self).stored_conns(),
                ConnConfig {
                    group_id: target_group,
                    position: match position {
                        Some(p) => p,
                        None => next_pos(
                            old(self).stored_conns(),
                            old(self).stored_groups(),
                            opt_gid(target_group),
                        ) as i64,
                    },
                    ..find_conn(old(self).stored_conns(), id@)->0
                },
            ),
            final(self).secret_state() == old(self).secret_state(),
            r is Err ==> unchanged(*old(self), *final(self)),
            r is Ok ==> find_conn(old(self).stored_conns(), id@) is Some && !group_missing(
                old(self).stored_groups(),
                target_group,
            ) && final(self).stored_groups() == old(self).stored_groups() && final(self).stored_conns()
                == super::ports::replace_conn(
                old(self).stored_conns(),
                ConnConfig {
                    group_id: target_group,
                    position: match position {
                        Some(p) => p,
                        None => next_pos(
                            old(self).stored_conns(),
                            old(self).stored_groups(),
                            opt_gid(target_group),
                        ) as i64,
                    },
                    ..find_conn(old(self).stored_conns(), id@)->0
                },
            ),
    {
        let mut config = match self.store.connection(id) {
            Ok(Some(c)) => c,
            Ok(None) => return Err(ConnectionError::NotFound("连接")),
            Err(e) => return Err(ConnectionError::Storage(e)),
        };
        match self.ensure_group_exists(&target_group) {
            Ok(()) => {},
            Err(e) => return Err(e),
        }
        let conns = match self.load_conns() {
            Ok(v) => v,
            Err(e) => return Err(e),
        };
        let groups = match self.load_groups() {
            Ok(v) => v,
            Err(e) => return Err(e),
        };
        let ghost scope = opt_gid(target_group);
        config.group_id = target_group;
        config.position = match position {
            Some(p) => p,
            None => Self::next_position(&conns, &groups, &config.group_id),
        };
        match self.store.update_connection(&config) {
            Ok(()) => Ok(()),
            Err(e) => Err(ConnectionError::Storage(e)),
        }
    }

    /// Deletes a connection (its stored credentials stay).
    pub fn delete_connection(&mut self, id: &ConnId) -> (r: Result<(), ConnectionError>)
        ensures
            final(self).reliable() == old(self).reliable(),
            old(self).reliable() ==> r is Ok,
            old(self).reliable() ==> final(self).stored_conns() == super::ports::without_conn(
                old(self).stored_conns(),
                id@,
            ),
            r is Ok ==> final(self).stored_conns() == super::ports::without_conn(
                old(self).stored_conns(),
                id@,
            ),
            final(self).stored_groups() == old(self).stored_groups(),
            r is Err ==> (r matches Err(ConnectionError::Storage(_))) && unchanged(*old(self), *final(self)),
            final(self).secret_state() == old(self).secret_state(),
    {
        match self.store.delete_connection(id) {
            Ok(()) => Ok(()),
            Err(e) => Err(ConnectionError::Storage(e)),
        }
    }
}

} // verus!
