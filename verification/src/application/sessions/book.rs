//! The session book: every session's state through `Connecting → Online →
//! Disconnected`, the connection parameters it keeps for reconnecting, and the
//! rules that assemble those parameters from a stored connection or a quick
//! connect.

use vstd::prelude::*;

use super::server_info::{opt_text, ServerInfo};
use crate::application::connections::{
    ConnectionDraft, ConnectionError, ConnectionService, CredentialInput, SecretKind,
};
use crate::application::connections::credentials::{ref_key, resolved};
use crate::application::ports::{
    find_conn, ConnectionStore, SecretSaveMode, SecretStore, SessionStatusEvent, StoreError,
    TransportError,
};
use crate::application::connections::is_uuid_text;
use crate::application::connections::new_id;
use crate::domain::connection::{clone_opt_string, AuthMethod, ConnId, Encoding};
use crate::domain::session::{session_name, session_step, SessionStatus};

verus! {

/// Error of the session use cases.
#[derive(Debug, Clone, PartialEq, Eq)]
pub enum SessionError {
    /// Connecting or authenticating failed.
    Connect(TransportError),
    /// The connection record does not exist.
    ConnectionNotFound,
    /// The session does not exist.
    SessionNotFound,
    /// The session is disconnected; no channel can be opened.
    SessionClosed,
    /// The method needs a credential that is not stored (the user is asked).
    CredentialsRequired,
    /// A connection management use case failed.
    Connections(ConnectionError),
    /// Reading the connection configuration failed.
    Storage(StoreError),
}

/// The display text of a session error.
pub open spec fn session_error_text(e: SessionError) -> Seq<char> {
    match e {
        SessionError::Connect(t) => crate::application::ports::transport_error_text(t),
        SessionError::ConnectionNotFound => "连接不存在"@,
        SessionError::SessionNotFound => "会话不存在"@,
        SessionError::SessionClosed => "会话已断开"@,
        SessionError::CredentialsRequired => "缺少认证凭据,请输入密码/口令"@,
        SessionError::Connections(c) => crate::application::connections::connection_error_text(c),
        SessionError::Storage(s) => crate::application::ports::store_error_text(s),
    }
}

impl SessionError {
    /// The display text.
    pub fn message(&self) -> (m: String)
        ensures
            m@ == session_error_text(*self),
    {
        match self {
            SessionError::Connect(t) => t.message(),
            SessionError::ConnectionNotFound => String::from_str("连接不存在"),
            SessionError::SessionNotFound => String::from_str("会话不存在"),
            SessionError::SessionClosed => String::from_str("会话已断开"),
            SessionError::CredentialsRequired => String::from_str("缺少认证凭据,请输入密码/口令"),
            SessionError::Connections(c) => c.message(),
            SessionError::Storage(s) => s.message(),
        }
    }
}

/// How to authenticate.
#[derive(Debug)]
pub enum AuthPlan {
    /// User name and password.
    Password {
        /// The password, held only while connecting.
        password: String,
    },
    /// Private key; without a path the default keys are tried.
    PrivateKey {
        /// Key path.
        path: Option<String>,
        /// Key passphrase.
        passphrase: Option<String>,
    },
    /// Keyboard-interactive (one-time codes), asked round by round.
    KeyboardInteractive,
    /// Default keys, then the SSH agent.
    Agent,
}

/// Parameters of an SSH connection.
#[derive(Debug)]
pub struct SshConnectParams {
    /// Host (address or name).
    pub host: String,
    /// Port.
    pub port: u16,
    /// User name.
    pub username: String,
    /// Authentication plan.
    pub auth: AuthPlan,
}

/// An authentication plan as text.
pub enum AuthModel {
    Password(Seq<char>),
    PrivateKey(Option<Seq<char>>, Option<Seq<char>>),
    KeyboardInteractive,
    Agent,
}

/// Connection parameters as text.
pub struct ParamsModel {
    pub host: Seq<char>,
    pub port: u16,
    pub username: Seq<char>,
    pub auth: AuthModel,
}

/// The view of an authentication plan.
pub open spec fn auth_view(a: AuthPlan) -> AuthModel {
    match a {
        AuthPlan::Password { password } => AuthModel::Password(password@),
        AuthPlan::PrivateKey { path, passphrase } => AuthModel::PrivateKey(
            opt_text(path),
            opt_text(passphrase),
        ),
        AuthPlan::KeyboardInteractive => AuthModel::KeyboardInteractive,
        AuthPlan::Agent => AuthModel::Agent,
    }
}

/// The view of connection parameters.
pub open spec fn params_view(p: SshConnectParams) -> ParamsModel {
    ParamsModel { host: p.host@, port: p.port, username: p.username@, auth: auth_view(p.auth) }
}

/// The plan for `auth` with the resolved credentials; a password login
/// without a password has none.
pub open spec fn plan_for(
    auth: AuthMethod,
    password: Option<Seq<char>>,
    passphrase: Option<Seq<char>>,
    key_path: Option<Seq<char>>,
) -> Option<AuthModel> {
    match auth {
        AuthMethod::Password => match password {
            Some(p) => Some(AuthModel::Password(p)),
            None => None,
        },
        AuthMethod::PrivateKey => Some(AuthModel::PrivateKey(key_path, passphrase)),
        AuthMethod::KeyboardInteractive => Some(AuthModel::KeyboardInteractive),
        AuthMethod::Agent => Some(AuthModel::Agent),
    }
}

/// Connection parameters from a configuration and its resolved credentials; a
/// password login without a password needs credentials first.
pub fn build_params(
    host: &str,
    port: u16,
    username: &str,
    auth: AuthMethod,
    password: Option<String>,
    passphrase: Option<String>,
    private_key_path: Option<String>,
) -> (r: Result<SshConnectParams, SessionError>)
    ensures
        match plan_for(auth, opt_text(password), opt_text(passphrase), opt_text(private_key_path)) {
            Some(a) => r is Ok && params_view(r->Ok_0) == (ParamsModel {
                host: host@,
                port,
                username: username@,
                auth: a,
            }),
            None => r == Err::<SshConnectParams, SessionError>(SessionError::CredentialsRequired),
        },
{
    let plan = match auth {
        AuthMethod::Password => match password {
            Some(p) => AuthPlan::Password { password: p },
            None => {
                return Err(SessionError::CredentialsRequired);
            },
        },
        AuthMethod::PrivateKey => AuthPlan::PrivateKey { path: private_key_path, passphrase },
        AuthMethod::KeyboardInteractive => AuthPlan::KeyboardInteractive,
        AuthMethod::Agent => AuthPlan::Agent,
    };
    Ok(
        SshConnectParams {
            host: String::from_str(host),
            port,
            username: String::from_str(username),
            auth: plan,
        },
    )
}

/// A copy of connection parameters.
pub fn copy_params(p: &SshConnectParams) -> (r: SshConnectParams)
    ensures
        params_view(r) == params_view(*p),
{
    let auth = match &p.auth {
        AuthPlan::Password { password } => AuthPlan::Password { password: password.clone() },
        AuthPlan::PrivateKey { path, passphrase } => AuthPlan::PrivateKey {
            path: clone_opt_string(path),
            passphrase: clone_opt_string(passphrase),
        },
        AuthPlan::KeyboardInteractive => AuthPlan::KeyboardInteractive,
        AuthPlan::Agent => AuthPlan::Agent,
    };
    SshConnectParams {
        host: p.host.clone(),
        port: p.port,
        username: p.username.clone(),
        auth,
    }
}

/// The parameters for the stored connection `id`: its configuration, with the
/// password and passphrase resolved from the credential stores.
pub fn params_for_conn<S: ConnectionStore, K: SecretStore>(
    connections: &ConnectionService<S, K>,
    id: &ConnId,
) -> (r: Result<SshConnectParams, SessionError>)
    ensures
        connections.reliable() ==> match find_conn(connections.stored_conns(), id@) {
            None => r == Err::<SshConnectParams, SessionError>(SessionError::ConnectionNotFound),
            Some(c) => match plan_for(
                c.auth,
                resolved(connections.secret_state(), ref_key(id@, SecretKind::Password)),
                resolved(connections.secret_state(), ref_key(id@, SecretKind::Passphrase)),
                opt_text(c.private_key_path),
            ) {
                Some(a) => r is Ok && params_view(r->Ok_0) == (ParamsModel {
                    host: c.host@,
                    port: c.port,
                    username: c.username@,
                    auth: a,
                }),
                None => r == Err::<SshConnectParams, SessionError>(
                    SessionError::CredentialsRequired,
                ),
            },
        },
{
    let config = match connections.connection(id) {
        Ok(Some(c)) => c,
        Ok(None) => {
            return Err(SessionError::ConnectionNotFound);
        },
        Err(e) => {
            return Err(SessionError::Connections(e));
        },
    };
    let password = match connections.resolve_secret(id, SecretKind::Password) {
        Ok(p) => p,
        Err(e) => {
            return Err(SessionError::Connections(e));
        },
    };
    let passphrase = match connections.resolve_secret(id, SecretKind::Passphrase) {
        Ok(p) => p,
        Err(e) => {
            return Err(SessionError::Connections(e));
        },
    };
    let key = clone_opt_string(&config.private_key_path);
    build_params(
        config.host.as_str(),
        config.port,
        config.username.as_str(),
        config.auth,
        password,
        passphrase,
        key,
    )
}

/// A quick connection: typed-in parameters, optionally saved as a record.
#[derive(Debug)]
pub struct QuickConnectSpec {
    /// Display name when saved; the host by default.
    pub name: Option<String>,
    /// Host.
    pub host: String,
    /// Port.
    pub port: u16,
    /// User name.
    pub username: String,
    /// Authentication method.
    pub auth: AuthMethod,
    /// One-time password.
    pub password: Option<String>,
    /// One-time key passphrase.
    pub passphrase: Option<String>,
    /// Key path.
    pub private_key_path: Option<String>,
    /// Save as a connection record (credentials go to the keychain).
    pub save: bool,
}

/// A credential typed in for a saved quick connection: kept in the keychain.
pub open spec fn keyring_input(o: Option<String>, i: Option<CredentialInput>) -> bool {
    match (o, i) {
        (None, None) => true,
        (Some(v), Some(c)) => c.value@ == v@ && c.save == SecretSaveMode::Keyring,
        _ => false,
    }
}

/// The record a saved quick connection creates: at the root, named after the
/// host unless named, with UTF-8 and no colour or remark.
pub fn quick_draft(spec: QuickConnectSpec) -> (d: ConnectionDraft)
    ensures
        d.group_id is None,
        d.name@ == match spec.name {
            Some(n) => n@,
            None => spec.host@,
        },
        d.host@ == spec.host@,
        d.port == spec.port,
        d.username@ == spec.username@,
        d.auth == spec.auth,
        opt_text(d.private_key_path) == opt_text(spec.private_key_path),
        keyring_input(spec.password, d.password),
        keyring_input(spec.passphrase, d.passphrase),
        d.encoding == Encoding::Utf8,
        d.tag_color is None,
        d.remark is None,
{
    let name = match spec.name {
        Some(n) => n,
        None => spec.host.clone(),
    };
    let password = match spec.password {
        Some(value) => Some(CredentialInput { value, save: SecretSaveMode::Keyring }),
        None => None,
    };
    let passphrase = match spec.passphrase {
        Some(value) => Some(CredentialInput { value, save: SecretSaveMode::Keyring }),
        None => None,
    };
    ConnectionDraft {
        group_id: None,
        name,
        host: spec.host,
        port: spec.port,
        username: spec.username,
        auth: spec.auth,
        private_key_path: spec.private_key_path,
        password,
        passphrase,
        encoding: Encoding::Utf8,
        tag_color: None,
        remark: None,
    }
}

/// The parameters of an unsaved quick connection.
pub fn quick_params(spec: QuickConnectSpec) -> (r: Result<SshConnectParams, SessionError>)
    ensures
        match plan_for(
            spec.auth,
            opt_text(spec.password),
            opt_text(spec.passphrase),
            opt_text(spec.private_key_path),
        ) {
            Some(a) => r is Ok && params_view(r->Ok_0) == (ParamsModel {
                host: spec.host@,
                port: spec.port,
                username: spec.username@,
                auth: a,
            }),
            None => r == Err::<SshConnectParams, SessionError>(SessionError::CredentialsRequired),
        },
{
    build_params(
        spec.host.as_str(),
        spec.port,
        spec.username.as_str(),
        spec.auth,
        spec.password,
        spec.passphrase,
        spec.private_key_path,
    )
}

/// Server information as text.
pub struct InfoModel {
    pub hostname: Option<Seq<char>>,
    pub os: Option<Seq<char>>,
    pub kernel: Option<Seq<char>>,
    pub arch: Option<Seq<char>>,
}

/// The view of server information.
pub open spec fn info_view(i: ServerInfo) -> InfoModel {
    InfoModel {
        hostname: opt_text(i.hostname),
        os: opt_text(i.os),
        kernel: opt_text(i.kernel),
        arch: opt_text(i.arch),
    }
}

/// The view of optional server information.
pub open spec fn opt_info(o: Option<ServerInfo>) -> Option<InfoModel> {
    match o {
        Some(i) => Some(info_view(i)),
        None => None,
    }
}

/// The view of an optional connection identity.
pub open spec fn opt_conn(o: Option<ConnId>) -> Option<Seq<char>> {
    match o {
        Some(c) => Some(c@),
        None => None,
    }
}

/// A copy of server information.
pub fn copy_info(i: &ServerInfo) -> (r: ServerInfo)
    ensures
        info_view(r) == info_view(*i),
{
    ServerInfo {
        hostname: clone_opt_string(&i.hostname),
        os: clone_opt_string(&i.os),
        kernel: clone_opt_string(&i.kernel),
        arch: clone_opt_string(&i.arch),
    }
}

/// What a session is, as the contracts see it.
pub struct SessionModel {
    pub id: Seq<char>,
    pub status: SessionStatus,
    pub conn: Option<Seq<char>>,
    pub temporary: bool,
    pub params: ParamsModel,
    /// A live transport connection is attached.
    pub connected: bool,
    pub info: Option<InfoModel>,
}

/// A snapshot of one session.
#[derive(Debug)]
pub struct SessionInfo {
    pub session_id: String,
    /// The connection record it came from; none for a quick connection.
    pub conn_id: Option<String>,
    /// Whether it is an unsaved quick connection.
    pub temporary: bool,
    pub status: SessionStatus,
    /// Collected after connecting; none until then.
    pub server_info: Option<ServerInfo>,
}

/// `t` shows the session `m`.
pub open spec fn shows_session(t: SessionInfo, m: SessionModel) -> bool {
    &&& t.session_id@ == m.id
    &&& opt_text(t.conn_id) == m.conn
    &&& t.temporary == m.temporary
    &&& t.status == m.status
    &&& opt_info(t.server_info) == m.info
}

/// Index of the last session with identity `id`.
pub open spec fn locate_session(ss: Seq<SessionModel>, id: Seq<char>) -> Option<int>
    decreases ss.len(),
{
    if ss.len() == 0 {
        None
    } else if ss.last().id == id {
        Some(ss.len() - 1)
    } else {
        locate_session(ss.drop_last(), id)
    }
}

/// The sessions with session `id` changed by `f`.
pub open spec fn edited_session(
    ss: Seq<SessionModel>,
    id: Seq<char>,
    f: spec_fn(SessionModel) -> SessionModel,
) -> Seq<SessionModel> {
    match locate_session(ss, id) {
        Some(i) => ss.update(i, f(ss[i])),
        None => ss,
    }
}

/// `m` put in place of the session with its identity, or appended.
pub open spec fn placed_session(ss: Seq<SessionModel>, m: SessionModel) -> Seq<SessionModel> {
    match locate_session(ss, m.id) {
        Some(i) => ss.update(i, m),
        None => ss.push(m),
    }
}

/// Where `locate_session` points.
pub proof fn lemma_locate_session(ss: Seq<SessionModel>, id: Seq<char>)
    ensures
        match locate_session(ss, id) {
            Some(i) => 0 <= i < ss.len() && ss[i].id == id,
            None => forall|j: int| 0 <= j < ss.len() ==> ss[j].id != id,
        },
    decreases ss.len(),
{
    if ss.len() > 0 {
        lemma_locate_session(ss.drop_last(), id);
        assert(forall|j: int| 0 <= j < ss.len() - 1 ==> ss.drop_last()[j] == ss[j]);
    }
}

/// One session's record.
struct SessionEntry {
    id: String,
    status: SessionStatus,
    conn_id: Option<ConnId>,
    temporary: bool,
    params: SshConnectParams,
    connected: bool,
    server_info: Option<ServerInfo>,
}

impl SessionEntry {
    closed spec fn model(self) -> SessionModel {
        SessionModel {
            id: self.id@,
            status: self.status,
            conn: opt_conn(self.conn_id),
            temporary: self.temporary,
            params: params_view(self.params),
            connected: self.connected,
            info: opt_info(self.server_info),
        }
    }

    fn duplicate(&self) -> (e: SessionEntry)
        ensures
            e.model() == self.model(),
    {
        let conn_id = match &self.conn_id {
            Some(c) => Some(c.clone()),
            None => None,
        };
        let server_info = match &self.server_info {
            Some(i) => Some(copy_info(i)),
            None => None,
        };
        SessionEntry {
            id: self.id.clone(),
            status: self.status,
            conn_id,
            temporary: self.temporary,
            params: copy_params(&self.params),
            connected: self.connected,
            server_info,
        }
    }

    fn snapshot(&self) -> (t: SessionInfo)
        ensures
            shows_session(t, self.model()),
    {
        let conn_id = match &self.conn_id {
            Some(c) => Some(String::from_str(c.as_str())),
            None => None,
        };
        let server_info = match &self.server_info {
            Some(i) => Some(copy_info(i)),
            None => None,
        };
        SessionInfo {
            session_id: self.id.clone(),
            conn_id,
            temporary: self.temporary,
            status: self.status,
            server_info,
        }
    }
}

closed spec fn session_models(s: Seq<SessionEntry>) -> Seq<SessionModel> {
    s.map_values(|e: SessionEntry| e.model())
}

/// The session book.
pub struct SessionBook {
    entries: Vec<SessionEntry>,
}

impl View for SessionBook {
    type V = Seq<SessionModel>;

    closed spec fn view(&self) -> Seq<SessionModel> {
        session_models(self.entries@)
    }
}

impl SessionBook {
    /// An empty book.
    pub fn new() -> (b: Self)
        ensures
            b@.len() == 0,
    {
        let b = SessionBook { entries: Vec::new() };
        assert(b@ =~= Seq::<SessionModel>::empty());
        b
    }

    fn find(&self, id: &str) -> (r: Option<usize>)
        ensures
            match r {
                Some(i) => locate_session(self@, id@) == Some(i as int),
                None => locate_session(self@, id@).is_none(),
            },
            r matches Some(i) ==> i < self.entries@.len(),
    {
        let k = String::from_str(id);
        let mut i = self.entries.len();
        let ghost ss = self@;
        assert(ss.subrange(0, i as int) =~= ss);
        while i > 0
            invariant
                i <= self.entries@.len(),
                ss == session_models(self.entries@),
                k@ == id@,
                locate_session(ss, id@) == locate_session(ss.subrange(0, i as int), id@),
            decreases i,
        {
            let ghost p = ss.subrange(0, i as int);
            assert(p.drop_last() =~= ss.subrange(0, i - 1));
            assert(p.last() == self.entries@[i - 1].model());
            if self.entries[i - 1].id == k {
                return Some(i - 1);
            }
            i = i - 1;
        }
        None
    }

    fn put_at(&mut self, i: usize, e: SessionEntry)
        requires
            i < old(self).entries@.len(),
        ensures
            final(self)@ == old(self)@.update(i as int, e.model()),
    {
        self.entries.set(i, e);
        assert(session_models(self.entries@) =~= old(self)@.update(i as int, e.model()));
    }

    /// Opens a session record in `Connecting` with the parameters kept for
    /// reconnecting; gives back its fresh identity.
    pub fn open(&mut self, conn_id: Option<ConnId>, temporary: bool, params: SshConnectParams) -> (id:
        String)
        ensures
            is_uuid_text(id@),
            final(self)@ == placed_session(
                old(self)@,
                SessionModel {
                    id: id@,
                    status: SessionStatus::Connecting,
                    conn: opt_conn(conn_id),
                    temporary,
                    params: params_view(params),
                    connected: false,
                    info: None,
                },
            ),
    {
        let id = new_id();
        let e = SessionEntry {
            id: id.clone(),
            status: SessionStatus::Connecting,
            conn_id,
            temporary,
            params,
            connected: false,
            server_info: None,
        };
        proof {
            lemma_locate_session(old(self)@, id@);
        }
        match self.find(id.as_str()) {
            Some(i) => self.put_at(i, e),
            None => {
                self.entries.push(e);
                assert(session_models(self.entries@) =~= old(self)@.push(e.model()));
            },
        }
        id
    }

    /// The parameters kept for session `id`.
    pub fn params_of(&self, id: &str) -> (r: Result<SshConnectParams, SessionError>)
        ensures
            match locate_session(self@, id@) {
                Some(i) => r is Ok && params_view(r->Ok_0) == self@[i].params,
                None => r == Err::<SshConnectParams, SessionError>(SessionError::SessionNotFound),
            },
    {
        match self.find(id) {
            Some(i) => Ok(copy_params(&self.entries[i].params)),
            None => Err(SessionError::SessionNotFound),
        }
    }

    /// The transport connected: session `id` is online with its connection.
    pub fn mark_online(&mut self, id: &str) -> (r: Result<SessionInfo, SessionError>)
        ensures
            final(self)@ == edited_session(
                old(self)@,
                id@,
                |m: SessionModel| SessionModel { status: SessionStatus::Online, connected: true, ..m },
            ),
            match locate_session(old(self)@, id@) {
                Some(i) => r is Ok && shows_session(r->Ok_0, final(self)@[i]),
                None => r == Err::<SessionInfo, SessionError>(SessionError::SessionNotFound),
            },
    {
        match self.find(id) {
            Some(i) => {
                let mut e = self.entries[i].duplicate();
                e.status = SessionStatus::Online;
                e.connected = true;
                let t = e.snapshot();
                self.put_at(i, e);
                Ok(t)
            },
            None => Err(SessionError::SessionNotFound),
        }
    }

    /// Connecting failed: session `id` is disconnected, without a connection.
    pub fn mark_failed(&mut self, id: &str)
        ensures
            final(self)@ == edited_session(
                old(self)@,
                id@,
                |m: SessionModel|
                    SessionModel { status: SessionStatus::Disconnected, connected: false, ..m },
            ),
    {
        if let Some(i) = self.find(id) {
            let mut e = self.entries[i].duplicate();
            e.status = SessionStatus::Disconnected;
            e.connected = false;
            self.put_at(i, e);
        }
    }

    /// Closing session `id`: it is disconnected (the record stays for
    /// reconnecting); says whether a connection was attached, to be shut.
    pub fn close(&mut self, id: &str) -> (r: Result<bool, SessionError>)
        ensures
            final(self)@ == edited_session(
                old(self)@,
                id@,
                |m: SessionModel|
                    SessionModel { status: SessionStatus::Disconnected, connected: false, ..m },
            ),
            match locate_session(old(self)@, id@) {
                Some(i) => r == Ok::<bool, SessionError>(old(self)@[i].connected),
                None => r == Err::<bool, SessionError>(SessionError::SessionNotFound),
            },
    {
        match self.find(id) {
            Some(i) => {
                let mut e = self.entries[i].duplicate();
                let was = e.connected;
                e.status = SessionStatus::Disconnected;
                e.connected = false;
                self.put_at(i, e);
                Ok(was)
            },
            None => Err(SessionError::SessionNotFound),
        }
    }

    /// May session `id` reconnect? Only from `Disconnected`; the record is not
    /// changed (the next connect attempt sets its state).
    pub fn begin_reconnect(&self, id: &str) -> (r: Result<(), SessionError>)
        ensures
            match locate_session(self@, id@) {
                Some(i) => if session_step(self@[i].status, SessionStatus::Connecting) {
                    r == Ok::<(), SessionError>(())
                } else {
                    r matches Err(SessionError::Connect(TransportError::Network(m))) && m@
                        == "当前状态不可重连"@
                },
                None => r == Err::<(), SessionError>(SessionError::SessionNotFound),
            },
    {
        match self.find(id) {
            Some(i) => match self.entries[i].status.transition_to(SessionStatus::Connecting) {
                Ok(_) => Ok(()),
                Err(_) => Err(
                    SessionError::Connect(
                        TransportError::Network(String::from_str("当前状态不可重连")),
                    ),
                ),
            },
            None => Err(SessionError::SessionNotFound),
        }
    }

    /// The watcher saw the transport close: an online session `id` becomes
    /// disconnected (true: announce it); any other state is left alone.
    pub fn mark_down(&mut self, id: &str) -> (changed: bool)
        ensures
            match locate_session(old(self)@, id@) {
                Some(i) => if old(self)@[i].status == SessionStatus::Online {
                    &&& final(self)@ == old(self)@.update(
                        i,
                        SessionModel {
                            status: SessionStatus::Disconnected,
                            connected: false,
                            ..old(self)@[i]
                        },
                    )
                    &&& changed
                } else {
                    final(self)@ == old(self)@ && !changed
                },
                None => final(self)@ == old(self)@ && !changed,
            },
    {
        match self.find(id) {
            Some(i) => {
                if self.entries[i].status == SessionStatus::Online {
                    let mut e = self.entries[i].duplicate();
                    e.status = SessionStatus::Disconnected;
                    e.connected = false;
                    self.put_at(i, e);
                    true
                } else {
                    false
                }
            },
            None => false,
        }
    }

    /// Records the server information collected for session `id`.
    pub fn set_server_info(&mut self, id: &str, info: ServerInfo)
        ensures
            final(self)@ == edited_session(
                old(self)@,
                id@,
                |m: SessionModel| SessionModel { info: Some(info_view(info)), ..m },
            ),
    {
        if let Some(i) = self.find(id) {
            let mut e = self.entries[i].duplicate();
            e.server_info = Some(info);
            self.put_at(i, e);
        }
    }

    /// Whether session `id` has a connection attached.
    pub fn is_connected(&self, id: &str) -> (b: bool)
        ensures
            b == match locate_session(self@, id@) {
                Some(i) => self@[i].connected,
                None => false,
            },
    {
        match self.find(id) {
            Some(i) => self.entries[i].connected,
            None => false,
        }
    }

    /// Whether session `id` can be used, given whether its transport link is
    /// closed (`link_closed`, asked only of a connected session): a session
    /// that is not in the book is not found; one without a live connection
    /// (still connecting, or disconnected after a failed connect, a close or a
    /// lost link) is closed, and so is a connected one whose link has closed.
    pub fn usable(&self, id: &str, link_closed: bool) -> (r: Result<(), SessionError>)
        ensures
            locate_session(self@, id@) is None ==> r matches Err(SessionError::SessionNotFound),
            (locate_session(self@, id@) matches Some(i) && !self@[i].connected) ==> r matches Err(
                SessionError::SessionClosed,
            ),
            (locate_session(self@, id@) matches Some(i) && self@[i].connected) ==> (if link_closed {
                r matches Err(SessionError::SessionClosed)
            } else {
                r is Ok
            }),
    {
        match self.find(id) {
            None => Err(SessionError::SessionNotFound),
            Some(i) => {
                if !self.entries[i].connected || link_closed {
                    Err(SessionError::SessionClosed)
                } else {
                    Ok(())
                }
            },
        }
    }

    /// The connection record of session `id`, as text.
    pub fn conn_id_of(&self, id: &str) -> (r: Option<String>)
        ensures
            opt_text(r) == match locate_session(self@, id@) {
                Some(i) => self@[i].conn,
                None => None,
            },
    {
        match self.find(id) {
            Some(i) => match &self.entries[i].conn_id {
                Some(c) => Some(String::from_str(c.as_str())),
                None => None,
            },
            None => None,
        }
    }

    /// The event announcing that session `id` is now in `status`.
    pub fn status_event(&self, id: &str, status: SessionStatus, reason: Option<String>) -> (e:
        SessionStatusEvent)
        ensures
            e.session_id@ == id@,
            opt_text(e.conn_id) == match locate_session(self@, id@) {
                Some(i) => self@[i].conn,
                None => None,
            },
            e.status@ == session_name(status)@,
            e.reason == reason,
    {
        SessionStatusEvent {
            session_id: String::from_str(id),
            conn_id: self.conn_id_of(id),
            status: String::from_str(status.as_str()),
            reason,
        }
    }

    /// Snapshot of session `id`.
    pub fn info_of(&self, id: &str) -> (r: Option<SessionInfo>)
        ensures
            match locate_session(self@, id@) {
                Some(i) => r is Some && shows_session(r->Some_0, self@[i]),
                None => r is None,
            },
    {
        match self.find(id) {
            Some(i) => Some(self.entries[i].snapshot()),
            None => None,
        }
    }

    /// Snapshots of all sessions, in book order.
    pub fn list(&self) -> (r: Vec<SessionInfo>)
        ensures
            r.len() == self@.len(),
            forall|i: int| 0 <= i < r.len() ==> shows_session(#[trigger] r[i], self@[i]),
    {
        let mut r: Vec<SessionInfo> = Vec::new();
        let mut i: usize = 0;
        while i < self.entries.len()
            invariant
                i <= self.entries@.len(),
                r.len() == i,
                forall|k: int| 0 <= k < i ==> shows_session(#[trigger] r[k], self@[k]),
            decreases self.entries@.len() - i,
        {
            r.push(self.entries[i].snapshot());
            i = i + 1;
        }
        r
    }
}

} // verus!
