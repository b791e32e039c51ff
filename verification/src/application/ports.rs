//! Ports: the storage abstractions the use cases depend on.
//!
//! Each trait states, over a mathematical model of the stored data, what its
//! operations read and change; implementations (the SQLite and keychain stores
//! of the application, or the in-memory stores of this crate) are bound by it.

use vstd::prelude::*;

use crate::domain::connection::{ConnConfig, ConnId, GroupId};
use crate::domain::group::Group;
use crate::domain::hostkey::HostKeyRecord;

verus! {

/// Storage failure; the implementation fills in a sanitized message.
#[derive(Debug, Clone, PartialEq, Eq)]
pub struct StoreError(pub String);

/// Failure of the credential store; the message never holds a secret.
#[derive(Debug, Clone, PartialEq, Eq)]
pub struct SecretStoreError(pub String);

/// The display text of a storage failure.
pub open spec fn store_error_text(e: StoreError) -> Seq<char> {
    "数据库错误: "@ + e.0@
}

/// The display text of a credential store failure.
pub open spec fn secret_error_text(e: SecretStoreError) -> Seq<char> {
    "凭据存储错误: "@ + e.0@
}

impl StoreError {
    /// The display text.
    pub fn message(&self) -> (m: String)
        ensures
            m@ == store_error_text(*self),
    {
        let mut m = String::from_str("数据库错误: ");
        m.append(self.0.as_str());
        m
    }
}

impl SecretStoreError {
    /// The display text.
    pub fn message(&self) -> (m: String)
        ensures
            m@ == secret_error_text(*self),
    {
        let mut m = String::from_str("凭据存储错误: ");
        m.append(self.0.as_str());
        m
    }
}

/// Failure of the SSH transport, from the application's point of view.
#[derive(Debug, Clone, PartialEq, Eq)]
pub enum TransportError {
    /// TCP connection, handshake or protocol failure.
    Network(String),
    /// The server refused the user name or the credentials.
    AuthRejected {
        /// Methods the server still accepts.
        remaining: Vec<String>,
    },
    /// The private key could not be loaded (missing, unreadable, wrong passphrase).
    Key(String),
    /// The host key changed: the connection is blocked.
    HostkeyMismatch {
        /// The recorded fingerprint.
        recorded: String,
        /// The fingerprint presented now.
        current: String,
    },
    /// A first-seen host key was not confirmed (refused or timed out).
    HostkeyRejected,
    /// Keyboard-interactive authentication failed (cancelled or timed out).
    Prompt(String),
    /// Reading or writing the host key records failed.
    Storage(StoreError),
    /// A remote file operation failed (the server's message).
    RemoteFs(String),
    /// A local file operation failed.
    LocalIo(String),
    /// The remote side denied the operation.
    RemotePermissionDenied(String),
}

/// `items` separated by `, `.
pub open spec fn joined(items: Seq<String>) -> Seq<char>
    decreases items.len(),
{
    if items.len() == 0 {
        Seq::empty()
    } else if items.len() == 1 {
        items[0]@
    } else {
        joined(items.drop_last()) + ", "@ + items.last()@
    }
}

/// The display text of a transport failure.
pub open spec fn transport_error_text(e: TransportError) -> Seq<char> {
    match e {
        TransportError::Network(m) => "连接失败:"@ + m@,
        TransportError::AuthRejected { remaining } => "认证失败:服务器拒绝用户名或凭据(可尝试:"@
            + joined(remaining@) + ")"@,
        TransportError::Key(m) => "私钥加载失败:"@ + m@,
        TransportError::HostkeyMismatch { .. } => "主机指纹已变化,连接被阻断(疑似中间人攻击)"@,
        TransportError::HostkeyRejected => "主机指纹未获确认,连接取消"@,
        TransportError::Prompt(m) => "键盘交互失败:"@ + m@,
        TransportError::Storage(s) => store_error_text(s),
        TransportError::RemoteFs(m) => "远端文件操作失败:"@ + m@,
        TransportError::LocalIo(m) => "本地文件操作失败:"@ + m@,
        TransportError::RemotePermissionDenied(m) => "远端权限不足:"@ + m@,
    }
}

/// `items` separated by `, `.
pub fn join_items(items: &Vec<String>) -> (s: String)
    ensures
        s@ == joined(items@),
{
    let mut out = String::new();
    let mut i: usize = 0;
    assert(items@.subrange(0, 0) =~= Seq::<String>::empty());
    while i < items.len()
        invariant
            i <= items@.len(),
            out@ == joined(items@.subrange(0, i as int)),
        decreases items@.len() - i,
    {
        let ghost p = items@.subrange(0, i + 1);
        assert(p.drop_last() =~= items@.subrange(0, i as int));
        if i > 0 {
            out.append(", ");
        }
        out.append(items[i].as_str());
        proof {
            if i == 0 {
                assert(out@ =~= p[0]@);
            }
        }
        i = i + 1;
    }
    assert(items@.subrange(0, items@.len() as int) =~= items@);
    out
}

impl TransportError {
    /// The display text.
    pub fn message(&self) -> (m: String)
        ensures
            m@ == transport_error_text(*self),
    {
        match self {
            TransportError::Network(m) => {
                let mut s = String::from_str("连接失败:");
                s.append(m.as_str());
                s
            },
            TransportError::AuthRejected { remaining } => {
                let mut s = String::from_str("认证失败:服务器拒绝用户名或凭据(可尝试:");
                let j = join_items(remaining);
                s.append(j.as_str());
                s.append(")");
                s
            },
            TransportError::Key(m) => {
                let mut s = String::from_str("私钥加载失败:");
                s.append(m.as_str());
                s
            },
            TransportError::HostkeyMismatch { .. } => String::from_str(
                "主机指纹已变化,连接被阻断(疑似中间人攻击)",
            ),
            TransportError::HostkeyRejected => String::from_str("主机指纹未获确认,连接取消"),
            TransportError::Prompt(m) => {
                let mut s = String::from_str("键盘交互失败:");
                s.append(m.as_str());
                s
            },
            TransportError::Storage(e) => e.message(),
            TransportError::RemoteFs(m) => {
                let mut s = String::from_str("远端文件操作失败:");
                s.append(m.as_str());
                s
            },
            TransportError::LocalIo(m) => {
                let mut s = String::from_str("本地文件操作失败:");
                s.append(m.as_str());
                s
            },
            TransportError::RemotePermissionDenied(m) => {
                let mut s = String::from_str("远端权限不足:");
                s.append(m.as_str());
                s
            },
        }
    }
}

/// How a credential is kept: keychain, this session only, or not at all.
#[derive(Debug, Clone, Copy, PartialEq, Eq, Structural)]
pub enum SecretSaveMode {
    /// Persistent credential store (system keychain, or the encrypted fallback file).
    Keyring,
    /// Process memory only; gone when the application exits.
    Session,
    /// Not kept; any stored credential is cleared.
    Never,
}

/// Availability of the credential store, as the settings page shows it.
#[derive(Debug, Clone, Copy, PartialEq, Eq, Structural)]
pub enum SecretAvailability {
    /// The system keychain is available.
    Keyring,
    /// No keychain: encrypted file keyed by a machine fingerprint.
    Degraded,
}

/// Where settings and the window layout are kept (JSON text).
pub trait SettingsStore: Send + Sync {
    /// The saved settings, if any.
    fn load_settings(&self) -> Result<Option<String>, StoreError>;
    /// Saves the settings.
    fn save_settings(&self, raw: &str) -> Result<(), StoreError>;
    /// The saved layout, if any.
    fn load_layout(&self) -> Result<Option<String>, StoreError>;
    /// Saves the layout.
    fn save_layout(&self, raw: &str) -> Result<(), StoreError>;
}

/// Where confirmed host keys are kept.
pub trait HostKeyStore: Send + Sync {
    /// The key recorded for `host:port`, if any.
    fn host_key(&self, host: &str, port: u16) -> Result<Option<HostKeyRecord>, StoreError>;
    /// Records (or replaces) the key of `host:port`.
    fn save_host_key(&self, host: &str, port: u16, record: &HostKeyRecord) -> Result<(), StoreError>;
}

/// One prompt of a keyboard-interactive round.
#[derive(Debug)]
pub struct PromptSpec {
    /// The text shown (such as "Verification code:").
    pub prompt: String,
    /// Whether the answer is echoed (false for secrets).
    pub echo: bool,
}

/// A keyboard-interactive request announced to the front end.
#[derive(Debug)]
pub struct AuthPromptRequest {
    /// The identity the answer refers to.
    pub request_id: String,
    /// The name the server gives (such as "OTP Authentication").
    pub name: String,
    /// The server's instructions, if any.
    pub instructions: Option<String>,
    /// The prompts, in order.
    pub prompts: Vec<PromptSpec>,
}

/// A first-seen host key to confirm, announced to the front end.
#[derive(Debug)]
pub struct HostKeyConfirmRequest {
    /// The identity the answer refers to.
    pub request_id: String,
    /// Host.
    pub host: String,
    /// Port.
    pub port: u16,
    /// Key algorithm.
    pub algorithm: String,
    /// SHA256 fingerprint.
    pub fingerprint: String,
}

/// A session state change announced to the front end.
#[derive(Debug)]
pub struct SessionStatusEvent {
    /// Session identity.
    pub session_id: String,
    /// The connection record it came from; none for a quick connection.
    pub conn_id: Option<String>,
    /// The new state (`connecting`, `online` or `disconnected`).
    pub status: String,
    /// Why, such as the reason of a disconnect.
    pub reason: Option<String>,
}

/// Where session events go.
pub trait SessionEventSink: Send + Sync {
    /// A keyboard-interactive request awaits its answers.
    fn auth_prompt(&self, request: &AuthPromptRequest);
    /// A first-seen host key awaits confirmation.
    fn hostkey_confirm(&self, request: &HostKeyConfirmRequest);
    /// A session changed state.
    fn status_changed(&self, event: &SessionStatusEvent);
}

/// Where terminal output goes, in batches of raw bytes.
pub trait TerminalDataSink: Send + Sync {
    /// Output of terminal `terminal_id`.
    fn on_data(&self, terminal_id: &str, bytes: Vec<u8>);
}

/// Remote file type.
#[derive(Debug, Clone, Copy, PartialEq, Eq, Structural)]
pub enum RemoteFileType {
    /// Directory.
    Dir,
    /// Regular file.
    File,
    /// Symbolic link (not followed when deleting).
    Symlink,
    /// Anything else (socket, FIFO, device).
    Other,
}

/// A remote directory entry.
#[derive(Debug)]
pub struct RemoteEntry {
    /// Name (without the path).
    pub name: String,
    /// Type.
    pub file_type: RemoteFileType,
    /// Size in bytes; 0 for a directory.
    pub size: u64,
    /// Modification time (Unix seconds).
    pub mtime: Option<u64>,
    /// Permission bits (such as 0o755).
    pub mode: Option<u32>,
    /// Owner, when the server says.
    pub owner: Option<String>,
}

/// Progress of a transfer task announced to the front end.
#[derive(Debug)]
pub struct TransferProgressEvent {
    /// Task identity.
    pub task_id: String,
    /// Group identity (none for a single file).
    pub group_id: Option<String>,
    /// State name (`queued`, `preparing`, `awaiting_conflict`, `transferring`,
    /// `completed`, `failed`, `cancelled`).
    pub status: String,
    /// Bytes moved.
    pub transferred_bytes: u64,
    /// Total bytes.
    pub total_bytes: u64,
    /// Average speed in bytes per second.
    pub speed_bps: Option<u64>,
    /// Why it failed or was skipped.
    pub error: Option<String>,
}

/// Where transfer progress goes.
pub trait TransferProgressSink: Send + Sync {
    /// One progress or state event.
    fn on_progress(&self, event: &TransferProgressEvent);
}

/// An open local file, read or written in order.
pub trait LocalFile: Send {
    /// Reads the next chunk of at most `max` bytes into `buf`; empty at the end.
    fn read_chunk(&mut self, buf: &mut Vec<u8>, max: usize) -> Result<(), String>;
    /// Appends a chunk.
    fn write_chunk(&mut self, data: &[u8]) -> Result<(), String>;
    /// Flushes to disk.
    fn finish(&mut self) -> Result<(), String>;
}

/// The local file system as the transfer engine uses it.
pub trait LocalFs: Send + Sync {
    /// Size of the file at `path`; none if there is no file.
    fn file_size(&self, path: &str) -> Result<Option<u64>, String>;
    /// Whether `path` is a directory.
    fn is_dir(&self, path: &str) -> Result<bool, String>;
    /// The entries of a directory: (name, is a directory).
    fn list_dir(&self, path: &str) -> Result<Vec<(String, bool)>, String>;
    /// Creates a directory and its missing parents.
    fn ensure_dir(&self, path: &str) -> Result<(), String>;
    /// Opens a file for reading.
    fn open_read(&self, path: &str) -> Result<Box<dyn LocalFile>, String>;
    /// Creates or truncates a file for writing.
    fn create_write(&self, path: &str) -> Result<Box<dyn LocalFile>, String>;
    /// Renames a file.
    fn rename(&self, old_path: &str, new_path: &str) -> Result<(), String>;
    /// Removes a file.
    fn remove_file(&self, path: &str) -> Result<(), String>;
}

/// Direction of a file transfer.
#[derive(Debug, Clone, Copy, PartialEq, Eq, Structural)]
pub enum TransferDirection {
    /// Local → remote.
    Upload,
    /// Remote → local.
    Download,
}

/// The first connection with identity `id`, if any.
pub open spec fn find_conn(s: Seq<ConnConfig>, id: Seq<char>) -> Option<ConnConfig>
    decreases s.len(),
{
    if s.len() == 0 {
        None
    } else if s[0].id@ == id {
        Some(s[0])
    } else {
        find_conn(s.drop_first(), id)
    }
}

/// The first group with identity `id`, if any.
pub open spec fn find_group(s: Seq<Group>, id: Seq<char>) -> Option<Group>
    decreases s.len(),
{
    if s.len() == 0 {
        None
    } else if s[0].id@ == id {
        Some(s[0])
    } else {
        find_group(s.drop_first(), id)
    }
}

/// A found connection carries the identity it was looked up by.
pub proof fn lemma_find_conn(s: Seq<ConnConfig>, id: Seq<char>)
    ensures
        find_conn(s, id) matches Some(c) ==> c.id@ == id,
    decreases s.len(),
{
    if s.len() > 0 && s[0].id@ != id {
        lemma_find_conn(s.drop_first(), id);
    }
}

/// A found group carries the identity it was looked up by.
pub proof fn lemma_find_group(s: Seq<Group>, id: Seq<char>)
    ensures
        find_group(s, id) matches Some(g) ==> g.id@ == id,
    decreases s.len(),
{
    if s.len() > 0 && s[0].id@ != id {
        lemma_find_group(s.drop_first(), id);
    }
}

/// Every connection with the identity of `c` replaced by `c`.
pub open spec fn replace_conn(s: Seq<ConnConfig>, c: ConnConfig) -> Seq<ConnConfig> {
    Seq::new(s.len(), |i: int| if s[i].id@ == c.id@ { c } else { s[i] })
}

/// Every group with the identity of `g` replaced by `g`.
pub open spec fn replace_group(s: Seq<Group>, g: Group) -> Seq<Group> {
    Seq::new(s.len(), |i: int| if s[i].id@ == g.id@ { g } else { s[i] })
}

/// The connections whose identity is not `id`, in order.
pub open spec fn without_conn(s: Seq<ConnConfig>, id: Seq<char>) -> Seq<ConnConfig>
    decreases s.len(),
{
    if s.len() == 0 {
        s
    } else if s.last().id@ == id {
        without_conn(s.drop_last(), id)
    } else {
        without_conn(s.drop_last(), id).push(s.last())
    }
}

/// The groups whose identity is not `id`, in order.
pub open spec fn without_group(s: Seq<Group>, id: Seq<char>) -> Seq<Group>
    decreases s.len(),
{
    if s.len() == 0 {
        s
    } else if s.last().id@ == id {
        without_group(s.drop_last(), id)
    } else {
        without_group(s.drop_last(), id).push(s.last())
    }
}

/// Persistence of connections and groups.
///
/// The model is the sequence of stored records in the order reads return them;
/// `reliable` holds of a store whose operations never fail. Writes replace
/// records whole, matched by identity.
pub trait ConnectionStore {
    /// The stored groups.
    spec fn groups_model(&self) -> Seq<Group>;

    /// The stored connections.
    spec fn conns_model(&self) -> Seq<ConnConfig>;

    /// Whether operations on this store never fail.
    spec fn reliable(&self) -> bool;

    /// All groups (their order is not meaningful; sorting is the caller's job).
    fn groups(&self) -> (r: Result<Vec<Group>, StoreError>)
        ensures
            self.reliable() ==> r is Ok,
            r matches Ok(v) ==> v@ == self.groups_model(),
    ;

    /// All connections.
    fn connections(&self) -> (r: Result<Vec<ConnConfig>, StoreError>)
        ensures
            self.reliable() ==> r is Ok,
            r matches Ok(v) ==> v@ == self.conns_model(),
    ;

    /// One connection by identity.
    fn connection(&self, id: &ConnId) -> (r: Result<Option<ConnConfig>, StoreError>)
        ensures
            self.reliable() ==> r is Ok,
            r matches Ok(o) ==> o == find_conn(self.conns_model(), id@),
    ;

    /// One group by identity.
    fn group(&self, id: &GroupId) -> (r: Result<Option<Group>, StoreError>)
        ensures
            self.reliable() ==> r is Ok,
            r matches Ok(o) ==> o == find_group(self.groups_model(), id@),
    ;

    /// Adds a group.
    fn insert_group(&mut self, group: &Group) -> (r: Result<(), StoreError>)
        ensures
            final(self).reliable() == old(self).reliable(),
            old(self).reliable() ==> r is Ok,
            r is Ok ==> final(self).groups_model() == old(self).groups_model().push(*group),
            r is Ok ==> final(self).conns_model() == old(self).conns_model(),
            r is Err ==> final(self).groups_model() == old(self).groups_model()
                && final(self).conns_model() == old(self).conns_model(),
    ;

    /// Replaces the group with the same identity.
    fn update_group(&mut self, group: &Group) -> (r: Result<(), StoreError>)
        ensures
            final(self).reliable() == old(self).reliable(),
            old(self).reliable() ==> r is Ok,
            r is Ok ==> final(self).groups_model() == replace_group(old(self).groups_model(), *group),
            r is Ok ==> final(self).conns_model() == old(self).conns_model(),
            r is Err ==> final(self).groups_model() == old(self).groups_model()
                && final(self).conns_model() == old(self).conns_model(),
    ;

    /// Removes the group; its children are the caller's business. A write
    /// that fails (here and below) leaves the store as it was.
    fn delete_group(&mut self, id: &GroupId) -> (r: Result<(), StoreError>)
        ensures
            final(self).reliable() == old(self).reliable(),
            old(self).reliable() ==> r is Ok,
            r is Ok ==> final(self).groups_model() == without_group(old(self).groups_model(), id@),
            r is Ok ==> final(self).conns_model() == old(self).conns_model(),
            r is Err ==> final(self).groups_model() == old(self).groups_model()
                && final(self).conns_model() == old(self).conns_model(),
    ;

    /// Adds a connection.
    fn insert_connection(&mut self, config: &ConnConfig) -> (r: Result<(), StoreError>)
        ensures
            final(self).reliable() == old(self).reliable(),
            old(self).reliable() ==> r is Ok,
            r is Ok ==> final(self).conns_model() == old(self).conns_model().push(*config),
            r is Ok ==> final(self).groups_model() == old(self).groups_model(),
            r is Err ==> final(self).groups_model() == old(self).groups_model()
                && final(self).conns_model() == old(self).conns_model(),
    ;

    /// Replaces the connection with the same identity.
    fn update_connection(&mut self, config: &ConnConfig) -> (r: Result<(), StoreError>)
        ensures
            final(self).reliable() == old(self).reliable(),
            old(self).reliable() ==> r is Ok,
            r is Ok ==> final(self).conns_model() == replace_conn(old(self).conns_model(), *config),
            r is Ok ==> final(self).groups_model() == old(self).groups_model(),
            r is Err ==> final(self).groups_model() == old(self).groups_model()
                && final(self).conns_model() == old(self).conns_model(),
    ;

    /// Removes the connection.
    fn delete_connection(&mut self, id: &ConnId) -> (r: Result<(), StoreError>)
        ensures
            final(self).reliable() == old(self).reliable(),
            old(self).reliable() ==> r is Ok,
            r is Ok ==> final(self).conns_model() == without_conn(old(self).conns_model(), id@),
            r is Ok ==> final(self).groups_model() == old(self).groups_model(),
            r is Err ==> final(self).groups_model() == old(self).groups_model()
                && final(self).conns_model() == old(self).conns_model(),
    ;
}

/// Storage of secrets under reference keys (such as `conn:<id>:password`).
///
/// The model maps each key to its secret; encryption and persistence are the
/// implementation's business.
pub trait SecretStore {
    /// The stored secrets.
    spec fn secrets_model(&self) -> Map<Seq<char>, Seq<char>>;

    /// Whether operations on this store never fail.
    spec fn reliable(&self) -> bool;

    /// Stores a secret, replacing any previous one.
    fn put(&mut self, key: &str, secret: &str) -> (r: Result<(), SecretStoreError>)
        ensures
            final(self).reliable() == old(self).reliable(),
            old(self).reliable() ==> r is Ok,
            r is Ok ==> final(self).secrets_model() == old(self).secrets_model().insert(key@, secret@),
            r is Err ==> final(self).secrets_model() == old(self).secrets_model(),
    ;

    /// Reads a secret; `None` when absent.
    fn get(&self, key: &str) -> (r: Result<Option<String>, SecretStoreError>)
        ensures
            self.reliable() ==> r is Ok,
            r matches Ok(o) ==> (o matches Some(v) ==> self.secrets_model().contains_key(key@)
                && v@ == self.secrets_model()[key@]),
            r matches Ok(o) ==> (o is None ==> !self.secrets_model().contains_key(key@)),
    ;

    /// Deletes a secret; deleting an absent one succeeds.
    fn delete(&mut self, key: &str) -> (r: Result<(), SecretStoreError>)
        ensures
            final(self).reliable() == old(self).reliable(),
            old(self).reliable() ==> r is Ok,
            r is Ok ==> final(self).secrets_model() == old(self).secrets_model().remove(key@),
            r is Err ==> final(self).secrets_model() == old(self).secrets_model(),
    ;
}

} // verus!
