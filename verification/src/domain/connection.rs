//! Connection management domain: identity values, authentication method,
//! encoding and the connection configuration entity.
//!
//! Identities are strings everywhere; credentials themselves never enter the
//! domain layer, only the reference keys under which they are stored.

use vstd::prelude::*;

use super::error::DomainError;
use crate::text::{is_blank, str_is_blank};

verus! {

/// Unique identity of a connection record; never blank.
#[derive(Debug, PartialEq, Eq)]
pub struct ConnId(String);

impl View for ConnId {
    type V = Seq<char>;

    closed spec fn view(&self) -> Seq<char> {
        self.0@
    }
}

impl ConnId {
    #[verifier::type_invariant]
    spec fn inv(self) -> bool {
        !is_blank(self.0@)
    }

    /// Builds a connection identity; blank text is refused.
    pub fn new(value: String) -> (r: Result<Self, DomainError>)
        ensures
            is_blank(value@) <==> r is Err,
            r matches Err(e) ==> e == DomainError::EmptyIdentity,
            r matches Ok(id) ==> id@ == value@,
    {
        if str_is_blank(value.as_str()) {
            return Err(DomainError::EmptyIdentity);
        }
        Ok(ConnId(value))
    }

    /// The identity text, for persistence and DTO mapping.
    pub fn as_str(&self) -> (s: &str)
        ensures
            s@ == self@,
    {
        self.0.as_str()
    }

    /// Whether two identities hold the same text.
    pub fn same(&self, other: &ConnId) -> (b: bool)
        ensures
            b == (self@ == other@),
    {
        self.0 == other.0
    }
}

impl Clone for ConnId {
    fn clone(&self) -> (r: Self)
        ensures
            r == *self,
    {
        proof {
            use_type_invariant(self);
        }
        ConnId(self.0.clone())
    }
}

/// Unique identity of a connection group; never blank.
#[derive(Debug, PartialEq, Eq)]
pub struct GroupId(String);

impl View for GroupId {
    type V = Seq<char>;

    closed spec fn view(&self) -> Seq<char> {
        self.0@
    }
}

impl GroupId {
    #[verifier::type_invariant]
    spec fn inv(self) -> bool {
        !is_blank(self.0@)
    }

    /// Builds a group identity; blank text is refused.
    pub fn new(value: String) -> (r: Result<Self, DomainError>)
        ensures
            is_blank(value@) <==> r is Err,
            r matches Err(e) ==> e == DomainError::EmptyIdentity,
            r matches Ok(id) ==> id@ == value@,
    {
        if str_is_blank(value.as_str()) {
            return Err(DomainError::EmptyIdentity);
        }
        Ok(GroupId(value))
    }

    /// The identity text, for persistence and DTO mapping.
    pub fn as_str(&self) -> (s: &str)
        ensures
            s@ == self@,
    {
        self.0.as_str()
    }

    /// Whether two identities hold the same text.
    pub fn same(&self, other: &GroupId) -> (b: bool)
        ensures
            b == (self@ == other@),
    {
        self.0 == other.0
    }
}

impl Clone for GroupId {
    fn clone(&self) -> (r: Self)
        ensures
            r == *self,
    {
        proof {
            use_type_invariant(self);
        }
        GroupId(self.0.clone())
    }
}

/// The text of an optional group identity (`None` is the root).
pub open spec fn opt_gid(g: Option<GroupId>) -> Option<Seq<char>> {
    match g {
        Some(id) => Some(id@),
        None => None,
    }
}

/// Whether two optional group identities name the same place.
pub fn same_scope(a: &Option<GroupId>, b: &Option<GroupId>) -> (r: bool)
    ensures
        r == (opt_gid(*a) == opt_gid(*b)),
{
    match (a, b) {
        (Some(x), Some(y)) => x.same(y),
        (None, None) => true,
        _ => false,
    }
}

/// A copy of an optional group identity.
pub fn clone_gid(g: &Option<GroupId>) -> (r: Option<GroupId>)
    ensures
        r == *g,
{
    match g {
        Some(id) => Some(id.clone()),
        None => None,
    }
}

/// A copy of an optional text.
pub fn clone_opt_string(s: &Option<String>) -> (r: Option<String>)
    ensures
        r == *s,
{
    match s {
        Some(v) => Some(v.clone()),
        None => None,
    }
}

/// Authentication method.
#[derive(Debug, Clone, Copy, PartialEq, Eq, Structural)]
pub enum AuthMethod {
    /// User name and password.
    Password,
    /// Private key file (OpenSSH format, possibly with a passphrase); with no path,
    /// the default keys under `~/.ssh` are tried when connecting.
    PrivateKey,
    /// Keyboard-interactive (one-time passwords and the like).
    KeyboardInteractive,
    /// No secret: ssh-agent or default keys.
    Agent,
}

/// Text encoding of terminal and file transfer.
#[derive(Debug, Clone, Copy, PartialEq, Eq, Structural)]
pub enum Encoding {
    /// UTF-8 (default).
    Utf8,
    /// GBK.
    Gbk,
}

/// Lowest valid SSH port; the upper bound is that of `u16`.
pub const MIN_PORT: u16 = 1;

/// A connection configuration.
///
/// The constructor guarantees the core invariant: name, host and user name are
/// not blank and the port is valid.
#[derive(Debug, PartialEq, Eq)]
pub struct ConnConfig {
    /// Unique identity.
    pub id: ConnId,
    /// Owning group; `None` is the root.
    pub group_id: Option<GroupId>,
    /// Display name.
    pub name: String,
    /// Host (IP or domain name).
    pub host: String,
    /// SSH port, 1–65535.
    pub port: u16,
    /// Login user name.
    pub username: String,
    /// Authentication method.
    pub auth: AuthMethod,
    /// Private key path.
    pub private_key_path: Option<String>,
    /// Reference key of the stored password (such as `conn:<id>:password`); never the secret.
    pub secret_ref_password: Option<String>,
    /// Reference key of the stored key passphrase.
    pub secret_ref_passphrase: Option<String>,
    /// Terminal encoding.
    pub encoding: Encoding,
    /// Colour tag.
    pub tag_color: Option<String>,
    /// Free remark.
    pub remark: Option<String>,
    /// Sort position among siblings.
    pub position: i64,
}

impl Clone for ConnConfig {
    fn clone(&self) -> (r: Self)
        ensures
            r == *self,
    {
        ConnConfig {
            id: self.id.clone(),
            group_id: clone_gid(&self.group_id),
            name: self.name.clone(),
            host: self.host.clone(),
            port: self.port,
            username: self.username.clone(),
            auth: self.auth,
            private_key_path: clone_opt_string(&self.private_key_path),
            secret_ref_password: clone_opt_string(&self.secret_ref_password),
            secret_ref_passphrase: clone_opt_string(&self.secret_ref_passphrase),
            encoding: self.encoding,
            tag_color: clone_opt_string(&self.tag_color),
            remark: clone_opt_string(&self.remark),
            position: self.position,
        }
    }
}

/// The error a connection configuration with these core fields is refused with, if any.
pub open spec fn config_error(name: Seq<char>, host: Seq<char>, port: u16, username: Seq<char>) -> Option<
    DomainError,
> {
    if is_blank(name) {
        Some(DomainError::EmptyIdentity)
    } else if is_blank(host) {
        Some(DomainError::EmptyHost)
    } else if is_blank(username) {
        Some(DomainError::EmptyUsername)
    } else if port < MIN_PORT {
        Some(DomainError::InvalidPort(port as i64))
    } else {
        None
    }
}

impl ConnConfig {
    /// Builds a connection configuration and checks its core invariant; the
    /// optional fields take their defaults (UTF-8, no key path, no references,
    /// position 0).
    pub fn new(
        id: ConnId,
        group_id: Option<GroupId>,
        name: String,
        host: String,
        port: u16,
        username: String,
        auth: AuthMethod,
    ) -> (r: Result<Self, DomainError>)
        ensures
            config_error(name@, host@, port, username@) matches Some(e) ==> r == Err::<
                Self,
                DomainError,
            >(e),
            config_error(name@, host@, port, username@) is None ==> r == Ok::<Self, DomainError>(
                ConnConfig {
                    id,
                    group_id,
                    name,
                    host,
                    port,
                    username,
                    auth,
                    private_key_path: None,
                    secret_ref_password: None,
                    secret_ref_passphrase: None,
                    encoding: Encoding::Utf8,
                    tag_color: None,
                    remark: None,
                    position: 0,
                },
            ),
    {
        if str_is_blank(name.as_str()) {
            return Err(DomainError::EmptyIdentity);
        }
        if str_is_blank(host.as_str()) {
            return Err(DomainError::EmptyHost);
        }
        if str_is_blank(username.as_str()) {
            return Err(DomainError::EmptyUsername);
        }
        if port < MIN_PORT {
            return Err(DomainError::InvalidPort(port as i64));
        }
        Ok(ConnConfig {
            id,
            group_id,
            name,
            host,
            port,
            username,
            auth,
            private_key_path: None,
            secret_ref_password: None,
            secret_ref_passphrase: None,
            encoding: Encoding::Utf8,
            tag_color: None,
            remark: None,
            position: 0,
        })
    }
}

} // verus!
