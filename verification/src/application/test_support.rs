//! In-memory implementations of the storage ports, with the same replace-whole
//! and not-found-is-empty semantics as the persistent stores, and helpers that
//! build minimal drafts and services.

use vstd::prelude::*;

use super::connections::{ConnectionDraft, ConnectionService};
use super::ports::{
    find_conn, find_group, replace_conn, replace_group, without_conn, without_group,
    ConnectionStore, SecretStore, SecretStoreError, StoreError,
};
use super::secret_cache::SecretCache;
use crate::domain::connection::{AuthMethod, ConnConfig, ConnId, Encoding, GroupId};
use crate::domain::group::Group;

verus! {

/// In-memory connection and group tables.
pub struct FakeStore {
    /// Group table.
    pub groups: Vec<Group>,
    /// Connection table.
    pub connections: Vec<ConnConfig>,
}

impl Default for FakeStore {
    fn default() -> (s: Self)
        ensures
            s.groups@ == Seq::<Group>::empty(),
            s.connections@ == Seq::<ConnConfig>::empty(),
    {
        FakeStore { groups: Vec::new(), connections: Vec::new() }
    }
}

/// A copy of a table of connections.
fn copy_conns(s: &Vec<ConnConfig>) -> (r: Vec<ConnConfig>)
    ensures
        r@ == s@,
{
    let mut r: Vec<ConnConfig> = Vec::new();
    let mut i: usize = 0;
    while i < s.len()
        invariant
            i <= s@.len(),
            r@ == s@.subrange(0, i as int),
        decreases s@.len() - i,
    {
        r.push(s[i].clone());
        i = i + 1;
        assert(r@ =~= s@.subrange(0, i as int));
    }
    assert(s@.subrange(0, s@.len() as int) =~= s@);
    r
}

/// A copy of a table of groups.
fn copy_groups(s: &Vec<Group>) -> (r: Vec<Group>)
    ensures
        r@ == s@,
{
    let mut r: Vec<Group> = Vec::new();
    let mut i: usize = 0;
    while i < s.len()
        invariant
            i <= s@.len(),
            r@ == s@.subrange(0, i as int),
        decreases s@.len() - i,
    {
        r.push(s[i].clone());
        i = i + 1;
        assert(r@ =~= s@.subrange(0, i as int));
    }
    assert(s@.subrange(0, s@.len() as int) =~= s@);
    r
}

impl ConnectionStore for FakeStore {
    open spec fn groups_model(&self) -> Seq<Group> {
        self.groups@
    }

    open spec fn conns_model(&self) -> Seq<ConnConfig> {
        self.connections@
    }

    open spec fn reliable(&self) -> bool {
        true
    }

    fn groups(&self) -> (r: Result<Vec<Group>, StoreError>) {
        Ok(copy_groups(&self.groups))
    }

    fn connections(&self) -> (r: Result<Vec<ConnConfig>, StoreError>) {
        Ok(copy_conns(&self.connections))
    }

    fn connection(&self, id: &ConnId) -> (r: Result<Option<ConnConfig>, StoreError>) {
        let mut i: usize = 0;
        assert(self.connections@.skip(0) =~= self.connections@);
        while i < self.connections.len()
            invariant
                i <= self.connections@.len(),
                find_conn(self.connections@, id@) == find_conn(self.connections@.skip(i as int), id@),
            decreases self.connections@.len() - i,
        {
            assert(self.connections@.skip(i as int).drop_first() =~= self.connections@.skip(i + 1));
            if self.connections[i].id.same(id) {
                return Ok(Some(self.connections[i].clone()));
            }
            i = i + 1;
        }
        Ok(None)
    }

    fn group(&self, id: &GroupId) -> (r: Result<Option<Group>, StoreError>) {
        let mut i: usize = 0;
        assert(self.groups@.skip(0) =~= self.groups@);
        while i < self.groups.len()
            invariant
                i <= self.groups@.len(),
                find_group(self.groups@, id@) == find_group(self.groups@.skip(i as int), id@),
            decreases self.groups@.len() - i,
        {
            assert(self.groups@.skip(i as int).drop_first() =~= self.groups@.skip(i + 1));
            if self.groups[i].id.same(id) {
                return Ok(Some(self.groups[i].clone()));
            }
            i = i + 1;
        }
        Ok(None)
    }

    fn insert_group(&mut self, group: &Group) -> (r: Result<(), StoreError>) {
        self.groups.push(group.clone());
        Ok(())
    }

    fn update_group(&mut self, group: &Group) -> (r: Result<(), StoreError>) {
        let ghost s = self.groups@;
        let mut i: usize = 0;
        while i < self.groups.len()
            invariant
                i <= self.groups@.len(),
                self.groups@.len() == s.len(),
                self.connections@ == old(self).connections@,
                forall|j: int| 0 <= j < i ==> self.groups@[j] == (if s[j].id@ == group.id@ {
                    *group
                } else {
                    s[j]
                }),
                forall|j: int| i <= j < s.len() ==> self.groups@[j] == s[j],
            decreases self.groups@.len() - i,
        {
            if self.groups[i].id.same(&group.id) {
                self.groups.set(i, group.clone());
            }
            i = i + 1;
        }
        assert(self.groups@ =~= replace_group(s, *group));
        Ok(())
    }

    fn delete_group(&mut self, id: &GroupId) -> (r: Result<(), StoreError>) {
        let mut kept: Vec<Group> = Vec::new();
        let mut i: usize = 0;
        while i < self.groups.len()
            invariant
                i <= self.groups@.len(),
                kept@ == without_group(self.groups@.subrange(0, i as int), id@),
            decreases self.groups@.len() - i,
        {
            let ghost p = self.groups@.subrange(0, i + 1);
            assert(p.drop_last() =~= self.groups@.subrange(0, i as int));
            if !self.groups[i].id.same(id) {
                kept.push(self.groups[i].clone());
            }
            i = i + 1;
        }
        assert(self.groups@.subrange(0, self.groups@.len() as int) =~= self.groups@);
        self.groups = kept;
        Ok(())
    }

    fn insert_connection(&mut self, config: &ConnConfig) -> (r: Result<(), StoreError>) {
        self.connections.push(config.clone());
        Ok(())
    }

    fn update_connection(&mut self, config: &ConnConfig) -> (r: Result<(), StoreError>) {
        let ghost s = self.connections@;
        let mut i: usize = 0;
        while i < self.connections.len()
            invariant
                i <= self.connections@.len(),
                self.connections@.len() == s.len(),
                self.groups@ == old(self).groups@,
                forall|j: int| 0 <= j < i ==> self.connections@[j] == (if s[j].id@ == config.id@ {
                    *config
                } else {
                    s[j]
                }),
                forall|j: int| i <= j < s.len() ==> self.connections@[j] == s[j],
            decreases self.connections@.len() - i,
        {
            if self.connections[i].id.same(&config.id) {
                self.connections.set(i, config.clone());
            }
            i = i + 1;
        }
        assert(self.connections@ =~= replace_conn(s, *config));
        Ok(())
    }

    fn delete_connection(&mut self, id: &ConnId) -> (r: Result<(), StoreError>) {
        let mut kept: Vec<ConnConfig> = Vec::new();
        let mut i: usize = 0;
        while i < self.connections.len()
            invariant
                i <= self.connections@.len(),
                kept@ == without_conn(self.connections@.subrange(0, i as int), id@),
            decreases self.connections@.len() - i,
        {
            let ghost p = self.connections@.subrange(0, i + 1);
            assert(p.drop_last() =~= self.connections@.subrange(0, i as int));
            if !self.connections[i].id.same(id) {
                kept.push(self.connections[i].clone());
            }
            i = i + 1;
        }
        assert(self.connections@.subrange(0, self.connections@.len() as int) =~= self.connections@);
        self.connections = kept;
        Ok(())
    }
}

/// In-memory credential store.
pub struct FakeSecretStore {
    /// Key → secret table.
    pub entries: SecretCache,
}

impl Default for FakeSecretStore {
    fn default() -> (s: Self)
        ensures
            s.entries@ == Map::<Seq<char>, Seq<char>>::empty(),
    {
        FakeSecretStore { entries: SecretCache::new() }
    }
}

impl SecretStore for FakeSecretStore {
    open spec fn secrets_model(&self) -> Map<Seq<char>, Seq<char>> {
        self.entries@
    }

    open spec fn reliable(&self) -> bool {
        true
    }

    fn put(&mut self, key: &str, secret: &str) -> (r: Result<(), SecretStoreError>) {
        self.entries.insert(key, secret);
        Ok(())
    }

    fn get(&self, key: &str) -> (r: Result<Option<String>, SecretStoreError>) {
        Ok(self.entries.get(key))
    }

    fn delete(&mut self, key: &str) -> (r: Result<(), SecretStoreError>) {
        self.entries.remove(key);
        Ok(())
    }
}

/// A minimal valid draft: password authentication, no credential input.
pub fn draft(name: &str) -> (d: ConnectionDraft)
    ensures
        d.group_id is None,
        d.name@ == name@,
        d.host@ == "10.0.0.1"@,
        d.port == 22,
        d.username@ == "root"@,
        d.auth == AuthMethod::Password,
        d.private_key_path is None,
        d.password is None,
        d.passphrase is None,
        d.encoding == Encoding::Utf8,
        d.tag_color is None,
        d.remark is None,
{
    ConnectionDraft {
        group_id: None,
        name: String::from_str(name),
        host: String::from_str("10.0.0.1"),
        port: 22,
        username: String::from_str("root"),
        auth: AuthMethod::Password,
        private_key_path: None,
        password: None,
        passphrase: None,
        encoding: Encoding::Utf8,
        tag_color: None,
        remark: None,
    }
}

/// A connection service over the two in-memory stores, both empty.
pub fn connection_service() -> (s: ConnectionService<FakeStore, FakeSecretStore>)
    ensures
        s.reliable(),
        s.stored_groups() == Seq::<Group>::empty(),
        s.stored_conns() == Seq::<ConnConfig>::empty(),
        s.persisted() == Map::<Seq<char>, Seq<char>>::empty(),
        s.session_kept() == Map::<Seq<char>, Seq<char>>::empty(),
{
    ConnectionService::new(FakeStore::default(), FakeSecretStore::default())
}

} // verus!
