//! Group use cases: create, rename, delete and move, under the rule that groups
//! nest at most one level below the root.

use vstd::prelude::*;

use super::tree::{conns_in, conns_in_exec, groups_in, groups_in_exec};
use super::{
    group_missing, is_uuid_text, lemma_uuid_not_blank, new_id, next_pos, unchanged, ConnectionError,
    ConnectionService, DeleteGroupMode,
};
use crate::application::ports::{
    find_group, lemma_find_group, replace_conn, replace_group, without_group, ConnectionStore,
    SecretStore,
};
use crate::domain::connection::{clone_gid, opt_gid, ConnConfig, GroupId};
use crate::domain::error::DomainError;
use crate::domain::group::Group;
use crate::text::is_blank;

verus! {

/// Why a group cannot be created under `parent`, if it cannot: the parent must
/// exist and be a root-level group.
pub open spec fn create_group_error(groups: Seq<Group>, parent: Option<GroupId>) -> Option<
    ConnectionError,
> {
    match parent {
        Some(p) => match find_group(groups, p@) {
            None => Some(ConnectionError::NotFound("父分组")),
            Some(pg) => if pg.parent_id is Some {
                Some(ConnectionError::NestingTooDeep)
            } else {
                None
            },
        },
        None => None,
    }
}

/// Why group `id` cannot move under `target`, if it cannot: the target must
/// exist, must not be the group itself and must be root-level, and the moved
/// group must not hold groups itself.
pub open spec fn move_group_error(groups: Seq<Group>, id: Seq<char>, target: Option<GroupId>) -> Option<
    ConnectionError,
> {
    if find_group(groups, id) is None {
        Some(ConnectionError::NotFound("分组"))
    } else if target matches Some(t) && t@ == id {
        Some(ConnectionError::NestingTooDeep)
    } else if target matches Some(t) && find_group(groups, t@) is None {
        Some(ConnectionError::NotFound("目标分组"))
    } else if target matches Some(t) && find_group(groups, t@)->0.parent_id is Some {
        Some(ConnectionError::NestingTooDeep)
    } else if groups_in(groups, Some(id)).len() > 0 {
        Some(ConnectionError::NestingTooDeep)
    } else {
        None
    }
}

/// The connections, each moved to `parent`.
pub open spec fn rehome_conns(s: Seq<ConnConfig>, parent: Option<GroupId>) -> Seq<ConnConfig> {
    Seq::new(s.len(), |i: int| ConnConfig { group_id: parent, ..s[i] })
}

/// The groups, each moved under `parent`.
pub open spec fn rehome_groups(s: Seq<Group>, parent: Option<GroupId>) -> Seq<Group> {
    Seq::new(s.len(), |i: int| Group { parent_id: parent, ..s[i] })
}

/// The stored connections after replacing, in turn, each of `ups`.
pub open spec fn apply_conn_updates(m: Seq<ConnConfig>, ups: Seq<ConnConfig>) -> Seq<ConnConfig>
    decreases ups.len(),
{
    if ups.len() == 0 {
        m
    } else {
        replace_conn(apply_conn_updates(m, ups.drop_last()), ups.last())
    }
}

/// The stored groups after replacing, in turn, each of `ups`.
pub open spec fn apply_group_updates(m: Seq<Group>, ups: Seq<Group>) -> Seq<Group>
    decreases ups.len(),
{
    if ups.len() == 0 {
        m
    } else {
        replace_group(apply_group_updates(m, ups.drop_last()), ups.last())
    }
}

/// Whether group `id` holds any connection or group.
pub open spec fn has_children(conns: Seq<ConnConfig>, groups: Seq<Group>, id: Seq<char>) -> bool {
    conns_in(conns, Some(id)).len() > 0 || groups_in(groups, Some(id)).len() > 0
}

impl<S: ConnectionStore, K: SecretStore> ConnectionService<S, K> {
    /// Creates a group; a parent must exist and be root-level (one level of
    /// nesting at most). The group goes last among its siblings.
    pub fn create_group(&mut self, name: String, parent: Option<GroupId>) -> (r: Result<
        Group,
        ConnectionError,
    >)
        requires
            create_group_error(old(self).stored_groups(), parent) is None ==> next_pos(
                old(self).stored_conns(),
                old(self).stored_groups(),
                opt_gid(parent),
            ) <= i64::MAX,
        ensures
            final(self).reliable() == old(self).reliable(),
            old(self).reliable() && create_group_error(old(self).stored_groups(), parent) is Some ==> r
                == Err::<Group, ConnectionError>(create_group_error(old(self).stored_groups(), parent)->0)
                && unchanged(*old(self), *final(self)),
            old(self).reliable() && create_group_error(old(self).stored_groups(), parent) is None
                && is_blank(name@) ==> r == Err::<Group, ConnectionError>(
                ConnectionError::Domain(DomainError::EmptyIdentity),
            ) && unchanged(*old(self), *final(self)),
            old(self).reliable() && create_group_error(old(self).stored_groups(), parent) is None
                && !is_blank(name@) ==> (r matches Ok(g) && is_uuid_text(g.id@) && g.parent_id == parent
                && g.name == name && g.position == next_pos(
                old(self).stored_conns(),
                old(self).stored_groups(),
                opt_gid(parent),
            ) && final(self).stored_groups() == old(self).stored_groups().push(g)
                && final(self).stored_conns() == old(self).stored_conns() && final(self).secret_state()
                == old(self).secret_state()),
            final(self).secret_state() == old(self).secret_state(),
            r is Err ==> unchanged(*old(self), *final(self)),
            r matches Ok(g) ==> create_group_error(old(self).stored_groups(), parent) is None
                && !is_blank(name@) && is_uuid_text(g.id@) && g.parent_id == parent && g.name == name
                && g.position == next_pos(
                old(self).stored_conns(),
                old(self).stored_groups(),
                opt_gid(parent),
            ) && final(self).stored_groups() == old(self).stored_groups().push(g)
                && final(self).stored_conns() == old(self).stored_conns(),
    {
        if let Some(parent_id) = &parent {
            let p = match self.store.group(parent_id) {
                Ok(Some(p)) => p,
                Ok(None) => return Err(ConnectionError::NotFound("父分组")),
                Err(e) => return Err(ConnectionError::Storage(e)),
            };
            if p.parent_id.is_some() {
                return Err(ConnectionError::NestingTooDeep);
            }
        }
        let conns = match self.load_conns() {
            Ok(v) => v,
            Err(e) => return Err(e),
        };
        let groups = match self.load_groups() {
            Ok(v) => v,
            Err(e) => return Err(e),
        };
        let position = Self::next_position(&conns, &groups, &parent);
        let raw = new_id();
        proof {
            lemma_uuid_not_blank(raw@);
        }
        let id = match GroupId::new(raw) {
            Ok(id) => id,
            Err(e) => return Err(ConnectionError::Domain(e)),
        };
        let group = match Group::new(id, parent, name, position) {
            Ok(g) => g,
            Err(e) => return Err(ConnectionError::Domain(e)),
        };
        match self.store.insert_group(&group) {
            Ok(()) => Ok(group),
            Err(e) => Err(ConnectionError::Storage(e)),
        }
    }

    /// Renames a group; a blank name is refused.
    pub fn rename_group(&mut self, id: &GroupId, name: String) -> (r: Result<(), ConnectionError>)
        ensures
            final(self).reliable() == old(self).reliable(),
            old(self).reliable() && find_group(old(self).stored_groups(), id@) is None ==> r == Err::<
                (),
                ConnectionError,
            >(ConnectionError::NotFound("分组")) && unchanged(*old(self), *final(self)),
            old(self).reliable() && find_group(old(self).stored_groups(), id@) is Some && is_blank(name@)
                ==> r == Err::<(), ConnectionError>(ConnectionError::Domain(DomainError::EmptyIdentity))
                && unchanged(*old(self), *final(self)),
            old(self).reliable() && find_group(old(self).stored_groups(), id@) is Some && !is_blank(name@)
                ==> r is Ok && final(self).stored_groups() == replace_group(
                old(self).stored_groups(),
                Group { name, ..find_group(old(self).stored_groups(), id@)->0 },
            ) && final(self).stored_conns() == old(self).stored_conns() && final(self).secret_state()
                == old(self).secret_state(),
            final(self).secret_state() == old(self).secret_state(),
            r is Err ==> unchanged(*old(self), *final(self)),
            r is Ok ==> find_group(old(self).stored_groups(), id@) is Some && !is_blank(name@)
                && final(self).stored_groups() == replace_group(
                old(self).stored_groups(),
                Group { name, ..find_group(old(self).stored_groups(), id@)->0 },
            ) && final(self).stored_conns() == old(self).stored_conns(),
    {
        let mut group = match self.store.group(id) {
            Ok(Some(g)) => g,
            Ok(None) => return Err(ConnectionError::NotFound("分组")),
            Err(e) => return Err(ConnectionError::Storage(e)),
        };
        match group.rename(name) {
            Ok(()) => {},
            Err(e) => return Err(ConnectionError::Domain(e)),
        }
        match self.store.update_group(&group) {
            Ok(()) => Ok(()),
            Err(e) => Err(ConnectionError::Storage(e)),
        }
    }

    /// Deletes a group. `RequireEmpty` refuses a group that still holds
    /// connections or groups; `PromoteChildren` first moves them all to the
    /// deleted group's parent.
    pub fn delete_group(&mut self, id: &GroupId, mode: DeleteGroupMode) -> (r: Result<(), ConnectionError>)
        ensures
            final(self).reliable() == old(self).reliable(),
            old(self).reliable() && find_group(old(self).stored_groups(), id@) is None ==> r == Err::<
                (),
                ConnectionError,
            >(ConnectionError::NotFound("分组")) && unchanged(*old(self), *final(self)),
            old(self).reliable() && find_group(old(self).stored_groups(), id@) is Some && has_children(
                old(self).stored_conns(),
                old(self).stored_groups(),
                id@,
            ) && mode == DeleteGroupMode::RequireEmpty ==> r == Err::<(), ConnectionError>(
                ConnectionError::GroupNotEmpty,
            ) && unchanged(*old(self), *final(self)),
            old(self).reliable() && find_group(old(self).stored_groups(), id@) is Some && !(has_children(
                old(self).stored_conns(),
                old(self).stored_groups(),
                id@,
            ) && mode == DeleteGroupMode::RequireEmpty) ==> r is Ok && ({
                let parent = find_group(old(self).stored_groups(), id@)->0.parent_id;
                &&& final(self).stored_conns() == apply_conn_updates(
                    old(self).stored_conns(),
                    rehome_conns(conns_in(old(self).stored_conns(), Some(id@)), parent),
                )
                &&& final(self).stored_groups() == without_group(
                    apply_group_updates(
                        old(self).stored_groups(),
                        rehome_groups(groups_in(old(self).stored_groups(), Some(id@)), parent),
                    ),
                    id@,
                )
                &&& final(self).secret_state() == old(self).secret_state()
            }),
            final(self).secret_state() == old(self).secret_state(),
            r is Ok ==> find_group(old(self).stored_groups(), id@) is Some && !(has_children(
                old(self).stored_conns(),
                old(self).stored_groups(),
                id@,
            ) && mode == DeleteGroupMode::RequireEmpty) && ({
                let parent = find_group(old(self).stored_groups(), id@)->0.parent_id;
                &&& final(self).stored_conns() == apply_conn_updates(
                    old(self).stored_conns(),
                    rehome_conns(conns_in(old(self).stored_conns(), Some(id@)), parent),
                )
                &&& final(self).stored_groups() == without_group(
                    apply_group_updates(
                        old(self).stored_groups(),
                        rehome_groups(groups_in(old(self).stored_groups(), Some(id@)), parent),
                    ),
                    id@,
                )
            }),
    {
        let group = match self.store.group(id) {
            Ok(Some(g)) => g,
            Ok(None) => return Err(ConnectionError::NotFound("分组")),
            Err(e) => return Err(ConnectionError::Storage(e)),
        };
        let conns = match self.load_conns() {
            Ok(v) => v,
            Err(e) => return Err(e),
        };
        let groups = match self.load_groups() {
            Ok(v) => v,
            Err(e) => return Err(e),
        };
        let scope = Some(id.clone());
        let child_conns = conns_in_exec(&conns, &scope);
        let child_groups = groups_in_exec(&groups, &scope);
        let has_children = child_conns.len() > 0 || child_groups.len() > 0;
        if has_children && mode == DeleteGroupMode::RequireEmpty {
            return Err(ConnectionError::GroupNotEmpty);
        }
        let ghost c0 = self.store.conns_model();
        let ghost g0 = self.store.groups_model();
        let ghost parent = group.parent_id;
        let mut i: usize = 0;
        assert(rehome_conns(child_conns@, parent).subrange(0, 0) =~= Seq::<ConnConfig>::empty());
        while i < child_conns.len()
            invariant
                i <= child_conns@.len(),
                parent == group.parent_id,
                self.store.reliable() == old(self).store.reliable(),
                self.secrets == old(self).secrets,
                self.session_secrets == old(self).session_secrets,
                self.store.groups_model() == g0,
                self.store.conns_model() == apply_conn_updates(
                    c0,
                    rehome_conns(child_conns@, parent).subrange(0, i as int),
                ),
            decreases child_conns@.len() - i,
        {
            let mut conn = child_conns[i].clone();
            conn.group_id = clone_gid(&group.parent_id);
            match self.store.update_connection(&conn) {
                Ok(()) => {},
                Err(e) => return Err(ConnectionError::Storage(e)),
            }
            proof {
                let ups = rehome_conns(child_conns@, parent);
                assert(ups.subrange(0, i + 1).drop_last() =~= ups.subrange(0, i as int));
                assert(ups.subrange(0, i + 1).last() == conn);
            }
            i = i + 1;
        }
        assert(rehome_conns(child_conns@, parent).subrange(0, child_conns@.len() as int) =~= rehome_conns(
            child_conns@,
            parent,
        ));
        let ghost c1 = self.store.conns_model();
        let mut j: usize = 0;
        assert(rehome_groups(child_groups@, parent).subrange(0, 0) =~= Seq::<Group>::empty());
        while j < child_groups.len()
            invariant
                j <= child_groups@.len(),
                parent == group.parent_id,
                self.store.reliable() == old(self).store.reliable(),
                self.secrets == old(self).secrets,
                self.session_secrets == old(self).session_secrets,
                self.store.conns_model() == c1,
                self.store.groups_model() == apply_group_updates(
                    g0,
                    rehome_groups(child_groups@, parent).subrange(0, j as int),
                ),
            decreases child_groups@.len() - j,
        {
            let mut child = child_groups[j].clone();
            child.parent_id = clone_gid(&group.parent_id);
            match self.store.update_group(&child) {
                Ok(()) => {},
                Err(e) => return Err(ConnectionError::Storage(e)),
            }
            proof {
                let ups = rehome_groups(child_groups@, parent);
                assert(ups.subrange(0, j + 1).drop_last() =~= ups.subrange(0, j as int));
                assert(ups.subrange(0, j + 1).last() == child);
            }
            j = j + 1;
        }
        assert(rehome_groups(child_groups@, parent).subrange(0, child_groups@.len() as int)
            =~= rehome_groups(child_groups@, parent));
        match self.store.delete_group(id) {
            Ok(()) => Ok(()),
            Err(e) => Err(ConnectionError::Storage(e)),
        }
    }

    /// Moves a group under `target_parent` (`None` is the root); without a
    /// position it goes last among its new siblings. The target must be a
    /// root-level group other than the moved one, and a group that holds groups
    /// cannot move under another (three levels).
    pub fn move_group(
        &mut self,
        id: &GroupId,
        target_parent: Option<GroupId>,
        position: Option<i64>,
    ) -> (r: Result<(), ConnectionError>)
        requires
            position is None && move_group_error(old(self).stored_groups(), id@, target_parent) is None
                ==> next_pos(old(self).stored_conns(), old(self).stored_groups(), opt_gid(target_parent))
                <= i64::MAX,
        ensures
            final(self).reliable() == old(self).reliable(),
            old(self).reliable() && move_group_error(old(self).stored_groups(), id@, target_parent) is Some
                ==> r == Err::<(), ConnectionError>(
                move_group_error(old(self).stored_groups(), id@, target_parent)->0,
            ) && unchanged(*old(self), *final(self)),
            old(self).reliable() && move_group_error(old(self).stored_groups(), id@, target_parent) is None
                ==> r is Ok && final(self).stored_conns() == old(self).stored_conns()
                && final(self).secret_state() == old(self).secret_state() && final(self).stored_groups()
                == replace_group(
                old(self).stored_groups(),
                Group {
                    parent_id: target_parent,
                    position: match position {
                        Some(p) => p,
                        None => next_pos(
                            old(self).stored_conns(),
                            old(self).stored_groups(),
                            opt_gid(target_parent),
                        ) as i64,
                    },
                    ..find_group(old(self).stored_groups(), id@)->0
                },
            ),
            final(self).secret_state() == old(self).secret_state(),
            r is Err ==> unchanged(*old(self), *final(self)),
            r is Ok ==> move_group_error(old(self).stored_groups(), id@, target_parent) is None
                && final(self).stored_conns() == old(self).stored_conns() && final(self).stored_groups()
                == replace_group(
                old(self).stored_groups(),
                Group {
                    parent_id: target_parent,
                    position: match position {
                        Some(p) => p,
                        None => next_pos(
                            old(self).stored_conns(),
                            old(self).stored_groups(),
                            opt_gid(target_parent),
                        ) as i64,
                    },
                    ..find_group(old(self).stored_groups(), id@)->0
                },
            ),
    {
        let mut group = match self.store.group(id) {
            Ok(Some(g)) => g,
            Ok(None) => return Err(ConnectionError::NotFound("分组")),
            Err(e) => return Err(ConnectionError::Storage(e)),
        };
        if let Some(target) = &target_parent {
            if target.same(id) {
                return Err(ConnectionError::NestingTooDeep);
            }
            let t = match self.store.group(target) {
                Ok(Some(t)) => t,
                Ok(None) => return Err(ConnectionError::NotFound("目标分组")),
                Err(e) => return Err(ConnectionError::Storage(e)),
            };
            if t.parent_id.is_some() {
                return Err(ConnectionError::NestingTooDeep);
            }
        }
        let groups = match self.load_groups() {
            Ok(v) => v,
            Err(e) => return Err(e),
        };
        let conns = match self.load_conns() {
            Ok(v) => v,
            Err(e) => return Err(e),
        };
        let scope = Some(id.clone());
        if groups_in_exec(&groups, &scope).len() > 0 {
            return Err(ConnectionError::NestingTooDeep);
        }
        group.parent_id = target_parent;
        group.position = match position {
            Some(p) => p,
            None => Self::next_position(&conns, &groups, &group.parent_id),
        };
        match self.store.update_group(&group) {
            Ok(()) => Ok(()),
            Err(e) => Err(ConnectionError::Storage(e)),
        }
    }
}

} // verus!
