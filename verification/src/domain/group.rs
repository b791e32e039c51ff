//! Connection group entity (a group tree nested at most one level below the root).

use vstd::prelude::*;

use super::connection::{clone_gid, GroupId};
use super::error::DomainError;
use crate::text::{is_blank, str_is_blank};

verus! {

/// A connection group; `parent_id == None` is a root-level group.
///
/// The nesting limit is checked by the application layer when groups change;
/// the entity only guarantees a non-blank name.
#[derive(Debug, PartialEq, Eq)]
pub struct Group {
    /// Unique identity.
    pub id: GroupId,
    /// Parent group; `None` is the root level.
    pub parent_id: Option<GroupId>,
    /// Display name.
    pub name: String,
    /// Sort position among siblings.
    pub position: i64,
}

impl Clone for Group {
    fn clone(&self) -> (r: Self)
        ensures
            r == *self,
    {
        Group {
            id: self.id.clone(),
            parent_id: clone_gid(&self.parent_id),
            name: self.name.clone(),
            position: self.position,
        }
    }
}

impl Group {
    /// Builds a group; a blank name is refused.
    pub fn new(id: GroupId, parent_id: Option<GroupId>, name: String, position: i64) -> (r: Result<
        Self,
        DomainError,
    >)
        ensures
            is_blank(name@) ==> r == Err::<Self, DomainError>(DomainError::EmptyIdentity),
            !is_blank(name@) ==> r == Ok::<Self, DomainError>(Group { id, parent_id, name, position }),
    {
        if str_is_blank(name.as_str()) {
            return Err(DomainError::EmptyIdentity);
        }
        Ok(Group { id, parent_id, name, position })
    }

    /// Renames the group; a blank name is refused and leaves the group unchanged.
    pub fn rename(&mut self, name: String) -> (r: Result<(), DomainError>)
        ensures
            is_blank(name@) ==> r == Err::<(), DomainError>(DomainError::EmptyIdentity),
            is_blank(name@) ==> *final(self) == *old(self),
            !is_blank(name@) ==> r is Ok && *final(self) == (Group { name, ..*old(self) }),
    {
        if str_is_blank(name.as_str()) {
            return Err(DomainError::EmptyIdentity);
        }
        self.name = name;
        Ok(())
    }
}

} // verus!
