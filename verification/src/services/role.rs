//! The stored roles.

use vstd::prelude::*;
use vstd::string::StringExecFns;
use crate::model::TheatreRole;
use crate::role::Role;
use crate::table::{first_where, lemma_first_where_skip};

verus! {

/// The table of stored roles. A role of the closed set is found in it by its
/// exact name; the table is not what decides which roles there are.
pub struct RoleService {
    roles: Vec<TheatreRole>,
}

/// The first stored role with the given name.
pub open spec fn role_named(roles: Seq<TheatreRole>, name: Seq<char>) -> Option<TheatreRole> {
    first_where(roles, |r: TheatreRole| r.name@ == name)
}

/// The first stored role with the given identifier.
pub open spec fn role_with_id(roles: Seq<TheatreRole>, id: u128) -> Option<TheatreRole> {
    first_where(roles, |r: TheatreRole| r.id == id)
}

/// The identifier under which a role of the closed set is stored, if it is
/// stored at all.
pub open spec fn stored_id(roles: Seq<TheatreRole>, role: Role) -> Option<u128> {
    match role_named(roles, role.name_spec()) {
        Some(record) => Some(record.id),
        None => None,
    }
}

impl RoleService {
    /// The table with the given rows.
    pub fn new(roles: Vec<TheatreRole>) -> (r: RoleService)
        ensures
            r.rows() == roles@,
    {
        RoleService { roles }
    }

    /// The rows of the table.
    pub closed spec fn rows(&self) -> Seq<TheatreRole> {
        self.roles@
    }

    /// The role of the closed set that the row with the given identifier
    /// stands for: `None` if there is no such row, or if its name is none of
    /// the closed set.
    pub fn get_role_by_id(&self, rid: u128) -> (r: Option<Role>)
        ensures
            r == (match role_with_id(self.rows(), rid) {
                Some(record) => Role::from_name_spec(record.name@),
                None => None,
            }),
    {
        let ghost wanted = |r: TheatreRole| r.id == rid;
        let mut i: usize = 0;
        assert(self.roles@.subrange(0, self.roles@.len() as int) == self.roles@);
        while i < self.roles.len()
            invariant
                i <= self.roles.len(),
                wanted == (|r: TheatreRole| r.id == rid),
                first_where(self.roles@, wanted) == first_where(
                    self.roles@.subrange(i as int, self.roles@.len() as int),
                    wanted,
                ),
            decreases self.roles.len() - i,
        {
            if self.roles[i].id == rid {
                return Role::try_from_str(self.roles[i].name.as_str());
            }
            proof {
                lemma_first_where_skip(self.roles@, wanted, i as int);
            }
            i += 1;
        }
        None
    }

    /// The first row with exactly the given name.
    pub fn get_role_by_name(&self, nm: &str) -> (r: Option<TheatreRole>)
        ensures
            r == role_named(self.rows(), nm@),
    {
        let name = String::from_str(nm);
        let ghost wanted = |r: TheatreRole| r.name@ == nm@;
        let mut i: usize = 0;
        assert(self.roles@.subrange(0, self.roles@.len() as int) == self.roles@);
        while i < self.roles.len()
            invariant
                i <= self.roles.len(),
                name@ == nm@,
                wanted == (|r: TheatreRole| r.name@ == nm@),
                first_where(self.roles@, wanted) == first_where(
                    self.roles@.subrange(i as int, self.roles@.len() as int),
                    wanted,
                ),
            decreases self.roles.len() - i,
        {
            if self.roles[i].name == name {
                let found = TheatreRole { id: self.roles[i].id, name: self.roles[i].name.clone() };
                return Some(found);
            }
            proof {
                lemma_first_where_skip(self.roles@, wanted, i as int);
            }
            i += 1;
        }
        None
    }

    /// The identifier under which a role of the closed set is stored. A role
    /// that was never stored has none.
    pub fn id_of(&self, role: Role) -> (r: Option<u128>)
        ensures
            r == stored_id(self.rows(), role),
    {
        let name = role.name();
        match self.get_role_by_name(name.as_str()) {
            Some(record) => Some(record.id),
            None => None,
        }
    }

    /// All rows.
    pub fn get_all_roles(&self) -> (r: &Vec<TheatreRole>)
        ensures
            r@ == self.rows(),
    {
        &self.roles
    }
}

} // verus!
