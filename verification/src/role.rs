//! The closed set of staff roles and their stored names.

use vstd::prelude::*;
use vstd::string::StringExecFns;

verus! {

/// A staff capability that can be granted to a user inside one theatre.
#[derive(Debug, Clone, Copy, PartialEq, Eq, Structural)]
pub enum Role {
    TheatreOwner,
    TicketManager,
    TicketChecker,
    UserManager,
    ScreeningsManager,
}

impl Role {
    /// The name under which the role is stored.
    pub open spec fn name_spec(self) -> Seq<char> {
        match self {
            Role::TheatreOwner => "TheatreOwner"@,
            Role::TicketManager => "TicketManager"@,
            Role::TicketChecker => "TicketChecker"@,
            Role::UserManager => "UserManager"@,
            Role::ScreeningsManager => "ScreeningsManager"@,
        }
    }

    /// The role that a stored name stands for, if any.
    pub open spec fn from_name_spec(name: Seq<char>) -> Option<Role> {
        if name == "TheatreOwner"@ {
            Some(Role::TheatreOwner)
        } else if name == "TicketManager"@ {
            Some(Role::TicketManager)
        } else if name == "TicketChecker"@ {
            Some(Role::TicketChecker)
        } else if name == "ScreeningsManager"@ {
            Some(Role::ScreeningsManager)
        } else if name == "UserManager"@ {
            Some(Role::UserManager)
        } else {
            None
        }
    }

    /// The stored name of the role.
    pub fn name(&self) -> (r: String)
        ensures
            r@ == self.name_spec(),
    {
        match self {
            Role::TheatreOwner => String::from_str("TheatreOwner"),
            Role::TicketManager => String::from_str("TicketManager"),
            Role::TicketChecker => String::from_str("TicketChecker"),
            Role::UserManager => String::from_str("UserManager"),
            Role::ScreeningsManager => String::from_str("ScreeningsManager"),
        }
    }

    /// Reads a stored name back; a name outside the closed set gives `None`.
    pub fn try_from_str(value: &str) -> (r: Option<Role>)
        ensures
            r == Role::from_name_spec(value@),
    {
        let v = String::from_str(value);
        if v == String::from_str("TheatreOwner") {
            Some(Role::TheatreOwner)
        } else if v == String::from_str("TicketManager") {
            Some(Role::TicketManager)
        } else if v == String::from_str("TicketChecker") {
            Some(Role::TicketChecker)
        } else if v == String::from_str("ScreeningsManager") {
            Some(Role::ScreeningsManager)
        } else if v == String::from_str("UserManager") {
            Some(Role::UserManager)
        } else {
            None
        }
    }
}

/// The five stored names are pairwise different.
pub proof fn law_role_names_distinct()
    ensures
        forall|a: Role, b: Role| a.name_spec() == b.name_spec() ==> a == b,
{
    reveal_strlit("TheatreOwner");
    reveal_strlit("TicketManager");
    reveal_strlit("TicketChecker");
    reveal_strlit("UserManager");
    reveal_strlit("ScreeningsManager");
    assert("TheatreOwner"@.len() == 12);
    assert("TicketManager"@.len() == 13);
    assert("TicketChecker"@.len() == 13);
    assert("UserManager"@.len() == 11);
    assert("ScreeningsManager"@.len() == 17);
    assert("TicketManager"@[6] != "TicketChecker"@[6]);
}

/// Reading back the stored name of a role gives that role: the mapping between
/// roles and names is exhaustive in both directions.
pub proof fn law_role_name_reads_back(role: Role)
    ensures
        Role::from_name_spec(role.name_spec()) == Some(role),
{
    law_role_names_distinct();
    assert(Role::TheatreOwner.name_spec() == "TheatreOwner"@);
    assert(Role::TicketManager.name_spec() == "TicketManager"@);
    assert(Role::TicketChecker.name_spec() == "TicketChecker"@);
    assert(Role::UserManager.name_spec() == "UserManager"@);
    assert(Role::ScreeningsManager.name_spec() == "ScreeningsManager"@);
}

} // verus!
