//! Who may act in a theatre.
//!
//! A user may act if they are a superuser, or if they hold the roles that the
//! action asks for, in the theatre that the action is in. An action either
//! asks for any one of a set of roles or for all of them.

use vstd::prelude::*;
use crate::error::ErrorType;
use crate::model::{TheatreRole, User, UserTheatreRole};
use crate::role::Role;
use crate::services::bridge_role::{check_roles_and, check_roles_or, holds_all, holds_any, holds_role};
use crate::services::bridge_role::BridgeRoleService;
use crate::services::role::{stored_id, RoleService};

verus! {

/// How the roles that an action asks for are combined.
#[derive(Debug, Clone, Copy, PartialEq, Eq, Structural)]
pub enum Combinator {
    /// Holding one of the roles is enough.
    Any,
    /// Every one of the roles must be held.
    All,
}

/// The answer of the resolver.
#[derive(Debug, Clone, Copy, PartialEq, Eq, Structural)]
pub enum Decision {
    Allowed,
    Forbidden,
}

/// Whether the roles that the user holds in the theatre satisfy what is asked
/// for.
pub open spec fn satisfies(
    combinator: Combinator,
    roles: Seq<TheatreRole>,
    grants: Seq<UserTheatreRole>,
    uid: u128,
    tid: u128,
    required: Seq<Role>,
) -> bool {
    match combinator {
        Combinator::Any => holds_any(roles, grants, uid, tid, required),
        Combinator::All => holds_all(roles, grants, uid, tid, required),
    }
}

/// What the resolver decides: a superuser is always allowed; anybody else is
/// allowed exactly if the roles they hold in the theatre satisfy what is asked
/// for.
pub open spec fn authorize_spec(
    combinator: Combinator,
    user: User,
    tid: u128,
    required: Seq<Role>,
    roles: Seq<TheatreRole>,
    grants: Seq<UserTheatreRole>,
) -> Decision {
    if user.is_super_user || satisfies(combinator, roles, grants, user.id, tid, required) {
        Decision::Allowed
    } else {
        Decision::Forbidden
    }
}

/// Passes if the roles that the user holds in the theatre satisfy what is
/// asked for, and reports insufficient permission otherwise. This looks at the
/// grants only: it knows no superuser.
pub fn check_roles(
    combinator: Combinator,
    roles: &[Role],
    uid: u128,
    tid: u128,
    brs: &BridgeRoleService,
    rs: &RoleService,
) -> (r: Result<(), ErrorType>)
    ensures
        r is Ok <==> satisfies(combinator, rs.rows(), brs.grants(), uid, tid, roles@),
        r matches Err(e) ==> e == ErrorType::InsufficientPermission,
{
    match combinator {
        Combinator::Any => check_roles_or(roles, uid, tid, brs, rs),
        Combinator::All => check_roles_and(roles, uid, tid, brs, rs),
    }
}

/// Decides whether the user may act in the theatre.
pub fn authorize(
    combinator: Combinator,
    user: &User,
    tid: u128,
    required: &[Role],
    brs: &BridgeRoleService,
    rs: &RoleService,
) -> (r: Decision)
    ensures
        r == authorize_spec(combinator, *user, tid, required@, rs.rows(), brs.grants()),
        user.is_super_user ==> r == Decision::Allowed,
{
    if user.is_super_user {
        return Decision::Allowed;
    }
    match check_roles(combinator, required, user.id, tid, brs, rs) {
        Ok(_) => Decision::Allowed,
        Err(_) => Decision::Forbidden,
    }
}

/// Decides whether the user may act in the theatre, where any one of the
/// roles is enough.
pub fn authorize_any(
    user: &User,
    tid: u128,
    required: &[Role],
    brs: &BridgeRoleService,
    rs: &RoleService,
) -> (r: Decision)
    ensures
        r == authorize_spec(Combinator::Any, *user, tid, required@, rs.rows(), brs.grants()),
        user.is_super_user ==> r == Decision::Allowed,
{
    authorize(Combinator::Any, user, tid, required, brs, rs)
}

/// Decides whether the user may act in the theatre, where every one of the
/// roles is needed.
pub fn authorize_all(
    user: &User,
    tid: u128,
    required: &[Role],
    brs: &BridgeRoleService,
    rs: &RoleService,
) -> (r: Decision)
    ensures
        r == authorize_spec(Combinator::All, *user, tid, required@, rs.rows(), brs.grants()),
        user.is_super_user ==> r == Decision::Allowed,
{
    authorize(Combinator::All, user, tid, required, brs, rs)
}

impl Decision {
    /// The decision as the outcome of a request: being forbidden is reported
    /// as insufficient permission.
    pub fn require(self) -> (r: Result<(), ErrorType>)
        ensures
            r is Ok <==> self == Decision::Allowed,
            r matches Err(e) ==> e == ErrorType::InsufficientPermission,
    {
        match self {
            Decision::Allowed => Ok(()),
            Decision::Forbidden => Err(ErrorType::InsufficientPermission),
        }
    }
}

/// A superuser is allowed whatever is asked for, in every theatre, whatever
/// the tables hold.
pub proof fn law_superuser_override(
    combinator: Combinator,
    user: User,
    tid: u128,
    required: Seq<Role>,
    roles: Seq<TheatreRole>,
    grants: Seq<UserTheatreRole>,
)
    requires
        user.is_super_user,
    ensures
        authorize_spec(combinator, user, tid, required, roles, grants) == Decision::Allowed,
{
}

/// A user who is no superuser and holds exactly one of two roles that are
/// asked for is allowed where any one is enough, and forbidden where both are
/// needed.
pub proof fn law_any_versus_all(
    user: User,
    tid: u128,
    held: Role,
    missing: Role,
    roles: Seq<TheatreRole>,
    grants: Seq<UserTheatreRole>,
)
    requires
        !user.is_super_user,
        holds_role(roles, grants, user.id, tid, held),
        !holds_role(roles, grants, user.id, tid, missing),
    ensures
        authorize_spec(Combinator::Any, user, tid, seq![held, missing], roles, grants)
            == Decision::Allowed,
        authorize_spec(Combinator::All, user, tid, seq![held, missing], roles, grants)
            == Decision::Forbidden,
        authorize_spec(Combinator::Any, user, tid, seq![missing, held], roles, grants)
            == Decision::Allowed,
        authorize_spec(Combinator::All, user, tid, seq![missing, held], roles, grants)
            == Decision::Forbidden,
{
    let a = seq![held, missing];
    let b = seq![missing, held];
    assert(a[0] == held && a[1] == missing);
    assert(b[0] == missing && b[1] == held);
    assert(holds_role(roles, grants, user.id, tid, a[0]));
    assert(holds_role(roles, grants, user.id, tid, b[1]));
}

/// A role that was never stored matches nobody: it is held by no user in no
/// theatre, and that is no error.
pub proof fn law_unstored_role_matches_nobody(
    roles: Seq<TheatreRole>,
    grants: Seq<UserTheatreRole>,
    uid: u128,
    tid: u128,
    role: Role,
)
    requires
        stored_id(roles, role) is None,
    ensures
        !holds_role(roles, grants, uid, tid, role),
        !holds_any(roles, grants, uid, tid, seq![role]),
{
    let one = seq![role];
    assert forall|i: int| 0 <= i < one.len() implies !holds_role(
        roles,
        grants,
        uid,
        tid,
        #[trigger] one[i],
    ) by {
        assert(one[i] == role);
    }
}

/// Needing all of the roles is the stricter gate: whoever passes it passes the
/// gate where any one is enough, as long as at least one role is asked for.
pub proof fn law_all_is_stricter(
    user: User,
    tid: u128,
    required: Seq<Role>,
    roles: Seq<TheatreRole>,
    grants: Seq<UserTheatreRole>,
)
    requires
        required.len() > 0,
        authorize_spec(Combinator::All, user, tid, required, roles, grants) == Decision::Allowed,
    ensures
        authorize_spec(Combinator::Any, user, tid, required, roles, grants) == Decision::Allowed,
{
    if !user.is_super_user {
        assert(holds_role(roles, grants, user.id, tid, required[0]));
    }
}

/// A role held in one theatre gives nothing in another: grants are looked up
/// under the theatre that the action is in.
pub proof fn law_roles_are_scoped(
    roles: Seq<TheatreRole>,
    grants: Seq<UserTheatreRole>,
    uid: u128,
    tid: u128,
    role: Role,
)
    requires
        forall|i: int| 0 <= i < grants.len() ==> (#[trigger] grants[i]).theatre_id != tid,
    ensures
        !holds_role(roles, grants, uid, tid, role),
{
}

} // verus!
