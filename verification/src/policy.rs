//! Which roles each action on a theatre asks for.

use vstd::prelude::*;
use crate::claims::JwtClaims;
use crate::error::ErrorType;
use crate::handlers::{caller_spec, user_res_from_jwt};
use crate::services::user::UserService;
use crate::model::{TheatreRole, User, UserTheatreRole};
use crate::permission::{authorize_any, authorize_spec, Combinator, Decision};
use crate::role::Role;
use crate::services::bridge_role::BridgeRoleService;
use crate::services::role::RoleService;

verus! {

/// The actions that are not open to everybody.
#[derive(Debug, Clone, Copy, PartialEq, Eq, Structural)]
pub enum Action {
    NewTheatre,
    UpdateTheatre,
    DeleteTheatre,
    CreateHall,
    DeleteHall,
    GetAllRoles,
    UpdateRoles,
    QueryBridgeRoles,
    CreateTheatreScreening,
    UpdateTheatreScreening,
    DeleteTheatreScreening,
    QueryTickets,
    IssueTicketToOther,
    ValidateTicket,
    CreateTicketType,
    DeleteTicketType,
    CreateMovie,
    DeleteMovie,
}

/// The roles of which one opens the action to who is no superuser. `None`
/// stands for an action that only a superuser may take.
pub open spec fn required_spec(action: Action) -> Option<Seq<Role>> {
    match action {
        Action::NewTheatre => None,
        Action::DeleteTheatre => None,
        Action::CreateMovie => None,
        Action::DeleteMovie => None,
        Action::UpdateTheatre => Some(seq![Role::TheatreOwner]),
        Action::CreateHall => Some(seq![Role::TheatreOwner]),
        Action::DeleteHall => Some(seq![Role::TheatreOwner]),
        Action::GetAllRoles => Some(seq![Role::TheatreOwner, Role::UserManager]),
        Action::UpdateRoles => Some(seq![Role::TheatreOwner, Role::UserManager]),
        Action::QueryBridgeRoles => Some(seq![Role::TheatreOwner, Role::UserManager]),
        Action::UpdateTheatreScreening => Some(seq![Role::ScreeningsManager]),
        Action::CreateTheatreScreening => Some(seq![Role::TheatreOwner, Role::ScreeningsManager]),
        Action::DeleteTheatreScreening => Some(seq![Role::TheatreOwner, Role::ScreeningsManager]),
        Action::QueryTickets => Some(seq![Role::TheatreOwner, Role::TicketManager]),
        Action::IssueTicketToOther => Some(seq![Role::TheatreOwner, Role::TicketManager]),
        Action::CreateTicketType => Some(seq![Role::TheatreOwner, Role::TicketManager]),
        Action::DeleteTicketType => Some(seq![Role::TheatreOwner, Role::TicketManager]),
        Action::ValidateTicket => Some(seq![Role::TheatreOwner, Role::TicketChecker]),
    }
}

/// Whether the user may take the action in the theatre.
pub open spec fn may(
    action: Action,
    user: User,
    theatre_id: u128,
    roles: Seq<TheatreRole>,
    grants: Seq<UserTheatreRole>,
) -> bool {
    match required_spec(action) {
        None => user.is_super_user,
        Some(required) => authorize_spec(Combinator::Any, user, theatre_id, required, roles, grants)
            == Decision::Allowed,
    }
}

/// The roles of which one opens the action to who is no superuser.
pub fn required_roles(action: Action) -> (r: Option<Vec<Role>>)
    ensures
        match r {
            Some(required) => required_spec(action) == Some(required@),
            None => required_spec(action) is None,
        },
{
    match action {
        Action::NewTheatre | Action::DeleteTheatre | Action::CreateMovie | Action::DeleteMovie => None,
        Action::UpdateTheatre | Action::CreateHall | Action::DeleteHall => {
            let required = vec![Role::TheatreOwner];
            assert(required@ == seq![Role::TheatreOwner]);
            Some(required)
        },
        Action::GetAllRoles | Action::UpdateRoles | Action::QueryBridgeRoles => {
            let required = vec![Role::TheatreOwner, Role::UserManager];
            assert(required@ == seq![Role::TheatreOwner, Role::UserManager]);
            Some(required)
        },
        Action::UpdateTheatreScreening => {
            let required = vec![Role::ScreeningsManager];
            assert(required@ == seq![Role::ScreeningsManager]);
            Some(required)
        },
        Action::CreateTheatreScreening | Action::DeleteTheatreScreening => {
            let required = vec![Role::TheatreOwner, Role::ScreeningsManager];
            assert(required@ == seq![Role::TheatreOwner, Role::ScreeningsManager]);
            Some(required)
        },
        Action::QueryTickets
        | Action::IssueTicketToOther
        | Action::CreateTicketType
        | Action::DeleteTicketType => {
            let required = vec![Role::TheatreOwner, Role::TicketManager];
            assert(required@ == seq![Role::TheatreOwner, Role::TicketManager]);
            Some(required)
        },
        Action::ValidateTicket => {
            let required = vec![Role::TheatreOwner, Role::TicketChecker];
            assert(required@ == seq![Role::TheatreOwner, Role::TicketChecker]);
            Some(required)
        },
    }
}

/// Lets the user take the action in the theatre, or reports insufficient
/// permission.
pub fn authorize_action(
    action: Action,
    user: &User,
    theatre_id: u128,
    brs: &BridgeRoleService,
    rs: &RoleService,
) -> (r: Result<(), ErrorType>)
    ensures
        r is Ok <==> may(action, *user, theatre_id, rs.rows(), brs.grants()),
        r matches Err(e) ==> e == ErrorType::InsufficientPermission,
        user.is_super_user ==> r is Ok,
{
    match required_roles(action) {
        None => {
            if user.is_super_user {
                Ok(())
            } else {
                Err(ErrorType::InsufficientPermission)
            }
        },
        Some(required) => authorize_any(user, theatre_id, required.as_slice(), brs, rs).require(),
    }
}

/// Lets the user take the action in a theatre that was looked up before.
/// That the theatre is not there is said first: who lacks the role does not
/// learn from the answer whether the theatre exists.
pub fn authorize_in_theatre(
    action: Action,
    user: &User,
    theatre_found: bool,
    theatre_id: u128,
    brs: &BridgeRoleService,
    rs: &RoleService,
) -> (r: Result<(), ErrorType>)
    ensures
        !theatre_found ==> r == Err::<(), ErrorType>(ErrorType::NotFound),
        theatre_found && may(action, *user, theatre_id, rs.rows(), brs.grants()) ==> r is Ok,
        theatre_found && !may(action, *user, theatre_id, rs.rows(), brs.grants()) ==> r == Err::<
            (),
            ErrorType,
        >(ErrorType::InsufficientPermission),
{
    if !theatre_found {
        return Err(ErrorType::NotFound);
    }
    authorize_action(action, user, theatre_id, brs, rs)
}

/// Lets a screening be planned in a hall only if the hall is one of the
/// theatre: planning it in somebody else's hall is reported as insufficient
/// permission.
pub fn hall_must_belong(belongs: bool) -> (r: Result<(), ErrorType>)
    ensures
        r == (if belongs {
            Ok::<(), ErrorType>(())
        } else {
            Err::<(), ErrorType>(ErrorType::InsufficientPermission)
        }),
{
    if belongs {
        Ok(())
    } else {
        Err(ErrorType::InsufficientPermission)
    }
}

/// Lets the user change or delete a review: its author may, and a superuser.
pub fn authorize_review_change(user: &User, author_user_id: u128) -> (r: Result<(), ErrorType>)
    ensures
        r is Ok <==> author_user_id == user.id || user.is_super_user,
        r matches Err(e) ==> e == ErrorType::InsufficientPermission,
{
    if author_user_id == user.id || user.is_super_user {
        Ok(())
    } else {
        Err(ErrorType::InsufficientPermission)
    }
}

/// What a caller who wants to take an action in a theatre is told: the caller
/// must be a user; the theatre must be there; and the user must be allowed
/// the action in it.
pub open spec fn authorize_caller_spec(
    action: Action,
    claims: JwtClaims,
    users: UserService,
    theatre_found: bool,
    theatre_id: u128,
    roles: Seq<TheatreRole>,
    grants: Seq<UserTheatreRole>,
) -> Result<User, ErrorType> {
    match caller_spec(claims, users) {
        Err(e) => Err(e),
        Ok(user) => if !theatre_found {
            Err(ErrorType::NotFound)
        } else if !may(action, user, theatre_id, roles, grants) {
            Err(ErrorType::InsufficientPermission)
        } else {
            Ok(user)
        },
    }
}

/// Finds the caller and lets them take the action in the theatre. For an
/// action that looks no theatre up, `theatre_found` is `true`.
pub fn authorize_caller(
    action: Action,
    claims: &JwtClaims,
    user_service: &UserService,
    theatre_found: bool,
    theatre_id: u128,
    brs: &BridgeRoleService,
    rs: &RoleService,
) -> (r: Result<User, ErrorType>)
    ensures
        r == authorize_caller_spec(
            action,
            *claims,
            *user_service,
            theatre_found,
            theatre_id,
            rs.rows(),
            brs.grants(),
        ),
{
    let user = match user_res_from_jwt(claims, user_service) {
        Ok(found) => found.1,
        Err(e) => {
            return Err(e);
        },
    };
    match authorize_in_theatre(action, &user, theatre_found, theatre_id, brs, rs) {
        Ok(_) => Ok(user),
        Err(e) => Err(e),
    }
}

/// Finds the caller and lets them plan a screening in a hall of the theatre:
/// what [`authorize_caller`] asks for comes first, and then the hall must be
/// one of the theatre.
pub fn authorize_screening(
    action: Action,
    claims: &JwtClaims,
    user_service: &UserService,
    theatre_found: bool,
    hall_belongs: bool,
    theatre_id: u128,
    brs: &BridgeRoleService,
    rs: &RoleService,
) -> (r: Result<User, ErrorType>)
    ensures
        r == (match authorize_caller_spec(
            action,
            *claims,
            *user_service,
            theatre_found,
            theatre_id,
            rs.rows(),
            brs.grants(),
        ) {
            Err(e) => Err::<User, ErrorType>(e),
            Ok(user) => if hall_belongs {
                Ok::<User, ErrorType>(user)
            } else {
                Err::<User, ErrorType>(ErrorType::InsufficientPermission)
            },
        }),
{
    let user = match authorize_caller(
        action,
        claims,
        user_service,
        theatre_found,
        theatre_id,
        brs,
        rs,
    ) {
        Ok(user) => user,
        Err(e) => {
            return Err(e);
        },
    };
    match hall_must_belong(hall_belongs) {
        Ok(_) => Ok(user),
        Err(e) => Err(e),
    }
}

/// Finds the caller and lets them change or delete a review: the caller must
/// be a user, the review must be there, and the user must be its author or a
/// superuser.
pub fn authorize_review(
    claims: &JwtClaims,
    user_service: &UserService,
    author_user_id: Option<u128>,
) -> (r: Result<User, ErrorType>)
    ensures
        r == (match caller_spec(*claims, *user_service) {
            Err(e) => Err::<User, ErrorType>(e),
            Ok(user) => match author_user_id {
                None => Err::<User, ErrorType>(ErrorType::NotFound),
                Some(author) => if author == user.id || user.is_super_user {
                    Ok::<User, ErrorType>(user)
                } else {
                    Err::<User, ErrorType>(ErrorType::InsufficientPermission)
                },
            },
        }),
{
    let user = match user_res_from_jwt(claims, user_service) {
        Ok(found) => found.1,
        Err(e) => {
            return Err(e);
        },
    };
    let author = match author_user_id {
        Some(author) => author,
        None => {
            return Err(ErrorType::NotFound);
        },
    };
    match authorize_review_change(&user, author) {
        Ok(_) => Ok(user),
        Err(e) => Err(e),
    }
}

/// A superuser may take every action in every theatre.
pub proof fn law_superuser_may_everything(
    action: Action,
    user: User,
    theatre_id: u128,
    roles: Seq<TheatreRole>,
    grants: Seq<UserTheatreRole>,
)
    requires
        user.is_super_user,
    ensures
        may(action, user, theatre_id, roles, grants),
{
}

} // verus!
