//! What a user can ask about themself and about others.

use vstd::prelude::*;
use crate::claims::JwtClaims;
use crate::error::{DatabaseError, ErrorType};
use crate::forms::{NewPasswordForm, UpdateUser};
use crate::handlers::{caller_spec, user_res_from_jwt};
use crate::ledger::TicketLedger;
use crate::model::{PartialUser, Ticket, User, UserTheatreRole};
use crate::password::{accepts, verify_text};
use crate::services::bridge_role::{grant_matches, BridgeRoleService};
use crate::services::user::UserService;
use crate::table::lemma_first_where;

verus! {

/// The caller.
pub fn get_self_user(user_service: &UserService, claims: &JwtClaims) -> (r: Result<User, ErrorType>)
    ensures
        r == caller_spec(*claims, *user_service),
{
    match user_res_from_jwt(claims, user_service) {
        Ok(found) => Ok(found.1),
        Err(e) => Err(e),
    }
}

/// Changes what the caller may change about themself. The form must meet its
/// rules.
pub fn update_self_user(
    new_user_form: UpdateUser,
    user_service: &mut UserService,
    claims: &JwtClaims,
) -> (r: Result<(), ErrorType>)
    ensures
        match caller_spec(*claims, *old(user_service)) {
            Err(e) => r == Err::<(), ErrorType>(e) && final(user_service).rows() == old(user_service).rows(),
            Ok(user) => if new_user_form.errors_spec().is_empty_spec() {
                r is Ok && exists|i: int|
                    #[trigger] old(user_service).found_at(user.id, i) && old(user_service).rows()[i]
                        == user && final(user_service).rows() == old(user_service).rows().update(
                        i,
                        User {
                            first_name: new_user_form.first_name,
                            last_name: new_user_form.last_name,
                            email: new_user_form.email,
                            username: new_user_form.username,
                            ..user
                        },
                    )
            } else {
                r == Err::<(), ErrorType>(ErrorType::Validation(new_user_form.errors_spec()))
                    && final(user_service).rows() == old(user_service).rows()
            },
        },
{
    let mut user_res = match user_res_from_jwt(claims, user_service) {
        Ok(found) => found.0,
        Err(e) => {
            return Err(e);
        },
    };
    match new_user_form.validate() {
        Err(errors) => {
            return Err(ErrorType::Validation(errors));
        },
        Ok(_) => {},
    }
    proof {
        let id = claims.dat.id_spec();
        lemma_first_where(user_service.rows(), |u: User| !u.is_deleted && u.id == id);
        lemma_first_where(user_service.rows(), |u: User| u.id == id);
    }
    user_res.update_user(new_user_form);
    match user_service.save(user_res.get()) {
        Ok(_) => Ok(()),
        Err(e) => Err(ErrorType::Database(e)),
    }
}

/// The tickets that the caller owns.
pub fn get_self_tickets(user_service: &UserService, ledger: &TicketLedger, claims: &JwtClaims) -> (r:
    Result<Vec<Ticket>, ErrorType>)
    ensures
        match caller_spec(*claims, *user_service) {
            Err(e) => r == Err::<Vec<Ticket>, ErrorType>(e),
            Ok(user) => r matches Ok(rows) && rows@ == ledger.tickets().filter(
                |t: Ticket| t.owner_user_id == user.id,
            ),
        },
{
    match user_res_from_jwt(claims, user_service) {
        Ok(found) => Ok(ledger.get_tickets(found.1.id)),
        Err(e) => Err(e),
    }
}

/// The roles that the caller holds, in whatever theatre.
pub fn get_self_roles(
    user_service: &UserService,
    bridge_role_service: &BridgeRoleService,
    claims: &JwtClaims,
) -> (r: Result<Vec<UserTheatreRole>, ErrorType>)
    ensures
        match caller_spec(*claims, *user_service) {
            Err(e) => r == Err::<Vec<UserTheatreRole>, ErrorType>(e),
            Ok(user) => r matches Ok(rows) && rows@ == bridge_role_service.grants().filter(
                |g: UserTheatreRole| grant_matches(g, Some(user.id), None, None),
            ),
        },
{
    match user_res_from_jwt(claims, user_service) {
        Ok(found) => Ok(bridge_role_service.get_roles(Some(found.1.id), None, None)),
        Err(e) => Err(e),
    }
}

/// Whether a change of password is in order: a user who has a password must
/// give it, and the new password must have been typed the same way twice.
pub open spec fn password_change_allowed(user: User, form: NewPasswordForm) -> bool {
    &&& user.password_hash matches Some(hash) ==> accepts(form.old_password@, hash@)
    &&& form.new_password@ == form.new_password_repeat@
}

/// Decides on a change of password, once it is known whether the old
/// password that was given is the user's; for a user who has none, that is
/// so. A wrong old password and a new password that was typed in two ways are
/// both answered as invalid.
pub fn check_password_change(old_ok: bool, form: &NewPasswordForm) -> (r: Result<(), ErrorType>)
    ensures
        r == (if old_ok && form.new_password@ == form.new_password_repeat@ {
            Ok::<(), ErrorType>(())
        } else {
            Err::<(), ErrorType>(ErrorType::Invalid)
        }),
{
    if !old_ok {
        return Err(ErrorType::Invalid);
    }
    if !form.repeated_correctly() {
        return Err(ErrorType::Invalid);
    }
    Ok(())
}

/// Changes the password of the caller.
pub fn update_self_password(
    form: &NewPasswordForm,
    user_service: &mut UserService,
    claims: &JwtClaims,
) -> (r: Result<(), ErrorType>)
    ensures
        match caller_spec(*claims, *old(user_service)) {
            Err(e) => r == Err::<(), ErrorType>(e) && final(user_service).rows() == old(user_service).rows(),
            Ok(user) => if password_change_allowed(user, *form) {
                match r {
                    Ok(_) => exists|i: int, hash: String|
                        #![trigger old(user_service).found_at(user.id, i), accepts(form.new_password@, hash@)]
                        old(user_service).found_at(user.id, i) && old(user_service).rows()[i]
                            == user && accepts(form.new_password@, hash@) && final(user_service).rows() == old(user_service).rows().update(
                            i,
                            User { password_hash: Some(hash), ..user },
                        ),
                    Err(e) => (e == ErrorType::Database(DatabaseError::Hash) || e
                        == ErrorType::Database(DatabaseError::Other)) && final(user_service).rows()
                        == old(user_service).rows(),
                }
            } else {
                r == Err::<(), ErrorType>(ErrorType::Invalid) && final(user_service).rows() == old(user_service).rows()
            },
        },
{
    let mut user_res = match user_res_from_jwt(claims, user_service) {
        Ok(found) => found.0,
        Err(e) => {
            return Err(e);
        },
    };
    let old_ok = match &user_res.get().password_hash {
        Some(hash) => verify_text(form.old_password.as_str(), hash.as_str()),
        None => true,
    };
    match check_password_change(old_ok, form) {
        Ok(_) => {},
        Err(e) => {
            return Err(e);
        },
    }
    proof {
        let id = claims.dat.id_spec();
        lemma_first_where(user_service.rows(), |u: User| !u.is_deleted && u.id == id);
        lemma_first_where(user_service.rows(), |u: User| u.id == id);
    }
    match user_res.update_password(&form.new_password) {
        Ok(_) => {},
        Err(e) => {
            return Err(ErrorType::Database(e));
        },
    }
    match user_service.save(user_res.get()) {
        Ok(_) => Ok(()),
        Err(e) => Err(ErrorType::Database(e)),
    }
}

/// What anybody may see of the user with the given identifier.
pub fn get_partial_user(id: u128, user_service: &UserService) -> (r: Result<PartialUser, ErrorType>)
    ensures
        match user_service.found_by_id(id) {
            Some(user) => r == Ok::<PartialUser, ErrorType>(
                PartialUser {
                    id: user.id,
                    first_name: user.first_name,
                    last_name: user.last_name,
                    username: user.username,
                    is_super_user: user.is_super_user,
                },
            ),
            None => r == Err::<PartialUser, ErrorType>(ErrorType::NotFound),
        },
{
    match user_service.get_by_id(id) {
        Some(found) => Ok(PartialUser::from(User::from(found))),
        None => Err(ErrorType::NotFound),
    }
}

} // verus!
