//! Looking at the stored roles and at the grants.

use vstd::prelude::*;
use crate::claims::JwtClaims;
use crate::error::ErrorType;
use crate::forms::BridgeRoleQuery;
use crate::handlers::theatre::role::{may_staff, staffing_roles};
use crate::handlers::{caller_spec, user_res_from_jwt};
use crate::model::{TheatreRole, UserTheatreRole};
use crate::permission::{authorize_any, Decision};
use crate::role::Role;
use crate::services::bridge_role::{grant_matches, BridgeRoleService};
use crate::services::role::RoleService;
use crate::services::user::UserService;
use crate::table::{keyed_later, last_of_keys, lemma_last_of_keys_step};

verus! {

/// The name of a stored role.
pub open spec fn name_of() -> spec_fn(TheatreRole) -> Seq<char> {
    |role: TheatreRole| role.name@
}

/// Whether a row behind row `at` has the name of row `at`.
fn is_named_later(rows: &Vec<TheatreRole>, at: usize) -> (r: bool)
    requires
        at < rows.len(),
    ensures
        r == keyed_later(rows@, name_of(), at as int),
{
    let mut j: usize = at + 1;
    while j < rows.len()
        invariant
            at < j <= rows.len(),
            forall|k: int| at < k < j ==> name_of()(#[trigger] rows@[k]) != name_of()(rows@[at as int]),
        decreases rows.len() - j,
    {
        if rows[j].name == rows[at].name {
            return true;
        }
        j += 1;
    }
    false
}

/// The stored roles by name: for each name of the table one pair of the name
/// and an identifier, in the order of the table. Where several rows have one
/// name, the name stands with the identifier of the last of them.
pub fn get_all_roles(role_service: &RoleService) -> (r: Vec<(String, u128)>)
    ensures
        r@.len() == last_of_keys(role_service.rows(), name_of()).len(),
        forall|i: int|
            0 <= i < r@.len() ==> (#[trigger] r@[i]).0 == last_of_keys(
                role_service.rows(),
                name_of(),
            )[i].name && r@[i].1 == last_of_keys(role_service.rows(), name_of())[i].id,
{
    let roles = role_service.get_all_roles();
    let ghost mut done: Seq<TheatreRole> = Seq::empty();
    let mut pairs: Vec<(String, u128)> = Vec::new();
    let mut i: usize = 0;
    assert(roles@.subrange(0, roles@.len() as int) == roles@);
    while i < roles.len()
        invariant
            i <= roles.len(),
            roles@ == role_service.rows(),
            last_of_keys(roles@, name_of()) == done + last_of_keys(
                roles@.subrange(i as int, roles@.len() as int),
                name_of(),
            ),
            pairs@.len() == done.len(),
            forall|j: int|
                0 <= j < pairs@.len() ==> (#[trigger] pairs@[j]).0 == done[j].name && pairs@[j].1
                    == done[j].id,
        decreases roles.len() - i,
    {
        let later = is_named_later(roles, i);
        proof {
            lemma_last_of_keys_step(roles@, name_of(), i as int);
        }
        if !later {
            pairs.push((roles[i].name.clone(), roles[i].id));
            proof {
                let rest = last_of_keys(roles@.subrange(i + 1, roles@.len() as int), name_of());
                let before = done;
                done = done.push(roles@[i as int]);
                assert(done + rest == before + (seq![roles@[i as int]] + rest));
            }
        }
        i += 1;
    }
    assert(done + Seq::<TheatreRole>::empty() == done);
    pairs
}

/// The grants of a role in a theatre, to one user or to all. The caller must
/// be a user who may look at the grants of that theatre.
pub fn query_bridge_roles(
    query: &BridgeRoleQuery,
    role_service: &RoleService,
    bridge_role_service: &BridgeRoleService,
    user_service: &UserService,
    claims: &JwtClaims,
) -> (r: Result<Vec<UserTheatreRole>, ErrorType>)
    ensures
        match caller_spec(*claims, *user_service) {
            Err(e) => r == Err::<Vec<UserTheatreRole>, ErrorType>(e),
            Ok(user) => if may_staff(user, query.theatre_id, *role_service, *bridge_role_service) {
                r matches Ok(rows) && rows@ == bridge_role_service.grants().filter(
                    |g: UserTheatreRole|
                        grant_matches(
                            g,
                            query.user_id,
                            Some(query.theatre_id),
                            Some(query.role_id),
                        ),
                )
            } else {
                r == Err::<Vec<UserTheatreRole>, ErrorType>(ErrorType::InsufficientPermission)
            },
        },
{
    let user = match user_res_from_jwt(claims, user_service) {
        Ok(found) => found.1,
        Err(e) => {
            return Err(e);
        },
    };
    let required = vec![Role::TheatreOwner, Role::UserManager];
    assert(required@ == staffing_roles());
    match authorize_any(
        &user,
        query.theatre_id,
        required.as_slice(),
        bridge_role_service,
        role_service,
    ) {
        Decision::Forbidden => Err(ErrorType::InsufficientPermission),
        Decision::Allowed => Ok(
            bridge_role_service.get_roles(
                query.user_id,
                Some(query.theatre_id),
                Some(query.role_id),
            ),
        ),
    }
}

} // verus!
