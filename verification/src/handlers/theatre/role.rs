//! Looking at and changing who holds which role in a theatre.

use std::collections::HashMap;
use vstd::prelude::*;
use crate::claims::JwtClaims;
use crate::error::ErrorType;
use crate::handlers::{caller_spec, user_res_from_jwt};
use crate::model::{User, UserTheatreRole};
use crate::permission::{authorize_any, authorize_spec, Combinator, Decision};
use crate::role::Role;
use crate::services::bridge_role::{grant_matches, BridgeRoleService};
use crate::services::role::RoleService;
use crate::services::user::UserService;
use crate::table::{lemma_filter_members, lemma_filter_none, lemma_filter_step};

verus! {

/// What is to be done with a grant.
#[derive(Debug, Clone, Copy, PartialEq, Eq, Structural)]
pub enum RoleUpdateAction {
    Create,
    Delete,
}

/// One entry of a batch: a role to be granted to a user, or taken from them.
#[derive(Debug, Clone, Copy, PartialEq, Eq, Structural)]
pub struct UserRoleForm {
    pub action: RoleUpdateAction,
    pub user_id: u128,
    pub role_id: u128,
}

/// The roles of which one is needed to look at or change the grants of a
/// theatre.
pub open spec fn staffing_roles() -> Seq<Role> {
    seq![Role::TheatreOwner, Role::UserManager]
}

/// The grant that an entry of a batch is about.
pub open spec fn grant_of(entry: UserRoleForm, theatre_id: u128) -> UserTheatreRole {
    UserTheatreRole { role_id: entry.role_id, user_id: entry.user_id, theatre_id }
}

/// The grants that the entries with the given action are about, in the order
/// of the batch.
pub open spec fn grants_for(
    batch: Seq<UserRoleForm>,
    action: RoleUpdateAction,
    theatre_id: u128,
) -> Seq<UserTheatreRole> {
    batch.filter(|e: UserRoleForm| e.action == action).map_values(
        |e: UserRoleForm| grant_of(e, theatre_id),
    )
}

/// Whether the batch touches the grants of the given user.
pub open spec fn touches(batch: Seq<UserRoleForm>, uid: u128) -> bool {
    exists|i: int| 0 <= i < batch.len() && (#[trigger] batch[i]).user_id == uid
}

/// Whether the caller may look at or change the grants of the theatre: a
/// superuser may, and so may who holds one of the [`staffing_roles`] there.
pub open spec fn may_staff(user: User, theatre_id: u128, rs: RoleService, brs: BridgeRoleService) -> bool {
    authorize_spec(Combinator::Any, user, theatre_id, staffing_roles(), rs.rows(), brs.grants())
        == Decision::Allowed
}

/// Why a batch is turned down, if it is: the caller must be a user who may
/// change the grants of the theatre, and nobody but a superuser may change
/// their own grants.
pub open spec fn batch_refusal(
    theatre_id: u128,
    batch: Seq<UserRoleForm>,
    users: UserService,
    rs: RoleService,
    brs: BridgeRoleService,
    claims: JwtClaims,
) -> Option<ErrorType> {
    match caller_spec(claims, users) {
        Err(e) => Some(e),
        Ok(user) => if user.is_super_user {
            None
        } else if !may_staff(user, theatre_id, rs, brs) {
            Some(ErrorType::InsufficientPermission)
        } else if touches(batch, user.id) {
            Some(ErrorType::InsufficientPermission)
        } else {
            None
        },
    }
}

fn caller_may_staff(
    user: &User,
    theatre_id: u128,
    bridge_role_service: &BridgeRoleService,
    role_service: &RoleService,
) -> (r: bool)
    ensures
        r == may_staff(*user, theatre_id, *role_service, *bridge_role_service),
{
    let required = vec![Role::TheatreOwner, Role::UserManager];
    assert(required@ == staffing_roles());
    match authorize_any(user, theatre_id, required.as_slice(), bridge_role_service, role_service) {
        Decision::Allowed => true,
        Decision::Forbidden => false,
    }
}

fn batch_touches(batch: &Vec<UserRoleForm>, uid: u128) -> (r: bool)
    ensures
        r == touches(batch@, uid),
{
    let mut i: usize = 0;
    while i < batch.len()
        invariant
            i <= batch.len(),
            forall|j: int| 0 <= j < i ==> (#[trigger] batch@[j]).user_id != uid,
        decreases batch.len() - i,
    {
        if batch[i].user_id == uid {
            return true;
        }
        i += 1;
    }
    false
}

/// The grants that the entries with the given action are about.
pub fn split_batch(batch: &Vec<UserRoleForm>, action: RoleUpdateAction, theatre_id: u128) -> (r: Vec<
    UserTheatreRole,
>)
    ensures
        r@ == grants_for(batch@, action, theatre_id),
{
    let ghost wanted = |e: UserRoleForm| e.action == action;
    let ghost as_grant = |e: UserRoleForm| grant_of(e, theatre_id);
    let mut found: Vec<UserTheatreRole> = Vec::new();
    let mut i: usize = 0;
    proof {
        lemma_filter_none(batch@, wanted);
    }
    while i < batch.len()
        invariant
            i <= batch.len(),
            wanted == (|e: UserRoleForm| e.action == action),
            as_grant == (|e: UserRoleForm| grant_of(e, theatre_id)),
            found@ == batch@.subrange(0, i as int).filter(wanted).map_values(as_grant),
        decreases batch.len() - i,
    {
        proof {
            lemma_filter_step(batch@, wanted, i as int);
        }
        let ghost before = batch@.subrange(0, i as int).filter(wanted);
        if batch[i].action == action {
            found.push(
                UserTheatreRole {
                    role_id: batch[i].role_id,
                    user_id: batch[i].user_id,
                    theatre_id,
                },
            );
            assert(before.push(batch@[i as int]).map_values(as_grant) == before.map_values(
                as_grant,
            ).push(as_grant(batch@[i as int])));
        }
        i += 1;
    }
    assert(batch@.subrange(0, batch@.len() as int) == batch@);
    found
}

/// For each user that the grants name, the role of the last grant that names
/// them.
pub open spec fn last_role_of(grants: Seq<UserTheatreRole>) -> Map<u128, u128>
    decreases grants.len(),
{
    if grants.len() == 0 {
        Map::empty()
    } else {
        last_role_of(grants.drop_last()).insert(grants.last().user_id, grants.last().role_id)
    }
}

/// The users of a theatre, each with a role that they hold there. A user who
/// holds several roles in the theatre stands under the one that was granted
/// last.
pub fn get_all_roles(
    theatre_id: u128,
    bridge_role_service: &BridgeRoleService,
    role_service: &RoleService,
    user_service: &UserService,
    claims: &JwtClaims,
) -> (r: Result<HashMap<u128, u128>, ErrorType>)
    ensures
        match caller_spec(*claims, *user_service) {
            Err(e) => r == Err::<HashMap<u128, u128>, ErrorType>(e),
            Ok(user) => if may_staff(user, theatre_id, *role_service, *bridge_role_service) {
                r matches Ok(held) && held@ == last_role_of(
                    bridge_role_service.grants().filter(
                        |g: UserTheatreRole| grant_matches(g, None, Some(theatre_id), None),
                    ),
                )
            } else {
                r == Err::<HashMap<u128, u128>, ErrorType>(ErrorType::InsufficientPermission)
            },
        },
{
    broadcast use vstd::std_specs::hash::group_hash_axioms;

    let user = match user_res_from_jwt(claims, user_service) {
        Ok(found) => found.1,
        Err(e) => {
            return Err(e);
        },
    };
    if !caller_may_staff(&user, theatre_id, bridge_role_service, role_service) {
        return Err(ErrorType::InsufficientPermission);
    }
    let grants = bridge_role_service.get_roles(None, Some(theatre_id), None);
    let mut held: HashMap<u128, u128> = HashMap::new();
    let mut i: usize = 0;
    while i < grants.len()
        invariant
            i <= grants.len(),
            held@ == last_role_of(grants@.subrange(0, i as int)),
        decreases grants.len() - i,
    {
        held.insert(grants[i].user_id, grants[i].role_id);
        assert(grants@.subrange(0, i + 1).drop_last() == grants@.subrange(0, i as int));
        i += 1;
    }
    assert(grants@.subrange(0, grants@.len() as int) == grants@);
    Ok(held)
}

/// Makes and takes back grants in one theatre, as the batch says: first every
/// grant that is to be made is made, then every grant that is to be taken
/// back is taken back. A batch that is turned down changes nothing.
pub fn update_roles_batch(
    theatre_id: u128,
    batch: &Vec<UserRoleForm>,
    bridge_role_service: &mut BridgeRoleService,
    role_service: &RoleService,
    user_service: &UserService,
    claims: &JwtClaims,
) -> (r: Result<(), ErrorType>)
    ensures
        match batch_refusal(
            theatre_id,
            batch@,
            *user_service,
            *role_service,
            *old(bridge_role_service),
            *claims,
        ) {
            Some(e) => r == Err::<(), ErrorType>(e) && final(bridge_role_service).grants() == old(bridge_role_service).grants(),
            None => r is Ok && forall|g: UserTheatreRole| #[trigger]
                final(bridge_role_service).grants().contains(g) <==> (old(bridge_role_service).grants().contains(g) || grants_for(
                    batch@,
                    RoleUpdateAction::Create,
                    theatre_id,
                ).contains(g)) && !grants_for(batch@, RoleUpdateAction::Delete, theatre_id).contains(
                    g,
                ),
        },
{
    let user = match user_res_from_jwt(claims, user_service) {
        Ok(found) => found.1,
        Err(e) => {
            return Err(e);
        },
    };
    if !user.is_super_user {
        if !caller_may_staff(&user, theatre_id, bridge_role_service, role_service) {
            return Err(ErrorType::InsufficientPermission);
        }
        if batch_touches(batch, user.id) {
            return Err(ErrorType::InsufficientPermission);
        }
    }
    let ins_roles = split_batch(batch, RoleUpdateAction::Create, theatre_id);
    let del_roles = split_batch(batch, RoleUpdateAction::Delete, theatre_id);
    let ghost before = bridge_role_service.grants();
    let inserted = bridge_role_service.register_roles(ins_roles);
    let ghost between = bridge_role_service.grants();
    bridge_role_service.unregister_roles_batch(del_roles);
    proof {
        let kept_if = |g: UserTheatreRole| !del_roles@.contains(g);
        lemma_filter_members(between, kept_if);
        assert forall|g: UserTheatreRole| #[trigger]
            bridge_role_service.grants().contains(g) <==> (before.contains(g)
                || ins_roles@.contains(g)) && !del_roles@.contains(g) by {
            if between.contains(g) {
                let j = choose|j: int| 0 <= j < between.len() && between[j] == g;
                if j < before.len() {
                    assert(before[j] == g);
                } else {
                    assert(inserted@[j - before.len()] == g);
                    assert(inserted@.contains(g));
                }
            }
            if before.contains(g) {
                let j = choose|j: int| 0 <= j < before.len() && before[j] == g;
                assert(between[j] == g);
            }
            if ins_roles@.contains(g) && !before.contains(g) {
                assert(inserted@.contains(g));
                let j = choose|j: int| 0 <= j < inserted@.len() && inserted@[j] == g;
                assert(between[before.len() + j] == g);
            }
        }
    }
    Ok(())
}

} // verus!
