use ticketing::error::ErrorType;
use ticketing::model::{TheatreRole, User, UserTheatreRole};
use ticketing::permission::{
    authorize, authorize_all, authorize_any, check_roles, Combinator, Decision,
};
use ticketing::role::Role;
use ticketing::services::bridge_role::{
    check_role, check_roles_and, check_roles_or, BridgeRoleService,
};
use ticketing::services::role::RoleService;

const ALL: [Role; 5] = [
    Role::TheatreOwner,
    Role::TicketManager,
    Role::TicketChecker,
    Role::UserManager,
    Role::ScreeningsManager,
];

fn record(id: u128, name: &str) -> TheatreRole {
    TheatreRole { id, name: name.to_string() }
}

fn seeded() -> RoleService {
    RoleService::new(vec![
        record(10, "TheatreOwner"),
        record(11, "TicketManager"),
        record(12, "TicketChecker"),
        record(13, "UserManager"),
        record(14, "ScreeningsManager"),
    ])
}

fn user(id: u128, is_super_user: bool) -> User {
    User {
        id,
        first_name: "Ada".to_string(),
        last_name: "Byron".to_string(),
        email: format!("user{}@example.com", id),
        username: format!("username{}", id),
        password_hash: None,
        created_at: 0,
        is_super_user,
        is_activated: true,
        is_deleted: false,
    }
}

fn grant(user_id: u128, role_id: u128, theatre_id: u128) -> UserTheatreRole {
    UserTheatreRole { user_id, role_id, theatre_id }
}

fn grants(rows: Vec<UserTheatreRole>) -> BridgeRoleService {
    let mut table = BridgeRoleService::new();
    table.register_roles(rows);
    table
}

#[test]
fn role_names_are_the_variant_names() {
    assert_eq!(Role::TheatreOwner.name(), "TheatreOwner");
    assert_eq!(Role::TicketManager.name(), "TicketManager");
    assert_eq!(Role::TicketChecker.name(), "TicketChecker");
    assert_eq!(Role::UserManager.name(), "UserManager");
    assert_eq!(Role::ScreeningsManager.name(), "ScreeningsManager");
}

#[test]
fn every_role_reads_back_from_its_name() {
    for role in ALL {
        assert_eq!(Role::try_from_str(&role.name()), Some(role));
    }
}

#[test]
fn names_outside_the_closed_set_are_no_role() {
    assert_eq!(Role::try_from_str(""), None);
    assert_eq!(Role::try_from_str("theatreowner"), None);
    assert_eq!(Role::try_from_str("TheatreOwner "), None);
    assert_eq!(Role::try_from_str("Janitor"), None);
}

#[test]
fn stored_role_is_found_by_exact_name() {
    let roles = seeded();
    assert_eq!(roles.get_role_by_name("TicketChecker"), Some(record(12, "TicketChecker")));
    assert_eq!(roles.get_role_by_name("ticketchecker"), None);
    assert_eq!(roles.id_of(Role::UserManager), Some(13));
    assert_eq!(roles.get_all_roles().len(), 5);
}

#[test]
fn first_stored_role_of_a_name_wins() {
    let roles = RoleService::new(vec![record(1, "UserManager"), record(2, "UserManager")]);
    assert_eq!(roles.id_of(Role::UserManager), Some(1));
}

#[test]
fn stored_role_is_read_by_identifier() {
    let roles = RoleService::new(vec![record(10, "TheatreOwner"), record(99, "Janitor")]);
    assert_eq!(roles.get_role_by_id(10), Some(Role::TheatreOwner));
    // a stored name that is none of the closed set stands for no role
    assert_eq!(roles.get_role_by_id(99), None);
    assert_eq!(roles.get_role_by_id(11), None);
}

#[test]
fn registering_twice_is_an_upsert() {
    let mut table = BridgeRoleService::new();
    let first = table.register_roles(vec![grant(1, 10, 100), grant(2, 11, 100), grant(1, 10, 100)]);
    assert_eq!(first, vec![grant(1, 10, 100), grant(2, 11, 100)]);
    let second = table.register_roles(vec![grant(2, 11, 100), grant(3, 12, 100)]);
    assert_eq!(second, vec![grant(3, 12, 100)]);
    assert_eq!(table.len(), 3);
    assert_eq!(
        table.get_roles(None, None, None),
        vec![grant(1, 10, 100), grant(2, 11, 100), grant(3, 12, 100)]
    );
}

#[test]
fn grants_are_filtered_by_what_is_given() {
    let table = grants(vec![grant(1, 10, 100), grant(1, 11, 200), grant(2, 10, 100), grant(2, 12, 200)]);
    assert_eq!(table.get_roles(Some(1), None, None), vec![grant(1, 10, 100), grant(1, 11, 200)]);
    assert_eq!(table.get_roles(None, Some(200), None), vec![grant(1, 11, 200), grant(2, 12, 200)]);
    assert_eq!(table.get_roles(None, None, Some(10)), vec![grant(1, 10, 100), grant(2, 10, 100)]);
    assert_eq!(table.get_roles(Some(2), Some(100), Some(10)), vec![grant(2, 10, 100)]);
    assert_eq!(table.get_roles(Some(2), Some(100), Some(12)), vec![]);
    assert!(table.role_exists(grant(2, 12, 200)));
    assert!(!table.role_exists(grant(2, 12, 100)));
}

#[test]
fn grants_are_taken_back_by_filter() {
    let mut table = grants(vec![grant(1, 10, 100), grant(1, 11, 200), grant(2, 10, 100)]);
    table.unregister_roles(Some(1), Some(100), None);
    assert_eq!(table.get_roles(None, None, None), vec![grant(1, 11, 200), grant(2, 10, 100)]);
    table.unregister_roles(None, None, Some(10));
    assert_eq!(table.get_roles(None, None, None), vec![grant(1, 11, 200)]);
    table.unregister_roles(None, None, None);
    assert_eq!(table.len(), 0);
}

#[test]
fn batch_takes_back_the_given_grants_only() {
    let mut table = grants(vec![grant(1, 10, 100), grant(1, 11, 200), grant(2, 10, 100)]);
    table.unregister_roles_batch(vec![grant(2, 10, 100), grant(9, 9, 9)]);
    assert_eq!(table.get_roles(None, None, None), vec![grant(1, 10, 100), grant(1, 11, 200)]);
    // an empty batch takes nothing back
    table.unregister_roles_batch(vec![]);
    assert_eq!(table.len(), 2);
}

#[test]
fn role_is_held_in_its_theatre_only() {
    let roles = seeded();
    let table = grants(vec![grant(1, 12, 100)]);
    assert!(check_role(Role::TicketChecker, 1, 100, &table, &roles));
    assert!(!check_role(Role::TicketChecker, 1, 200, &table, &roles));
    assert!(!check_role(Role::TicketChecker, 2, 100, &table, &roles));
    assert!(!check_role(Role::TheatreOwner, 1, 100, &table, &roles));
}

#[test]
fn role_that_was_never_stored_matches_nobody() {
    let roles = RoleService::new(vec![record(10, "TheatreOwner")]);
    // the user holds grants in the theatre, but none of a role that is stored as TicketChecker
    let table = grants(vec![grant(1, 10, 100), grant(1, 12, 100)]);
    assert!(!check_role(Role::TicketChecker, 1, 100, &table, &roles));
    assert_eq!(
        check_roles_or(&[Role::TicketChecker], 1, 100, &table, &roles),
        Err(ErrorType::InsufficientPermission)
    );
    assert_eq!(
        authorize_any(&user(1, false), 100, &[Role::TicketChecker], &table, &roles),
        Decision::Forbidden
    );
    // the superuser remains the way out
    assert_eq!(
        authorize_any(&user(1, true), 100, &[Role::TicketChecker], &table, &roles),
        Decision::Allowed
    );
}

#[test]
fn superuser_is_always_allowed() {
    let roles = seeded();
    let empty = BridgeRoleService::new();
    let root = user(7, true);
    for theatre in [0u128, 100, u128::MAX] {
        assert_eq!(authorize_any(&root, theatre, &ALL, &empty, &roles), Decision::Allowed);
        assert_eq!(authorize_all(&root, theatre, &ALL, &empty, &roles), Decision::Allowed);
        assert_eq!(authorize_any(&root, theatre, &[], &empty, &roles), Decision::Allowed);
    }
    let unseeded = RoleService::new(vec![]);
    assert_eq!(authorize_any(&root, 100, &ALL, &empty, &unseeded), Decision::Allowed);
    let others = grants(vec![grant(8, 10, 100)]);
    assert_eq!(authorize_all(&root, 100, &ALL, &others, &roles), Decision::Allowed);
}

#[test]
fn one_of_two_roles_passes_any_and_fails_all() {
    let roles = seeded();
    let table = grants(vec![grant(1, 11, 100)]);
    let staff = user(1, false);
    let required = [Role::TheatreOwner, Role::TicketManager];
    assert_eq!(authorize_any(&staff, 100, &required, &table, &roles), Decision::Allowed);
    assert_eq!(authorize_all(&staff, 100, &required, &table, &roles), Decision::Forbidden);
    assert_eq!(check_roles_or(&required, 1, 100, &table, &roles), Ok(()));
    assert_eq!(
        check_roles_and(&required, 1, 100, &table, &roles),
        Err(ErrorType::InsufficientPermission)
    );
    assert_eq!(check_roles(Combinator::Any, &required, 1, 100, &table, &roles), Ok(()));
    assert_eq!(
        check_roles(Combinator::All, &required, 1, 100, &table, &roles),
        Err(ErrorType::InsufficientPermission)
    );
}

#[test]
fn both_roles_pass_all() {
    let roles = seeded();
    let table = grants(vec![grant(1, 11, 100), grant(1, 10, 100)]);
    let staff = user(1, false);
    let required = [Role::TheatreOwner, Role::TicketManager];
    assert_eq!(authorize_all(&staff, 100, &required, &table, &roles), Decision::Allowed);
    assert_eq!(authorize(Combinator::All, &staff, 100, &required, &table, &roles), Decision::Allowed);
    // one of them held in another theatre does not count
    let split = grants(vec![grant(1, 11, 100), grant(1, 10, 200)]);
    assert_eq!(authorize_all(&staff, 100, &required, &split, &roles), Decision::Forbidden);
}

#[test]
fn nothing_asked_for_allows_nobody_under_any_and_everybody_under_all() {
    let roles = seeded();
    let table = grants(vec![grant(1, 10, 100)]);
    let staff = user(1, false);
    assert_eq!(authorize_any(&staff, 100, &[], &table, &roles), Decision::Forbidden);
    assert_eq!(authorize_all(&staff, 100, &[], &table, &roles), Decision::Allowed);
}

#[test]
fn decision_becomes_a_result() {
    assert_eq!(Decision::Allowed.require(), Ok(()));
    assert_eq!(Decision::Forbidden.require(), Err(ErrorType::InsufficientPermission));
}
