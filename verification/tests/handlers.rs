use std::collections::HashMap;

use ticketing::claims::{JwtClaims, JwtType};
use ticketing::error::{DatabaseError, ErrorType, QueryError, ValidationErrors};
use ticketing::forms::{BridgeRoleQuery, NewTicketQuery, TicketQuery, ValidateTicketQuery};
use ticketing::handlers::language::get_all_languages;
use ticketing::handlers::role::{get_all_roles as get_all_stored_roles, query_bridge_roles};
use ticketing::handlers::theatre::role::{
    get_all_roles, split_batch, update_roles_batch, RoleUpdateAction, UserRoleForm,
};
use ticketing::handlers::theatre::ticket::{
    create_ticket, query_tickets, validate, validate_and_get, validate_and_mark,
};
use ticketing::ledger::{mark_outcome, TicketLedger};
use ticketing::model::{
    FormTicket, Language, TheatreRole, TheatreScreening, Ticket, User, UserTheatreRole,
};
use ticketing::policy::{
    authorize_action, authorize_caller, authorize_in_theatre, authorize_review,
    authorize_review_change, authorize_screening, hall_must_belong, required_roles, Action,
};
use ticketing::role::Role;
use ticketing::services::bridge_role::BridgeRoleService;
use ticketing::services::role::RoleService;
use ticketing::services::user::{TicketResource, UserService};
use ticketing::token::TokenCodec;

const THEATRE: u128 = 100;
const OTHER_THEATRE: u128 = 200;
const SCREENING: u128 = 1000;
const ROOT: u128 = 9;
const OWNER: u128 = 1;
const MANAGER: u128 = 2;
const CHECKER: u128 = 3;
const STAFFER: u128 = 4;
const GUEST: u128 = 5;

fn codec() -> TokenCodec {
    TokenCodec::new(b"auth".to_vec(), b"email".to_vec(), b"ticket".to_vec())
}

fn roles() -> RoleService {
    RoleService::new(vec![
        TheatreRole { id: 10, name: "TheatreOwner".to_string() },
        TheatreRole { id: 11, name: "TicketManager".to_string() },
        TheatreRole { id: 12, name: "TicketChecker".to_string() },
        TheatreRole { id: 13, name: "UserManager".to_string() },
        TheatreRole { id: 14, name: "ScreeningsManager".to_string() },
    ])
}

fn grant(user_id: u128, role_id: u128, theatre_id: u128) -> UserTheatreRole {
    UserTheatreRole { user_id, role_id, theatre_id }
}

fn staff() -> BridgeRoleService {
    let mut table = BridgeRoleService::new();
    table.register_roles(vec![
        grant(OWNER, 10, THEATRE),
        grant(MANAGER, 11, THEATRE),
        grant(CHECKER, 12, THEATRE),
        grant(STAFFER, 13, THEATRE),
        grant(GUEST, 10, OTHER_THEATRE),
    ]);
    table
}

fn user(id: u128) -> User {
    User {
        id,
        first_name: "Ada".to_string(),
        last_name: "Byron".to_string(),
        email: format!("user{}@example.com", id),
        username: format!("username{}", id),
        password_hash: None,
        created_at: 0,
        is_super_user: id == ROOT,
        is_activated: true,
        is_deleted: false,
    }
}

fn users() -> UserService {
    UserService::new(vec![user(ROOT), user(OWNER), user(MANAGER), user(CHECKER), user(STAFFER), user(GUEST)])
}

fn claims(id: u128) -> JwtClaims {
    JwtClaims { dat: JwtType::User(id), sub: id, iat: 0, exp: 10_000 }
}

fn ticket(id: u128, owner: u128) -> Ticket {
    Ticket {
        id,
        owner_user_id: owner,
        theatre_screening_id: SCREENING,
        ticket_type_id: 7,
        issuer_user_id: owner,
        seat_row: 1,
        seat_column: 1,
        issued_at: 1_000,
        expires_at: 2_000,
        used: false,
    }
}

fn ledger(tickets: Vec<Ticket>) -> TicketLedger {
    let screening = TheatreScreening {
        id: SCREENING,
        movie_id: 41,
        theatre_id: THEATRE,
        hall_id: 31,
        subtitles_language_id: None,
        audio_language_id: 1,
        starting_time: 5_000,
        is_3d: false,
        status: 0,
        is_deleted: false,
    };
    match TicketLedger::new(tickets, vec![screening]) {
        Ok(ledger) => ledger,
        Err(e) => panic!("{:?}", e),
    }
}

fn form() -> FormTicket {
    FormTicket {
        theatre_screening_id: SCREENING,
        ticket_type_id: 7,
        issuer_user_id: 0,
        seat_row: 3,
        seat_column: 4,
    }
}

fn entry(action: RoleUpdateAction, user_id: u128, role_id: u128) -> UserRoleForm {
    UserRoleForm { action, user_id, role_id }
}

#[test]
fn ticket_is_issued_stored_and_counted() {
    let mut book = ledger(vec![]);
    let me = NewTicketQuery { owner_id: None };
    for id in 1..=3u128 {
        let t = create_ticket(THEATRE, &me, &form(), &users(), &mut book, &roles(), &staff(), &claims(GUEST), id, 1_000, 2_000)
            .unwrap();
        assert_eq!(
            t,
            Ticket {
                id,
                owner_user_id: GUEST,
                theatre_screening_id: SCREENING,
                ticket_type_id: 7,
                issuer_user_id: GUEST,
                seat_row: 3,
                seat_column: 4,
                issued_at: 1_000,
                expires_at: 2_000,
                used: false,
            }
        );
    }
    assert_eq!(book.get_tickets_count(GUEST, SCREENING), 3);
    // the fourth ticket for oneself is refused, and nothing is stored
    assert_eq!(
        create_ticket(THEATRE, &me, &form(), &users(), &mut book, &roles(), &staff(), &claims(GUEST), 4, 1_000, 2_000),
        Err(ErrorType::InsufficientPermission)
    );
    assert_eq!(book.get_tickets(GUEST).len(), 3);
    // the ticket manager can still issue one to the guest
    let to_guest = NewTicketQuery { owner_id: Some(GUEST) };
    let t = create_ticket(THEATRE, &to_guest, &form(), &users(), &mut book, &roles(), &staff(), &claims(MANAGER), 4, 1_000, 2_000)
        .unwrap();
    assert_eq!((t.owner_user_id, t.issuer_user_id), (GUEST, MANAGER));
    assert_eq!(book.get_tickets(GUEST).len(), 4);
}

#[test]
fn ticket_is_not_stored_under_an_identifier_that_is_taken() {
    let mut book = ledger(vec![ticket(11, OWNER)]);
    let me = NewTicketQuery { owner_id: None };
    assert_eq!(
        create_ticket(THEATRE, &me, &form(), &users(), &mut book, &roles(), &staff(), &claims(GUEST), 11, 1_000, 2_000),
        Err(ErrorType::Database(DatabaseError::Query(QueryError::Other)))
    );
    assert_eq!(book.len(), 1);
    assert_eq!(book.get_tickets(GUEST), vec![]);
    let t = create_ticket(THEATRE, &me, &form(), &users(), &mut book, &roles(), &staff(), &claims(GUEST), 12, 1_000, 2_000)
        .unwrap();
    assert_eq!(t.id, 12);
    assert_eq!(book.len(), 2);
}

#[test]
fn ticket_is_not_stored_with_an_expiry_in_the_past_or_for_nobody() {
    let mut book = ledger(vec![]);
    let me = NewTicketQuery { owner_id: None };
    assert_eq!(
        create_ticket(THEATRE, &me, &form(), &users(), &mut book, &roles(), &staff(), &claims(GUEST), 1, 1_000, 999),
        Err(ErrorType::ServerError)
    );
    assert_eq!(
        create_ticket(THEATRE, &me, &form(), &users(), &mut book, &roles(), &staff(), &claims(77), 1, 1_000, 2_000),
        Err(ErrorType::Database(DatabaseError::Other))
    );
    let email = JwtClaims { dat: JwtType::Email(GUEST), ..claims(GUEST) };
    assert_eq!(
        create_ticket(THEATRE, &me, &form(), &users(), &mut book, &roles(), &staff(), &email, 1, 1_000, 2_000),
        Err(ErrorType::NoAuth)
    );
    assert_eq!(book.get_tickets(GUEST), vec![]);
}

#[test]
fn presented_ticket_is_validated_without_being_used() {
    let codec = codec();
    let t = ticket(77, GUEST);
    let book = ledger(vec![t]);
    let query = ValidateTicketQuery { ticket_jwt: TicketResource::new(t).create_jwt(&codec).unwrap() };
    assert_eq!(
        validate(THEATRE, &query, &users(), &book, &roles(), &staff(), &codec, &claims(CHECKER), 1_500),
        Ok(t)
    );
    let (res, found) =
        validate_and_get(THEATRE, &query, &users(), &book, &roles(), &staff(), &codec, &claims(OWNER), 1_500)
            .unwrap();
    assert_eq!(found, t);
    assert_eq!(Ticket::from(res), t);
    assert_eq!(book.get_ticket_by_id(THEATRE, 77), Some(t));
    assert_eq!(
        validate(THEATRE, &query, &users(), &book, &roles(), &staff(), &codec, &claims(MANAGER), 1_500),
        Err(ErrorType::InsufficientPermission)
    );
    assert_eq!(
        validate(THEATRE, &query, &users(), &book, &roles(), &staff(), &codec, &claims(CHECKER), 2_001),
        Err(ErrorType::Expired)
    );
    assert_eq!(
        validate(OTHER_THEATRE, &query, &users(), &book, &roles(), &staff(), &codec, &claims(GUEST), 1_500),
        Err(ErrorType::NotFound)
    );
    assert_eq!(
        validate(THEATRE, &query, &users(), &book, &roles(), &staff(), &codec, &claims(77), 1_500),
        Err(ErrorType::Database(DatabaseError::Other))
    );
}

#[test]
fn valid_ticket_is_marked_and_unmarked() {
    let codec = codec();
    let t = ticket(77, GUEST);
    let other = ticket(78, GUEST);
    let mut book = ledger(vec![t, other]);
    let query = ValidateTicketQuery { ticket_jwt: TicketResource::new(t).create_jwt(&codec).unwrap() };
    for _ in 0..2 {
        assert_eq!(
            validate_and_mark(THEATRE, true, &query, &users(), &mut book, &roles(), &staff(), &codec, &claims(CHECKER), 1_500),
            Ok(())
        );
        assert_eq!(book.get_tickets(GUEST), vec![Ticket { used: true, ..t }, other]);
    }
    assert_eq!(
        validate_and_mark(THEATRE, false, &query, &users(), &mut book, &roles(), &staff(), &codec, &claims(ROOT), 1_500),
        Ok(())
    );
    assert_eq!(book.get_tickets(GUEST), vec![t, other]);
    // a ticket that is not valid is left as it is
    assert_eq!(
        validate_and_mark(THEATRE, true, &query, &users(), &mut book, &roles(), &staff(), &codec, &claims(CHECKER), 2_001),
        Err(ErrorType::Expired)
    );
    assert_eq!(
        validate_and_mark(THEATRE, true, &query, &users(), &mut book, &roles(), &staff(), &codec, &claims(GUEST), 1_500),
        Err(ErrorType::InsufficientPermission)
    );
    assert_eq!(book.get_tickets(GUEST), vec![t, other]);
}

#[test]
fn tickets_are_searched_by_who_manages_them() {
    let book = ledger(vec![ticket(1, GUEST), ticket(2, OWNER)]);
    let all = TicketQuery {
        owner_id: None,
        screening_id: None,
        ticket_type_id: None,
        issuer_id: None,
        hall_id: None,
        movie_id: None,
        limit: 10,
        offset: 0,
    };
    assert_eq!(
        query_tickets(THEATRE, true, &all, &users(), &book, &roles(), &staff(), &claims(MANAGER)),
        Ok(vec![ticket(1, GUEST), ticket(2, OWNER)])
    );
    let mine = TicketQuery { owner_id: Some(OWNER), ..all };
    assert_eq!(
        query_tickets(THEATRE, true, &mine, &users(), &book, &roles(), &staff(), &claims(ROOT)),
        Ok(vec![ticket(2, OWNER)])
    );
    assert_eq!(
        query_tickets(THEATRE, true, &all, &users(), &book, &roles(), &staff(), &claims(CHECKER)),
        Err(ErrorType::InsufficientPermission)
    );
    // that the theatre is not there is said before anything about permission
    assert_eq!(
        query_tickets(THEATRE, false, &all, &users(), &book, &roles(), &staff(), &claims(CHECKER)),
        Err(ErrorType::NotFound)
    );
    let too_many = TicketQuery { limit: 101, ..all };
    assert_eq!(
        query_tickets(THEATRE, true, &too_many, &users(), &book, &roles(), &staff(), &claims(MANAGER)),
        Err(ErrorType::Validation(ValidationErrors { limit: true, ..ValidationErrors::new() }))
    );
    let negative = TicketQuery { offset: -1, ..all };
    assert_eq!(
        query_tickets(THEATRE, true, &negative, &users(), &book, &roles(), &staff(), &claims(MANAGER)),
        Err(ErrorType::Database(DatabaseError::Query(QueryError::Other)))
    );
}

#[test]
fn batch_is_split_by_action() {
    let batch = vec![
        entry(RoleUpdateAction::Create, 6, 12),
        entry(RoleUpdateAction::Delete, 3, 12),
        entry(RoleUpdateAction::Create, 7, 11),
    ];
    assert_eq!(
        split_batch(&batch, RoleUpdateAction::Create, THEATRE),
        vec![grant(6, 12, THEATRE), grant(7, 11, THEATRE)]
    );
    assert_eq!(split_batch(&batch, RoleUpdateAction::Delete, THEATRE), vec![grant(3, 12, THEATRE)]);
    assert_eq!(split_batch(&vec![], RoleUpdateAction::Delete, THEATRE), vec![]);
}

#[test]
fn batch_grants_and_takes_back_in_one_theatre() {
    let mut table = staff();
    let batch = vec![
        entry(RoleUpdateAction::Create, GUEST, 12),
        entry(RoleUpdateAction::Delete, CHECKER, 12),
        entry(RoleUpdateAction::Create, MANAGER, 11),
    ];
    assert_eq!(update_roles_batch(THEATRE, &batch, &mut table, &roles(), &users(), &claims(STAFFER)), Ok(()));
    assert_eq!(
        table.get_roles(None, None, None),
        vec![
            grant(OWNER, 10, THEATRE),
            grant(MANAGER, 11, THEATRE),
            grant(STAFFER, 13, THEATRE),
            grant(GUEST, 10, OTHER_THEATRE),
            grant(GUEST, 12, THEATRE),
        ]
    );
    // a batch without deletions takes nothing back
    let only_create = vec![entry(RoleUpdateAction::Create, CHECKER, 12)];
    assert_eq!(update_roles_batch(THEATRE, &only_create, &mut table, &roles(), &users(), &claims(OWNER)), Ok(()));
    assert_eq!(table.len(), 6);
    // a grant that is made and taken back in one batch is gone
    let both = vec![entry(RoleUpdateAction::Create, 6, 14), entry(RoleUpdateAction::Delete, 6, 14)];
    assert_eq!(update_roles_batch(THEATRE, &both, &mut table, &roles(), &users(), &claims(OWNER)), Ok(()));
    assert!(!table.role_exists(grant(6, 14, THEATRE)));
    assert_eq!(table.len(), 6);
}

#[test]
fn nobody_changes_their_own_grants_but_a_superuser() {
    let mut table = staff();
    let own = vec![
        entry(RoleUpdateAction::Create, GUEST, 12),
        entry(RoleUpdateAction::Create, STAFFER, 10),
    ];
    assert_eq!(
        update_roles_batch(THEATRE, &own, &mut table, &roles(), &users(), &claims(STAFFER)),
        Err(ErrorType::InsufficientPermission)
    );
    let drop_own = vec![entry(RoleUpdateAction::Delete, OWNER, 10)];
    assert_eq!(
        update_roles_batch(THEATRE, &drop_own, &mut table, &roles(), &users(), &claims(OWNER)),
        Err(ErrorType::InsufficientPermission)
    );
    assert_eq!(table.get_roles(None, None, None), staff().get_roles(None, None, None));
    let root_own = vec![entry(RoleUpdateAction::Create, ROOT, 10)];
    assert_eq!(update_roles_batch(THEATRE, &root_own, &mut table, &roles(), &users(), &claims(ROOT)), Ok(()));
    assert!(table.role_exists(grant(ROOT, 10, THEATRE)));
}

#[test]
fn batch_needs_a_role_in_that_theatre() {
    let mut table = staff();
    let batch = vec![entry(RoleUpdateAction::Create, 6, 12)];
    for caller in [MANAGER, CHECKER, GUEST] {
        assert_eq!(
            update_roles_batch(THEATRE, &batch, &mut table, &roles(), &users(), &claims(caller)),
            Err(ErrorType::InsufficientPermission)
        );
    }
    // the owner of the other theatre changes grants there, not here
    assert_eq!(update_roles_batch(OTHER_THEATRE, &batch, &mut table, &roles(), &users(), &claims(GUEST)), Ok(()));
    assert!(table.role_exists(grant(6, 12, OTHER_THEATRE)));
    assert!(!table.role_exists(grant(6, 12, THEATRE)));
    assert_eq!(
        update_roles_batch(THEATRE, &batch, &mut table, &roles(), &users(), &claims(77)),
        Err(ErrorType::Database(DatabaseError::Other))
    );
}

#[test]
fn grants_of_a_theatre_are_listed_for_its_staff_managers() {
    let table = staff();
    let expected: HashMap<u128, u128> =
        [(OWNER, 10), (MANAGER, 11), (CHECKER, 12), (STAFFER, 13)].into_iter().collect();
    assert_eq!(get_all_roles(THEATRE, &table, &roles(), &users(), &claims(OWNER)), Ok(expected.clone()));
    assert_eq!(get_all_roles(THEATRE, &table, &roles(), &users(), &claims(STAFFER)), Ok(expected.clone()));
    assert_eq!(get_all_roles(THEATRE, &table, &roles(), &users(), &claims(ROOT)), Ok(expected));
    assert_eq!(
        get_all_roles(THEATRE, &table, &roles(), &users(), &claims(CHECKER)),
        Err(ErrorType::InsufficientPermission)
    );
    assert_eq!(
        get_all_roles(OTHER_THEATRE, &table, &roles(), &users(), &claims(GUEST)),
        Ok([(GUEST, 10)].into_iter().collect())
    );
}

#[test]
fn user_with_several_roles_stands_under_the_one_granted_last() {
    let mut table = staff();
    table.register_roles(vec![grant(OWNER, 13, THEATRE), grant(CHECKER, 11, OTHER_THEATRE)]);
    let held = get_all_roles(THEATRE, &table, &roles(), &users(), &claims(ROOT)).unwrap();
    assert_eq!(held.len(), 4);
    assert_eq!(held[&OWNER], 13);
    assert_eq!(held[&CHECKER], 12);
    // taking the later grant back brings the earlier one to light again
    table.unregister_roles_batch(vec![grant(OWNER, 13, THEATRE)]);
    let held = get_all_roles(THEATRE, &table, &roles(), &users(), &claims(ROOT)).unwrap();
    assert_eq!(held[&OWNER], 10);
}

#[test]
fn grants_are_queried_inside_the_theatre_that_was_authorized() {
    let table = staff();
    let query = BridgeRoleQuery { role_id: 10, user_id: None, theatre_id: THEATRE };
    assert_eq!(
        query_bridge_roles(&query, &roles(), &table, &users(), &claims(OWNER)),
        Ok(vec![grant(OWNER, 10, THEATRE)])
    );
    let one = BridgeRoleQuery { role_id: 12, user_id: Some(CHECKER), theatre_id: THEATRE };
    assert_eq!(
        query_bridge_roles(&one, &roles(), &table, &users(), &claims(STAFFER)),
        Ok(vec![grant(CHECKER, 12, THEATRE)])
    );
    let miss = BridgeRoleQuery { role_id: 12, user_id: Some(OWNER), theatre_id: THEATRE };
    assert_eq!(query_bridge_roles(&miss, &roles(), &table, &users(), &claims(ROOT)), Ok(vec![]));
    assert_eq!(
        query_bridge_roles(&query, &roles(), &table, &users(), &claims(GUEST)),
        Err(ErrorType::InsufficientPermission)
    );
}

#[test]
fn stored_roles_are_listed_by_name() {
    let listed = get_all_stored_roles(&roles());
    assert_eq!(listed.len(), 5);
    assert_eq!(listed[0], ("TheatreOwner".to_string(), 10));
    assert_eq!(listed[4], ("ScreeningsManager".to_string(), 14));
}

#[test]
fn name_that_is_stored_twice_is_listed_once_with_its_last_identifier() {
    let twice = RoleService::new(vec![
        TheatreRole { id: 1, name: "UserManager".to_string() },
        TheatreRole { id: 2, name: "TicketChecker".to_string() },
        TheatreRole { id: 3, name: "UserManager".to_string() },
        TheatreRole { id: 4, name: "TheatreOwner".to_string() },
        TheatreRole { id: 5, name: "UserManager".to_string() },
    ]);
    assert_eq!(
        get_all_stored_roles(&twice),
        vec![
            ("TicketChecker".to_string(), 2),
            ("TheatreOwner".to_string(), 4),
            ("UserManager".to_string(), 5),
        ]
    );
    assert_eq!(get_all_stored_roles(&RoleService::new(vec![])), vec![]);
}

#[test]
fn each_action_asks_for_its_roles() {
    for action in [Action::NewTheatre, Action::DeleteTheatre, Action::CreateMovie, Action::DeleteMovie] {
        assert_eq!(required_roles(action), None);
    }
    for action in [Action::UpdateTheatre, Action::CreateHall, Action::DeleteHall] {
        assert_eq!(required_roles(action), Some(vec![Role::TheatreOwner]));
    }
    for action in [Action::GetAllRoles, Action::UpdateRoles, Action::QueryBridgeRoles] {
        assert_eq!(required_roles(action), Some(vec![Role::TheatreOwner, Role::UserManager]));
    }
    assert_eq!(required_roles(Action::UpdateTheatreScreening), Some(vec![Role::ScreeningsManager]));
    for action in [Action::CreateTheatreScreening, Action::DeleteTheatreScreening] {
        assert_eq!(required_roles(action), Some(vec![Role::TheatreOwner, Role::ScreeningsManager]));
    }
    for action in [
        Action::QueryTickets,
        Action::IssueTicketToOther,
        Action::CreateTicketType,
        Action::DeleteTicketType,
    ] {
        assert_eq!(required_roles(action), Some(vec![Role::TheatreOwner, Role::TicketManager]));
    }
    assert_eq!(required_roles(Action::ValidateTicket), Some(vec![Role::TheatreOwner, Role::TicketChecker]));
}

#[test]
fn actions_are_authorized_by_role_and_theatre() {
    let table = staff();
    assert_eq!(authorize_action(Action::CreateHall, &user(OWNER), THEATRE, &table, &roles()), Ok(()));
    assert_eq!(
        authorize_action(Action::CreateHall, &user(OWNER), OTHER_THEATRE, &table, &roles()),
        Err(ErrorType::InsufficientPermission)
    );
    assert_eq!(
        authorize_action(Action::CreateHall, &user(MANAGER), THEATRE, &table, &roles()),
        Err(ErrorType::InsufficientPermission)
    );
    // the owner is not a screenings manager
    assert_eq!(
        authorize_action(Action::UpdateTheatreScreening, &user(OWNER), THEATRE, &table, &roles()),
        Err(ErrorType::InsufficientPermission)
    );
    assert_eq!(authorize_action(Action::CreateTheatreScreening, &user(OWNER), THEATRE, &table, &roles()), Ok(()));
    // some things only a superuser does
    assert_eq!(
        authorize_action(Action::NewTheatre, &user(OWNER), THEATRE, &table, &roles()),
        Err(ErrorType::InsufficientPermission)
    );
    for action in [Action::NewTheatre, Action::DeleteMovie, Action::UpdateTheatreScreening, Action::ValidateTicket] {
        assert_eq!(authorize_action(action, &user(ROOT), THEATRE, &table, &roles()), Ok(()));
    }
    assert_eq!(
        authorize_in_theatre(Action::DeleteHall, &user(GUEST), false, THEATRE, &table, &roles()),
        Err(ErrorType::NotFound)
    );
    assert_eq!(
        authorize_in_theatre(Action::DeleteHall, &user(GUEST), true, THEATRE, &table, &roles()),
        Err(ErrorType::InsufficientPermission)
    );
    assert_eq!(authorize_in_theatre(Action::DeleteHall, &user(OWNER), true, THEATRE, &table, &roles()), Ok(()));
    assert_eq!(
        authorize_in_theatre(Action::DeleteHall, &user(ROOT), false, THEATRE, &table, &roles()),
        Err(ErrorType::NotFound)
    );
}

#[test]
fn caller_is_found_before_the_theatre_and_the_theatre_before_the_role() {
    let table = staff();
    assert_eq!(
        authorize_caller(Action::CreateHall, &claims(OWNER), &users(), true, THEATRE, &table, &roles()),
        Ok(user(OWNER))
    );
    assert_eq!(
        authorize_caller(Action::CreateHall, &claims(77), &users(), false, THEATRE, &table, &roles()),
        Err(ErrorType::Database(DatabaseError::Other))
    );
    let email = JwtClaims { dat: JwtType::Email(OWNER), ..claims(OWNER) };
    assert_eq!(
        authorize_caller(Action::CreateHall, &email, &users(), true, THEATRE, &table, &roles()),
        Err(ErrorType::NoAuth)
    );
    assert_eq!(
        authorize_caller(Action::CreateHall, &claims(GUEST), &users(), false, THEATRE, &table, &roles()),
        Err(ErrorType::NotFound)
    );
    assert_eq!(
        authorize_caller(Action::CreateHall, &claims(GUEST), &users(), true, THEATRE, &table, &roles()),
        Err(ErrorType::InsufficientPermission)
    );
    assert_eq!(
        authorize_caller(Action::NewTheatre, &claims(ROOT), &users(), true, 0, &table, &roles()),
        Ok(user(ROOT))
    );
}

#[test]
fn screening_needs_the_role_and_a_hall_of_the_theatre() {
    let mut table = staff();
    table.register_roles(vec![grant(STAFFER, 14, THEATRE)]);
    let plan = |who: u128, found: bool, belongs: bool| {
        authorize_screening(
            Action::UpdateTheatreScreening,
            &claims(who),
            &users(),
            found,
            belongs,
            THEATRE,
            &table,
            &roles(),
        )
    };
    assert_eq!(plan(STAFFER, true, true), Ok(user(STAFFER)));
    assert_eq!(plan(STAFFER, true, false), Err(ErrorType::InsufficientPermission));
    assert_eq!(plan(STAFFER, false, true), Err(ErrorType::NotFound));
    assert_eq!(plan(OWNER, true, true), Err(ErrorType::InsufficientPermission));
    assert_eq!(plan(ROOT, true, true), Ok(user(ROOT)));
    assert_eq!(plan(ROOT, true, false), Err(ErrorType::InsufficientPermission));
}

#[test]
fn review_must_be_there_to_be_changed() {
    assert_eq!(authorize_review(&claims(GUEST), &users(), Some(GUEST)), Ok(user(GUEST)));
    assert_eq!(authorize_review(&claims(ROOT), &users(), Some(GUEST)), Ok(user(ROOT)));
    assert_eq!(
        authorize_review(&claims(OWNER), &users(), Some(GUEST)),
        Err(ErrorType::InsufficientPermission)
    );
    assert_eq!(authorize_review(&claims(GUEST), &users(), None), Err(ErrorType::NotFound));
    assert_eq!(
        authorize_review(&claims(77), &users(), Some(GUEST)),
        Err(ErrorType::Database(DatabaseError::Other))
    );
}

#[test]
fn screening_is_planned_in_a_hall_of_the_theatre_only() {
    assert_eq!(hall_must_belong(true), Ok(()));
    assert_eq!(hall_must_belong(false), Err(ErrorType::InsufficientPermission));
}

#[test]
fn write_that_changed_nothing_is_a_conflict() {
    assert_eq!(mark_outcome(1), Ok(()));
    assert_eq!(mark_outcome(0), Err(ErrorType::Conflict));
}

#[test]
fn review_is_changed_by_its_author_or_a_superuser() {
    assert_eq!(authorize_review_change(&user(GUEST), GUEST), Ok(()));
    assert_eq!(authorize_review_change(&user(ROOT), GUEST), Ok(()));
    assert_eq!(authorize_review_change(&user(OWNER), GUEST), Err(ErrorType::InsufficientPermission));
}

#[test]
fn languages_are_listed_by_code() {
    let language = |id: u128, code: &str, name: &str| Language {
        id,
        code: code.to_string(),
        name: name.to_string(),
    };
    let all = vec![
        language(1, "en", "English"),
        language(2, "bg", "Bulgarian"),
        language(3, "en", "English (UK)"),
    ];
    assert_eq!(get_all_languages(&all), vec![("bg".to_string(), 2), ("en".to_string(), 3)]);
    assert_eq!(get_all_languages(&vec![]), vec![]);
}
