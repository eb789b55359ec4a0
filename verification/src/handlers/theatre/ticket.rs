//! Querying, issuing, validating and marking the tickets of a theatre.

use vstd::prelude::*;
use crate::claims::JwtClaims;
use crate::error::{DatabaseError, ErrorType, QueryError, ValidationErrors};
use crate::forms::{page_size_allowed, NewTicketQuery, TicketQuery, ValidateTicketQuery};
use crate::handlers::{caller_spec, user_res_from_jwt};
use crate::ledger::{has_id, issuing_roles, page, ticket_wanted, TicketLedger};
use crate::model::{CreateTicket, FormTicket, Ticket, User};
use crate::permission::{authorize_any, authorize_spec, Combinator, Decision};
use crate::role::Role;
use crate::services::bridge_role::{holds_role, BridgeRoleService};
use crate::services::role::RoleService;
use crate::services::user::{TicketResource, UserService};
use crate::token::TokenCodec;

verus! {

/// What validating a presented ticket gives: the caller must be a user, and
/// then the ledger decides.
pub open spec fn validate_spec(
    ledger: TicketLedger,
    codec: TokenCodec,
    theatre_id: u128,
    ticket_jwt: Seq<char>,
    users: UserService,
    rs: RoleService,
    brs: BridgeRoleService,
    claims: JwtClaims,
    now: i64,
) -> Result<Ticket, ErrorType> {
    match caller_spec(claims, users) {
        Err(e) => Err(e),
        Ok(user) => ledger.redeem_spec(
            codec,
            ticket_jwt,
            user,
            theatre_id,
            rs.rows(),
            brs.grants(),
            now,
        ),
    }
}

/// Validates a presented ticket for the caller and hands it out.
pub fn validate_and_get(
    theatre_id: u128,
    query: &ValidateTicketQuery,
    user_service: &UserService,
    ledger: &TicketLedger,
    role_service: &RoleService,
    bridge_role_service: &BridgeRoleService,
    codec: &TokenCodec,
    claims: &JwtClaims,
    now: i64,
) -> (r: Result<(TicketResource, Ticket), ErrorType>)
    ensures
        match r {
            Ok(found) => validate_spec(
                *ledger,
                *codec,
                theatre_id,
                query.ticket_jwt@,
                *user_service,
                *role_service,
                *bridge_role_service,
                *claims,
                now,
            ) == Ok::<Ticket, ErrorType>(found.1) && found.0.ticket() == found.1,
            Err(e) => validate_spec(
                *ledger,
                *codec,
                theatre_id,
                query.ticket_jwt@,
                *user_service,
                *role_service,
                *bridge_role_service,
                *claims,
                now,
            ) == Err::<Ticket, ErrorType>(e),
        },
{
    let user = match user_res_from_jwt(claims, user_service) {
        Ok(found) => found.1,
        Err(e) => {
            return Err(e);
        },
    };
    match ledger.redeem(
        codec,
        query.ticket_jwt.as_str(),
        &user,
        theatre_id,
        bridge_role_service,
        role_service,
        now,
    ) {
        Ok(ticket) => Ok((TicketResource::new(ticket), ticket)),
        Err(e) => Err(e),
    }
}

/// Validates a presented ticket. Nothing is changed by it, so a scanner can
/// show a ticket without using it up.
pub fn validate(
    theatre_id: u128,
    query: &ValidateTicketQuery,
    user_service: &UserService,
    ledger: &TicketLedger,
    role_service: &RoleService,
    bridge_role_service: &BridgeRoleService,
    codec: &TokenCodec,
    claims: &JwtClaims,
    now: i64,
) -> (r: Result<Ticket, ErrorType>)
    ensures
        r == validate_spec(
            *ledger,
            *codec,
            theatre_id,
            query.ticket_jwt@,
            *user_service,
            *role_service,
            *bridge_role_service,
            *claims,
            now,
        ),
{
    match validate_and_get(
        theatre_id,
        query,
        user_service,
        ledger,
        role_service,
        bridge_role_service,
        codec,
        claims,
        now,
    ) {
        Ok(found) => Ok(found.1),
        Err(e) => Err(e),
    }
}

/// Validates a presented ticket and, if it is valid, sets its `used` flag to
/// `state`. A ticket that is not valid is left as it is.
pub fn validate_and_mark(
    theatre_id: u128,
    state: bool,
    query: &ValidateTicketQuery,
    user_service: &UserService,
    ledger: &mut TicketLedger,
    role_service: &RoleService,
    bridge_role_service: &BridgeRoleService,
    codec: &TokenCodec,
    claims: &JwtClaims,
    now: i64,
) -> (r: Result<(), ErrorType>)
    ensures
        final(ledger).screenings() == old(ledger).screenings(),
        final(ledger).tickets().len() == old(ledger).tickets().len(),
        match validate_spec(
            *old(ledger),
            *codec,
            theatre_id,
            query.ticket_jwt@,
            *user_service,
            *role_service,
            *bridge_role_service,
            *claims,
            now,
        ) {
            Ok(ticket) => r is Ok && forall|i: int|
                0 <= i < old(ledger).tickets().len() ==> #[trigger] final(ledger).tickets()[i] == (
                if old(ledger).tickets()[i].id == ticket.id {
                    old(ledger).tickets()[i].marked(state)
                } else {
                    old(ledger).tickets()[i]
                }),
            Err(e) => r == Err::<(), ErrorType>(e) && final(ledger).tickets() == old(ledger).tickets(),
        },
{
    let found = validate_and_get(
        theatre_id,
        query,
        user_service,
        ledger,
        role_service,
        bridge_role_service,
        codec,
        claims,
        now,
    );
    match found {
        Ok(found) => {
            let mut ticket_res = found.0;
            if state {
                ticket_res.mark_as_used();
            } else {
                ticket_res.mark_as_unused();
            }
            ledger.mark(found.1.id, state);
            Ok(())
        },
        Err(e) => Err(e),
    }
}

/// The roles of which one is needed to look through the tickets of a theatre.
pub open spec fn managing_roles() -> Seq<Role> {
    seq![Role::TheatreOwner, Role::TicketManager]
}

/// What a search through the tickets of a theatre gives: the query must meet
/// its rules, the caller must be a user, the theatre must be there, and the
/// caller must be allowed to manage tickets in it.
pub open spec fn query_tickets_spec(
    theatre_id: u128,
    theatre_found: bool,
    query: TicketQuery,
    users: UserService,
    ledger: TicketLedger,
    rs: RoleService,
    brs: BridgeRoleService,
    claims: JwtClaims,
) -> Result<Seq<Ticket>, ErrorType> {
    if !page_size_allowed(query.limit) {
        Err(ErrorType::Validation(
            ValidationErrors { limit: true, ..ValidationErrors::none() },
        ))
    } else {
        match caller_spec(claims, users) {
            Err(e) => Err(e),
            Ok(user) => if !theatre_found {
                Err(ErrorType::NotFound)
            } else if authorize_spec(
                Combinator::Any,
                user,
                theatre_id,
                managing_roles(),
                rs.rows(),
                brs.grants(),
            ) != Decision::Allowed {
                Err(ErrorType::InsufficientPermission)
            } else if query.offset < 0 {
                Err(ErrorType::Database(
                    DatabaseError::Query(QueryError::Other),
                ))
            } else {
                Ok(
                    page(
                        ledger.tickets().filter(
                            |t: Ticket| ticket_wanted(ledger.screenings(), theatre_id, query, t),
                        ),
                        query.offset as int,
                        query.limit as int,
                    ),
                )
            },
        }
    }
}

/// Searches through the tickets of a theatre.
pub fn query_tickets(
    theatre_id: u128,
    theatre_found: bool,
    query: &TicketQuery,
    user_service: &UserService,
    ledger: &TicketLedger,
    role_service: &RoleService,
    bridge_role_service: &BridgeRoleService,
    claims: &JwtClaims,
) -> (r: Result<Vec<Ticket>, ErrorType>)
    ensures
        match r {
            Ok(rows) => query_tickets_spec(
                theatre_id,
                theatre_found,
                *query,
                *user_service,
                *ledger,
                *role_service,
                *bridge_role_service,
                *claims,
            ) == Ok::<Seq<Ticket>, ErrorType>(rows@),
            Err(e) => query_tickets_spec(
                theatre_id,
                theatre_found,
                *query,
                *user_service,
                *ledger,
                *role_service,
                *bridge_role_service,
                *claims,
            ) == Err::<Seq<Ticket>, ErrorType>(e),
        },
{
    match query.validate() {
        Err(errors) => {
            return Err(ErrorType::Validation(errors));
        },
        Ok(_) => {},
    }
    let user = match user_res_from_jwt(claims, user_service) {
        Ok(found) => found.1,
        Err(e) => {
            return Err(e);
        },
    };
    if !theatre_found {
        return Err(ErrorType::NotFound);
    }
    let required = vec![Role::TheatreOwner, Role::TicketManager];
    assert(required@ == managing_roles());
    match authorize_any(&user, theatre_id, required.as_slice(), bridge_role_service, role_service) {
        Decision::Forbidden => {
            return Err(ErrorType::InsufficientPermission);
        },
        Decision::Allowed => {},
    }
    match ledger.query_tickets(theatre_id, query) {
        Ok(rows) => Ok(rows),
        Err(e) => Err(ErrorType::Database(e)),
    }
}

/// Which ticket a request for a ticket stores: the caller must be a user, and
/// then the ledger decides.
pub open spec fn create_ticket_spec(
    theatre_id: u128,
    query: NewTicketQuery,
    new_ticket: FormTicket,
    users: UserService,
    ledger: TicketLedger,
    rs: RoleService,
    brs: BridgeRoleService,
    claims: JwtClaims,
) -> Result<CreateTicket, ErrorType> {
    match caller_spec(claims, users) {
        Err(e) => Err(e),
        Ok(issuer) => ledger.issue_spec(
            issuer,
            query.owner_id,
            theatre_id,
            new_ticket,
            users,
            rs.rows(),
            brs.grants(),
        ),
    }
}

/// What a request for a ticket comes to: who may have which ticket is decided
/// first; then the ticket, stored under the identifier `id`, unused, issued at
/// `now` and expiring at `expires_at`, must be one that the ledger takes: it
/// must not expire before it is issued, and its identifier must not be taken.
pub open spec fn create_ticket_outcome(
    theatre_id: u128,
    query: NewTicketQuery,
    new_ticket: FormTicket,
    users: UserService,
    ledger: TicketLedger,
    rs: RoleService,
    brs: BridgeRoleService,
    claims: JwtClaims,
    id: u128,
    now: i64,
    expires_at: i64,
) -> Result<Ticket, ErrorType> {
    match create_ticket_spec(theatre_id, query, new_ticket, users, ledger, rs, brs, claims) {
        Err(e) => Err(e),
        Ok(granted) => {
            let ticket = Ticket::stored_spec(granted, id, now, expires_at);
            match TicketLedger::record_refusal(ledger.tickets(), ticket) {
                Some(e) => Err(e),
                None => Ok(ticket),
            }
        },
    }
}

/// Issues a ticket at the time `now`. A ticket that is issued is entered
/// into the ledger behind all others, which stay as they are; a request that
/// is turned down changes nothing.
pub fn create_ticket(
    theatre_id: u128,
    query: &NewTicketQuery,
    new_ticket: &FormTicket,
    user_service: &UserService,
    ledger: &mut TicketLedger,
    role_service: &RoleService,
    bridge_role_service: &BridgeRoleService,
    claims: &JwtClaims,
    id: u128,
    now: i64,
    expires_at: i64,
) -> (r: Result<Ticket, ErrorType>)
    ensures
        r == create_ticket_outcome(
            theatre_id,
            *query,
            *new_ticket,
            *user_service,
            *old(ledger),
            *role_service,
            *bridge_role_service,
            *claims,
            id,
            now,
            expires_at,
        ),
        final(ledger).screenings() == old(ledger).screenings(),
        match r {
            Ok(ticket) => final(ledger).tickets() == old(ledger).tickets().push(ticket),
            Err(_) => final(ledger).tickets() == old(ledger).tickets(),
        },
{
    let issuer = match user_res_from_jwt(claims, user_service) {
        Ok(found) => found.1,
        Err(e) => {
            return Err(e);
        },
    };
    let granted = match ledger.issue(
        &issuer,
        query.owner_id,
        theatre_id,
        new_ticket,
        user_service,
        bridge_role_service,
        role_service,
    ) {
        Ok(granted) => granted,
        Err(e) => {
            return Err(e);
        },
    };
    if expires_at < now {
        return Err(ErrorType::ServerError);
    }
    let ticket = Ticket::stored(&granted, id, now, expires_at);
    match ledger.record(ticket) {
        Ok(_) => Ok(ticket),
        Err(e) => Err(e),
    }
}

/// A ticket that is issued is new: it is stored under an identifier that no
/// ticket of the ledger had, unused, issued at `now`, and it expires no
/// earlier than it was issued.
pub proof fn law_issued_ticket_is_new(
    theatre_id: u128,
    query: NewTicketQuery,
    new_ticket: FormTicket,
    users: UserService,
    ledger: TicketLedger,
    rs: RoleService,
    brs: BridgeRoleService,
    claims: JwtClaims,
    id: u128,
    now: i64,
    expires_at: i64,
    ticket: Ticket,
)
    requires
        create_ticket_outcome(
            theatre_id,
            query,
            new_ticket,
            users,
            ledger,
            rs,
            brs,
            claims,
            id,
            now,
            expires_at,
        ) == Ok::<Ticket, ErrorType>(ticket),
    ensures
        ticket.id == id,
        !has_id(ledger.tickets(), id),
        forall|i: int| 0 <= i < ledger.tickets().len() ==> (#[trigger] ledger.tickets()[i]).id != ticket.id,
        !ticket.used,
        ticket.issued_at == now,
        ticket.expires_at == expires_at,
        ticket.expires_at >= ticket.issued_at,
        ticket.theatre_screening_id == new_ticket.theatre_screening_id,
{
}

/// Who holds the ticket manager's role in a theatre issues a ticket to
/// another user however many tickets that user or anybody owns: the request
/// is granted wherever the other user is there and the ledger takes the
/// ticket, and the ticket is the other user's, issued by the caller.
pub proof fn law_manager_issues_past_the_cap(
    theatre_id: u128,
    owner: u128,
    new_ticket: FormTicket,
    users: UserService,
    ledger: TicketLedger,
    rs: RoleService,
    brs: BridgeRoleService,
    claims: JwtClaims,
    staff: User,
    id: u128,
    now: i64,
    expires_at: i64,
)
    requires
        caller_spec(claims, users) == Ok::<User, ErrorType>(staff),
        holds_role(rs.rows(), brs.grants(), staff.id, theatre_id, Role::TicketManager),
        owner != staff.id,
        users.found_by_id(owner) is Some,
        expires_at >= now,
        !has_id(ledger.tickets(), id),
    ensures
        create_ticket_outcome(
            theatre_id,
            NewTicketQuery { owner_id: Some(owner) },
            new_ticket,
            users,
            ledger,
            rs,
            brs,
            claims,
            id,
            now,
            expires_at,
        ) == Ok::<Ticket, ErrorType>(
            Ticket::stored_spec(
                CreateTicket::of_form(new_ticket, owner, staff.id),
                id,
                now,
                expires_at,
            ),
        ),
{
    let required = issuing_roles();
    assert(required[1] == Role::TicketManager);
    assert(holds_role(rs.rows(), brs.grants(), staff.id, theatre_id, required[1]));
}

} // verus!
