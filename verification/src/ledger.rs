//! The ticket ledger: issuing tickets, redeeming them, and marking them used.
//!
//! A ticket is either unused or used, and can go from each state to the
//! other any number of times. Tickets are never taken out of the ledger.

use vstd::prelude::*;
use crate::claims::{JwtClaims, JwtType, TokenKind};
use crate::error::{DatabaseError, ErrorType, QueryError, TokenError};
use crate::forms::TicketQuery;
use crate::model::{CreateTicket, FormTicket, TheatreRole, TheatreScreening, Ticket, User};
use crate::model::UserTheatreRole;
use crate::permission::{authorize_any, authorize_spec, Combinator, Decision};
use crate::role::Role;
use crate::services::bridge_role::BridgeRoleService;
use crate::services::role::RoleService;
use crate::services::user::{TicketResource, UserService};
use crate::table::{first_where, lemma_filter_none, lemma_filter_step, lemma_first_where_skip};
use crate::token::{law_expiry, TokenCodec};

verus! {

/// How many tickets for one screening a user may own before they can issue
/// themself no more.
pub const SELF_ISSUE_LIMIT: usize = 3;

/// The tickets and the screenings that they are for.
pub struct TicketLedger {
    tickets: Vec<Ticket>,
    screenings: Vec<TheatreScreening>,
}

/// The roles of which one is needed to issue a ticket to somebody else.
pub open spec fn issuing_roles() -> Seq<Role> {
    seq![Role::TheatreOwner, Role::TicketManager]
}

/// The roles of which one is needed to redeem a ticket.
pub open spec fn checking_roles() -> Seq<Role> {
    seq![Role::TheatreOwner, Role::TicketChecker]
}

/// The first screening with the given identifier.
pub open spec fn screening_with_id(screenings: Seq<TheatreScreening>, id: u128) -> Option<
    TheatreScreening,
> {
    first_where(screenings, |s: TheatreScreening| s.id == id)
}

/// Whether the ticket is for a screening of the theatre.
pub open spec fn in_theatre(screenings: Seq<TheatreScreening>, ticket: Ticket, tid: u128) -> bool {
    match screening_with_id(screenings, ticket.theatre_screening_id) {
        Some(screening) => screening.theatre_id == tid,
        None => false,
    }
}

/// Whether the ticket is one that the query asks for: it is for a screening of
/// the theatre, and it matches every filter that the query gives.
pub open spec fn ticket_wanted(
    screenings: Seq<TheatreScreening>,
    tid: u128,
    query: TicketQuery,
    ticket: Ticket,
) -> bool {
    match screening_with_id(screenings, ticket.theatre_screening_id) {
        None => false,
        Some(screening) => {
            &&& screening.theatre_id == tid
            &&& query.owner_id matches Some(owner) ==> ticket.owner_user_id == owner
            &&& query.screening_id matches Some(s) ==> ticket.theatre_screening_id == s
            &&& query.ticket_type_id matches Some(t) ==> ticket.ticket_type_id == t
            &&& query.issuer_id matches Some(i) ==> ticket.issuer_user_id == i
            &&& query.hall_id matches Some(h) ==> screening.hall_id == h
            &&& query.movie_id matches Some(m) ==> screening.movie_id == m
        },
    }
}

/// The rows of a page: `offset` rows are passed over, at most `limit` rows
/// follow.
pub open spec fn page<T>(rows: Seq<T>, offset: int, limit: int) -> Seq<T>
    recommends
        0 <= offset,
        0 <= limit,
{
    let from = if offset < rows.len() {
        offset
    } else {
        rows.len() as int
    };
    let to = if offset + limit < rows.len() {
        offset + limit
    } else {
        rows.len() as int
    };
    rows.subrange(from, to)
}

/// Whether one of the tickets has the identifier.
pub open spec fn has_id(tickets: Seq<Ticket>, id: u128) -> bool {
    exists|i: int| 0 <= i < tickets.len() && (#[trigger] tickets[i]).id == id
}

/// Whether no identifier is that of two tickets.
pub open spec fn ids_distinct(tickets: Seq<Ticket>) -> bool {
    forall|i: int, j: int|
        0 <= i < tickets.len() && 0 <= j < tickets.len() && i != j ==> (#[trigger] tickets[i]).id
            != (#[trigger] tickets[j]).id
}

/// What a ledger stands on: every ticket expires no earlier than it was
/// issued, and no identifier is that of two tickets.
pub open spec fn sound(tickets: Seq<Ticket>) -> bool {
    &&& forall|i: int| 0 <= i < tickets.len() ==> (#[trigger] tickets[i]).well_formed()
    &&& ids_distinct(tickets)
}

/// Whether one of the first `upto` tickets has the identifier.
fn id_among(tickets: &Vec<Ticket>, upto: usize, id: u128) -> (r: bool)
    requires
        upto <= tickets.len(),
    ensures
        r == has_id(tickets@.subrange(0, upto as int), id),
{
    let mut j: usize = 0;
    while j < upto
        invariant
            j <= upto <= tickets.len(),
            forall|k: int| 0 <= k < j ==> (#[trigger] tickets@[k]).id != id,
        decreases upto - j,
    {
        if tickets[j].id == id {
            assert(tickets@.subrange(0, upto as int)[j as int].id == id);
            return true;
        }
        j += 1;
    }
    assert forall|k: int| 0 <= k < upto implies (#[trigger] tickets@.subrange(
        0,
        upto as int,
    )[k]).id != id by {
        assert(tickets@[k].id != id);
    }
    false
}

impl TicketLedger {
    #[verifier::type_invariant]
    spec fn tickets_sound(self) -> bool {
        sound(self.tickets@)
    }

    /// The ledger with the given rows. A ticket that expires before it was
    /// issued, and two tickets under one identifier, break what the ledger
    /// stands on, and no ledger is made of them.
    pub fn new(tickets: Vec<Ticket>, screenings: Vec<TheatreScreening>) -> (r: Result<
        TicketLedger,
        ErrorType,
    >)
        ensures
            match r {
                Ok(ledger) => {
                    &&& ledger.tickets() == tickets@
                    &&& ledger.screenings() == screenings@
                    &&& sound(tickets@)
                },
                Err(e) => e == ErrorType::ServerError && !sound(tickets@),
            },
    {
        let mut i: usize = 0;
        while i < tickets.len()
            invariant
                i <= tickets.len(),
                sound(tickets@.subrange(0, i as int)),
            decreases tickets.len() - i,
        {
            if tickets[i].expires_at < tickets[i].issued_at {
                return Err(ErrorType::ServerError);
            }
            if id_among(&tickets, i, tickets[i].id) {
                proof {
                    let head = tickets@.subrange(0, i as int);
                    let j = choose|j: int| 0 <= j < head.len() && (#[trigger] head[j]).id
                        == tickets@[i as int].id;
                    assert(tickets@[j] == head[j]);
                    assert(tickets@[j].id == tickets@[i as int].id);
                }
                return Err(ErrorType::ServerError);
            }
            proof {
                let head = tickets@.subrange(0, i as int);
                let next = tickets@.subrange(0, i + 1);
                assert forall|a: int| 0 <= a < next.len() implies (#[trigger] next[a]).well_formed() by {
                    if a < i {
                        assert(head[a].well_formed());
                    }
                }
                assert forall|a: int, b: int|
                    0 <= a < next.len() && 0 <= b < next.len() && a != b implies (#[trigger] next[a]).id
                    != (#[trigger] next[b]).id by {
                    if a < i && b < i {
                        assert(head[a].id != head[b].id);
                    } else if a < i {
                        assert(head[a].id != tickets@[i as int].id);
                    } else {
                        assert(head[b].id != tickets@[i as int].id);
                    }
                }
            }
            i += 1;
        }
        assert(tickets@.subrange(0, tickets@.len() as int) == tickets@);
        Ok(TicketLedger { tickets, screenings })
    }

    /// How many tickets the ledger holds. Each is counted under an identifier
    /// of its own.
    pub fn len(&self) -> (n: usize)
        ensures
            n == self.tickets().len(),
            sound(self.tickets()),
    {
        proof {
            use_type_invariant(self);
        }
        self.tickets.len()
    }

    /// The tickets, in the order in which they were issued.
    pub closed spec fn tickets(&self) -> Seq<Ticket> {
        self.tickets@
    }

    /// The screenings.
    pub closed spec fn screenings(&self) -> Seq<TheatreScreening> {
        self.screenings@
    }

    /// The tickets that the user owns for the screening.
    pub open spec fn owned(&self, owner: u128, screening: u128) -> Seq<Ticket> {
        self.tickets().filter(
            |t: Ticket| t.owner_user_id == owner && t.theatre_screening_id == screening,
        )
    }

    /// The ticket with the given identifier, if it is for a screening of the
    /// theatre.
    pub open spec fn found_in_theatre(&self, tid: u128, ticket_id: u128) -> Option<Ticket> {
        first_where(
            self.tickets(),
            |t: Ticket| t.id == ticket_id && in_theatre(self.screenings(), t, tid),
        )
    }

    /// What a request for a ticket leads to. A ticket for somebody else can be
    /// issued by a superuser and by who holds one of the [`issuing_roles`] in
    /// the theatre, to a user that exists; such a ticket is not counted
    /// against anybody. A ticket for oneself is refused once one owns
    /// [`SELF_ISSUE_LIMIT`] tickets for the screening.
    pub open spec fn issue_spec(
        &self,
        issuer: User,
        owner_id: Option<u128>,
        tid: u128,
        form: FormTicket,
        users: UserService,
        roles: Seq<TheatreRole>,
        grants: Seq<UserTheatreRole>,
    ) -> Result<CreateTicket, ErrorType> {
        if owner_id is Some && owner_id != Some(issuer.id) {
            let owner = owner_id.unwrap();
            if authorize_spec(Combinator::Any, issuer, tid, issuing_roles(), roles, grants)
                != Decision::Allowed {
                Err(ErrorType::InsufficientPermission)
            } else if users.found_by_id(owner) is None {
                Err(ErrorType::NotFound)
            } else {
                Ok(CreateTicket::of_form(form, owner, issuer.id))
            }
        } else if self.owned(issuer.id, form.theatre_screening_id).len() >= SELF_ISSUE_LIMIT {
            Err(ErrorType::InsufficientPermission)
        } else {
            Ok(CreateTicket::of_form(form, issuer.id, issuer.id))
        }
    }

    /// What presenting a redemption token leads to: the token is verified
    /// first; then the ticket must be one of the theatre; then the acting user
    /// must be allowed to check tickets there; and then the ticket must not
    /// have expired.
    pub open spec fn redeem_spec(
        &self,
        codec: TokenCodec,
        token: Seq<char>,
        acting_user: User,
        tid: u128,
        roles: Seq<TheatreRole>,
        grants: Seq<UserTheatreRole>,
        now: i64,
    ) -> Result<Ticket, ErrorType> {
        match codec.verify_spec(TokenKind::TicketRedemption, token, now) {
            Err(e) => Err(ErrorType::of_token_error(e)),
            Ok(claims) => match self.found_in_theatre(tid, claims.dat.id_spec()) {
                None => Err(ErrorType::NotFound),
                Some(ticket) => if authorize_spec(
                    Combinator::Any,
                    acting_user,
                    tid,
                    checking_roles(),
                    roles,
                    grants,
                ) != Decision::Allowed {
                    Err(ErrorType::InsufficientPermission)
                } else if now > ticket.expires_at {
                    Err(ErrorType::Expired)
                } else {
                    Ok(ticket)
                },
            },
        }
    }

    fn screening_of(&self, id: u128) -> (r: Option<TheatreScreening>)
        ensures
            r == screening_with_id(self.screenings(), id),
    {
        let ghost wanted = |s: TheatreScreening| s.id == id;
        let mut i: usize = 0;
        assert(self.screenings@.subrange(0, self.screenings@.len() as int) == self.screenings@);
        while i < self.screenings.len()
            invariant
                i <= self.screenings.len(),
                wanted == (|s: TheatreScreening| s.id == id),
                first_where(self.screenings@, wanted) == first_where(
                    self.screenings@.subrange(i as int, self.screenings@.len() as int),
                    wanted,
                ),
            decreases self.screenings.len() - i,
        {
            if self.screenings[i].id == id {
                return Some(self.screenings[i]);
            }
            proof {
                lemma_first_where_skip(self.screenings@, wanted, i as int);
            }
            i += 1;
        }
        None
    }

    fn is_in_theatre(&self, ticket: &Ticket, tid: u128) -> (r: bool)
        ensures
            r == in_theatre(self.screenings(), *ticket, tid),
    {
        match self.screening_of(ticket.theatre_screening_id) {
            Some(screening) => screening.theatre_id == tid,
            None => false,
        }
    }

    fn is_wanted(&self, tid: u128, query: &TicketQuery, ticket: &Ticket) -> (r: bool)
        ensures
            r == ticket_wanted(self.screenings(), tid, *query, *ticket),
    {
        match self.screening_of(ticket.theatre_screening_id) {
            None => false,
            Some(screening) => {
                let owner_ok = match query.owner_id {
                    Some(owner) => ticket.owner_user_id == owner,
                    None => true,
                };
                let screening_ok = match query.screening_id {
                    Some(s) => ticket.theatre_screening_id == s,
                    None => true,
                };
                let type_ok = match query.ticket_type_id {
                    Some(t) => ticket.ticket_type_id == t,
                    None => true,
                };
                let issuer_ok = match query.issuer_id {
                    Some(i) => ticket.issuer_user_id == i,
                    None => true,
                };
                let hall_ok = match query.hall_id {
                    Some(h) => screening.hall_id == h,
                    None => true,
                };
                let movie_ok = match query.movie_id {
                    Some(m) => screening.movie_id == m,
                    None => true,
                };
                screening.theatre_id == tid && owner_ok && screening_ok && type_ok && issuer_ok
                    && hall_ok && movie_ok
            },
        }
    }

    /// The tickets that the user owns, in the order in which they were
    /// issued.
    pub fn get_tickets(&self, owner: u128) -> (r: Vec<Ticket>)
        ensures
            r@ == self.tickets().filter(|t: Ticket| t.owner_user_id == owner),
    {
        let ghost wanted = |t: Ticket| t.owner_user_id == owner;
        let mut found: Vec<Ticket> = Vec::new();
        let mut i: usize = 0;
        proof {
            lemma_filter_none(self.tickets@, wanted);
        }
        while i < self.tickets.len()
            invariant
                i <= self.tickets.len(),
                wanted == (|t: Ticket| t.owner_user_id == owner),
                found@ == self.tickets@.subrange(0, i as int).filter(wanted),
            decreases self.tickets.len() - i,
        {
            proof {
                lemma_filter_step(self.tickets@, wanted, i as int);
            }
            if self.tickets[i].owner_user_id == owner {
                found.push(self.tickets[i]);
            }
            i += 1;
        }
        assert(self.tickets@.subrange(0, self.tickets@.len() as int) == self.tickets@);
        found
    }

    /// How many tickets the user owns for the screening.
    pub fn get_tickets_count(&self, owner: u128, screening: u128) -> (r: usize)
        ensures
            r == self.owned(owner, screening).len(),
    {
        let ghost wanted = |t: Ticket| t.owner_user_id == owner && t.theatre_screening_id
            == screening;
        let mut count: usize = 0;
        let mut i: usize = 0;
        proof {
            lemma_filter_none(self.tickets@, wanted);
        }
        while i < self.tickets.len()
            invariant
                i <= self.tickets.len(),
                count <= i,
                wanted == (|t: Ticket|
                    t.owner_user_id == owner && t.theatre_screening_id == screening),
                count == self.tickets@.subrange(0, i as int).filter(wanted).len(),
            decreases self.tickets.len() - i,
        {
            proof {
                lemma_filter_step(self.tickets@, wanted, i as int);
            }
            if self.tickets[i].owner_user_id == owner && self.tickets[i].theatre_screening_id
                == screening {
                count += 1;
            }
            i += 1;
        }
        assert(self.tickets@.subrange(0, self.tickets@.len() as int) == self.tickets@);
        count
    }

    /// The ticket with the given identifier, if it is for a screening of the
    /// theatre.
    pub fn get_ticket_by_id(&self, tid: u128, ticket_id: u128) -> (r: Option<Ticket>)
        ensures
            r == self.found_in_theatre(tid, ticket_id),
            r matches Some(ticket) ==> ticket.well_formed() && ticket.id == ticket_id,
    {
        proof {
            use_type_invariant(self);
        }
        let ghost wanted = |t: Ticket| t.id == ticket_id && in_theatre(self.screenings(), t, tid);
        let mut i: usize = 0;
        assert(self.tickets@.subrange(0, self.tickets@.len() as int) == self.tickets@);
        while i < self.tickets.len()
            invariant
                i <= self.tickets.len(),
                wanted == (|t: Ticket| t.id == ticket_id && in_theatre(self.screenings(), t, tid)),
                first_where(self.tickets@, wanted) == first_where(
                    self.tickets@.subrange(i as int, self.tickets@.len() as int),
                    wanted,
                ),
                forall|j: int|
                    0 <= j < self.tickets@.len() ==> (#[trigger] self.tickets@[j]).well_formed(),
            decreases self.tickets.len() - i,
        {
            if self.tickets[i].id == ticket_id && self.is_in_theatre(&self.tickets[i], tid) {
                return Some(self.tickets[i]);
            }
            proof {
                lemma_first_where_skip(self.tickets@, wanted, i as int);
            }
            i += 1;
        }
        None
    }

    /// One page of the tickets of the theatre that match the query, in the
    /// order in which they were issued. An offset or a page size below zero
    /// is refused as a failed statement.
    pub fn query_tickets(&self, tid: u128, tquery: &TicketQuery) -> (r: Result<
        Vec<Ticket>,
        DatabaseError,
    >)
        ensures
            match r {
                Ok(rows) => tquery.offset >= 0 && tquery.limit >= 0 && rows@ == page(
                    self.tickets().filter(
                        |t: Ticket| ticket_wanted(self.screenings(), tid, *tquery, t),
                    ),
                    tquery.offset as int,
                    tquery.limit as int,
                ),
                Err(e) => (tquery.offset < 0 || tquery.limit < 0) && e == DatabaseError::Query(
                    QueryError::Other,
                ),
            },
    {
        if tquery.offset < 0 || tquery.limit < 0 {
            return Err(DatabaseError::Query(QueryError::Other));
        }
        let ghost wanted = |t: Ticket| ticket_wanted(self.screenings(), tid, *tquery, t);
        let mut matching: Vec<Ticket> = Vec::new();
        let mut i: usize = 0;
        proof {
            lemma_filter_none(self.tickets@, wanted);
        }
        while i < self.tickets.len()
            invariant
                i <= self.tickets.len(),
                wanted == (|t: Ticket| ticket_wanted(self.screenings(), tid, *tquery, t)),
                matching@ == self.tickets@.subrange(0, i as int).filter(wanted),
            decreases self.tickets.len() - i,
        {
            proof {
                lemma_filter_step(self.tickets@, wanted, i as int);
            }
            if self.is_wanted(tid, tquery, &self.tickets[i]) {
                matching.push(self.tickets[i]);
            }
            i += 1;
        }
        assert(self.tickets@.subrange(0, self.tickets@.len() as int) == self.tickets@);
        let total = matching.len();
        let from: usize = if (tquery.offset as u64) < (total as u64) {
            tquery.offset as usize
        } else {
            total
        };
        let room: usize = total - from;
        let to: usize = if (tquery.limit as u64) < (room as u64) {
            from + (tquery.limit as usize)
        } else {
            total
        };
        let mut rows: Vec<Ticket> = Vec::new();
        let mut k: usize = from;
        while k < to
            invariant
                from <= k <= to <= matching.len(),
                rows@ == matching@.subrange(from as int, k as int),
            decreases to - k,
        {
            rows.push(matching[k]);
            k += 1;
        }
        Ok(rows)
    }

    /// Decides on a request for a ticket and, where it is granted, says which
    /// ticket is to be stored.
    pub fn issue(
        &self,
        issuer: &User,
        owner_id: Option<u128>,
        tid: u128,
        new_ticket: &FormTicket,
        user_service: &UserService,
        brs: &BridgeRoleService,
        rs: &RoleService,
    ) -> (r: Result<CreateTicket, ErrorType>)
        ensures
            r == self.issue_spec(
                *issuer,
                owner_id,
                tid,
                *new_ticket,
                *user_service,
                rs.rows(),
                brs.grants(),
            ),
    {
        let to_other = match owner_id {
            Some(owner) => owner != issuer.id,
            None => false,
        };
        if to_other {
            let owner = owner_id.unwrap();
            let required = vec![Role::TheatreOwner, Role::TicketManager];
            assert(required@ == issuing_roles());
            match authorize_any(issuer, tid, required.as_slice(), brs, rs) {
                Decision::Forbidden => Err(ErrorType::InsufficientPermission),
                Decision::Allowed => {
                    if user_service.get_by_id(owner).is_none() {
                        Err(ErrorType::NotFound)
                    } else {
                        Ok(CreateTicket::from_form(new_ticket, owner, issuer.id))
                    }
                },
            }
        } else {
            let owned = self.get_tickets_count(issuer.id, new_ticket.theatre_screening_id);
            if owned >= SELF_ISSUE_LIMIT {
                Err(ErrorType::InsufficientPermission)
            } else {
                Ok(CreateTicket::from_form(new_ticket, issuer.id, issuer.id))
            }
        }
    }

    /// What entering a ticket into a ledger with the given tickets comes to: a
    /// ticket that expires before it was issued is the server's trouble; a
    /// ticket under an identifier that is taken is a failed statement; any
    /// other ticket is entered.
    pub open spec fn record_refusal(tickets: Seq<Ticket>, ticket: Ticket) -> Option<ErrorType> {
        if !ticket.well_formed() {
            Some(ErrorType::ServerError)
        } else if has_id(tickets, ticket.id) {
            Some(ErrorType::Database(DatabaseError::Query(QueryError::Other)))
        } else {
            None
        }
    }

    /// Enters a stored ticket into the ledger, behind all others. A ticket
    /// that is refused leaves the ledger as it was.
    pub fn record(&mut self, ticket: Ticket) -> (r: Result<(), ErrorType>)
        ensures
            final(self).screenings() == old(self).screenings(),
            sound(final(self).tickets()),
            match r {
                Ok(_) => TicketLedger::record_refusal(old(self).tickets(), ticket) is None && final(self).tickets() == old(self).tickets().push(ticket),
                Err(e) => TicketLedger::record_refusal(old(self).tickets(), ticket) == Some(e)
                    && final(self).tickets() == old(self).tickets(),
            },
    {
        proof {
            use_type_invariant(&*self);
        }
        if ticket.expires_at < ticket.issued_at {
            return Err(ErrorType::ServerError);
        }
        assert(self.tickets@.subrange(0, self.tickets@.len() as int) == self.tickets@);
        if id_among(&self.tickets, self.tickets.len(), ticket.id) {
            return Err(ErrorType::Database(DatabaseError::Query(QueryError::Other)));
        }
        let mut all: Vec<Ticket> = Vec::new();
        let mut k: usize = 0;
        while k < self.tickets.len()
            invariant
                k <= self.tickets.len(),
                all@ == self.tickets@.subrange(0, k as int),
            decreases self.tickets.len() - k,
        {
            all.push(self.tickets[k]);
            k += 1;
        }
        assert(all@ == self.tickets@);
        all.push(ticket);
        proof {
            let before = self.tickets@;
            assert forall|a: int| 0 <= a < all@.len() implies (#[trigger] all@[a]).well_formed() by {
                if a < before.len() {
                    assert(before[a].well_formed());
                }
            }
            assert forall|a: int, b: int|
                0 <= a < all@.len() && 0 <= b < all@.len() && a != b implies (#[trigger] all@[a]).id
                != (#[trigger] all@[b]).id by {
                if a < before.len() && b < before.len() {
                    assert(before[a].id != before[b].id);
                } else if a < before.len() {
                    assert(before[a].id != ticket.id);
                } else {
                    assert(before[b].id != ticket.id);
                }
            }
        }
        self.tickets = all;
        Ok(())
    }

    /// Decides what presenting a redemption token at the time `now` leads to.
    /// Nothing is changed by it.
    pub fn redeem(
        &self,
        codec: &TokenCodec,
        token: &str,
        acting_user: &User,
        tid: u128,
        brs: &BridgeRoleService,
        rs: &RoleService,
        now: i64,
    ) -> (r: Result<Ticket, ErrorType>)
        ensures
            r == self.redeem_spec(
                *codec,
                token@,
                *acting_user,
                tid,
                rs.rows(),
                brs.grants(),
                now,
            ),
            r matches Ok(ticket) ==> ticket.redeemable_at(now) && ticket.well_formed(),
    {
        let claims = match codec.verify_at(TokenKind::TicketRedemption, token, now) {
            Ok(claims) => claims,
            Err(e) => {
                return Err(ErrorType::from(e));
            },
        };
        let ticket = match self.get_ticket_by_id(tid, claims.dat.id()) {
            Some(ticket) => ticket,
            None => {
                return Err(ErrorType::NotFound);
            },
        };
        let required = vec![Role::TheatreOwner, Role::TicketChecker];
        assert(required@ == checking_roles());
        match authorize_any(acting_user, tid, required.as_slice(), brs, rs) {
            Decision::Forbidden => Err(ErrorType::InsufficientPermission),
            Decision::Allowed => {
                if now > ticket.expires_at {
                    Err(ErrorType::Expired)
                } else {
                    Ok(ticket)
                }
            },
        }
    }

    /// Sets the `used` flag of the ticket with the given identifier. What the
    /// flag was before does not matter; no other ticket changes and none is
    /// removed.
    pub fn mark(&mut self, ticket_id: u128, used: bool)
        ensures
            final(self).screenings() == old(self).screenings(),
            final(self).tickets().len() == old(self).tickets().len(),
            sound(final(self).tickets()),
            forall|i: int|
                0 <= i < old(self).tickets().len() ==> #[trigger] final(self).tickets()[i] == (
                if old(self).tickets()[i].id == ticket_id {
                    old(self).tickets()[i].marked(used)
                } else {
                    old(self).tickets()[i]
                }),
    {
        proof {
            use_type_invariant(&*self);
        }
        let mut all: Vec<Ticket> = Vec::new();
        let mut i: usize = 0;
        while i < self.tickets.len()
            invariant
                i <= self.tickets.len(),
                all@.len() == i,
                sound(self.tickets@),
                forall|j: int|
                    0 <= j < i ==> #[trigger] all@[j] == (if self.tickets@[j].id == ticket_id {
                        self.tickets@[j].marked(used)
                    } else {
                        self.tickets@[j]
                    }),
            decreases self.tickets.len() - i,
        {
            let mut ticket = self.tickets[i];
            if ticket.id == ticket_id {
                ticket.mark(used);
            }
            all.push(ticket);
            i += 1;
        }
        assert forall|j: int| 0 <= j < all@.len() implies (#[trigger] all@[j]).well_formed() by {
            assert(self.tickets@[j].well_formed());
        }
        assert forall|a: int, b: int|
            0 <= a < all@.len() && 0 <= b < all@.len() && a != b implies (#[trigger] all@[a]).id
            != (#[trigger] all@[b]).id by {
            assert(self.tickets@[a].id != self.tickets@[b].id);
        }
        self.tickets = all;
    }
}

/// What a write of the `used` flag came to, where the write was made under
/// the condition that the flag still was what the ledger had read: a write
/// that changed no row met a ticket that somebody else had marked in between,
/// and is a conflict.
pub fn mark_outcome(rows_changed: usize) -> (r: Result<(), ErrorType>)
    ensures
        r == (if rows_changed == 0 {
            Err::<(), ErrorType>(ErrorType::Conflict)
        } else {
            Ok::<(), ErrorType>(())
        }),
{
    if rows_changed == 0 {
        Err(ErrorType::Conflict)
    } else {
        Ok(())
    }
}

/// The cap on tickets for oneself: whoever asks for a ticket for themself,
/// whatever roles they hold, is refused once they own [`SELF_ISSUE_LIMIT`]
/// tickets for the screening, and is granted the ticket below that.
pub proof fn law_ticket_cap(
    ledger: TicketLedger,
    issuer: User,
    owner_id: Option<u128>,
    tid: u128,
    form: FormTicket,
    users: UserService,
    roles: Seq<TheatreRole>,
    grants: Seq<UserTheatreRole>,
)
    requires
        owner_id is None || owner_id == Some(issuer.id),
    ensures
        ledger.owned(issuer.id, form.theatre_screening_id).len() >= 3 ==> ledger.issue_spec(
            issuer,
            owner_id,
            tid,
            form,
            users,
            roles,
            grants,
        ) == Err::<CreateTicket, ErrorType>(ErrorType::InsufficientPermission),
        ledger.owned(issuer.id, form.theatre_screening_id).len() < 3 ==> ledger.issue_spec(
            issuer,
            owner_id,
            tid,
            form,
            users,
            roles,
            grants,
        ) == Ok::<CreateTicket, ErrorType>(CreateTicket::of_form(form, issuer.id, issuer.id)),
{
}

/// A ticket for somebody else is issued by who is allowed to, however many
/// tickets anybody owns, and by nobody else.
pub proof fn law_issue_to_others(
    ledger: TicketLedger,
    issuer: User,
    owner: u128,
    tid: u128,
    form: FormTicket,
    users: UserService,
    roles: Seq<TheatreRole>,
    grants: Seq<UserTheatreRole>,
)
    requires
        owner != issuer.id,
    ensures
        authorize_spec(Combinator::Any, issuer, tid, issuing_roles(), roles, grants)
            == Decision::Forbidden ==> ledger.issue_spec(
            issuer,
            Some(owner),
            tid,
            form,
            users,
            roles,
            grants,
        ) == Err::<CreateTicket, ErrorType>(ErrorType::InsufficientPermission),
        authorize_spec(Combinator::Any, issuer, tid, issuing_roles(), roles, grants)
            == Decision::Allowed && users.found_by_id(owner) is Some ==> ledger.issue_spec(
            issuer,
            Some(owner),
            tid,
            form,
            users,
            roles,
            grants,
        ) == Ok::<CreateTicket, ErrorType>(CreateTicket::of_form(form, owner, issuer.id)),
{
}

/// A ticket that has expired cannot be redeemed: a token that this codec
/// signed for the ticket, presented in the theatre of the ticket by somebody
/// who may check tickets there, is answered with "expired" at every time after
/// the expiry of the ticket.
pub proof fn law_redemption_expiry(
    ledger: TicketLedger,
    codec: TokenCodec,
    token: Seq<char>,
    claims: JwtClaims,
    ticket: Ticket,
    acting_user: User,
    tid: u128,
    roles: Seq<TheatreRole>,
    grants: Seq<UserTheatreRole>,
    now: i64,
)
    requires
        codec.carries(token, claims),
        claims.dat == JwtType::Ticket(ticket.id),
        ledger.found_in_theatre(tid, ticket.id) == Some(ticket),
        authorize_spec(Combinator::Any, acting_user, tid, checking_roles(), roles, grants)
            == Decision::Allowed,
        now > ticket.expires_at,
    ensures
        ledger.redeem_spec(codec, token, acting_user, tid, roles, grants, now) == Err::<
            Ticket,
            ErrorType,
        >(ErrorType::Expired),
{
    law_expiry(codec, token, claims, now);
}

/// A redemption token never outlives its ticket: the token of a ticket is
/// expired at every time after the expiry of the ticket.
pub proof fn law_token_dies_with_ticket(codec: TokenCodec, token: Seq<char>, ticket: Ticket, now: i64)
    requires
        codec.carries(token, TicketResource::redemption_claims(ticket)),
        now > ticket.expires_at,
    ensures
        codec.verify_spec(TokenKind::TicketRedemption, token, now) == Err::<
            JwtClaims,
            TokenError,
        >(TokenError::Expired),
{
    law_expiry(
        codec,
        token,
        TicketResource::redemption_claims(ticket),
        now,
    );
}

/// Before its expiry the same presentation gives the ticket.
pub proof fn law_redemption_in_time(
    ledger: TicketLedger,
    codec: TokenCodec,
    token: Seq<char>,
    ticket: Ticket,
    acting_user: User,
    tid: u128,
    roles: Seq<TheatreRole>,
    grants: Seq<UserTheatreRole>,
    now: i64,
)
    requires
        codec.carries(token, TicketResource::redemption_claims(ticket)),
        ledger.found_in_theatre(tid, ticket.id) == Some(ticket),
        authorize_spec(Combinator::Any, acting_user, tid, checking_roles(), roles, grants)
            == Decision::Allowed,
        now <= ticket.expires_at,
    ensures
        ledger.redeem_spec(codec, token, acting_user, tid, roles, grants, now) == Ok::<
            Ticket,
            ErrorType,
        >(ticket),
{
    law_expiry(
        codec,
        token,
        TicketResource::redemption_claims(ticket),
        now,
    );
}

/// That a ticket is not of the theatre is said before anything is said about
/// permission: who lacks the role learns nothing about which tickets the
/// theatre has.
pub proof fn law_not_found_before_forbidden(
    ledger: TicketLedger,
    codec: TokenCodec,
    token: Seq<char>,
    acting_user: User,
    tid: u128,
    roles: Seq<TheatreRole>,
    grants: Seq<UserTheatreRole>,
    now: i64,
)
    requires
        codec.verify_spec(TokenKind::TicketRedemption, token, now) matches Ok(claims)
            && ledger.found_in_theatre(tid, claims.dat.id_spec()) is None,
    ensures
        ledger.redeem_spec(codec, token, acting_user, tid, roles, grants, now) == Err::<
            Ticket,
            ErrorType,
        >(ErrorType::NotFound),
{
}

} // verus!
