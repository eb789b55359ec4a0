//! The rows that the platform stores, and the forms that they are made from.
//!
//! Identifiers are 128-bit numbers and times are whole seconds since the
//! epoch.

use vstd::prelude::*;

verus! {

/// A registered person.
#[derive(Debug, Clone, PartialEq, Eq)]
pub struct User {
    pub id: u128,
    pub first_name: String,
    pub last_name: String,
    pub email: String,
    pub username: String,
    /// A user that an outside provider vouches for has no password.
    pub password_hash: Option<String>,
    pub created_at: i64,
    /// Passes every theatre-scoped check.
    pub is_super_user: bool,
    /// Set once the e-mail address has been verified; login is refused before.
    pub is_activated: bool,
    /// The tombstone of a soft delete.
    pub is_deleted: bool,
}

/// What anybody may see of a user.
#[derive(Debug, Clone, PartialEq, Eq)]
pub struct PartialUser {
    pub id: u128,
    pub first_name: String,
    pub last_name: String,
    pub username: String,
    pub is_super_user: bool,
}

/// A ticket. It is created once, its `used` flag is the only thing that ever
/// changes, and it is never deleted.
#[derive(Debug, Clone, Copy, PartialEq, Eq, Structural)]
pub struct Ticket {
    pub id: u128,
    pub owner_user_id: u128,
    pub theatre_screening_id: u128,
    pub ticket_type_id: u128,
    pub issuer_user_id: u128,
    pub seat_row: i32,
    pub seat_column: i32,
    pub issued_at: i64,
    pub expires_at: i64,
    pub used: bool,
}

/// What a request for a new ticket holds.
#[derive(Debug, Clone, Copy, PartialEq, Eq, Structural)]
pub struct FormTicket {
    pub theatre_screening_id: u128,
    pub ticket_type_id: u128,
    pub issuer_user_id: u128,
    pub seat_row: i32,
    pub seat_column: i32,
}

/// A ticket that is to be stored.
#[derive(Debug, Clone, Copy, PartialEq, Eq, Structural)]
pub struct CreateTicket {
    pub owner_user_id: u128,
    pub theatre_screening_id: u128,
    pub ticket_type_id: u128,
    pub issuer_user_id: u128,
    pub seat_row: i32,
    pub seat_column: i32,
}

/// One showing of a movie in a hall of a theatre.
#[derive(Debug, Clone, Copy, PartialEq, Eq, Structural)]
pub struct TheatreScreening {
    pub id: u128,
    pub movie_id: u128,
    pub theatre_id: u128,
    pub hall_id: u128,
    pub subtitles_language_id: Option<u128>,
    pub audio_language_id: u128,
    pub starting_time: i64,
    pub is_3d: bool,
    pub status: i32,
    pub is_deleted: bool,
}

/// A screening that is to be stored.
#[derive(Debug, Clone, Copy, PartialEq, Eq, Structural)]
pub struct CreateTheatreScreening {
    pub movie_id: u128,
    pub theatre_id: u128,
    pub hall_id: u128,
    pub subtitles_language_id: Option<u128>,
    pub audio_language_id: u128,
    pub starting_time: i64,
    pub is_3d: Option<bool>,
}

/// What a request for a new or changed screening holds.
#[derive(Debug, Clone, Copy, PartialEq, Eq, Structural)]
pub struct FormTheatreScreening {
    pub movie_id: u128,
    pub hall_id: u128,
    pub subtitles_language_id: Option<u128>,
    pub audio_language_id: u128,
    pub starting_time: i64,
    pub is_3d: Option<bool>,
}

/// The seats of a hall, row by row.
#[derive(Debug, Clone, PartialEq, Eq)]
pub struct SeatData {
    data: Vec<Vec<u16>>,
}

/// A hall of a theatre. Its seat plan is kept as the JSON text it arrived as.
#[derive(Debug, Clone, PartialEq, Eq)]
pub struct Hall {
    pub id: u128,
    pub theatre_id: u128,
    pub name: String,
    pub seat_data: String,
    pub is_deleted: bool,
}

/// What a request for a new hall holds.
#[derive(Debug, Clone, PartialEq, Eq)]
pub struct FormHall {
    pub name: String,
    pub seat_data: String,
}

/// A hall that is to be stored.
#[derive(Debug, Clone, PartialEq, Eq)]
pub struct CreateHall {
    pub name: String,
    pub theatre_id: u128,
    pub seat_data: String,
}

/// The grant of one role to one user inside one theatre. The three
/// identifiers together are the key of the grant.
#[derive(Debug, Clone, Copy, PartialEq, Eq, Structural)]
pub struct UserTheatreRole {
    pub user_id: u128,
    pub role_id: u128,
    pub theatre_id: u128,
}

/// A role as it is stored: found by its name, referred to by its identifier.
#[derive(Debug, Clone, PartialEq, Eq)]
pub struct TheatreRole {
    pub id: u128,
    pub name: String,
}

/// A language that a screening can be heard or subtitled in.
#[derive(Debug, Clone, PartialEq, Eq)]
pub struct Language {
    pub id: u128,
    pub code: String,
    pub name: String,
}

/// A copy of a text that may be missing.
pub fn copy_text(text: &Option<String>) -> (r: Option<String>)
    ensures
        r == *text,
{
    match text {
        Some(t) => Some(t.clone()),
        None => None,
    }
}

impl User {
    /// A copy of the row.
    pub fn duplicate(&self) -> (r: User)
        ensures
            r == *self,
    {
        User {
            id: self.id,
            first_name: self.first_name.clone(),
            last_name: self.last_name.clone(),
            email: self.email.clone(),
            username: self.username.clone(),
            password_hash: copy_text(&self.password_hash),
            created_at: self.created_at,
            is_super_user: self.is_super_user,
            is_activated: self.is_activated,
            is_deleted: self.is_deleted,
        }
    }

    /// The user with the e-mail address verified. Verifying twice changes
    /// nothing more.
    pub open spec fn activated(self) -> User {
        User { is_activated: true, ..self }
    }

    /// Marks the e-mail address as verified.
    pub fn activate(&mut self)
        ensures
            *final(self) == old(self).activated(),
    {
        self.is_activated = true;
    }

    /// The user with the tombstone set.
    pub open spec fn deleted(self) -> User {
        User { is_deleted: true, ..self }
    }

    /// Soft-deletes the user: the row stays, marked.
    pub fn delete(&mut self)
        ensures
            *final(self) == old(self).deleted(),
    {
        self.is_deleted = true;
    }
}

/// Verifying an e-mail address a second time changes nothing.
pub proof fn law_activation_idempotent(user: User)
    ensures
        user.activated().is_activated,
        user.activated().activated() == user.activated(),
        user.is_activated ==> user.activated() == user,
{
}

impl SeatData {
    /// A seat plan with the given rows.
    pub fn new(data: Vec<Vec<u16>>) -> (r: SeatData)
        ensures
            r.rows() == data,
    {
        SeatData { data }
    }

    /// The rows of the plan.
    pub closed spec fn rows(&self) -> Vec<Vec<u16>> {
        self.data
    }
}

impl From<User> for PartialUser {
    fn from(value: User) -> (r: PartialUser)
        ensures
            r == (PartialUser {
                id: value.id,
                first_name: value.first_name,
                last_name: value.last_name,
                username: value.username,
                is_super_user: value.is_super_user,
            }),
    {
        PartialUser {
            id: value.id,
            first_name: value.first_name,
            last_name: value.last_name,
            username: value.username,
            is_super_user: value.is_super_user,
        }
    }
}

impl vstd::std_specs::convert::FromSpecImpl<User> for PartialUser {
    open spec fn obeys_from_spec() -> bool {
        true
    }

    open spec fn from_spec(value: User) -> PartialUser {
        PartialUser {
            id: value.id,
            first_name: value.first_name,
            last_name: value.last_name,
            username: value.username,
            is_super_user: value.is_super_user,
        }
    }
}

impl CreateTheatreScreening {
    /// The screening that the form asks for, in the given theatre.
    pub fn from_form(value: FormTheatreScreening, theatre_id: u128) -> (r: CreateTheatreScreening)
        ensures
            r == (CreateTheatreScreening {
                movie_id: value.movie_id,
                theatre_id,
                hall_id: value.hall_id,
                subtitles_language_id: value.subtitles_language_id,
                audio_language_id: value.audio_language_id,
                starting_time: value.starting_time,
                is_3d: value.is_3d,
            }),
    {
        CreateTheatreScreening {
            movie_id: value.movie_id,
            theatre_id,
            hall_id: value.hall_id,
            subtitles_language_id: value.subtitles_language_id,
            audio_language_id: value.audio_language_id,
            starting_time: value.starting_time,
            is_3d: value.is_3d,
        }
    }
}

impl CreateHall {
    /// The hall that the form asks for, in the given theatre.
    pub fn from_form(value: FormHall, theatre_id: u128) -> (r: CreateHall)
        ensures
            r.name == value.name,
            r.seat_data == value.seat_data,
            r.theatre_id == theatre_id,
    {
        CreateHall { name: value.name, seat_data: value.seat_data, theatre_id }
    }
}

impl CreateTicket {
    /// The ticket that the form asks for, owned by `owner` and issued by
    /// `issuer`. The issuer that the form itself names is not believed.
    pub open spec fn of_form(form: FormTicket, owner: u128, issuer: u128) -> CreateTicket {
        CreateTicket {
            owner_user_id: owner,
            theatre_screening_id: form.theatre_screening_id,
            ticket_type_id: form.ticket_type_id,
            issuer_user_id: issuer,
            seat_row: form.seat_row,
            seat_column: form.seat_column,
        }
    }

    /// The ticket that the form asks for, owned by `owner` and issued by
    /// `issuer`.
    pub fn from_form(form: &FormTicket, owner: u128, issuer: u128) -> (r: CreateTicket)
        ensures
            r == CreateTicket::of_form(*form, owner, issuer),
    {
        CreateTicket {
            owner_user_id: owner,
            theatre_screening_id: form.theatre_screening_id,
            ticket_type_id: form.ticket_type_id,
            issuer_user_id: issuer,
            seat_row: form.seat_row,
            seat_column: form.seat_column,
        }
    }
}

impl Ticket {
    /// Every ticket expires no earlier than it was issued.
    pub open spec fn well_formed(self) -> bool {
        self.expires_at >= self.issued_at
    }

    /// Whether the ticket can still be redeemed at the time `now`.
    pub open spec fn redeemable_at(self, now: i64) -> bool {
        now <= self.expires_at
    }

    /// The ticket with its `used` flag set to `used`, and nothing else changed.
    pub open spec fn marked(self, used: bool) -> Ticket {
        Ticket { used, ..self }
    }

    /// The ticket as it is stored: under the identifier the store gave it,
    /// unused, issued at `issued_at` and expiring at `expires_at`.
    pub open spec fn stored_spec(
        new_ticket: CreateTicket,
        id: u128,
        issued_at: i64,
        expires_at: i64,
    ) -> Ticket {
        Ticket {
            id,
            owner_user_id: new_ticket.owner_user_id,
            theatre_screening_id: new_ticket.theatre_screening_id,
            ticket_type_id: new_ticket.ticket_type_id,
            issuer_user_id: new_ticket.issuer_user_id,
            seat_row: new_ticket.seat_row,
            seat_column: new_ticket.seat_column,
            issued_at,
            expires_at,
            used: false,
        }
    }

    /// The ticket as it is stored: under the identifier the store gave it,
    /// unused, issued at `issued_at` and expiring at `expires_at`.
    pub fn stored(new_ticket: &CreateTicket, id: u128, issued_at: i64, expires_at: i64) -> (r:
        Ticket)
        requires
            expires_at >= issued_at,
        ensures
            r.well_formed(),
            r == Ticket::stored_spec(*new_ticket, id, issued_at, expires_at),
    {
        Ticket {
            id,
            owner_user_id: new_ticket.owner_user_id,
            theatre_screening_id: new_ticket.theatre_screening_id,
            ticket_type_id: new_ticket.ticket_type_id,
            issuer_user_id: new_ticket.issuer_user_id,
            seat_row: new_ticket.seat_row,
            seat_column: new_ticket.seat_column,
            issued_at,
            expires_at,
            used: false,
        }
    }

    /// Sets the `used` flag. What the flag was before does not matter.
    pub fn mark(&mut self, used: bool)
        ensures
            *final(self) == old(self).marked(used),
    {
        self.used = used;
    }
}

/// Marking is idempotent and the last mark wins: marking a ticket used twice
/// leaves it used, and marking it used and then unused leaves it unused.
/// Nothing but the flag changes, so a well-formed ticket stays well formed.
pub proof fn law_mark_idempotent(ticket: Ticket, first: bool, second: bool)
    ensures
        ticket.marked(first).used == first,
        ticket.marked(first).marked(first) == ticket.marked(first),
        ticket.marked(first).marked(second) == ticket.marked(second),
        ticket.marked(true).marked(true).used,
        !ticket.marked(true).marked(false).used,
        ticket.well_formed() ==> ticket.marked(first).well_formed(),
        ticket.marked(ticket.used) == ticket,
{
}

} // verus!
