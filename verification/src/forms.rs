//! The forms and queries that requests arrive as, and the rules that each must
//! meet before anything is done with it.

use vstd::prelude::*;
use vstd::string::StrSliceExecFns;
use crate::error::ValidationErrors;
use crate::model::FormHall;

verus! {

/// The most rows that one query may ask for.
pub const MAX_PAGE_SIZE: i64 = 100;

/// Whether `validator::validate_email` accepts the text as an e-mail address.
pub uninterp spec fn email_accepted(text: Seq<char>) -> bool;

/// Calls `validator::validate_email`, which holds the text against the HTML5
/// rules for an e-mail address. The answer depends on the text alone.
#[verifier::external_body]
fn is_email(text: &str) -> (r: bool)
    ensures
        r == email_accepted(text@),
{
    validator::validate_email(text)
}

/// Whether a text has at least `min` and at most `max` characters.
pub open spec fn length_between(text: Seq<char>, min: int, max: int) -> bool {
    min <= text.len() <= max
}

fn has_length_between(text: &String, min: usize, max: usize) -> (r: bool)
    ensures
        r == length_between(text@, min as int, max as int),
{
    let n = text.as_str().unicode_len();
    min <= n && n <= max
}

fn has_length_at_least(text: &String, min: usize) -> (r: bool)
    ensures
        r == (text@.len() >= min),
{
    text.as_str().unicode_len() >= min
}

/// Whether a page size is one that a query may ask for.
pub open spec fn page_size_allowed(limit: i64) -> bool {
    1 <= limit <= MAX_PAGE_SIZE
}

/// The order that a list is asked for in.
#[derive(Debug, Clone, Copy, PartialEq, Eq, Structural)]
pub enum SortBy {
    Newest,
    Oldest,
}

/// What a new user registers with.
#[derive(Debug, Clone, PartialEq, Eq)]
pub struct FormUser {
    pub first_name: String,
    pub last_name: String,
    pub email: String,
    pub username: String,
    pub password: String,
}

/// What a user may change about themself.
#[derive(Debug, Clone, PartialEq, Eq)]
pub struct UpdateUser {
    pub first_name: String,
    pub last_name: String,
    pub email: String,
    pub username: String,
}

/// What a user logs in with. `email` may hold the user name instead.
#[derive(Debug, Clone, PartialEq, Eq)]
pub struct LoginUser {
    pub email: String,
    pub password: String,
}

/// A change of password.
#[derive(Debug, Clone, PartialEq, Eq)]
pub struct NewPasswordForm {
    pub old_password: String,
    pub new_password: String,
    pub new_password_repeat: String,
}

/// The query of the e-mail verification link.
#[derive(Debug, Clone, PartialEq, Eq)]
pub struct EmailVerificationQuery {
    pub email_key: String,
}

/// The query that presents a ticket for validation or marking.
#[derive(Debug, Clone, PartialEq, Eq)]
pub struct ValidateTicketQuery {
    pub ticket_jwt: String,
}

/// The query that may name the owner of a new ticket.
#[derive(Debug, Clone, Copy, PartialEq, Eq, Structural)]
pub struct NewTicketQuery {
    pub owner_id: Option<u128>,
}

/// A search for theatres by name.
#[derive(Debug, Clone, PartialEq, Eq)]
pub struct TheatreSearchQuery {
    pub name: String,
}

/// A search for movies.
#[derive(Debug, Clone, PartialEq, Eq)]
pub struct MovieQuery {
    pub name: Option<String>,
    pub sort_by: SortBy,
    pub limit: i64,
    pub offset: i64,
}

/// A page of the reviews of a movie.
#[derive(Debug, Clone, Copy, PartialEq, Eq, Structural)]
pub struct MovieReviewQuery {
    pub limit: i64,
    pub offset: i64,
    pub sort_by: SortBy,
}

/// The review that an update is meant for.
#[derive(Debug, Clone, Copy, PartialEq, Eq, Structural)]
pub struct UpdateReviewQuery {
    pub review_id: u128,
}

/// A search for the tickets of a theatre. Every filter that is given must
/// match.
#[derive(Debug, Clone, Copy, PartialEq, Eq, Structural)]
pub struct TicketQuery {
    pub owner_id: Option<u128>,
    pub screening_id: Option<u128>,
    pub ticket_type_id: Option<u128>,
    pub issuer_id: Option<u128>,
    pub hall_id: Option<u128>,
    pub movie_id: Option<u128>,
    pub limit: i64,
    pub offset: i64,
}

/// A search for role grants.
#[derive(Debug, Clone, Copy, PartialEq, Eq, Structural)]
pub struct BridgeRoleQuery {
    pub role_id: u128,
    pub user_id: Option<u128>,
    pub theatre_id: u128,
}

impl FormUser {
    /// The fields that break a rule: the names have 1 to 50 characters, the
    /// e-mail address is one and has at most 150, the user name has 8 to 50,
    /// the password at least 12.
    pub open spec fn errors_spec(&self) -> ValidationErrors {
        self.errors_given(email_accepted(self.email@))
    }

    /// The fields that break a rule, where `email_ok` says whether the e-mail
    /// address is one.
    pub open spec fn errors_given(&self, email_ok: bool) -> ValidationErrors {
        ValidationErrors {
            first_name: !length_between(self.first_name@, 1, 50),
            last_name: !length_between(self.last_name@, 1, 50),
            email: !(email_ok && self.email@.len() <= 150),
            username: !length_between(self.username@, 8, 50),
            password: !(self.password@.len() >= 12),
            ..ValidationErrors::none()
        }
    }

    /// Holds the form against its rules, once it is known whether its e-mail
    /// address is one, and names every field that breaks a rule.
    pub fn validate_given(&self, email_ok: bool) -> (r: Result<(), ValidationErrors>)
        ensures
            r is Ok <==> self.errors_given(email_ok).is_empty_spec(),
            r matches Err(e) ==> e == self.errors_given(email_ok),
    {
        let mut errors = ValidationErrors::new();
        errors.first_name = !has_length_between(&self.first_name, 1, 50);
        errors.last_name = !has_length_between(&self.last_name, 1, 50);
        errors.email = !(email_ok && has_length_between(&self.email, 0, 150));
        errors.username = !has_length_between(&self.username, 8, 50);
        errors.password = !has_length_at_least(&self.password, 12);
        if errors.is_empty() {
            Ok(())
        } else {
            Err(errors)
        }
    }

    /// Holds the form against its rules and names every field that breaks one.
    pub fn validate(&self) -> (r: Result<(), ValidationErrors>)
        ensures
            r is Ok <==> self.errors_spec().is_empty_spec(),
            r matches Err(e) ==> e == self.errors_spec(),
    {
        self.validate_given(is_email(self.email.as_str()))
    }
}

impl UpdateUser {
    /// The fields that break a rule: the same rules as at registration.
    pub open spec fn errors_spec(&self) -> ValidationErrors {
        self.errors_given(email_accepted(self.email@))
    }

    /// The fields that break a rule, where `email_ok` says whether the e-mail
    /// address is one.
    pub open spec fn errors_given(&self, email_ok: bool) -> ValidationErrors {
        ValidationErrors {
            first_name: !length_between(self.first_name@, 1, 50),
            last_name: !length_between(self.last_name@, 1, 50),
            email: !(email_ok && self.email@.len() <= 150),
            username: !length_between(self.username@, 8, 50),
            ..ValidationErrors::none()
        }
    }

    /// Holds the form against its rules, once it is known whether its e-mail
    /// address is one, and names every field that breaks a rule.
    pub fn validate_given(&self, email_ok: bool) -> (r: Result<(), ValidationErrors>)
        ensures
            r is Ok <==> self.errors_given(email_ok).is_empty_spec(),
            r matches Err(e) ==> e == self.errors_given(email_ok),
    {
        let mut errors = ValidationErrors::new();
        errors.first_name = !has_length_between(&self.first_name, 1, 50);
        errors.last_name = !has_length_between(&self.last_name, 1, 50);
        errors.email = !(email_ok && has_length_between(&self.email, 0, 150));
        errors.username = !has_length_between(&self.username, 8, 50);
        if errors.is_empty() {
            Ok(())
        } else {
            Err(errors)
        }
    }

    /// Holds the form against its rules and names every field that breaks one.
    pub fn validate(&self) -> (r: Result<(), ValidationErrors>)
        ensures
            r is Ok <==> self.errors_spec().is_empty_spec(),
            r matches Err(e) ==> e == self.errors_spec(),
    {
        self.validate_given(is_email(self.email.as_str()))
    }
}

impl LoginUser {
    /// The fields that break a rule: the e-mail address is not empty, the
    /// password has at least 12 characters.
    pub open spec fn errors_spec(&self) -> ValidationErrors {
        ValidationErrors {
            email: !(self.email@.len() >= 1),
            password: !(self.password@.len() >= 12),
            ..ValidationErrors::none()
        }
    }

    /// Holds the form against its rules and names every field that breaks one.
    pub fn validate(&self) -> (r: Result<(), ValidationErrors>)
        ensures
            r is Ok <==> self.errors_spec().is_empty_spec(),
            r matches Err(e) ==> e == self.errors_spec(),
    {
        let mut errors = ValidationErrors::new();
        errors.email = !has_length_at_least(&self.email, 1);
        errors.password = !has_length_at_least(&self.password, 12);
        if errors.is_empty() {
            Ok(())
        } else {
            Err(errors)
        }
    }
}

impl FormHall {
    /// Accepts a name of at most 50 characters and names `name` otherwise.
    pub fn validate(&self) -> (r: Result<(), ValidationErrors>)
        ensures
            r is Ok <==> self.name@.len() <= 50,
            r matches Err(e) ==> e == (ValidationErrors { name: true, ..ValidationErrors::none() }),
    {
        if has_length_between(&self.name, 0, 50) {
            Ok(())
        } else {
            let mut errors = ValidationErrors::new();
            errors.name = true;
            Err(errors)
        }
    }
}

impl NewPasswordForm {
    /// Whether the new password was typed the same way twice.
    pub fn repeated_correctly(&self) -> (r: bool)
        ensures
            r == (self.new_password@ == self.new_password_repeat@),
    {
        self.new_password == self.new_password_repeat
    }
}

impl MovieQuery {
    /// The fields that break a rule: a name, if given, has 1 to 250 characters,
    /// and the page size is 1 to 100.
    pub open spec fn errors_spec(&self) -> ValidationErrors {
        ValidationErrors {
            name: match self.name {
                Some(name) => !length_between(name@, 1, 250),
                None => false,
            },
            limit: !page_size_allowed(self.limit),
            ..ValidationErrors::none()
        }
    }

    /// Holds the query against its rules and names every field that breaks
    /// one.
    pub fn validate(&self) -> (r: Result<(), ValidationErrors>)
        ensures
            r is Ok <==> self.errors_spec().is_empty_spec(),
            r matches Err(e) ==> e == self.errors_spec(),
    {
        let mut errors = ValidationErrors::new();
        errors.name = match &self.name {
            Some(name) => !has_length_between(name, 1, 250),
            None => false,
        };
        errors.limit = !(1 <= self.limit && self.limit <= MAX_PAGE_SIZE);
        if errors.is_empty() {
            Ok(())
        } else {
            Err(errors)
        }
    }
}

impl MovieReviewQuery {
    /// Accepts a page size of 1 to 100 and names `limit` otherwise.
    pub fn validate(&self) -> (r: Result<(), ValidationErrors>)
        ensures
            r is Ok <==> page_size_allowed(self.limit),
            r matches Err(e) ==> e == (ValidationErrors { limit: true, ..ValidationErrors::none() }),
    {
        if 1 <= self.limit && self.limit <= MAX_PAGE_SIZE {
            Ok(())
        } else {
            let mut errors = ValidationErrors::new();
            errors.limit = true;
            Err(errors)
        }
    }
}

impl TicketQuery {
    /// Accepts a page size of 1 to 100 and names `limit` otherwise.
    pub fn validate(&self) -> (r: Result<(), ValidationErrors>)
        ensures
            r is Ok <==> page_size_allowed(self.limit),
            r matches Err(e) ==> e == (ValidationErrors { limit: true, ..ValidationErrors::none() }),
    {
        if 1 <= self.limit && self.limit <= MAX_PAGE_SIZE {
            Ok(())
        } else {
            let mut errors = ValidationErrors::new();
            errors.limit = true;
            Err(errors)
        }
    }
}

} // verus!
