//! The failures that the library reports, and the HTTP status that each one
//! is answered with.

use vstd::prelude::*;

verus! {

/// Why a token was not accepted.
#[derive(Debug, Clone, Copy, PartialEq, Eq, Structural)]
pub enum TokenError {
    /// The signature, the tag or the shape is wrong.
    Invalid,
    /// The token was good once; its time has lapsed.
    Expired,
}

/// What went wrong with a statement sent to the store.
#[derive(Debug, Clone, Copy, PartialEq, Eq, Structural)]
pub enum QueryError {
    /// The statement asked for one row and found none.
    NotFound,
    /// Anything else.
    Other,
}

/// A failure below the rules of the library: in the store, the hasher, the
/// signer or the mail builder.
#[derive(Debug, Clone, Copy, PartialEq, Eq, Structural)]
pub enum DatabaseError {
    /// No connection could be had from the pool.
    Pool,
    /// Hashing was unsuccessful.
    Hash,
    /// Token creation was unsuccessful.
    Jwt,
    /// The interaction with the store was cut short.
    Interact,
    /// The statement did not execute properly.
    Query(QueryError),
    /// The mail queue did not take the message.
    EmailSend,
    /// The verification mail could not be built.
    EmailBuild,
    /// Anything else.
    Other,
}

/// The fields of a form or query that broke a rule.
#[derive(Debug, Clone, Copy, PartialEq, Eq, Structural)]
pub struct ValidationErrors {
    pub first_name: bool,
    pub last_name: bool,
    pub email: bool,
    pub username: bool,
    pub password: bool,
    pub name: bool,
    pub limit: bool,
    pub start_date: bool,
    pub end_date: bool,
}

/// Every failure that a request can end in.
#[derive(Debug, Clone, Copy, PartialEq, Eq, Structural)]
pub enum ErrorType {
    Validation(ValidationErrors),
    Database(DatabaseError),
    InsufficientPermission,
    EmailNotVerified,
    ServerError,
    Conflict,
    Invalid,
    NoAuth,
    NotFound,
    Expired,
}

impl ValidationErrors {
    /// Whether no field broke a rule.
    pub open spec fn is_empty_spec(self) -> bool {
        self == ValidationErrors::none()
    }

    /// The value that names no field.
    pub open spec fn none() -> ValidationErrors {
        ValidationErrors {
            first_name: false,
            last_name: false,
            email: false,
            username: false,
            password: false,
            name: false,
            limit: false,
            start_date: false,
            end_date: false,
        }
    }

    /// The value that names no field.
    pub fn new() -> (r: ValidationErrors)
        ensures
            r == ValidationErrors::none(),
    {
        ValidationErrors {
            first_name: false,
            last_name: false,
            email: false,
            username: false,
            password: false,
            name: false,
            limit: false,
            start_date: false,
            end_date: false,
        }
    }

    /// Whether no field broke a rule.
    #[verifier::when_used_as_spec(is_empty_spec)]
    pub fn is_empty(self) -> (r: bool)
        ensures
            r == self.is_empty_spec(),
    {
        !(self.first_name || self.last_name || self.email || self.username || self.password
            || self.name || self.limit || self.start_date || self.end_date)
    }
}

impl ErrorType {
    /// The HTTP status of a failure of the store.
    pub open spec fn status_code_db_error_spec(err: DatabaseError) -> u16 {
        match err {
            DatabaseError::Query(QueryError::NotFound) => 404,
            _ => 500,
        }
    }

    /// The HTTP status that the failure is answered with.
    pub open spec fn status_code_spec(&self) -> u16 {
        match *self {
            ErrorType::Database(e) => ErrorType::status_code_db_error_spec(e),
            ErrorType::Validation(_) => 400,
            ErrorType::Invalid => 400,
            ErrorType::ServerError => 500,
            ErrorType::InsufficientPermission => 403,
            ErrorType::Expired => 401,
            ErrorType::NoAuth => 401,
            ErrorType::EmailNotVerified => 401,
            ErrorType::NotFound => 404,
            ErrorType::Conflict => 409,
        }
    }

    /// The HTTP status of a failed statement: a missing row is "not found",
    /// anything else is the server's fault.
    pub fn status_code_diesel_error(err: &QueryError) -> (code: u16)
        ensures
            code == (if *err == QueryError::NotFound {
                404u16
            } else {
                500u16
            }),
    {
        match err {
            QueryError::NotFound => 404,
            QueryError::Other => 500,
        }
    }

    /// The HTTP status of a failure of the store.
    pub fn status_code_db_error(err: &DatabaseError) -> (code: u16)
        ensures
            code == ErrorType::status_code_db_error_spec(*err),
    {
        match err {
            DatabaseError::Query(e) => ErrorType::status_code_diesel_error(e),
            _ => 500,
        }
    }

    /// The HTTP status that the failure is answered with.
    #[verifier::when_used_as_spec(status_code_spec)]
    pub fn status_code(&self) -> (code: u16)
        ensures
            code == self.status_code_spec(),
            400 <= code < 600,
    {
        match self {
            ErrorType::Database(e) => ErrorType::status_code_db_error(e),
            ErrorType::Validation(_) | ErrorType::Invalid => 400,
            ErrorType::ServerError => 500,
            ErrorType::InsufficientPermission => 403,
            ErrorType::Expired | ErrorType::NoAuth | ErrorType::EmailNotVerified => 401,
            ErrorType::NotFound => 404,
            ErrorType::Conflict => 409,
        }
    }

    /// The failure that a rejected token is reported as.
    pub open spec fn of_token_error(e: TokenError) -> ErrorType {
        match e {
            TokenError::Invalid => ErrorType::Invalid,
            TokenError::Expired => ErrorType::Expired,
        }
    }
}

impl From<DatabaseError> for ErrorType {
    fn from(value: DatabaseError) -> (r: ErrorType)
        ensures
            r == ErrorType::Database(value),
    {
        ErrorType::Database(value)
    }
}

impl vstd::std_specs::convert::FromSpecImpl<DatabaseError> for ErrorType {
    open spec fn obeys_from_spec() -> bool {
        true
    }

    open spec fn from_spec(value: DatabaseError) -> ErrorType {
        ErrorType::Database(value)
    }
}

impl From<ValidationErrors> for ErrorType {
    fn from(value: ValidationErrors) -> (r: ErrorType)
        ensures
            r == ErrorType::Validation(value),
    {
        ErrorType::Validation(value)
    }
}

impl vstd::std_specs::convert::FromSpecImpl<ValidationErrors> for ErrorType {
    open spec fn obeys_from_spec() -> bool {
        true
    }

    open spec fn from_spec(value: ValidationErrors) -> ErrorType {
        ErrorType::Validation(value)
    }
}

impl From<TokenError> for ErrorType {
    fn from(value: TokenError) -> (r: ErrorType)
        ensures
            r == ErrorType::of_token_error(value),
    {
        match value {
            TokenError::Invalid => ErrorType::Invalid,
            TokenError::Expired => ErrorType::Expired,
        }
    }
}

impl vstd::std_specs::convert::FromSpecImpl<TokenError> for ErrorType {
    open spec fn obeys_from_spec() -> bool {
        true
    }

    open spec fn from_spec(value: TokenError) -> ErrorType {
        ErrorType::of_token_error(value)
    }
}

} // verus!
