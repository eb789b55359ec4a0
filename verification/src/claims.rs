//! What a signed token says: which trust domain it belongs to, whom or what it
//! names, and for how long it holds.

use vstd::prelude::*;

verus! {

/// The three trust domains. Each is signed with a secret of its own.
#[derive(Debug, Clone, Copy, PartialEq, Eq, Structural)]
pub enum TokenKind {
    /// Proves who is making a request.
    Auth,
    /// Proves control of an e-mail address.
    EmailVerification,
    /// Proves possession of one ticket.
    TicketRedemption,
}

/// The tagged payload of a token: the tag decides what the identifier names.
#[derive(Debug, Clone, Copy, PartialEq, Eq, Structural)]
pub enum JwtType {
    /// Identifier of a ticket.
    Ticket(u128),
    /// Identifier of a user whose e-mail address is being verified.
    Email(u128),
    /// Identifier of an authenticated user.
    User(u128),
}

/// The claims carried by a token.
#[derive(Debug, Clone, Copy, PartialEq, Eq, Structural)]
pub struct JwtClaims {
    pub dat: JwtType,
    /// Subject: the user the token was made out to.
    pub sub: u128,
    /// Issued at, in seconds since the epoch.
    pub iat: i64,
    /// Expires at, in seconds since the epoch.
    pub exp: i64,
}

impl JwtType {
    /// The trust domain that the tag belongs to.
    pub open spec fn kind_spec(self) -> TokenKind {
        match self {
            JwtType::Ticket(_) => TokenKind::TicketRedemption,
            JwtType::Email(_) => TokenKind::EmailVerification,
            JwtType::User(_) => TokenKind::Auth,
        }
    }

    /// The identifier under the tag.
    pub open spec fn id_spec(self) -> u128 {
        match self {
            JwtType::Ticket(id) => id,
            JwtType::Email(id) => id,
            JwtType::User(id) => id,
        }
    }

    /// The payload of the given domain naming `id`.
    pub open spec fn of_spec(kind: TokenKind, id: u128) -> JwtType {
        match kind {
            TokenKind::TicketRedemption => JwtType::Ticket(id),
            TokenKind::EmailVerification => JwtType::Email(id),
            TokenKind::Auth => JwtType::User(id),
        }
    }

    #[verifier::when_used_as_spec(kind_spec)]
    pub fn kind(self) -> (r: TokenKind)
        ensures
            r == self.kind_spec(),
    {
        match self {
            JwtType::Ticket(_) => TokenKind::TicketRedemption,
            JwtType::Email(_) => TokenKind::EmailVerification,
            JwtType::User(_) => TokenKind::Auth,
        }
    }

    #[verifier::when_used_as_spec(id_spec)]
    pub fn id(self) -> (r: u128)
        ensures
            r == self.id_spec(),
    {
        match self {
            JwtType::Ticket(id) => id,
            JwtType::Email(id) => id,
            JwtType::User(id) => id,
        }
    }

    #[verifier::when_used_as_spec(of_spec)]
    pub fn of(kind: TokenKind, id: u128) -> (r: JwtType)
        ensures
            r == JwtType::of_spec(kind, id),
            r.kind_spec() == kind,
            r.id_spec() == id,
    {
        match kind {
            TokenKind::TicketRedemption => JwtType::Ticket(id),
            TokenKind::EmailVerification => JwtType::Email(id),
            TokenKind::Auth => JwtType::User(id),
        }
    }
}

} // verus!
