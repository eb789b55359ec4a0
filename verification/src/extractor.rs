//! Reading the claims of the caller from an incoming request.

use vstd::prelude::*;
use crate::claims::{JwtClaims, TokenKind};
use crate::error::{ErrorType, TokenError};
use crate::claims::JwtType;
use crate::token::{claims_at, expiry_fits, law_expiry, unix_now, TokenCodec};

verus! {

/// What the `Authorization` header of a request held. The token stands in it
/// as it is, with no scheme in front.
#[derive(Debug, Clone, PartialEq, Eq)]
pub enum Authorization {
    /// The request had no such header.
    Missing,
    /// The header held bytes that are no text.
    Unreadable,
    /// The header held this text.
    Token(String),
}

/// What a request with the given header is taken for at the time `now`: no
/// header means nobody has authenticated; a header that cannot be read is the
/// server's trouble; anything else is verified as an authentication token.
pub open spec fn extract_spec(codec: TokenCodec, header: Authorization, now: i64) -> Result<
    JwtClaims,
    ErrorType,
> {
    match header {
        Authorization::Missing => Err(ErrorType::NoAuth),
        Authorization::Unreadable => Err(ErrorType::ServerError),
        Authorization::Token(token) => match codec.verify_spec(TokenKind::Auth, token@, now) {
            Ok(claims) => Ok(claims),
            Err(TokenError::Invalid) => Err(ErrorType::Invalid),
            Err(TokenError::Expired) => Err(ErrorType::Expired),
        },
    }
}

impl JwtClaims {
    /// The claims of the caller of a request with the given header, at the
    /// time `now`. Claims that come back are those of an authentication token
    /// that has not expired.
    pub fn from_request_at(header: &Authorization, codec: &TokenCodec, now: i64) -> (r: Result<
        JwtClaims,
        ErrorType,
    >)
        ensures
            r == extract_spec(*codec, *header, now),
            r matches Ok(claims) ==> claims.dat.kind_spec() == TokenKind::Auth && now <= claims.exp,
    {
        match header {
            Authorization::Missing => Err(ErrorType::NoAuth),
            Authorization::Unreadable => Err(ErrorType::ServerError),
            Authorization::Token(token) => {
                match codec.verify_at(TokenKind::Auth, token.as_str(), now) {
                    Ok(claims) => Ok(claims),
                    Err(e) => Err(ErrorType::from(e)),
                }
            },
        }
    }

    /// The claims of the caller of a request with the given header, by the
    /// clock.
    pub fn from_request(header: &Authorization, codec: &TokenCodec) -> (r: Result<
        JwtClaims,
        ErrorType,
    >)
        ensures
            exists|now: i64| r == #[trigger] extract_spec(*codec, *header, now),
    {
        let now = unix_now();
        JwtClaims::from_request_at(header, codec, now)
    }
}

/// An authentication token authenticates the user it was issued to: a
/// request that carries it in its header is taken for that user at every time
/// up to the expiry of the token, and for nobody after it.
pub proof fn law_auth_token_authenticates(
    codec: TokenCodec,
    header: Authorization,
    user_id: u128,
    issued: i64,
    ttl: i64,
    now: i64,
)
    requires
        expiry_fits(issued, ttl),
        header matches Authorization::Token(token) && codec.carries(
            token@,
            claims_at(TokenKind::Auth, user_id, issued, ttl),
        ),
    ensures
        now <= issued + ttl ==> extract_spec(codec, header, now) == Ok::<JwtClaims, ErrorType>(
            claims_at(TokenKind::Auth, user_id, issued, ttl),
        ),
        now > issued + ttl ==> extract_spec(codec, header, now) == Err::<JwtClaims, ErrorType>(
            ErrorType::Expired,
        ),
        claims_at(TokenKind::Auth, user_id, issued, ttl).dat == JwtType::User(user_id),
{
    let token = header->Token_0;
    law_expiry(codec, token@, claims_at(TokenKind::Auth, user_id, issued, ttl), now);
}

} // verus!
