//! Signing and verifying tokens.
//!
//! A [`TokenCodec`] holds one secret for each trust domain. It signs claims
//! with the secret of the domain they belong to, and accepts a token for a
//! domain only if it opens under that domain's secret, carries that domain's
//! tag, and has not expired.

use vstd::prelude::*;
use crate::claims::{JwtClaims, JwtType, TokenKind};
use crate::error::{DatabaseError, TokenError};
use crate::payload::{claims_of_text, claims_text, is_claims_text, parse_claims, render_claims};
use crate::payload::{lemma_claims_of_text};

verus! {

/// The number of seconds in a day.
pub const SECONDS_PER_DAY: i64 = 86_400;

/// How many days an e-mail verification token holds.
pub const EMAIL_CONFIRMATION_TOKEN_EXPIRY_DAYS: i64 = 1;

/// How many days an authentication token holds.
pub const USER_TOKEN_EXPIRY_DAYS: i64 = 2;

/// The error of the `jsonwebtoken` crate. The library looks no further into it
/// than whether there is one.
#[verifier::external_type_specification]
#[verifier::external_body]
pub struct ExJwtError(jsonwebtoken::errors::Error);

/// What `jsonwebtoken::decode` finds in a token under a secret, with HS256
/// as the only algorithm and no check of the claims: the text of the claims if
/// the token is well formed and its signature is that of the secret, else
/// nothing.
pub uninterp spec fn token_payload(token: Seq<char>, secret: Seq<u8>) -> Option<Seq<u8>>;

/// Calls `jsonwebtoken::decode` on the token with the secret as an HMAC key.
/// The crate's own checks of the claims are switched off, `exp` included: what
/// comes back depends on the token and the secret alone, and the library
/// compares the expiry with the clock itself. The claims are handed out as the
/// JSON text that the token holds, not read into a value.
#[verifier::external_body]
fn open_token(token: &str, secret: &[u8]) -> (r: Result<Vec<u8>, jsonwebtoken::errors::Error>)
    ensures
        match r {
            Ok(payload) => token_payload(token@, secret@) == Some(payload@),
            Err(_) => token_payload(token@, secret@) is None,
        },
{
    let mut validation = jsonwebtoken::Validation::new(jsonwebtoken::Algorithm::HS256);
    validation.required_spec_claims.clear();
    validation.validate_exp = false;
    validation.validate_aud = false;
    let key = jsonwebtoken::DecodingKey::from_secret(secret);
    let data = jsonwebtoken::decode::<Box<serde_json::value::RawValue>>(token, &key, &validation)?;
    Ok(data.claims.get().as_bytes().to_vec())
}

/// Calls `jsonwebtoken::encode` with an HS256 header, the given text as the
/// claims, and the secret as an HMAC key. The text goes into the token byte for
/// byte.
///
/// The contract claims that a token comes back. A claims text is ASCII, so
/// `String::from_utf8` takes it; it is one JSON object with no white space
/// around it, so `RawValue::from_string` takes it as it is; and `encode` fails
/// only where the key is of another family than the header's algorithm or
/// where signing fails, neither of which an HMAC key under HS256 can do: the
/// signature is computed, never refused.
///
/// The contract claims of that token: under the secret it was signed with,
/// `jsonwebtoken::decode` gives the text back; under any other secret it fails
/// or gives that same text, since the text is read from the token and the
/// secret only decides whether the signature is accepted.
#[verifier::external_body]
fn sign_payload(payload: &[u8], secret: &[u8]) -> (r: Result<String, jsonwebtoken::errors::Error>)
    requires
        is_claims_text(payload@),
    ensures
        r is Ok,
        r matches Ok(token) ==> token_payload(token@, secret@) == Some(payload@),
        r matches Ok(token) ==> forall|other: Seq<u8>| #[trigger]
            token_payload(token@, other) is Some ==> token_payload(token@, other) == Some(
                payload@,
            ),
{
    let text = String::from_utf8(payload.to_vec())?;
    let raw = serde_json::value::RawValue::from_string(text)?;
    let header = jsonwebtoken::Header::new(jsonwebtoken::Algorithm::HS256);
    jsonwebtoken::encode(&header, &raw, &jsonwebtoken::EncodingKey::from_secret(secret))
}

/// Calls `chrono::Utc::now` and gives the time in whole seconds since the
/// epoch. Nothing is promised of it: the clock may say anything.
#[verifier::external_body]
pub(crate) fn unix_now() -> i64 {
    chrono::Utc::now().timestamp()
}

/// Signs and verifies the tokens of the three trust domains.
pub struct TokenCodec {
    auth_secret: Vec<u8>,
    email_secret: Vec<u8>,
    ticket_secret: Vec<u8>,
}

/// What is decided of a token once it has been opened: `opened` is the text
/// found in it, or `None` if it did not open under the secret of `kind`.
pub open spec fn judge_spec(kind: TokenKind, opened: Option<Seq<u8>>, now: i64) -> Result<
    JwtClaims,
    TokenError,
> {
    match opened {
        None => Err(TokenError::Invalid),
        Some(text) => match claims_of_text(text) {
            None => Err(TokenError::Invalid),
            Some(claims) => if claims.dat.kind_spec() != kind {
                Err(TokenError::Invalid)
            } else if now > claims.exp {
                Err(TokenError::Expired)
            } else {
                Ok(claims)
            },
        },
    }
}

/// Decides what a token is worth once it has been opened. Text that is not the
/// text of claims, and claims of another trust domain, are invalid; claims of
/// the right domain whose expiry lies before `now` are expired; all others are
/// accepted.
pub fn judge(kind: TokenKind, opened: Option<Vec<u8>>, now: i64) -> (r: Result<
    JwtClaims,
    TokenError,
>)
    ensures
        r == judge_spec(
            kind,
            match opened {
                Some(text) => Some(text@),
                None => None,
            },
            now,
        ),
{
    match opened {
        None => Err(TokenError::Invalid),
        Some(text) => match parse_claims(text.as_slice()) {
            None => Err(TokenError::Invalid),
            Some(claims) => {
                if claims.dat.kind() != kind {
                    Err(TokenError::Invalid)
                } else if now > claims.exp {
                    Err(TokenError::Expired)
                } else {
                    Ok(claims)
                }
            },
        },
    }
}

/// What the signer's answer becomes: a token stays a token, any failure is
/// reported as a failure to create the token.
pub fn signed(outcome: Result<String, jsonwebtoken::errors::Error>) -> (r: Result<
    String,
    DatabaseError,
>)
    ensures
        match outcome {
            Ok(token) => r == Ok::<String, DatabaseError>(token),
            Err(_) => r == Err::<String, DatabaseError>(DatabaseError::Jwt),
        },
{
    match outcome {
        Ok(token) => Ok(token),
        Err(_) => Err(DatabaseError::Jwt),
    }
}

/// Whether a token issued at `now` for `ttl` seconds has an expiry that can be
/// written as a time.
pub open spec fn expiry_fits(now: i64, ttl: i64) -> bool {
    i64::MIN <= now + ttl <= i64::MAX
}

/// The claims of a token that names `subject` in the domain `kind`, issued at
/// `now` for `ttl` seconds.
pub open spec fn claims_at(kind: TokenKind, subject: u128, now: i64, ttl: i64) -> JwtClaims {
    JwtClaims {
        dat: JwtType::of_spec(kind, subject),
        sub: subject,
        iat: now,
        exp: (now + ttl) as i64,
    }
}

impl TokenCodec {
    /// A codec with the given secrets.
    pub fn new(auth_secret: Vec<u8>, email_secret: Vec<u8>, ticket_secret: Vec<u8>) -> (codec:
        TokenCodec)
        ensures
            codec.secret_of(TokenKind::Auth) == auth_secret@,
            codec.secret_of(TokenKind::EmailVerification) == email_secret@,
            codec.secret_of(TokenKind::TicketRedemption) == ticket_secret@,
    {
        TokenCodec { auth_secret, email_secret, ticket_secret }
    }

    /// The secret of a trust domain.
    pub closed spec fn secret_of(&self, kind: TokenKind) -> Seq<u8> {
        match kind {
            TokenKind::Auth => self.auth_secret@,
            TokenKind::EmailVerification => self.email_secret@,
            TokenKind::TicketRedemption => self.ticket_secret@,
        }
    }

    fn secret(&self, kind: TokenKind) -> (r: &Vec<u8>)
        ensures
            r@ == self.secret_of(kind),
    {
        match kind {
            TokenKind::Auth => &self.auth_secret,
            TokenKind::EmailVerification => &self.email_secret,
            TokenKind::TicketRedemption => &self.ticket_secret,
        }
    }

    /// Whether the token is one that this codec signed for the claims: it opens
    /// to the text of the claims under the secret of their domain, and to
    /// nothing else under any secret.
    pub open spec fn carries(&self, token: Seq<char>, claims: JwtClaims) -> bool {
        &&& token_payload(token, self.secret_of(claims.dat.kind_spec())) == Some(
            claims_text(claims),
        )
        &&& forall|other: Seq<u8>| #[trigger]
            token_payload(token, other) is Some ==> token_payload(token, other) == Some(
                claims_text(claims),
            )
    }

    /// What verifying the token for the domain `kind` at the time `now` gives.
    pub open spec fn verify_spec(&self, kind: TokenKind, token: Seq<char>, now: i64) -> Result<
        JwtClaims,
        TokenError,
    > {
        judge_spec(kind, token_payload(token, self.secret_of(kind)), now)
    }

    /// Signs the claims with the secret of their domain. A token always comes
    /// back, and it carries exactly these claims.
    pub fn sign(&self, claims: &JwtClaims) -> (r: Result<String, DatabaseError>)
        ensures
            r matches Ok(token) && self.carries(token@, *claims),
    {
        let text = render_claims(claims);
        let outcome = sign_payload(text.as_slice(), self.secret(claims.dat.kind()).as_slice());
        signed(outcome)
    }

    /// Issues a token of the domain `kind` for `subject` at the time `now`: it
    /// is issued at `now` and expires `ttl` seconds later.
    pub fn issue_at(&self, kind: TokenKind, subject: u128, now: i64, ttl: i64) -> (r: Result<
        String,
        DatabaseError,
    >)
        requires
            expiry_fits(now, ttl),
        ensures
            r matches Ok(token) && self.carries(token@, claims_at(kind, subject, now, ttl)),
    {
        let claims = JwtClaims {
            dat: JwtType::of(kind, subject),
            sub: subject,
            iat: now,
            exp: now + ttl,
        };
        self.sign(&claims)
    }

    /// Issues a token of the domain `kind` for `subject` now, for `ttl`
    /// seconds. A token is issued whenever its expiry can be written as a
    /// time; where the clock stands so that it cannot, none is.
    pub fn issue(&self, kind: TokenKind, subject: u128, ttl: i64) -> (r: Result<
        String,
        DatabaseError,
    >)
        ensures
            match r {
                Ok(token) => exists|now: i64|
                    expiry_fits(now, ttl) && #[trigger] self.carries(
                        token@,
                        claims_at(kind, subject, now, ttl),
                    ),
                Err(e) => e == DatabaseError::Other && exists|now: i64|
                    !#[trigger] expiry_fits(now, ttl),
            },
    {
        let now = unix_now();
        match now.checked_add(ttl) {
            None => Err(DatabaseError::Other),
            Some(_) => self.issue_at(kind, subject, now, ttl),
        }
    }

    /// Verifies a token for the domain `kind` at the time `now`: it must open
    /// under the secret of that domain, hold the text of claims of that domain,
    /// and not have expired before `now`.
    pub fn verify_at(&self, kind: TokenKind, token: &str, now: i64) -> (r: Result<
        JwtClaims,
        TokenError,
    >)
        ensures
            r == self.verify_spec(kind, token@, now),
    {
        let opened = match open_token(token, self.secret(kind).as_slice()) {
            Ok(text) => Some(text),
            Err(_) => None,
        };
        judge(kind, opened, now)
    }

    /// Verifies a token for the domain `kind` against the clock.
    pub fn verify(&self, kind: TokenKind, token: &str) -> (r: Result<JwtClaims, TokenError>)
        ensures
            exists|now: i64| r == #[trigger] self.verify_spec(kind, token@, now),
    {
        let now = unix_now();
        self.verify_at(kind, token, now)
    }
}

/// A token verifies in no domain but its own: verifying it for any other
/// domain fails as invalid, at every time, whatever the secrets are, even if
/// two domains should share one.
pub proof fn law_domain_separation(
    codec: TokenCodec,
    token: Seq<char>,
    claims: JwtClaims,
    kind: TokenKind,
    now: i64,
)
    requires
        codec.carries(token, claims),
        claims.dat.kind_spec() != kind,
    ensures
        codec.verify_spec(kind, token, now) == Err::<JwtClaims, TokenError>(TokenError::Invalid),
{
    lemma_claims_of_text(claims);
    let opened = token_payload(token, codec.secret_of(kind));
    if opened is Some {
        assert(opened == Some(claims_text(claims)));
    }
}

/// In its own domain a token is accepted, with the claims it was signed for,
/// up to and at its expiry, and is expired at every later time.
pub proof fn law_expiry(codec: TokenCodec, token: Seq<char>, claims: JwtClaims, now: i64)
    requires
        codec.carries(token, claims),
    ensures
        now <= claims.exp ==> codec.verify_spec(claims.dat.kind_spec(), token, now) == Ok::<
            JwtClaims,
            TokenError,
        >(claims),
        now > claims.exp ==> codec.verify_spec(claims.dat.kind_spec(), token, now) == Err::<
            JwtClaims,
            TokenError,
        >(TokenError::Expired),
{
    lemma_claims_of_text(claims);
}

/// A token issued for no time at all is expired at every instant after the one
/// it was issued at.
pub proof fn law_zero_ttl_expires(
    codec: TokenCodec,
    token: Seq<char>,
    kind: TokenKind,
    subject: u128,
    issued: i64,
    now: i64,
)
    requires
        codec.carries(token, claims_at(kind, subject, issued, 0)),
        now > issued,
    ensures
        codec.verify_spec(kind, token, now) == Err::<JwtClaims, TokenError>(TokenError::Expired),
{
    law_expiry(codec, token, claims_at(kind, subject, issued, 0), now);
}

/// Once a token has expired it stays expired.
pub proof fn law_expiry_monotone(
    codec: TokenCodec,
    kind: TokenKind,
    token: Seq<char>,
    earlier: i64,
    later: i64,
)
    requires
        earlier <= later,
        codec.verify_spec(kind, token, earlier) == Err::<JwtClaims, TokenError>(
            TokenError::Expired,
        ),
    ensures
        codec.verify_spec(kind, token, later) == Err::<JwtClaims, TokenError>(TokenError::Expired),
{
}

} // verus!
