//! Registering, verifying the e-mail address, and logging in.

use vstd::prelude::*;
use crate::claims::{JwtType, TokenKind};
use crate::error::{DatabaseError, ErrorType, QueryError, TokenError};
use crate::extractor::{extract_spec, law_auth_token_authenticates, Authorization};
use crate::forms::{EmailVerificationQuery, FormUser, LoginUser};
use crate::mail::{LinkSettings, Mailer, VerificationMail};
use crate::model::User;
use crate::password::{accepts, verify_text};
use crate::response::LoginResponse;
use crate::services::user::{is_verification_mail, mail_refusal, registered};
use crate::services::user::{UserResource, UserService};
use crate::table::{lemma_first_where, lemma_first_where_at};
use crate::token::{claims_at, law_expiry, TokenCodec};
use crate::token::{EMAIL_CONFIRMATION_TOKEN_EXPIRY_DAYS, SECONDS_PER_DAY, USER_TOKEN_EXPIRY_DAYS};

verus! {

/// Who logs in with the given form, or why nobody does. The form must meet
/// its rules; what it calls the e-mail address may be the user name; the user
/// must have verified their e-mail address and must have a password; and the
/// password must be the one given.
pub open spec fn login_check(params: LoginUser, users: UserService) -> Result<User, ErrorType> {
    if !params.errors_spec().is_empty_spec() {
        Err(ErrorType::Validation(params.errors_spec()))
    } else {
        match users.found_by_email_or_username(params.email@, params.email@) {
            None => Err(ErrorType::Invalid),
            Some(user) => if !user.is_activated {
                Err(ErrorType::EmailNotVerified)
            } else {
                match user.password_hash {
                    None => Err(ErrorType::Conflict),
                    Some(hash) => if accepts(params.password@, hash@) {
                        Ok(user)
                    } else {
                        Err(ErrorType::Invalid)
                    },
                }
            },
        }
    }
}

/// Answers a login at the time `now`, once it is known whether the password
/// that was given is the user's: a wrong password is answered as invalid; a
/// right one with an authentication token that is good for two days, unless
/// its expiry cannot be written as a time.
pub fn answer_login(user_res: &UserResource, accepted: bool, codec: &TokenCodec, now: i64) -> (r:
    Result<LoginResponse, ErrorType>)
    ensures
        if !accepted {
            r == Err::<LoginResponse, ErrorType>(ErrorType::Invalid)
        } else if now + USER_TOKEN_EXPIRY_DAYS * SECONDS_PER_DAY > i64::MAX {
            r == Err::<LoginResponse, ErrorType>(ErrorType::ServerError)
        } else {
            r matches Ok(response) && codec.carries(
                response.token@,
                claims_at(
                    TokenKind::Auth,
                    user_res.user().id,
                    now,
                    (USER_TOKEN_EXPIRY_DAYS * SECONDS_PER_DAY) as i64,
                ),
            )
        },
{
    if !accepted {
        return Err(ErrorType::Invalid);
    }
    if now > i64::MAX - USER_TOKEN_EXPIRY_DAYS * SECONDS_PER_DAY {
        return Err(ErrorType::ServerError);
    }
    match user_res.create_jwt(codec, now) {
        Ok(response) => Ok(response),
        Err(e) => Err(ErrorType::Database(e)),
    }
}

/// Logs a user in at the time `now`. Whoever passes the check gets an
/// authentication token that is good for two days, unless the expiry cannot
/// be written as a time.
pub fn login_user(params: &LoginUser, user_service: &UserService, codec: &TokenCodec, now: i64) -> (r:
    Result<LoginResponse, ErrorType>)
    ensures
        match login_check(*params, *user_service) {
            Err(e) => r == Err::<LoginResponse, ErrorType>(e),
            Ok(user) => if now + USER_TOKEN_EXPIRY_DAYS * SECONDS_PER_DAY > i64::MAX {
                r == Err::<LoginResponse, ErrorType>(ErrorType::ServerError)
            } else {
                r matches Ok(response) && codec.carries(
                    response.token@,
                    claims_at(
                        TokenKind::Auth,
                        user.id,
                        now,
                        (USER_TOKEN_EXPIRY_DAYS * SECONDS_PER_DAY) as i64,
                    ),
                )
            },
        },
{
    match params.validate() {
        Err(errors) => {
            return Err(ErrorType::Validation(errors));
        },
        Ok(_) => {},
    }
    let user_res = match user_service.get_by_email_or_username(&params.email, &params.email) {
        Some(found) => found,
        None => {
            return Err(ErrorType::Invalid);
        },
    };
    if !user_res.get().is_activated {
        return Err(ErrorType::EmailNotVerified);
    }
    let accepted = match &user_res.get().password_hash {
        Some(hash) => verify_text(params.password.as_str(), hash.as_str()),
        None => {
            return Err(ErrorType::Conflict);
        },
    };
    answer_login(&user_res, accepted, codec, now)
}

/// Why a registration is turned down before anything is stored: the form
/// breaks a rule, or the e-mail address or the user name is taken.
pub open spec fn registration_refusal(form: FormUser, users: UserService) -> Option<ErrorType> {
    if !form.errors_spec().is_empty_spec() {
        Some(ErrorType::Validation(form.errors_spec()))
    } else if users.found_by_email_or_username(form.email@, form.username@) is Some {
        Some(ErrorType::Conflict)
    } else {
        None
    }
}

/// Whether the user is the one that the form registers under the identifier
/// `id` at the time `now`: unverified, no superuser, not deleted, with the
/// names and addresses of the form, and with a hash for a password that
/// accepts the password of the form.
pub open spec fn registers(created: User, form: FormUser, id: u128, now: i64) -> bool {
    &&& created.password_hash matches Some(hash)
    &&& accepts(form.password@, hash@)
    &&& created == registered(form, id, now, hash)
}

/// Registers a user at the time `now` under the identifier `id`. The user is
/// stored unverified and cannot log in before the e-mail address has been
/// verified. An identifier that is taken is a failed statement; otherwise the
/// hasher decides whether the user is stored.
pub fn register_user(user: FormUser, user_service: &mut UserService, id: u128, now: i64) -> (r:
    Result<UserResource, ErrorType>)
    ensures
        match registration_refusal(user, *old(user_service)) {
            Some(e) => r == Err::<UserResource, ErrorType>(e) && final(user_service).rows() == old(user_service).rows(),
            None => match r {
                Ok(created) => {
                    &&& old(user_service).row_with_id(id) is None
                    &&& registers(created.user(), user, id, now)
                    &&& final(user_service).rows() == old(user_service).rows().push(created.user())
                },
                Err(e) => {
                    &&& final(user_service).rows() == old(user_service).rows()
                    &&& old(user_service).row_with_id(id) is Some ==> e == ErrorType::Database(
                        DatabaseError::Query(QueryError::Other),
                    )
                    &&& old(user_service).row_with_id(id) is None ==> e == ErrorType::Database(
                        DatabaseError::Hash,
                    ) || e == ErrorType::Database(DatabaseError::Other)
                },
            },
        },
{
    match user.validate() {
        Err(errors) => {
            return Err(ErrorType::Validation(errors));
        },
        Ok(_) => {},
    }
    if user_service.get_by_email_or_username(&user.email, &user.username).is_some() {
        return Err(ErrorType::Conflict);
    }
    match user_service.create(user, id, now) {
        Ok(created) => Ok(created),
        Err(e) => Err(ErrorType::Database(e)),
    }
}

/// Why a user who has registered gets no verification mail, if they get none:
/// the mail cannot be built, or the dispatcher has not been started.
pub open spec fn invitation_refusal(
    user: User,
    now: i64,
    settings: LinkSettings,
    mailer: Mailer,
) -> Option<ErrorType> {
    match mail_refusal(user, now, settings) {
        Some(e) => Some(ErrorType::Database(e)),
        None => if mailer.is_started() {
            None
        } else {
            Some(ErrorType::Database(DatabaseError::Other))
        },
    }
}

/// Builds the verification mail for a user who has registered, and makes sure
/// that the dispatcher takes mail. The one mail that comes back is the one to
/// hand over.
pub fn invite(
    created: &UserResource,
    codec: &TokenCodec,
    now: i64,
    settings: &LinkSettings,
    mailer: &Mailer,
) -> (r: Result<VerificationMail, ErrorType>)
    ensures
        match r {
            Ok(mail) => invitation_refusal(created.user(), now, *settings, *mailer) is None
                && is_verification_mail(created.user(), *codec, now, *settings, mail),
            Err(e) => invitation_refusal(created.user(), now, *settings, *mailer) == Some(e),
        },
{
    let mail = match created.get_email_jwt_url(codec, now, settings) {
        Ok(mail) => mail,
        Err(e) => {
            return Err(ErrorType::Database(e));
        },
    };
    match mailer.queue_mail() {
        Ok(_) => Ok(mail),
        Err(_) => Err(ErrorType::Database(DatabaseError::Other)),
    }
}

/// Registers a user and builds their verification mail, at the time `now`.
///
/// A form that is turned down changes nothing, and neither does an
/// identifier that is taken, which is a failed statement. Otherwise the hasher
/// decides whether the user is stored, under an identifier that was free; and
/// once the user is stored they stay stored,
/// whether or not the mail can be built and handed over. Where a mail comes
/// back, exactly one user was added, the one that the form registers, and the
/// mail is the one verification mail for them.
pub fn register_and_invite(
    user: FormUser,
    user_service: &mut UserService,
    id: u128,
    now: i64,
    codec: &TokenCodec,
    settings: &LinkSettings,
    mailer: &Mailer,
) -> (r: Result<VerificationMail, ErrorType>)
    ensures
        match registration_refusal(user, *old(user_service)) {
            Some(e) => r == Err::<VerificationMail, ErrorType>(e) && final(user_service).rows()
                == old(user_service).rows(),
            None => if old(user_service).row_with_id(id) is Some {
                r == Err::<VerificationMail, ErrorType>(
                    ErrorType::Database(DatabaseError::Query(QueryError::Other)),
                ) && final(user_service).rows() == old(user_service).rows()
            } else {
                ||| {
                    &&& r matches Err(e)
                    &&& e == ErrorType::Database(DatabaseError::Hash) || e == ErrorType::Database(
                        DatabaseError::Other,
                    )
                    &&& final(user_service).rows() == old(user_service).rows()
                }
                ||| exists|created: User|
                    {
                        &&& #[trigger] registers(created, user, id, now)
                        &&& final(user_service).rows() == old(user_service).rows().push(created)
                        &&& match r {
                            Ok(mail) => invitation_refusal(created, now, *settings, *mailer) is None
                                && is_verification_mail(created, *codec, now, *settings, mail),
                            Err(e) => invitation_refusal(created, now, *settings, *mailer) == Some(
                                e,
                            ),
                        }
                    }
            },
        },
{
    let created = match register_user(user, user_service, id, now) {
        Ok(created) => created,
        Err(e) => {
            return Err(e);
        },
    };
    assert(registers(created.user(), user, id, now));
    invite(&created, codec, now, settings, mailer)
}

/// Whose e-mail address the key of a verification link verifies at the time
/// `now`, or why nobody's: the key must verify as an e-mail verification
/// token, and the user it names must be there.
pub open spec fn verification_check(
    codec: TokenCodec,
    key: Seq<char>,
    users: UserService,
    now: i64,
) -> Result<User, ErrorType> {
    match codec.verify_spec(TokenKind::EmailVerification, key, now) {
        Err(TokenError::Invalid) => Err(ErrorType::Invalid),
        Err(TokenError::Expired) => Err(ErrorType::Expired),
        Ok(claims) => match users.found_by_id(claims.dat.id_spec()) {
            Some(user) => Ok(user),
            None => Err(ErrorType::ServerError),
        },
    }
}

/// Verifies the e-mail address that a verification link is for, at the time
/// `now`. The user that the key names is activated, in the very row in which
/// they were found, and no other row changes; following the link again
/// changes nothing more.
pub fn verify_email(
    query: &EmailVerificationQuery,
    user_service: &mut UserService,
    codec: &TokenCodec,
    now: i64,
) -> (r: Result<(), ErrorType>)
    ensures
        match verification_check(*codec, query.email_key@, *old(user_service), now) {
            Err(e) => r == Err::<(), ErrorType>(e) && final(user_service).rows() == old(user_service).rows(),
            Ok(user) => r is Ok && exists|i: int|
                #[trigger] old(user_service).found_at(user.id, i) && old(user_service).rows()[i]
                    == user && final(user_service).rows() == old(user_service).rows().update(
                    i,
                    user.activated(),
                ),
        },
{
    let claims = match UserResource::verify_email_jwt(codec, query.email_key.as_str(), now) {
        Ok(claims) => claims,
        Err(e) => {
            return Err(ErrorType::from(e));
        },
    };
    let mut user_res = match user_service.get_by_id(claims.dat.id()) {
        Some(found) => found,
        None => {
            return Err(ErrorType::ServerError);
        },
    };
    user_res.activate();
    proof {
        lemma_first_where(
            user_service.rows(),
            |u: User| !u.is_deleted && u.id == claims.dat.id_spec(),
        );
        lemma_first_where(user_service.rows(), |u: User| u.id == user_res.user().id);
    }
    match user_service.save(user_res.get()) {
        Ok(_) => Ok(()),
        Err(_) => Err(ErrorType::ServerError),
    }
}

/// A login authenticates: the token that a login at the time `now` answers
/// with, carried in the header of a request, makes the request that of the
/// user who logged in, at every time up to two days later.
pub proof fn law_login_authenticates(
    params: LoginUser,
    users: UserService,
    user: User,
    codec: TokenCodec,
    header: Authorization,
    now: i64,
    later: i64,
)
    requires
        login_check(params, users) == Ok::<User, ErrorType>(user),
        now + USER_TOKEN_EXPIRY_DAYS * SECONDS_PER_DAY <= i64::MAX,
        header matches Authorization::Token(token) && codec.carries(
            token@,
            claims_at(
                TokenKind::Auth,
                user.id,
                now,
                (USER_TOKEN_EXPIRY_DAYS * SECONDS_PER_DAY) as i64,
            ),
        ),
        later <= now + USER_TOKEN_EXPIRY_DAYS * SECONDS_PER_DAY,
    ensures
        extract_spec(codec, header, later) matches Ok(claims) && claims.dat == JwtType::User(
            user.id,
        ) && claims.sub == user.id,
{
    law_auth_token_authenticates(
        codec,
        header,
        user.id,
        now,
        (USER_TOKEN_EXPIRY_DAYS * SECONDS_PER_DAY) as i64,
        later,
    );
}

/// The key that a registration sends out verifies the registration: for a
/// user who was stored under an identifier that nobody had, the token of their
/// verification mail names them, up to one day after it was issued.
pub proof fn law_invitation_verifies(
    before: UserService,
    after: UserService,
    created: User,
    codec: TokenCodec,
    token: Seq<char>,
    now: i64,
    later: i64,
)
    requires
        before.row_with_id(created.id) is None,
        after.rows() == before.rows().push(created),
        !created.is_deleted,
        now + EMAIL_CONFIRMATION_TOKEN_EXPIRY_DAYS * SECONDS_PER_DAY <= i64::MAX,
        codec.carries(
            token,
            claims_at(
                TokenKind::EmailVerification,
                created.id,
                now,
                (EMAIL_CONFIRMATION_TOKEN_EXPIRY_DAYS * SECONDS_PER_DAY) as i64,
            ),
        ),
        later <= now + EMAIL_CONFIRMATION_TOKEN_EXPIRY_DAYS * SECONDS_PER_DAY,
    ensures
        verification_check(codec, token, after, later) == Ok::<User, ErrorType>(created),
{
    let id = created.id;
    let claims = claims_at(
        TokenKind::EmailVerification,
        id,
        now,
        (EMAIL_CONFIRMATION_TOKEN_EXPIRY_DAYS * SECONDS_PER_DAY) as i64,
    );
    law_expiry(codec, token, claims, later);
    lemma_first_where(before.rows(), |u: User| u.id == id);
    let rows = after.rows();
    let last = rows.len() - 1;
    assert(rows[last] == created);
    assert forall|j: int| 0 <= j < last implies !(|u: User| !u.is_deleted && u.id == id)(
        #[trigger] rows[j],
    ) by {
        assert(rows[j] == before.rows()[j]);
    }
    lemma_first_where_at(rows, |u: User| !u.is_deleted && u.id == id, last);
}

} // verus!
