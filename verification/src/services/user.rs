//! The users, and what a single user can do with tokens.

use vstd::prelude::*;
use vstd::string::StringExecFns;
use crate::claims::{JwtClaims, JwtType, TokenKind};
use crate::error::{DatabaseError, QueryError, TokenError};
use crate::forms::{FormUser, UpdateUser};
use crate::mail::{address_accepted, is_address, verification_body, write_verification_body};
use crate::mail::{LinkSettings, VerificationMail};
use crate::model::{Ticket, User};
use crate::password::{accepts, hash_text};
use crate::response::LoginResponse;
use crate::table::{first_where, lemma_first_where_at, lemma_first_where_skip};
use crate::token::{claims_at, TokenCodec};
use crate::token::{EMAIL_CONFIRMATION_TOKEN_EXPIRY_DAYS, SECONDS_PER_DAY, USER_TOKEN_EXPIRY_DAYS};

verus! {

/// The table of users. A user that was deleted stays in the table, marked,
/// and is found by no query.
pub struct UserService {
    users: Vec<User>,
}

/// One user, as a request works with them.
#[derive(Debug, Clone, PartialEq, Eq)]
pub struct UserResource {
    user: User,
}

/// One ticket, as a request works with it.
#[derive(Debug, Clone, Copy, PartialEq, Eq, Structural)]
pub struct TicketResource {
    ticket: Ticket,
}

/// The user that a registration makes: not yet verified, no superuser, with
/// the given hash as the password.
pub open spec fn registered(form: FormUser, id: u128, now: i64, hash: String) -> User {
    User {
        id,
        first_name: form.first_name,
        last_name: form.last_name,
        email: form.email,
        username: form.username,
        password_hash: Some(hash),
        created_at: now,
        is_super_user: false,
        is_activated: false,
        is_deleted: false,
    }
}

/// Why no verification mail is built, if none is, where `from_ok` and `to_ok`
/// say whether the sender's and the user's address are addresses: a setting is
/// missing, or the expiry of the token cannot be written as a time, or one of
/// the two addresses is no address.
pub open spec fn mail_refusal_given(
    now: i64,
    settings: LinkSettings,
    from_ok: bool,
    to_ok: bool,
) -> Option<DatabaseError> {
    if settings.gmail_user is None || settings.server_protocol is None
        || settings.server_domain is None || settings.server_port is None {
        Some(DatabaseError::Other)
    } else if now + EMAIL_CONFIRMATION_TOKEN_EXPIRY_DAYS * SECONDS_PER_DAY > i64::MAX {
        Some(DatabaseError::Other)
    } else if !from_ok || !to_ok {
        Some(DatabaseError::EmailBuild)
    } else {
        None
    }
}

/// Whether the sender's address of the settings is an address. A sender that
/// is missing has none.
pub open spec fn sender_accepted(settings: LinkSettings) -> bool {
    match settings.gmail_user {
        Some(from) => address_accepted(from@),
        None => false,
    }
}

/// Why no verification mail is built for the user, if none is: a setting is
/// missing, or the expiry of the token cannot be written as a time, or one of
/// the two addresses is no address.
pub open spec fn mail_refusal(user: User, now: i64, settings: LinkSettings) -> Option<DatabaseError> {
    mail_refusal_given(now, settings, sender_accepted(settings), address_accepted(user.email@))
}

/// Whether the mail is the verification mail for the user, built at the time
/// `now`: it goes from "Nice Movies", at the address of the settings, to the
/// address of the user; its body shows the link of the settings; and the
/// token in the link is an e-mail verification token for the user, issued at
/// `now` and good for one day.
pub open spec fn is_verification_mail(
    user: User,
    codec: TokenCodec,
    now: i64,
    settings: LinkSettings,
    mail: VerificationMail,
) -> bool {
    &&& mail.from_name@ == "Nice Movies"@
    &&& Some(mail.from_address) == settings.gmail_user
    &&& mail.to_address == user.email
    &&& mail.subject@ == "Verification Cinemaroo"@
    &&& mail.body@ == verification_body(
        settings.server_protocol.unwrap()@,
        settings.server_domain.unwrap()@,
        settings.server_port.unwrap()@,
        mail.token@,
    )
    &&& codec.carries(
        mail.token@,
        claims_at(
            TokenKind::EmailVerification,
            user.id,
            now,
            (EMAIL_CONFIRMATION_TOKEN_EXPIRY_DAYS * SECONDS_PER_DAY) as i64,
        ),
    )
}

impl UserService {
    /// The table with the given rows.
    pub fn new(users: Vec<User>) -> (r: UserService)
        ensures
            r.rows() == users@,
    {
        UserService { users }
    }

    /// The rows of the table, deleted ones included.
    pub closed spec fn rows(&self) -> Seq<User> {
        self.users@
    }

    /// The first user, deleted or not, with the given identifier.
    pub open spec fn row_with_id(&self, id: u128) -> Option<User> {
        first_where(self.rows(), |u: User| u.id == id)
    }

    /// The first user that is not deleted and has the given identifier.
    pub open spec fn found_by_id(&self, id: u128) -> Option<User> {
        first_where(self.rows(), |u: User| !u.is_deleted && u.id == id)
    }

    /// The first user that is not deleted and has the given e-mail address.
    pub open spec fn found_by_email(&self, email: Seq<char>) -> Option<User> {
        first_where(self.rows(), |u: User| !u.is_deleted && u.email@ == email)
    }

    /// The first user that is not deleted and has the given e-mail address or
    /// the given user name.
    pub open spec fn found_by_email_or_username(
        &self,
        email: Seq<char>,
        username: Seq<char>,
    ) -> Option<User> {
        first_where(
            self.rows(),
            |u: User| !u.is_deleted && (u.email@ == email || u.username@ == username),
        )
    }

    /// Whether row `at` is the row that a search for the identifier finds: it
    /// is not deleted and has the identifier, and no row before it is such.
    pub open spec fn found_at(&self, id: u128, at: int) -> bool {
        &&& 0 <= at < self.rows().len()
        &&& !self.rows()[at].is_deleted && self.rows()[at].id == id
        &&& forall|j: int|
            0 <= j < at ==> (#[trigger] self.rows()[j]).is_deleted || self.rows()[j].id != id
    }

    /// The row that a search for an identifier finds stands at one place only,
    /// and it is the user that the search gives.
    pub proof fn lemma_found_at(&self, id: u128, at: int)
        requires
            self.found_at(id, at),
        ensures
            self.found_by_id(id) == Some(self.rows()[at]),
            forall|other: int| self.found_at(id, other) ==> other == at,
    {
        lemma_first_where_at(self.rows(), |u: User| !u.is_deleted && u.id == id, at);
    }

    fn position_found(&self, id: u128) -> (r: Option<usize>)
        ensures
            match r {
                Some(i) => self.found_at(id, i as int) && self.found_by_id(id) == Some(
                    self.users@[i as int],
                ),
                None => self.found_by_id(id) is None,
            },
    {
        let ghost wanted = |u: User| !u.is_deleted && u.id == id;
        let mut i: usize = 0;
        assert(self.users@.subrange(0, self.users@.len() as int) == self.users@);
        while i < self.users.len()
            invariant
                i <= self.users.len(),
                wanted == (|u: User| !u.is_deleted && u.id == id),
                first_where(self.users@, wanted) == first_where(
                    self.users@.subrange(i as int, self.users@.len() as int),
                    wanted,
                ),
                forall|j: int|
                    0 <= j < i ==> (#[trigger] self.users@[j]).is_deleted || self.users@[j].id
                        != id,
            decreases self.users.len() - i,
        {
            if !self.users[i].is_deleted && self.users[i].id == id {
                proof {
                    lemma_first_where_at(self.users@, wanted, i as int);
                }
                return Some(i);
            }
            proof {
                lemma_first_where_skip(self.users@, wanted, i as int);
            }
            i += 1;
        }
        None
    }

    fn position_of(&self, id: u128) -> (r: Option<usize>)
        ensures
            match r {
                Some(i) => i < self.users@.len() && self.row_with_id(id) == Some(self.users@[i as int]),
                None => self.row_with_id(id) is None,
            },
    {
        let ghost wanted = |u: User| u.id == id;
        let mut i: usize = 0;
        assert(self.users@.subrange(0, self.users@.len() as int) == self.users@);
        while i < self.users.len()
            invariant
                i <= self.users.len(),
                wanted == (|u: User| u.id == id),
                first_where(self.users@, wanted) == first_where(
                    self.users@.subrange(i as int, self.users@.len() as int),
                    wanted,
                ),
            decreases self.users.len() - i,
        {
            if self.users[i].id == id {
                return Some(i);
            }
            proof {
                lemma_first_where_skip(self.users@, wanted, i as int);
            }
            i += 1;
        }
        None
    }

    /// Registers a user under the given identifier. The password is stored as
    /// a hash that accepts it. An identifier that is already taken, by a
    /// deleted user too, is refused as a failed statement.
    pub fn create(&mut self, user: FormUser, id: u128, now: i64) -> (r: Result<
        UserResource,
        DatabaseError,
    >)
        ensures
            match r {
                Ok(created) => {
                    &&& old(self).row_with_id(id) is None
                    &&& created.user().password_hash matches Some(hash)
                    &&& accepts(user.password@, hash@)
                    &&& created.user() == registered(user, id, now, hash)
                    &&& final(self).rows() == old(self).rows().push(created.user())
                },
                Err(e) => {
                    &&& final(self).rows() == old(self).rows()
                    &&& old(self).row_with_id(id) is Some ==> e == DatabaseError::Query(
                        QueryError::Other,
                    )
                    &&& old(self).row_with_id(id) is None ==> e == DatabaseError::Hash || e
                        == DatabaseError::Other
                },
            },
    {
        if self.position_of(id).is_some() {
            return Err(DatabaseError::Query(QueryError::Other));
        }
        let hash = match hash_text(user.password.as_str()) {
            Ok(h) => h,
            Err(e) => {
                return Err(e);
            },
        };
        let stored = User {
            id,
            first_name: user.first_name,
            last_name: user.last_name,
            email: user.email,
            username: user.username,
            password_hash: Some(hash),
            created_at: now,
            is_super_user: false,
            is_activated: false,
            is_deleted: false,
        };
        let created = UserResource { user: stored.duplicate() };
        self.users.push(stored);
        Ok(created)
    }

    /// The user with the given e-mail address. Deleted users are not found.
    pub fn get_by_email(&self, email: &String) -> (r: Option<UserResource>)
        ensures
            match r {
                Some(found) => self.found_by_email(email@) == Some(found.user()),
                None => self.found_by_email(email@) is None,
            },
    {
        let ghost wanted = |u: User| !u.is_deleted && u.email@ == email@;
        let mut i: usize = 0;
        assert(self.users@.subrange(0, self.users@.len() as int) == self.users@);
        while i < self.users.len()
            invariant
                i <= self.users.len(),
                wanted == (|u: User| !u.is_deleted && u.email@ == email@),
                first_where(self.users@, wanted) == first_where(
                    self.users@.subrange(i as int, self.users@.len() as int),
                    wanted,
                ),
            decreases self.users.len() - i,
        {
            if !self.users[i].is_deleted && self.users[i].email == *email {
                return Some(UserResource { user: self.users[i].duplicate() });
            }
            proof {
                lemma_first_where_skip(self.users@, wanted, i as int);
            }
            i += 1;
        }
        None
    }

    /// The user with the given e-mail address or the given user name. Deleted
    /// users are not found.
    pub fn get_by_email_or_username(&self, email: &String, username: &String) -> (r: Option<
        UserResource,
    >)
        ensures
            match r {
                Some(found) => self.found_by_email_or_username(email@, username@) == Some(
                    found.user(),
                ),
                None => self.found_by_email_or_username(email@, username@) is None,
            },
    {
        let ghost wanted = |u: User|
            !u.is_deleted && (u.email@ == email@ || u.username@ == username@);
        let mut i: usize = 0;
        assert(self.users@.subrange(0, self.users@.len() as int) == self.users@);
        while i < self.users.len()
            invariant
                i <= self.users.len(),
                wanted == (|u: User|
                    !u.is_deleted && (u.email@ == email@ || u.username@ == username@)),
                first_where(self.users@, wanted) == first_where(
                    self.users@.subrange(i as int, self.users@.len() as int),
                    wanted,
                ),
            decreases self.users.len() - i,
        {
            if !self.users[i].is_deleted && (self.users[i].email == *email
                || self.users[i].username == *username) {
                return Some(UserResource { user: self.users[i].duplicate() });
            }
            proof {
                lemma_first_where_skip(self.users@, wanted, i as int);
            }
            i += 1;
        }
        None
    }

    /// The user with the given identifier. Deleted users are not found.
    pub fn get_by_id(&self, id: u128) -> (r: Option<UserResource>)
        ensures
            match r {
                Some(found) => self.found_by_id(id) == Some(found.user()),
                None => self.found_by_id(id) is None,
            },
    {
        let ghost wanted = |u: User| !u.is_deleted && u.id == id;
        let mut i: usize = 0;
        assert(self.users@.subrange(0, self.users@.len() as int) == self.users@);
        while i < self.users.len()
            invariant
                i <= self.users.len(),
                wanted == (|u: User| !u.is_deleted && u.id == id),
                first_where(self.users@, wanted) == first_where(
                    self.users@.subrange(i as int, self.users@.len() as int),
                    wanted,
                ),
            decreases self.users.len() - i,
        {
            if !self.users[i].is_deleted && self.users[i].id == id {
                return Some(UserResource { user: self.users[i].duplicate() });
            }
            proof {
                lemma_first_where_skip(self.users@, wanted, i as int);
            }
            i += 1;
        }
        None
    }

    /// Soft-deletes every user with the given identifier: the rows stay,
    /// marked. No row is removed and no other row changes.
    pub fn delete(&mut self, id: u128)
        ensures
            final(self).rows().len() == old(self).rows().len(),
            forall|i: int|
                0 <= i < old(self).rows().len() ==> #[trigger] final(self).rows()[i] == (if old(self).rows()[i].id == id {
                    old(self).rows()[i].deleted()
                } else {
                    old(self).rows()[i]
                }),
    {
        let mut i: usize = 0;
        while i < self.users.len()
            invariant
                i <= self.users.len(),
                self.users@.len() == old(self).users@.len(),
                forall|j: int|
                    0 <= j < i ==> #[trigger] self.users@[j] == (if old(self).users@[j].id == id {
                        old(self).users@[j].deleted()
                    } else {
                        old(self).users@[j]
                    }),
                forall|j: int| i <= j < self.users@.len() ==> self.users@[j] == old(self).users@[j],
            decreases self.users.len() - i,
        {
            if self.users[i].id == id {
                let mut marked = self.users[i].duplicate();
                marked.delete();
                self.users.set(i, marked);
            }
            i += 1;
        }
    }

    /// Turns the passwords of mock data, which stand in the table as they
    /// were typed, into hashes. A user without a password stays without one;
    /// a password that cannot be hashed is taken away. No row is added or
    /// removed and nothing else changes.
    pub fn hash_mock_passwords(&mut self)
        ensures
            final(self).rows().len() == old(self).rows().len(),
            forall|i: int|
                0 <= i < old(self).rows().len() ==> {
                    let before = old(self).rows()[i];
                    let after = #[trigger] final(self).rows()[i];
                    &&& after == User { password_hash: after.password_hash, ..before }
                    &&& before.password_hash is None ==> after.password_hash is None
                    &&& after.password_hash matches Some(hash) ==> before.password_hash is Some
                        && accepts(before.password_hash.unwrap()@, hash@)
                },
    {
        let mut i: usize = 0;
        while i < self.users.len()
            invariant
                i <= self.users.len(),
                self.users@.len() == old(self).users@.len(),
                forall|j: int|
                    0 <= j < i ==> {
                        let before = old(self).users@[j];
                        let after = #[trigger] self.users@[j];
                        &&& after == User { password_hash: after.password_hash, ..before }
                        &&& before.password_hash is None ==> after.password_hash is None
                        &&& after.password_hash matches Some(hash) ==> before.password_hash is Some
                            && accepts(before.password_hash.unwrap()@, hash@)
                    },
                forall|j: int| i <= j < self.users@.len() ==> self.users@[j] == old(self).users@[j],
            decreases self.users.len() - i,
        {
            let hashed = match &self.users[i].password_hash {
                None => None,
                Some(typed) => match hash_text(typed.as_str()) {
                    Ok(hash) => Some(hash),
                    Err(_) => None,
                },
            };
            let mut user = self.users[i].duplicate();
            user.password_hash = hashed;
            self.users.set(i, user);
            i += 1;
        }
    }

    /// Writes a user back: the row that a search for the identifier of the
    /// user finds is replaced by the given one, and no other row changes. A
    /// user that no search finds, because the table does not know them or
    /// because they were deleted, is not written.
    pub fn save(&mut self, user: &User) -> (r: Result<(), DatabaseError>)
        ensures
            r is Ok <==> old(self).found_by_id(user.id) is Some,
            match r {
                Ok(_) => exists|i: int|
                    #[trigger] old(self).found_at(user.id, i) && old(self).found_by_id(user.id)
                        == Some(old(self).rows()[i]) && final(self).rows() == old(self).rows().update(
                        i,
                        *user,
                    ),
                Err(e) => e == DatabaseError::Query(QueryError::NotFound) && final(self).rows()
                    == old(self).rows(),
            },
    {
        match self.position_found(user.id) {
            Some(i) => {
                self.users.set(i, user.duplicate());
                Ok(())
            },
            None => Err(DatabaseError::Query(QueryError::NotFound)),
        }
    }
}

impl UserResource {
    /// The resource of the given user.
    pub fn new(user: User) -> (r: UserResource)
        ensures
            r.user() == user,
    {
        UserResource { user }
    }

    /// The user.
    pub closed spec fn user(&self) -> User {
        self.user
    }

    /// The user.
    pub fn get(&self) -> (r: &User)
        ensures
            *r == self.user(),
    {
        &self.user
    }

    /// Issues the token that a login answers with: an authentication token
    /// for this user, issued at `now` and good for two days.
    pub fn create_jwt(&self, codec: &TokenCodec, now: i64) -> (r: Result<
        LoginResponse,
        DatabaseError,
    >)
        requires
            now + USER_TOKEN_EXPIRY_DAYS * SECONDS_PER_DAY <= i64::MAX,
        ensures
            r matches Ok(response) && codec.carries(
                response.token@,
                claims_at(
                    TokenKind::Auth,
                    self.user().id,
                    now,
                    (USER_TOKEN_EXPIRY_DAYS * SECONDS_PER_DAY) as i64,
                ),
            ),
    {
        let ttl = USER_TOKEN_EXPIRY_DAYS * SECONDS_PER_DAY;
        match codec.issue_at(TokenKind::Auth, self.user.id, now, ttl) {
            Ok(token) => Ok(LoginResponse { token }),
            Err(e) => Err(e),
        }
    }

    /// Verifies an authentication token at the time `now` and hands out its
    /// claims; a token that does not verify gives nothing.
    pub fn verify_user_jwt(codec: &TokenCodec, user_jwt: &str, now: i64) -> (r: Option<JwtClaims>)
        ensures
            r == (match codec.verify_spec(TokenKind::Auth, user_jwt@, now) {
                Ok(claims) => Some(claims),
                Err(_) => None,
            }),
    {
        match codec.verify_at(TokenKind::Auth, user_jwt, now) {
            Ok(claims) => Some(claims),
            Err(_) => None,
        }
    }

    /// Issues the token that the verification link carries: an e-mail
    /// verification token for this user, issued at `now` and good for one day.
    pub fn create_email_jwt(&self, codec: &TokenCodec, now: i64) -> (r: Result<String, DatabaseError>)
        requires
            now + EMAIL_CONFIRMATION_TOKEN_EXPIRY_DAYS * SECONDS_PER_DAY <= i64::MAX,
        ensures
            r matches Ok(token) && codec.carries(
                token@,
                claims_at(
                    TokenKind::EmailVerification,
                    self.user().id,
                    now,
                    (EMAIL_CONFIRMATION_TOKEN_EXPIRY_DAYS * SECONDS_PER_DAY) as i64,
                ),
            ),
    {
        let ttl = EMAIL_CONFIRMATION_TOKEN_EXPIRY_DAYS * SECONDS_PER_DAY;
        codec.issue_at(TokenKind::EmailVerification, self.user.id, now, ttl)
    }

    /// Verifies an e-mail verification token at the time `now`.
    pub fn verify_email_jwt(codec: &TokenCodec, email_jwt: &str, now: i64) -> (r: Result<
        JwtClaims,
        TokenError,
    >)
        ensures
            r == codec.verify_spec(TokenKind::EmailVerification, email_jwt@, now),
    {
        codec.verify_at(TokenKind::EmailVerification, email_jwt, now)
    }

    /// Builds the mail that carries the verification link for this user, at
    /// the time `now`, once it is known whether the sender's and the user's
    /// address are addresses. Every setting must be there, the expiry of the
    /// token must be a time, and both addresses must be addresses; then the
    /// mail goes from "Nice Movies" to the user, and its link carries an
    /// e-mail verification token that is good for one day.
    pub fn write_mail(
        &self,
        codec: &TokenCodec,
        now: i64,
        settings: &LinkSettings,
        from_ok: bool,
        to_ok: bool,
    ) -> (r: Result<VerificationMail, DatabaseError>)
        ensures
            match r {
                Ok(mail) => mail_refusal_given(now, *settings, from_ok, to_ok) is None
                    && is_verification_mail(self.user(), *codec, now, *settings, mail),
                Err(e) => mail_refusal_given(now, *settings, from_ok, to_ok) == Some(e),
            },
    {
        let from_address = match &settings.gmail_user {
            Some(v) => v,
            None => {
                return Err(DatabaseError::Other);
            },
        };
        let server_domain = match &settings.server_domain {
            Some(v) => v,
            None => {
                return Err(DatabaseError::Other);
            },
        };
        let server_port = match &settings.server_port {
            Some(v) => v,
            None => {
                return Err(DatabaseError::Other);
            },
        };
        let server_protocol = match &settings.server_protocol {
            Some(v) => v,
            None => {
                return Err(DatabaseError::Other);
            },
        };
        if now > i64::MAX - EMAIL_CONFIRMATION_TOKEN_EXPIRY_DAYS * SECONDS_PER_DAY {
            return Err(DatabaseError::Other);
        }
        let token = match self.create_email_jwt(codec, now) {
            Ok(token) => token,
            Err(e) => {
                return Err(e);
            },
        };
        if !from_ok || !to_ok {
            return Err(DatabaseError::EmailBuild);
        }
        let body = write_verification_body(
            server_protocol.as_str(),
            server_domain.as_str(),
            server_port.as_str(),
            token.as_str(),
        );
        Ok(
            VerificationMail {
                from_name: String::from_str("Nice Movies"),
                from_address: from_address.clone(),
                to_address: self.user.email.clone(),
                subject: String::from_str("Verification Cinemaroo"),
                body,
                token,
            },
        )
    }

    /// Builds the mail that carries the verification link for this user, at
    /// the time `now`. Every setting must be there, the expiry of the token
    /// must be a time, and both addresses must be addresses; then the mail
    /// goes from "Nice Movies" to the user, and its link carries an e-mail
    /// verification token that is good for one day.
    pub fn get_email_jwt_url(&self, codec: &TokenCodec, now: i64, settings: &LinkSettings) -> (r:
        Result<VerificationMail, DatabaseError>)
        ensures
            match r {
                Ok(mail) => mail_refusal(self.user(), now, *settings) is None
                    && is_verification_mail(self.user(), *codec, now, *settings, mail),
                Err(e) => mail_refusal(self.user(), now, *settings) == Some(e),
            },
    {
        let from_ok = match &settings.gmail_user {
            Some(from) => is_address(from.as_str()),
            None => false,
        };
        let to_ok = is_address(self.user.email.as_str());
        self.write_mail(codec, now, settings, from_ok, to_ok)
    }

    /// Marks the e-mail address of the user as verified.
    pub fn activate(&mut self)
        ensures
            final(self).user() == old(self).user().activated(),
    {
        self.user.activate();
    }

    /// Takes over what the user changed about themself.
    pub fn update_user(&mut self, new_user: UpdateUser)
        ensures
            final(self).user() == (User {
                first_name: new_user.first_name,
                last_name: new_user.last_name,
                email: new_user.email,
                username: new_user.username,
                ..old(self).user()
            }),
    {
        self.user.first_name = new_user.first_name;
        self.user.last_name = new_user.last_name;
        self.user.email = new_user.email;
        self.user.username = new_user.username;
    }

    /// Gives the user a new password. It is stored as a hash that accepts it;
    /// if no such hash can be had, the user keeps the old password.
    pub fn update_password(&mut self, new_password: &String) -> (r: Result<(), DatabaseError>)
        ensures
            match r {
                Ok(_) => {
                    &&& final(self).user().password_hash matches Some(hash)
                    &&& accepts(new_password@, hash@)
                    &&& final(self).user() == (User {
                        password_hash: Some(hash),
                        ..old(self).user()
                    })
                },
                Err(e) => final(self).user() == old(self).user() && (e == DatabaseError::Hash || e
                    == DatabaseError::Other),
            },
    {
        match hash_text(new_password.as_str()) {
            Ok(hash) => {
                self.user.password_hash = Some(hash);
                Ok(())
            },
            Err(e) => Err(e),
        }
    }
}

impl From<UserResource> for User {
    fn from(value: UserResource) -> (r: User)
        ensures
            r == value.user(),
    {
        value.user
    }
}

impl vstd::std_specs::convert::FromSpecImpl<UserResource> for User {
    open spec fn obeys_from_spec() -> bool {
        true
    }

    closed spec fn from_spec(value: UserResource) -> User {
        value.user
    }
}

impl TicketResource {
    /// The resource of the given ticket.
    pub fn new(ticket: Ticket) -> (r: TicketResource)
        ensures
            r.ticket() == ticket,
    {
        TicketResource { ticket }
    }

    /// The ticket.
    pub closed spec fn ticket(&self) -> Ticket {
        self.ticket
    }

    /// The claims of the redemption token of a ticket: it names the ticket, is
    /// made out to the owner, and is issued and expires when the ticket is. So
    /// the token can never outlive its ticket.
    pub open spec fn redemption_claims(ticket: Ticket) -> JwtClaims {
        JwtClaims {
            dat: JwtType::Ticket(ticket.id),
            sub: ticket.owner_user_id,
            iat: ticket.issued_at,
            exp: ticket.expires_at,
        }
    }

    /// Issues the redemption token of the ticket.
    pub fn create_jwt(&self, codec: &TokenCodec) -> (r: Result<String, DatabaseError>)
        ensures
            r matches Ok(token) && codec.carries(
                token@,
                TicketResource::redemption_claims(self.ticket()),
            ),
    {
        let claims = JwtClaims {
            dat: JwtType::Ticket(self.ticket.id),
            sub: self.ticket.owner_user_id,
            iat: self.ticket.issued_at,
            exp: self.ticket.expires_at,
        };
        codec.sign(&claims)
    }

    /// Verifies a redemption token at the time `now` and hands out the
    /// identifier of the ticket that it names.
    pub fn verify_jwt(codec: &TokenCodec, jwt: &str, now: i64) -> (r: Result<u128, TokenError>)
        ensures
            r == (match codec.verify_spec(TokenKind::TicketRedemption, jwt@, now) {
                Ok(claims) => Ok::<u128, TokenError>(claims.dat.id_spec()),
                Err(e) => Err::<u128, TokenError>(e),
            }),
    {
        match codec.verify_at(TokenKind::TicketRedemption, jwt, now) {
            Ok(claims) => Ok(claims.dat.id()),
            Err(e) => Err(e),
        }
    }

    fn set_usage(&mut self, state: bool)
        ensures
            final(self).ticket() == old(self).ticket().marked(state),
    {
        self.ticket.mark(state);
    }

    /// Marks the ticket as used.
    pub fn mark_as_used(&mut self)
        ensures
            final(self).ticket() == old(self).ticket().marked(true),
    {
        self.set_usage(true)
    }

    /// Marks the ticket as unused.
    pub fn mark_as_unused(&mut self)
        ensures
            final(self).ticket() == old(self).ticket().marked(false),
    {
        self.set_usage(false)
    }
}

impl From<TicketResource> for Ticket {
    fn from(value: TicketResource) -> (r: Ticket)
        ensures
            r == value.ticket(),
    {
        value.ticket
    }
}

impl vstd::std_specs::convert::FromSpecImpl<TicketResource> for Ticket {
    open spec fn obeys_from_spec() -> bool {
        true
    }

    closed spec fn from_spec(value: TicketResource) -> Ticket {
        value.ticket
    }
}

} // verus!
