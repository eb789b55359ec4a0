use ticketing::claims::{JwtClaims, JwtType, TokenKind};
use ticketing::error::{DatabaseError, ErrorType, QueryError, TokenError, ValidationErrors};
use ticketing::extractor::Authorization;
use ticketing::forms::{EmailVerificationQuery, FormUser, LoginUser, NewPasswordForm, UpdateUser};
use ticketing::handlers::auth::{
    answer_login, invite, login_user, register_and_invite, register_user, verify_email,
};
use ticketing::handlers::user::{
    check_password_change, get_partial_user, get_self_roles, get_self_tickets, get_self_user, update_self_password,
    update_self_user,
};
use ticketing::handlers::user_res_from_jwt;
use ticketing::ledger::TicketLedger;
use ticketing::mail::{LinkSettings, Mailer, MailerConfig};
use ticketing::model::{PartialUser, Ticket, User, UserTheatreRole};
use ticketing::password::{accept_hash, hash, hash_checked, hash_text, verify, verify_text};
use ticketing::services::bridge_role::BridgeRoleService;
use ticketing::services::user::{UserResource, UserService};
use ticketing::token::{judge, signed, TokenCodec};

const NOW: i64 = 1_700_000_000;
const DAY: i64 = 86_400;

fn codec() -> TokenCodec {
    TokenCodec::new(b"auth".to_vec(), b"email".to_vec(), b"ticket".to_vec())
}

fn form() -> FormUser {
    FormUser {
        first_name: "Ada".to_string(),
        last_name: "Byron".to_string(),
        email: "ada@example.com".to_string(),
        username: "ada.byron".to_string(),
        password: "analytical engine".to_string(),
    }
}

fn login(email: &str, password: &str) -> LoginUser {
    LoginUser { email: email.to_string(), password: password.to_string() }
}

fn plain_user(id: u128) -> User {
    User {
        id,
        first_name: "Ada".to_string(),
        last_name: "Byron".to_string(),
        email: format!("user{}@example.com", id),
        username: format!("username{}", id),
        password_hash: None,
        created_at: 0,
        is_super_user: false,
        is_activated: true,
        is_deleted: false,
    }
}

fn auth_claims(id: u128) -> JwtClaims {
    JwtClaims { dat: JwtType::User(id), sub: id, iat: NOW, exp: NOW + 2 * DAY }
}

fn settings() -> LinkSettings {
    LinkSettings {
        gmail_user: Some("cinema@example.com".to_string()),
        server_protocol: Some("https".to_string()),
        server_domain: Some("cinema.example.com".to_string()),
        server_port: Some("8080".to_string()),
    }
}

#[test]
fn hash_accepts_its_password_and_no_other() {
    let h = hash(b"analytical engine").unwrap();
    assert!(h.starts_with("$argon2"));
    assert!(verify(b"analytical engine", &h));
    assert!(!verify(b"analytical engines", &h));
    assert!(!verify(b"", &h));
    // two hashes of one password differ by their salt, and both accept it
    let again = hash(b"analytical engine").unwrap();
    assert_ne!(h, again);
    assert!(verify(b"analytical engine", &again));
}

#[test]
fn text_that_is_no_hash_accepts_nothing() {
    assert!(!verify(b"analytical engine", "analytical engine"));
    assert!(!verify(b"", ""));
    assert!(!verify_text("x", "$argon2id$broken"));
}

#[test]
fn checked_hash_accepts_its_password() {
    let h = hash_checked(b"tick tock").unwrap();
    assert!(verify(b"tick tock", &h));
    let t = hash_text("tick tock").unwrap();
    assert!(verify_text("tick tock", &t));
    assert!(!verify_text("tock tick", &t));
}

#[test]
fn registration_stores_an_unverified_user() {
    let mut users = UserService::new(vec![]);
    let created = register_user(form(), &mut users, 42, NOW).unwrap();
    let user = created.get();
    assert_eq!(user.id, 42);
    assert_eq!(user.email, "ada@example.com");
    assert_eq!(user.username, "ada.byron");
    assert_eq!(user.created_at, NOW);
    assert!(!user.is_activated);
    assert!(!user.is_super_user);
    assert!(!user.is_deleted);
    let stored = user.password_hash.clone().unwrap();
    assert_ne!(stored, "analytical engine");
    assert!(verify_text("analytical engine", &stored));
    assert_eq!(users.get_by_id(42), Some(created));
}

#[test]
fn registration_is_refused_for_a_bad_form_or_a_taken_name() {
    let mut users = UserService::new(vec![]);
    let short = FormUser { password: "short".to_string(), ..form() };
    assert_eq!(
        register_user(short, &mut users, 1, NOW),
        Err(ErrorType::Validation(ValidationErrors { password: true, ..ValidationErrors::new() }))
    );
    assert_eq!(users.get_by_id(1), None);
    register_user(form(), &mut users, 1, NOW).unwrap();
    let same_email = FormUser { username: "somebody.else".to_string(), ..form() };
    assert_eq!(register_user(same_email, &mut users, 2, NOW), Err(ErrorType::Conflict));
    let same_name = FormUser { email: "other@example.com".to_string(), ..form() };
    assert_eq!(register_user(same_name, &mut users, 2, NOW), Err(ErrorType::Conflict));
    assert_eq!(users.get_by_id(2), None);
    // an identifier that is taken is a failed statement
    let fresh = FormUser {
        email: "other@example.com".to_string(),
        username: "somebody.else".to_string(),
        ..form()
    };
    assert_eq!(
        register_user(fresh, &mut users, 1, NOW),
        Err(ErrorType::Database(DatabaseError::Query(QueryError::Other)))
    );
}

#[test]
fn login_is_refused_before_the_email_is_verified() {
    let codec = codec();
    let mut users = UserService::new(vec![]);
    register_user(form(), &mut users, 42, NOW).unwrap();
    assert_eq!(
        login_user(&login("ada@example.com", "analytical engine"), &users, &codec, NOW),
        Err(ErrorType::EmailNotVerified)
    );
}

#[test]
fn login_answers_each_failure_with_its_own_error() {
    let codec = codec();
    let mut users = UserService::new(vec![]);
    let mut res = register_user(form(), &mut users, 42, NOW).unwrap();
    res.activate();
    users.save(res.get()).unwrap();
    // a form that breaks its rules
    assert_eq!(
        login_user(&login("", "analytical engine"), &users, &codec, NOW),
        Err(ErrorType::Validation(ValidationErrors { email: true, ..ValidationErrors::new() }))
    );
    assert_eq!(
        login_user(&login("ada@example.com", "short"), &users, &codec, NOW),
        Err(ErrorType::Validation(ValidationErrors { password: true, ..ValidationErrors::new() }))
    );
    // nobody of that name
    assert_eq!(
        login_user(&login("bob@example.com", "analytical engine"), &users, &codec, NOW),
        Err(ErrorType::Invalid)
    );
    // the wrong password
    assert_eq!(
        login_user(&login("ada@example.com", "difference engine"), &users, &codec, NOW),
        Err(ErrorType::Invalid)
    );
    // a user that an outside provider vouches for has no password
    let mut external = UserService::new(vec![plain_user(7)]);
    assert_eq!(
        login_user(&login("user7@example.com", "analytical engine"), &external, &codec, NOW),
        Err(ErrorType::Conflict)
    );
    // a deleted user is nobody
    external.delete(7);
    assert_eq!(
        login_user(&login("user7@example.com", "analytical engine"), &external, &codec, NOW),
        Err(ErrorType::Invalid)
    );
    // the expiry cannot be written as a time
    assert_eq!(
        login_user(&login("ada@example.com", "analytical engine"), &users, &codec, i64::MAX),
        Err(ErrorType::ServerError)
    );
}

#[test]
fn login_issues_an_auth_token_for_two_days() {
    let codec = codec();
    let mut users = UserService::new(vec![]);
    let mut res = register_user(form(), &mut users, 42, NOW).unwrap();
    res.activate();
    users.save(res.get()).unwrap();
    for name in ["ada@example.com", "ada.byron"] {
        let response = login_user(&login(name, "analytical engine"), &users, &codec, NOW).unwrap();
        let claims = codec.verify_at(TokenKind::Auth, &response.token, NOW).unwrap();
        assert_eq!(claims, JwtClaims { dat: JwtType::User(42), sub: 42, iat: NOW, exp: NOW + 2 * DAY });
        assert_eq!(UserResource::verify_user_jwt(&codec, &response.token, NOW + 2 * DAY), Some(claims));
        assert_eq!(UserResource::verify_user_jwt(&codec, &response.token, NOW + 2 * DAY + 1), None);
    }
}

#[test]
fn verification_mail_carries_the_link() {
    let codec = codec();
    let res = UserResource::new(User { email: "ada@example.com".to_string(), ..plain_user(42) });
    let mail = res.get_email_jwt_url(&codec, NOW, &settings()).unwrap();
    assert_eq!(mail.from_name, "Nice Movies");
    assert_eq!(mail.from_address, "cinema@example.com");
    assert_eq!(mail.to_address, "ada@example.com");
    assert_eq!(mail.subject, "Verification Cinemaroo");
    assert_eq!(
        mail.body,
        format!(
            "\n    <h1>Your verification URL is below</h1>\n    \
             <a href=\"https://cinema.example.com:8080/api/v1/auth/verify?email_key={0}\">{0}</a>\n    \
             <h2>If you weren't expecting this email, you can ignore it.</h2>\n    ",
            mail.token
        )
    );
    let claims = UserResource::verify_email_jwt(&codec, &mail.token, NOW).unwrap();
    assert_eq!(claims, JwtClaims { dat: JwtType::Email(42), sub: 42, iat: NOW, exp: NOW + DAY });
}

#[test]
fn verification_mail_needs_every_setting_and_two_addresses() {
    let codec = codec();
    let res = UserResource::new(User { email: "ada@example.com".to_string(), ..plain_user(42) });
    for missing in [
        LinkSettings { gmail_user: None, ..settings() },
        LinkSettings { server_protocol: None, ..settings() },
        LinkSettings { server_domain: None, ..settings() },
        LinkSettings { server_port: None, ..settings() },
    ] {
        assert_eq!(res.get_email_jwt_url(&codec, NOW, &missing), Err(DatabaseError::Other));
    }
    let bad_sender = LinkSettings { gmail_user: Some("not an address".to_string()), ..settings() };
    assert_eq!(res.get_email_jwt_url(&codec, NOW, &bad_sender), Err(DatabaseError::EmailBuild));
    let bad_receiver = UserResource::new(User { email: "ada.example.com".to_string(), ..plain_user(42) });
    assert_eq!(bad_receiver.get_email_jwt_url(&codec, NOW, &settings()), Err(DatabaseError::EmailBuild));
    assert_eq!(res.get_email_jwt_url(&codec, i64::MAX, &settings()), Err(DatabaseError::Other));
}

#[test]
fn verify_email_activates_once_and_stays() {
    let codec = codec();
    let mut users = UserService::new(vec![]);
    let res = register_user(form(), &mut users, 42, NOW).unwrap();
    let token = res.create_email_jwt(&codec, NOW).unwrap();
    let query = EmailVerificationQuery { email_key: token };
    assert_eq!(verify_email(&query, &mut users, &codec, NOW + DAY), Ok(()));
    let after = users.get_by_id(42).unwrap();
    assert!(after.get().is_activated);
    // following the link again changes nothing more
    assert_eq!(verify_email(&query, &mut users, &codec, NOW + DAY), Ok(()));
    assert_eq!(users.get_by_id(42), Some(after));
}

#[test]
fn verify_email_refuses_stale_foreign_and_orphaned_keys() {
    let codec = codec();
    let mut users = UserService::new(vec![]);
    let res = register_user(form(), &mut users, 42, NOW).unwrap();
    let token = res.create_email_jwt(&codec, NOW).unwrap();
    let stale = EmailVerificationQuery { email_key: token };
    assert_eq!(verify_email(&stale, &mut users, &codec, NOW + DAY + 1), Err(ErrorType::Expired));
    let auth = codec.issue_at(TokenKind::Auth, 42, NOW, DAY).unwrap();
    let foreign = EmailVerificationQuery { email_key: auth };
    assert_eq!(verify_email(&foreign, &mut users, &codec, NOW), Err(ErrorType::Invalid));
    let garbage = EmailVerificationQuery { email_key: "garbage".to_string() };
    assert_eq!(verify_email(&garbage, &mut users, &codec, NOW), Err(ErrorType::Invalid));
    let nobody = codec.issue_at(TokenKind::EmailVerification, 43, NOW, DAY).unwrap();
    let orphaned = EmailVerificationQuery { email_key: nobody };
    assert_eq!(verify_email(&orphaned, &mut users, &codec, NOW), Err(ErrorType::ServerError));
    assert!(!users.get_by_id(42).unwrap().get().is_activated);
}

#[test]
fn header_is_read_into_claims() {
    let codec = codec();
    let token = codec.issue_at(TokenKind::Auth, 42, NOW, 2 * DAY).unwrap();
    assert_eq!(
        JwtClaims::from_request_at(&Authorization::Token(token.clone()), &codec, NOW + DAY),
        Ok(auth_claims(42))
    );
    assert_eq!(
        JwtClaims::from_request_at(&Authorization::Missing, &codec, NOW),
        Err(ErrorType::NoAuth)
    );
    assert_eq!(
        JwtClaims::from_request_at(&Authorization::Unreadable, &codec, NOW),
        Err(ErrorType::ServerError)
    );
    assert_eq!(
        JwtClaims::from_request_at(&Authorization::Token(token.clone()), &codec, NOW + 2 * DAY + 1),
        Err(ErrorType::Expired)
    );
    assert_eq!(
        JwtClaims::from_request_at(&Authorization::Token(format!("Bearer {}", token)), &codec, NOW),
        Err(ErrorType::Invalid)
    );
    assert_eq!(
        JwtClaims::from_request_at(&Authorization::Token(String::new()), &codec, NOW),
        Err(ErrorType::Invalid)
    );
    let email = codec.issue_at(TokenKind::EmailVerification, 42, NOW, DAY).unwrap();
    assert_eq!(
        JwtClaims::from_request_at(&Authorization::Token(email), &codec, NOW),
        Err(ErrorType::Invalid)
    );
    let ticket = codec.issue_at(TokenKind::TicketRedemption, 42, NOW, DAY).unwrap();
    assert_eq!(
        JwtClaims::from_request_at(&Authorization::Token(ticket), &codec, NOW),
        Err(ErrorType::Invalid)
    );
}

#[test]
fn header_is_read_against_the_clock() {
    let codec = codec();
    let fresh = codec.issue(TokenKind::Auth, 42, 3_600).unwrap();
    let claims = JwtClaims::from_request(&Authorization::Token(fresh), &codec).unwrap();
    assert_eq!(claims.dat, JwtType::User(42));
    let stale = codec.issue(TokenKind::Auth, 42, -3_600).unwrap();
    assert_eq!(
        JwtClaims::from_request(&Authorization::Token(stale), &codec),
        Err(ErrorType::Expired)
    );
    assert_eq!(JwtClaims::from_request(&Authorization::Missing, &codec), Err(ErrorType::NoAuth));
}

#[test]
fn caller_is_found_from_auth_claims_only() {
    let users = UserService::new(vec![plain_user(1), User { is_deleted: true, ..plain_user(2) }]);
    let (res, user) = user_res_from_jwt(&auth_claims(1), &users).unwrap();
    assert_eq!(user, plain_user(1));
    assert_eq!(res.get(), &user);
    assert_eq!(get_self_user(&users, &auth_claims(1)), Ok(plain_user(1)));
    let email = JwtClaims { dat: JwtType::Email(1), ..auth_claims(1) };
    assert_eq!(user_res_from_jwt(&email, &users), Err(ErrorType::NoAuth));
    let ticket = JwtClaims { dat: JwtType::Ticket(1), ..auth_claims(1) };
    assert_eq!(user_res_from_jwt(&ticket, &users), Err(ErrorType::NoAuth));
    assert_eq!(
        user_res_from_jwt(&auth_claims(2), &users),
        Err(ErrorType::Database(DatabaseError::Other))
    );
    assert_eq!(
        user_res_from_jwt(&auth_claims(3), &users),
        Err(ErrorType::Database(DatabaseError::Other))
    );
}

#[test]
fn users_are_found_unless_deleted() {
    let mut users = UserService::new(vec![plain_user(1), plain_user(2)]);
    assert_eq!(users.get_by_email(&"user2@example.com".to_string()).unwrap().get().id, 2);
    assert_eq!(
        users
            .get_by_email_or_username(&"nobody@example.com".to_string(), &"username1".to_string())
            .unwrap()
            .get()
            .id,
        1
    );
    users.delete(1);
    assert_eq!(users.get_by_id(1), None);
    assert_eq!(users.get_by_email(&"user1@example.com".to_string()), None);
    assert_eq!(
        users.get_by_email_or_username(&"user1@example.com".to_string(), &"username1".to_string()),
        None
    );
    assert_eq!(users.get_by_id(2).unwrap().get(), &plain_user(2));
    assert_eq!(get_partial_user(1, &users), Err(ErrorType::NotFound));
    assert_eq!(
        get_partial_user(2, &users),
        Ok(PartialUser {
            id: 2,
            first_name: "Ada".to_string(),
            last_name: "Byron".to_string(),
            username: "username2".to_string(),
            is_super_user: false,
        })
    );
    assert_eq!(
        users.save(&plain_user(3)),
        Err(DatabaseError::Query(QueryError::NotFound))
    );
}

#[test]
fn user_changes_what_they_may_change() {
    let mut users = UserService::new(vec![plain_user(1)]);
    let change = UpdateUser {
        first_name: "Augusta".to_string(),
        last_name: "King".to_string(),
        email: "augusta@example.com".to_string(),
        username: "augusta.king".to_string(),
    };
    assert_eq!(update_self_user(change.clone(), &mut users, &auth_claims(1)), Ok(()));
    assert_eq!(
        users.get_by_id(1).unwrap().get(),
        &User {
            first_name: "Augusta".to_string(),
            last_name: "King".to_string(),
            email: "augusta@example.com".to_string(),
            username: "augusta.king".to_string(),
            ..plain_user(1)
        }
    );
    let bad = UpdateUser { username: "short".to_string(), ..change };
    assert_eq!(
        update_self_user(bad, &mut users, &auth_claims(1)),
        Err(ErrorType::Validation(ValidationErrors { username: true, ..ValidationErrors::new() }))
    );
    assert_eq!(users.get_by_id(1).unwrap().get().username, "augusta.king");
}

#[test]
fn password_changes_when_the_old_one_is_given_and_the_new_one_repeated() {
    let mut users = UserService::new(vec![]);
    register_user(form(), &mut users, 1, NOW).unwrap();
    let wrong_old = NewPasswordForm {
        old_password: "difference engine".to_string(),
        new_password: "a new password".to_string(),
        new_password_repeat: "a new password".to_string(),
    };
    assert_eq!(update_self_password(&wrong_old, &mut users, &auth_claims(1)), Err(ErrorType::Invalid));
    let mistyped = NewPasswordForm {
        old_password: "analytical engine".to_string(),
        new_password: "a new password".to_string(),
        new_password_repeat: "a new passwort".to_string(),
    };
    assert_eq!(update_self_password(&mistyped, &mut users, &auth_claims(1)), Err(ErrorType::Invalid));
    let stored = users.get_by_id(1).unwrap().get().password_hash.clone().unwrap();
    assert!(verify_text("analytical engine", &stored));
    let good = NewPasswordForm { new_password_repeat: "a new password".to_string(), ..mistyped };
    assert_eq!(update_self_password(&good, &mut users, &auth_claims(1)), Ok(()));
    let stored = users.get_by_id(1).unwrap().get().password_hash.clone().unwrap();
    assert!(verify_text("a new password", &stored));
    assert!(!verify_text("analytical engine", &stored));
    // a user without a password sets one without giving an old one
    let mut external = UserService::new(vec![plain_user(7)]);
    assert_eq!(update_self_password(&good, &mut external, &auth_claims(7)), Ok(()));
    assert!(external.get_by_id(7).unwrap().get().password_hash.is_some());
}

#[test]
fn mock_passwords_become_hashes() {
    let typed = User { password_hash: Some("typed in plain".to_string()), ..plain_user(1) };
    let mut users = UserService::new(vec![typed, plain_user(2)]);
    users.hash_mock_passwords();
    let one = users.get_by_id(1).unwrap();
    let hashed = one.get().password_hash.clone().unwrap();
    assert!(verify_text("typed in plain", &hashed));
    assert_eq!(one.get(), &User { password_hash: Some(hashed), ..plain_user(1) });
    assert_eq!(users.get_by_id(2).unwrap().get(), &plain_user(2));
}

#[test]
fn caller_sees_own_tickets_and_roles() {
    let users = UserService::new(vec![plain_user(1), plain_user(2)]);
    let mine = Ticket {
        id: 1,
        owner_user_id: 1,
        theatre_screening_id: 5,
        ticket_type_id: 7,
        issuer_user_id: 2,
        seat_row: 1,
        seat_column: 1,
        issued_at: 0,
        expires_at: 10,
        used: false,
    };
    let theirs = Ticket { id: 2, owner_user_id: 2, ..mine };
    let ledger = match TicketLedger::new(vec![mine, theirs], vec![]) {
        Ok(ledger) => ledger,
        Err(e) => panic!("{:?}", e),
    };
    assert_eq!(get_self_tickets(&users, &ledger, &auth_claims(1)), Ok(vec![mine]));
    let mut grants = BridgeRoleService::new();
    let a = UserTheatreRole { user_id: 1, role_id: 10, theatre_id: 100 };
    let b = UserTheatreRole { user_id: 2, role_id: 10, theatre_id: 100 };
    let c = UserTheatreRole { user_id: 1, role_id: 11, theatre_id: 200 };
    grants.register_roles(vec![a, b, c]);
    assert_eq!(get_self_roles(&users, &grants, &auth_claims(1)), Ok(vec![a, c]));
    assert_eq!(
        get_self_roles(&users, &grants, &auth_claims(3)),
        Err(ErrorType::Database(DatabaseError::Other))
    );
}

#[test]
fn fresh_hash_is_used_only_if_it_accepts_its_password() {
    let good = hash(b"tick tock").unwrap();
    assert_eq!(accept_hash(b"tick tock", Ok(good.clone())), Ok(good.clone()));
    assert_eq!(accept_hash(b"tock tick", Ok(good)), Err(DatabaseError::Other));
    assert_eq!(accept_hash(b"tick tock", Ok("no hash".to_string())), Err(DatabaseError::Other));
    assert_eq!(
        accept_hash(b"tick tock", Err(argon2::password_hash::Error::Password)),
        Err(DatabaseError::Hash)
    );
}

#[test]
fn failure_of_the_signer_is_a_failure_to_create_the_token() {
    assert_eq!(signed(Ok("a.b.c".to_string())), Ok("a.b.c".to_string()));
    let failure = jsonwebtoken::errors::Error::from(jsonwebtoken::errors::ErrorKind::InvalidKeyFormat);
    assert_eq!(signed(Err(failure)), Err(DatabaseError::Jwt));
}

#[test]
fn opened_token_is_judged_by_its_text() {
    let claims = JwtClaims { dat: JwtType::Email(5), sub: 5, iat: 10, exp: 20 };
    let text = ticketing::payload::render_claims(&claims);
    assert_eq!(judge(TokenKind::EmailVerification, Some(text.clone()), 20), Ok(claims));
    assert_eq!(judge(TokenKind::EmailVerification, Some(text.clone()), 21), Err(TokenError::Expired));
    assert_eq!(judge(TokenKind::Auth, Some(text.clone()), 20), Err(TokenError::Invalid));
    assert_eq!(judge(TokenKind::Auth, Some(text), 21), Err(TokenError::Invalid));
    assert_eq!(judge(TokenKind::EmailVerification, None, 0), Err(TokenError::Invalid));
    assert_eq!(judge(TokenKind::EmailVerification, Some(b"{}".to_vec()), 0), Err(TokenError::Invalid));
}

#[test]
fn deleted_row_under_the_same_identifier_is_left_alone() {
    let codec = codec();
    let gone = User { is_deleted: true, is_activated: false, ..plain_user(42) };
    let live = User { is_activated: false, email: "live@example.com".to_string(), ..plain_user(42) };
    let mut users = UserService::new(vec![gone.clone(), live.clone()]);
    let token = codec.issue_at(TokenKind::EmailVerification, 42, NOW, DAY).unwrap();
    let query = EmailVerificationQuery { email_key: token };
    assert_eq!(verify_email(&query, &mut users, &codec, NOW), Ok(()));
    // the live row is the one that was found, and the one that is activated
    assert_eq!(users.get_by_id(42).unwrap().get(), &User { is_activated: true, ..live.clone() });
    // deleting the live row brings no activated ghost to light
    let mut only_gone = UserService::new(vec![gone.clone()]);
    assert_eq!(
        only_gone.save(&User { is_activated: true, ..gone.clone() }),
        Err(DatabaseError::Query(QueryError::NotFound))
    );
    assert_eq!(only_gone.get_by_id(42), None);
    // a change of the user's own data goes to the live row too
    let change = UpdateUser {
        first_name: "Augusta".to_string(),
        last_name: "King".to_string(),
        email: "augusta@example.com".to_string(),
        username: "augusta.king".to_string(),
    };
    assert_eq!(update_self_user(change, &mut users, &auth_claims(42)), Ok(()));
    assert_eq!(users.get_by_email(&"augusta@example.com".to_string()).unwrap().get().id, 42);
    assert_eq!(users.get_by_email(&"user42@example.com".to_string()), None);
}

#[test]
fn token_is_always_issued() {
    let codec = codec();
    let res = UserResource::new(plain_user(42));
    for now in [i64::MIN, -1, 0, NOW, i64::MAX - 2 * DAY] {
        let login = res.create_jwt(&codec, now).unwrap();
        assert_eq!(
            codec.verify_at(TokenKind::Auth, &login.token, now),
            Ok(JwtClaims { dat: JwtType::User(42), sub: 42, iat: now, exp: now + 2 * DAY })
        );
        let key = res.create_email_jwt(&codec, now).unwrap();
        assert_eq!(
            codec.verify_at(TokenKind::EmailVerification, &key, now),
            Ok(JwtClaims { dat: JwtType::Email(42), sub: 42, iat: now, exp: now + DAY })
        );
        // each is signed with the secret of its own domain only
        assert!(codec.verify_at(TokenKind::EmailVerification, &login.token, now).is_err());
        assert!(codec.verify_at(TokenKind::Auth, &key, now).is_err());
    }
}

fn mailer(started: bool) -> Mailer {
    let mut mailer = Mailer::new(MailerConfig {
        host: "smtp.example.com".to_string(),
        port: None,
        user: "cinema".to_string(),
        password: "secret".to_string(),
    });
    if started {
        mailer.start();
    }
    mailer
}

#[test]
fn registration_stores_one_user_and_builds_one_mail() {
    let codec = codec();
    let mut users = UserService::new(vec![plain_user(1)]);
    let mail =
        register_and_invite(form(), &mut users, 42, NOW, &codec, &settings(), &mailer(true)).unwrap();
    assert_eq!(mail.to_address, "ada@example.com");
    assert_eq!(mail.from_address, "cinema@example.com");
    let created = users.get_by_id(42).unwrap();
    let user = created.get();
    assert_eq!((user.first_name.as_str(), user.last_name.as_str()), ("Ada", "Byron"));
    assert_eq!((user.email.as_str(), user.username.as_str()), ("ada@example.com", "ada.byron"));
    assert!(!user.is_activated && !user.is_super_user && !user.is_deleted);
    assert!(verify_text("analytical engine", user.password_hash.as_ref().unwrap()));
    assert_eq!(users.get_by_id(1).unwrap().get(), &plain_user(1));
    // the token of the mail is the key that verifies this user
    assert_eq!(
        UserResource::verify_email_jwt(&codec, &mail.token, NOW + DAY),
        Ok(JwtClaims { dat: JwtType::Email(42), sub: 42, iat: NOW, exp: NOW + DAY })
    );
    let key = EmailVerificationQuery { email_key: mail.token };
    assert_eq!(verify_email(&key, &mut users, &codec, NOW + DAY), Ok(()));
    assert!(users.get_by_id(42).unwrap().get().is_activated);
}

#[test]
fn refused_registration_stores_nobody() {
    let codec = codec();
    let mut users = UserService::new(vec![]);
    let short = FormUser { password: "short".to_string(), ..form() };
    assert_eq!(
        register_and_invite(short, &mut users, 42, NOW, &codec, &settings(), &mailer(true)),
        Err(ErrorType::Validation(ValidationErrors { password: true, ..ValidationErrors::new() }))
    );
    assert_eq!(users.get_by_id(42), None);
    register_and_invite(form(), &mut users, 42, NOW, &codec, &settings(), &mailer(true)).unwrap();
    assert_eq!(
        register_and_invite(form(), &mut users, 43, NOW, &codec, &settings(), &mailer(true)),
        Err(ErrorType::Conflict)
    );
    assert_eq!(users.get_by_id(43), None);
}

#[test]
fn registered_user_stays_when_the_mail_cannot_go_out() {
    let codec = codec();
    let mut users = UserService::new(vec![]);
    assert_eq!(
        register_and_invite(form(), &mut users, 42, NOW, &codec, &settings(), &mailer(false)),
        Err(ErrorType::Database(DatabaseError::Other))
    );
    assert!(users.get_by_id(42).is_some());
    let other = FormUser {
        email: "bob@example.com".to_string(),
        username: "bob.builder".to_string(),
        ..form()
    };
    let no_sender = LinkSettings { gmail_user: Some("nobody".to_string()), ..settings() };
    assert_eq!(
        register_and_invite(other, &mut users, 43, NOW, &codec, &no_sender, &mailer(true)),
        Err(ErrorType::Database(DatabaseError::EmailBuild))
    );
    assert!(users.get_by_id(43).is_some());
}

#[test]
fn invitation_needs_a_mail_and_a_started_dispatcher() {
    let codec = codec();
    let res = UserResource::new(User { email: "ada@example.com".to_string(), ..plain_user(42) });
    let mail = invite(&res, &codec, NOW, &settings(), &mailer(true)).unwrap();
    assert_eq!(mail.to_address, "ada@example.com");
    assert_eq!(
        invite(&res, &codec, NOW, &settings(), &mailer(false)),
        Err(ErrorType::Database(DatabaseError::Other))
    );
    let incomplete = LinkSettings { server_port: None, ..settings() };
    assert_eq!(
        invite(&res, &codec, NOW, &incomplete, &mailer(true)),
        Err(ErrorType::Database(DatabaseError::Other))
    );
    let bad = UserResource::new(User { email: "no address".to_string(), ..plain_user(42) });
    assert_eq!(
        invite(&bad, &codec, NOW, &settings(), &mailer(false)),
        Err(ErrorType::Database(DatabaseError::EmailBuild))
    );
}

#[test]
fn login_is_answered_by_what_the_hasher_said() {
    let codec = codec();
    let res = UserResource::new(plain_user(42));
    assert_eq!(answer_login(&res, false, &codec, NOW), Err(ErrorType::Invalid));
    assert_eq!(answer_login(&res, false, &codec, i64::MAX), Err(ErrorType::Invalid));
    assert_eq!(answer_login(&res, true, &codec, i64::MAX), Err(ErrorType::ServerError));
    assert_eq!(answer_login(&res, true, &codec, i64::MAX - 2 * DAY + 1), Err(ErrorType::ServerError));
    let response = answer_login(&res, true, &codec, i64::MAX - 2 * DAY).unwrap();
    assert_eq!(
        codec.verify_at(TokenKind::Auth, &response.token, i64::MAX),
        Ok(JwtClaims { dat: JwtType::User(42), sub: 42, iat: i64::MAX - 2 * DAY, exp: i64::MAX })
    );
}

#[test]
fn password_change_needs_the_old_password_and_a_repeated_new_one() {
    let same = NewPasswordForm {
        old_password: "old".to_string(),
        new_password: "a new password".to_string(),
        new_password_repeat: "a new password".to_string(),
    };
    let differing = NewPasswordForm { new_password_repeat: "a new passwort".to_string(), ..same.clone() };
    assert_eq!(check_password_change(true, &same), Ok(()));
    assert_eq!(check_password_change(false, &same), Err(ErrorType::Invalid));
    assert_eq!(check_password_change(true, &differing), Err(ErrorType::Invalid));
    assert_eq!(check_password_change(false, &differing), Err(ErrorType::Invalid));
}

#[test]
fn mail_is_written_once_the_addresses_are_known() {
    let codec = codec();
    let res = UserResource::new(User { email: "ada@example.com".to_string(), ..plain_user(42) });
    let mail = res.write_mail(&codec, NOW, &settings(), true, true).unwrap();
    assert_eq!(mail, res.get_email_jwt_url(&codec, NOW, &settings()).unwrap());
    for (from_ok, to_ok) in [(false, true), (true, false), (false, false)] {
        assert_eq!(
            res.write_mail(&codec, NOW, &settings(), from_ok, to_ok),
            Err(DatabaseError::EmailBuild)
        );
    }
    // a missing setting and an expiry that is no time come first
    let incomplete = LinkSettings { server_domain: None, ..settings() };
    assert_eq!(res.write_mail(&codec, NOW, &incomplete, false, false), Err(DatabaseError::Other));
    assert_eq!(res.write_mail(&codec, i64::MAX, &settings(), false, true), Err(DatabaseError::Other));
}

#[test]
fn taken_identifier_is_a_failed_statement_before_anything_is_hashed() {
    let codec = codec();
    let gone = User { is_deleted: true, ..plain_user(42) };
    let mut users = UserService::new(vec![gone.clone()]);
    assert_eq!(
        register_and_invite(form(), &mut users, 42, NOW, &codec, &settings(), &mailer(true)),
        Err(ErrorType::Database(DatabaseError::Query(QueryError::Other)))
    );
    assert_eq!(users.get_by_email(&"ada@example.com".to_string()), None);
    assert_eq!(users.get_by_id(42), None);
}
