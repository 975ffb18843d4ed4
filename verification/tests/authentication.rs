use fleet_backend::authentication::guard::{
    authorize, bearer_token, needs_session, session_from, session_of, session_secret,
    unauthorized, Claims,
    Endpoint,
};
use fleet_backend::authentication::login::{
    answer_login, check_form, check_login, issue_token, session_expiry, token_reply, validate, verdict_reply,
    CredentialRow, LoginPayload,
};
use fleet_backend::authentication::signup::{
    new_user, signup_reply, update_statement, user_deleted_reply, user_updated_reply, user_with,
    users_reply, NewUser, SignUpPayload, UpdateUserPayload, UserResponse,
};
use fleet_backend::json::{Json, JsonObject};
use fleet_backend::reply::{DbFailure, Reply};
use jsonwebtoken::{encode, EncodingKey, Header};
use serde_json::value::RawValue;

const NO_TOKEN: &str = "missing or malformed Authorization header";
const NO_SESSION: &str = "invalid or expired session — please log in again";

/// A time far enough ahead that sessions have not ended: the start of the year 2100.
const LATER: i64 = 4_102_444_800;

/// The hash of `U*U` at cost 5 from the test vectors of the algorithm.
const STORED: &str = "$2a$05$CCCCCCCCCCCCCCCCCCCCC.E5YPO9kmyuRGyh0XouQYb4YMJKvyOeW";

fn payload(email: &str, password: &str) -> LoginPayload {
    LoginPayload { email: email.to_string(), password: password.to_string() }
}

fn row(password_hash: &str) -> CredentialRow {
    CredentialRow {
        id: 0x0123_4567_89ab_4def_8123_4567_89ab_cdef,
        email: "a@b.c".to_string(),
        password_hash: password_hash.to_string(),
    }
}

fn sign_up(password: &str, confirm_password: &str) -> SignUpPayload {
    SignUpPayload {
        full_name: "Ada L".to_string(),
        email: "a@b.c".to_string(),
        username: "ada".to_string(),
        password: password.to_string(),
        confirm_password: confirm_password.to_string(),
    }
}

fn told(result: Result<Claims, Reply>) -> (u16, String) {
    match result {
        Ok(_) => (200, String::new()),
        Err(reply) => {
            (reply.status, reply.body.unwrap().get_text("error").unwrap().to_string())
        }
    }
}

fn error(reply: &Reply) -> Option<&str> {
    reply.body.as_ref().and_then(|body| body.get_text("error"))
}

#[test]
fn logins_are_checked_for_form() {
    let fault = |email: &str, password: &str| validate(&payload(email, password)).unwrap_err();
    let required = "both email and password are required";
    assert_eq!(fault("", "secret-word"), required);
    assert_eq!(fault("a@b.c", " \t"), required);
    assert_eq!(fault("ab.c", "secret-word"), "invalid email address");
    assert_eq!(fault("a@b", "secret-word"), "invalid email address");
    assert_eq!(fault("a@b.c", "short-1"), "password must be at least 8 characters long");
    assert_eq!(fault("a@b.c", "longenough1"), "password must contain a special character");
    assert_eq!(validate(&payload("a@b.c", "longenough!")), Ok(()));
    assert_eq!(validate(&payload(".@", "long enough")), Ok(()));
}

#[test]
fn a_password_is_measured_in_bytes() {
    // Four characters of two bytes each.
    assert_eq!(
        validate(&payload("a@b.c", "éééé")),
        Err("password must contain a special character".to_string())
    );
    assert_eq!(
        validate(&payload("a@b.c", "ééé!")),
        Err("password must be at least 8 characters long".to_string())
    );
    assert_eq!(validate(&payload("a@b.c", "ééé!!")), Ok(()));
}

#[test]
fn special_characters_are_asked_for_last() {
    assert_eq!(check_form(&payload("a@b.c", "longenough"), true), Ok(()));
    assert_eq!(
        check_form(&payload("a@b.c", "longenough!"), false),
        Err("password must contain a special character".to_string())
    );
    assert_eq!(
        check_form(&payload("a@b.c", "short"), false),
        Err("password must be at least 8 characters long".to_string())
    );
}

#[test]
fn a_faulty_login_is_answered() {
    let reply = check_login(&payload("", "")).unwrap_err();
    assert_eq!(reply.status, 200);
    assert_eq!(error(&reply), Some("both email and password are required"));
    assert!(check_login(&payload("a@b.c", "longenough!")).is_ok());
}

#[test]
fn sessions_last_a_day() {
    assert_eq!(session_expiry(0), 86_400);
    assert_eq!(session_expiry(1_700_000_000), 1_700_086_400);
}

#[test]
fn the_secret_can_be_configured() {
    assert_eq!(session_secret(None), "change_me");
    assert_eq!(session_secret(Some("s".to_string())), "s");
}

#[test]
fn a_login_is_answered() {
    let answer = |user| answer_login(&payload("a@b.c", "U*U"), &user, 0, "s");
    assert_eq!(error(&answer(Err(DbFailure::Other))), Some("database error"));
    assert_eq!(error(&answer(Ok(None))), Some("user not found"));
    assert_eq!(error(&answer(Ok(Some(row("broken"))))), Some("internal authentication error"));
    let reply = answer(Ok(Some(row(STORED))));
    assert_eq!(reply.status, 200);
    let body = reply.body.unwrap();
    assert_eq!(body.get_text("message"), Some("login successful"));
    assert_eq!(body.get_text("token").map(str::to_string), issue_token(&row(STORED), 0, "s"));
    let wrong = answer_login(&payload("a@b.c", "U*U*"), &Ok(Some(row(STORED))), 0, "s");
    assert_eq!(wrong.status, 200);
    assert_eq!(error(&wrong), Some("invalid credentials"));
}

#[test]
fn verdicts_are_answered() {
    assert_eq!(error(&verdict_reply(None, None)), Some("internal authentication error"));
    let unused = Some("t".to_string());
    assert_eq!(error(&verdict_reply(Some(false), unused)), Some("invalid credentials"));
    assert_eq!(error(&verdict_reply(Some(true), None)), Some("failed to generate token"));
    assert_eq!(
        verdict_reply(Some(true), Some("t".to_string())),
        token_reply(Some("t".to_string()))
    );
    assert_eq!(
        token_reply(Some("t".to_string())),
        Reply {
            status: 200,
            body: Some(
                JsonObject::new()
                    .with("message", Json::text("login successful"))
                    .with("token", Json::text("t"))
                    .build()
            ),
        }
    );
}

#[test]
fn a_token_lets_its_user_in() {
    let token = issue_token(&row(STORED), LATER, "s").unwrap();
    assert_eq!(token.split('.').count(), 3);
    let header = format!("Bearer {token}");
    let claims = authorize(Some(header.as_str()), "s").unwrap();
    assert_eq!(claims.sub, row(STORED).id);
    assert_eq!(claims.email, "a@b.c");
    assert_eq!(claims.exp, LATER as usize + 86_400);
}

#[test]
fn a_token_has_to_be_signed_and_current() {
    let fresh = format!("Bearer {}", issue_token(&row(STORED), LATER, "s").unwrap());
    assert_eq!(told(authorize(Some(fresh.as_str()), "s")).0, 200);
    assert_eq!(told(authorize(Some(fresh.as_str()), "other")), (401, NO_SESSION.to_string()));
    let stale = format!("Bearer {}", issue_token(&row(STORED), 0, "s").unwrap());
    assert_eq!(told(authorize(Some(stale.as_str()), "s")), (401, NO_SESSION.to_string()));
    assert_eq!(told(authorize(Some("Bearer x.y.z"), "s")), (401, NO_SESSION.to_string()));
}

#[test]
fn only_three_claims_are_read() {
    let header = |payload: String| {
        let claims = RawValue::from_string(payload).unwrap();
        let key = EncodingKey::from_secret(b"s");
        format!("Bearer {}", encode(&Header::default(), &claims, &key).unwrap())
    };
    let id = "\"sub\":\"01234567-89ab-4def-8123-456789abcdef\"";
    let end = format!("\"exp\":{LATER}");
    let mail = "\"email\":\"a\\u0040b.c\"";
    let deep = format!("{}{}", "[".repeat(200), "]".repeat(200));
    let further = format!("\"x\":1e999,\"y\":\"\\ud800\",\"z\":{deep}");
    let full = header(format!("{{{further},{id},{mail},{end}}}"));
    let claims = authorize(Some(full.as_str()), "s").unwrap();
    assert_eq!(
        claims,
        Claims { sub: row("").id, email: "a@b.c".to_string(), exp: LATER as usize }
    );
    let refused = (401, NO_SESSION.to_string());
    for payload in [
        format!("{{{id},{end}}}"),
        format!("{{{id},{mail}}}"),
        format!("{{{mail},{end}}}"),
        format!("{{{id},\"email\":7,{end}}}"),
        format!("{{{id},{mail},\"exp\":{LATER}.5}}"),
        format!("{{{id},{id},{mail},{end}}}"),
        format!("{{{id},{mail},{end},{end}}}"),
        format!("[{LATER}]"),
    ] {
        let faulty = header(payload);
        assert_eq!(told(authorize(Some(faulty.as_str()), "s")), refused);
    }
}

#[test]
fn a_call_needs_a_token() {
    assert_eq!(bearer_token(None), None);
    assert_eq!(bearer_token(Some("Bearer")), None);
    assert_eq!(bearer_token(Some("Bearer ")), None);
    assert_eq!(bearer_token(Some("Bearer  \t")), None);
    assert_eq!(bearer_token(Some("bearer t")), None);
    assert_eq!(bearer_token(Some("Basic t")), None);
    assert_eq!(bearer_token(Some("Bearer t")), Some("t"));
    assert_eq!(bearer_token(Some("Bearer  t ")), Some(" t "));
    assert_eq!(told(authorize(None, "s")), (401, NO_TOKEN.to_string()));
    assert_eq!(told(authorize(Some("Token x"), "s")), (401, NO_TOKEN.to_string()));
}

#[test]
fn a_session_has_three_claims() {
    let id = "01234567-89ab-4def-8123-456789abcdef";
    let session = |sub: Option<&str>, email: Option<&str>, exp: Option<u64>| {
        session_from(Some((sub.map(str::to_string), email.map(str::to_string), exp)))
    };
    let claims = session(Some(id), Some("a@b.c"), Some(5)).unwrap();
    assert_eq!(
        claims,
        Claims { sub: row("").id, email: "a@b.c".to_string(), exp: 5 }
    );
    let refused = (401, NO_SESSION.to_string());
    assert_eq!(told(session(None, Some("e"), Some(5))), refused);
    assert_eq!(told(session(Some(id), None, Some(5))), refused);
    assert_eq!(told(session(Some(id), Some("e"), None)), refused);
    assert_eq!(told(session(Some("me"), Some("e"), Some(5))), refused);
    assert_eq!(told(session_from(None)), refused);
    assert_eq!(unauthorized("no").status, 401);
}

#[test]
fn a_session_belongs_to_an_identified_user() {
    let email = || Some("a@b.c".to_string());
    assert_eq!(
        session_of(Some(7), email(), Some(5)),
        Ok(Claims { sub: 7, email: "a@b.c".to_string(), exp: 5 })
    );
    let refused = (401, NO_SESSION.to_string());
    assert_eq!(told(session_of(None, email(), Some(5))), refused);
    assert_eq!(told(session_of(Some(7), None, Some(5))), refused);
    assert_eq!(told(session_of(Some(7), email(), None)), refused);
}

#[test]
fn administrators_have_sessions_and_devices_have_none() {
    for endpoint in [
        Endpoint::PublishRelease,
        Endpoint::DeleteRelease,
        Endpoint::ListCompanies,
        Endpoint::CreateCompany,
        Endpoint::UpdateCompany,
        Endpoint::DeleteCompany,
        Endpoint::ListPings,
        Endpoint::PingSummary,
        Endpoint::DeviceLocations,
    ] {
        assert!(needs_session(endpoint));
    }
    for endpoint in [
        Endpoint::SignUp,
        Endpoint::ListUsers,
        Endpoint::UpdateUser,
        Endpoint::DeleteUser,
        Endpoint::LogIn,
        Endpoint::ListReleases,
        Endpoint::Ping,
        Endpoint::ReadMeter,
        Endpoint::ConfirmReading,
    ] {
        assert!(!needs_session(endpoint));
    }
}

#[test]
fn whoever_signed_up_logs_in() {
    let user = new_user(sign_up("longenough!", "longenough!")).unwrap();
    assert_eq!(user.full_name, "Ada L");
    assert_eq!(user.email, "a@b.c");
    assert_eq!(user.username, "ada");
    assert_ne!(user.password_hash, "longenough!");
    assert_eq!((user.id >> 76) & 0xf, 4);
    let stored = Ok(Some(CredentialRow {
        id: user.id,
        email: user.email,
        password_hash: user.password_hash,
    }));
    let right = answer_login(&payload("a@b.c", "longenough!"), &stored, 0, "s");
    assert_eq!(error(&right), None);
    let wrong = answer_login(&payload("a@b.c", "longenough?"), &stored, 0, "s");
    assert_eq!(error(&wrong), Some("invalid credentials"));
}

#[test]
fn passwords_are_entered_twice() {
    let reply = new_user(sign_up("one", "two")).unwrap_err();
    assert_eq!(reply.status, 400);
    assert_eq!(error(&reply), Some("Passwords do not match"));
}

#[test]
fn a_user_is_stored_with_the_hash() {
    assert_eq!(
        user_with(sign_up("p", "p"), Some("h".to_string()), 5),
        Ok(NewUser {
            id: 5,
            full_name: "Ada L".to_string(),
            email: "a@b.c".to_string(),
            username: "ada".to_string(),
            password_hash: "h".to_string(),
        })
    );
    let reply = user_with(sign_up("p", "p"), None, 5).unwrap_err();
    assert_eq!(reply.status, 500);
    assert_eq!(error(&reply), Some("Failed to hash password"));
}

#[test]
fn signing_up_is_answered() {
    let reply = signup_reply(row("").id, Ok(()));
    assert_eq!(reply.status, 201);
    let body = reply.body.unwrap();
    assert_eq!(body.get_text("message"), Some("User created successfully"));
    assert_eq!(body.get_text("id"), Some("01234567-89ab-4def-8123-456789abcdef"));
    let taken = signup_reply(1, Err(DbFailure::UniqueViolation));
    assert_eq!((taken.status, error(&taken)), (409, Some("Email already registered")));
    let failed = signup_reply(1, Err(DbFailure::Other));
    assert_eq!((failed.status, error(&failed)), (500, Some("Database error")));
}

#[test]
fn users_are_listed_without_their_passwords() {
    let reply = users_reply(Ok(vec![UserResponse {
        id: 1,
        full_name: "Ada L".to_string(),
        username: "ada".to_string(),
        email: "a@b.c".to_string(),
    }]));
    assert_eq!(reply.status, 200);
    assert_eq!(
        reply.body,
        Some(Json::list(vec![JsonObject::new()
            .with("id", Json::text("00000000-0000-0000-0000-000000000001"))
            .with("full_name", Json::text("Ada L"))
            .with("username", Json::text("ada"))
            .with("email", Json::text("a@b.c"))
            .build()]))
    );
    let failed = users_reply(Err(DbFailure::Other));
    assert_eq!((failed.status, error(&failed)), (500, Some("Could not fetch users")));
}

#[test]
fn only_what_is_named_is_changed() {
    let statement = |username: Option<&str>, email: Option<&str>| {
        update_statement(UpdateUserPayload {
            username: username.map(str::to_string),
            email: email.map(str::to_string),
        })
    };
    let both = statement(Some("u"), Some("e")).unwrap();
    assert_eq!(both.sql, "UPDATE users SET username = $1, email = $2 WHERE id = $3");
    assert_eq!(both.values, vec!["u", "e"]);
    let username = statement(Some(""), None).unwrap();
    assert_eq!(username.sql, "UPDATE users SET username = $1 WHERE id = $2");
    assert_eq!(username.values, vec![""]);
    let email = statement(None, Some("e")).unwrap();
    assert_eq!(email.sql, "UPDATE users SET email = $1 WHERE id = $2");
    assert_eq!(email.values, vec!["e"]);
    let nothing = statement(None, None).unwrap_err();
    assert_eq!((nothing.status, error(&nothing)), (400, Some("No fields to update")));
}

#[test]
fn changes_of_users_are_answered() {
    let missing = user_deleted_reply(Ok(0));
    assert_eq!((missing.status, error(&missing)), (404, Some("User not found")));
    let deleted = user_deleted_reply(Ok(1));
    assert_eq!(deleted.status, 200);
    assert_eq!(deleted.body.unwrap().get_text("message"), Some("User deleted"));
    let updated = user_updated_reply(Ok(1));
    assert_eq!(updated.body.unwrap().get_text("message"), Some("User updated"));
    let missing = user_updated_reply(Ok(0));
    assert_eq!((missing.status, error(&missing)), (404, Some("User not found")));
    let failed = user_updated_reply(Err(DbFailure::UniqueViolation));
    assert_eq!((failed.status, error(&failed)), (500, Some("Database error")));
}
