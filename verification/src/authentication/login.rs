//! Logging in.
use vstd::prelude::*;
use vstd::string::*;
use vstd::utf8::encode_utf8;

use crate::authentication::guard::{token_carries, ClaimsView};
use crate::external::{
    password_verdict, session_token, sign_claims, uuid_text, uuid_text_of, verify_password,
};
use crate::json::{no_members, Json, JsonObject, JsonView};
use crate::reply::{answer, error_answer, DbFailure, Reply, ReplyView, OK};
use crate::text::{
    contains_char, has_special, has_special_character, is_blank, is_blank_text, text_of,
};

verus! {

/// What a user logs in with.
#[derive(Debug, PartialEq)]
pub struct LoginPayload {
    pub email: String,
    pub password: String,
}

/// What is known of a user who logs in.
#[derive(Debug, PartialEq)]
pub struct CredentialRow {
    pub id: u128,
    pub email: String,
    pub password_hash: String,
}

/// The first rule that an email address and a password break, if any, where `special` says
/// whether the password holds a special character.
pub open spec fn form_fault(email: Seq<char>, password: Seq<char>, special: bool) -> Option<
    Seq<char>,
> {
    if is_blank_text(email) || is_blank_text(password) {
        Some("both email and password are required"@)
    } else if !email.contains('@') || !email.contains('.') {
        Some("invalid email address"@)
    } else if encode_utf8(password).len() < 8 {
        Some("password must be at least 8 characters long"@)
    } else if !special {
        Some("password must contain a special character"@)
    } else {
        None
    }
}

/// The first rule that an email address and a password break, if any.
pub open spec fn login_fault(email: Seq<char>, password: Seq<char>) -> Option<Seq<char>> {
    form_fault(email, password, has_special_character(password))
}

/// Checks the form of an email address and a password, where `special` says whether the password
/// holds a special character. A password is measured in bytes of UTF-8.
pub fn check_form(payload: &LoginPayload, special: bool) -> (checked: Result<(), String>)
    ensures
        match form_fault(payload.email@, payload.password@, special) {
            None => checked is Ok,
            Some(fault) => checked matches Err(text) && text@ == fault,
        },
{
    let email = payload.email.as_str();
    let password = payload.password.as_str();
    if is_blank(email) || is_blank(password) {
        return Err("both email and password are required".to_owned());
    }
    if !contains_char(email, '@') || !contains_char(email, '.') {
        return Err("invalid email address".to_owned());
    }
    if password.as_bytes().len() < 8 {
        return Err("password must be at least 8 characters long".to_owned());
    }
    if !special {
        return Err("password must contain a special character".to_owned());
    }
    Ok(())
}

/// Checks the form of an email address and a password.
pub fn validate(payload: &LoginPayload) -> (checked: Result<(), String>)
    ensures
        match login_fault(payload.email@, payload.password@) {
            None => checked is Ok,
            Some(fault) => checked matches Err(text) && text@ == fault,
        },
{
    check_form(payload, has_special(payload.password.as_str()))
}

/// Lets a login in due form pass, and answers any other.
pub fn check_login(payload: &LoginPayload) -> (checked: Result<(), Reply>)
    ensures
        match login_fault(payload.email@, payload.password@) {
            None => checked is Ok,
            Some(fault) => checked matches Err(reply) && reply@ == error_answer(OK, fault),
        },
{
    match validate(payload) {
        Ok(_) => Ok(()),
        Err(fault) => Err(Reply::error(OK, fault.as_str())),
    }
}

/// How long a session lasts: a day.
pub const SESSION_SECONDS: i64 = 86_400;

/// The last second that the calendar counts, at the end of the year 262142.
pub const LAST_SECOND: i64 = 8_210_266_876_799;

/// The end of a session that starts at a time, in seconds since the start of 1970.
pub fn session_expiry(now: i64) -> (exp: usize)
    requires
        now <= LAST_SECOND - SESSION_SECONDS,
    ensures
        exp == (now + SESSION_SECONDS) as usize,
{
    (now + SESSION_SECONDS) as usize
}

/// The claims of a user who logs in at a time.
pub open spec fn login_claims(user: CredentialRow, now: i64) -> ClaimsView {
    ClaimsView { sub: user.id, email: user.email@, exp: (now + SESSION_SECONDS) as usize }
}

/// The token that a user gets who logs in at a time.
pub open spec fn login_token(user: CredentialRow, now: i64, secret: Seq<char>) -> Seq<char> {
    session_token(
        uuid_text_of(user.id),
        user.email@,
        (now + SESSION_SECONDS) as usize as u64,
        secret,
    )
}

/// The token that a user gets who logs in at a time. It carries who the user is and when the
/// session ends, signed with the secret.
pub fn issue_token(user: &CredentialRow, now: i64, secret: &str) -> (token: Option<String>)
    requires
        now <= LAST_SECOND - SESSION_SECONDS,
    ensures
        token is Some,
        token matches Some(t) ==> t@ == login_token(*user, now, secret@),
        token matches Some(t) ==> token_carries(t@, secret@, login_claims(*user, now)),
{
    let sub = uuid_text(user.id);
    let exp = session_expiry(now);
    match sign_claims(sub.as_str(), user.email.as_str(), exp as u64, secret) {
        Ok(token) => Some(token),
        Err(_) => None,
    }
}

/// What is answered once the token is made, or could not be.
pub open spec fn token_answer(token: Option<Seq<char>>) -> ReplyView {
    match token {
        Some(t) => answer(
            OK,
            JsonView::Object(
                no_members()
                    .push(("message"@, JsonView::Text("login successful"@)))
                    .push(("token"@, JsonView::Text(t))),
            ),
        ),
        None => error_answer(OK, "failed to generate token"@),
    }
}

/// The answer once the token is made, or could not be.
pub fn token_reply(token: Option<String>) -> (reply: Reply)
    ensures
        reply@ == token_answer(text_of(token)),
{
    match token {
        Some(t) => Reply::new(
            OK,
            JsonObject::new()
                .with("message", Json::text("login successful"))
                .with("token", Json::text(t.as_str()))
                .build(),
        ),
        None => Reply::error(OK, "failed to generate token"),
    }
}

/// What is answered for the outcome of the check of a password (`None` where the stored hash is
/// malformed), where `token` is what a right password brings.
pub open spec fn verdict_answer(verdict: Option<bool>, token: Option<Seq<char>>) -> ReplyView {
    match verdict {
        None => error_answer(OK, "internal authentication error"@),
        Some(false) => error_answer(OK, "invalid credentials"@),
        Some(true) => token_answer(token),
    }
}

/// The answer for the outcome of the check of a password (`None` where the stored hash is
/// malformed), where `token` is what a right password brings.
pub fn verdict_reply(verdict: Option<bool>, token: Option<String>) -> (reply: Reply)
    ensures
        reply@ == verdict_answer(verdict, text_of(token)),
{
    match verdict {
        None => Reply::error(OK, "internal authentication error"),
        Some(false) => Reply::error(OK, "invalid credentials"),
        Some(true) => token_reply(token),
    }
}

/// What is answered to a login, from what the database found for its email address.
pub open spec fn login_answer(
    password: Seq<char>,
    user: Result<Option<CredentialRow>, DbFailure>,
    now: i64,
    secret: Seq<char>,
) -> ReplyView {
    match user {
        Ok(Some(row)) => verdict_answer(
            password_verdict(password, row.password_hash@),
            Some(login_token(row, now, secret)),
        ),
        Ok(None) => error_answer(OK, "user not found"@),
        Err(_) => error_answer(OK, "database error"@),
    }
}

/// The answer to a login in due form, from what the database found for its email address.
pub fn answer_login(
    payload: &LoginPayload,
    user: &Result<Option<CredentialRow>, DbFailure>,
    now: i64,
    secret: &str,
) -> (reply: Reply)
    requires
        now <= LAST_SECOND - SESSION_SECONDS,
    ensures
        reply@ == login_answer(payload.password@, *user, now, secret@),
{
    match user {
        Ok(Some(row)) => {
            match verify_password(payload.password.as_str(), row.password_hash.as_str()) {
                Ok(true) => verdict_reply(Some(true), issue_token(row, now, secret)),
                Ok(false) => verdict_reply(Some(false), None),
                Err(_) => verdict_reply(None, None),
            }
        },
        Ok(None) => Reply::error(OK, "user not found"),
        Err(_) => Reply::error(OK, "database error"),
    }
}

/// Whoever signed up logs in with the password they signed up with: the answer reports success
/// and holds the token of their session.
pub proof fn the_right_password_logs_in(
    password: Seq<char>,
    row: CredentialRow,
    now: i64,
    secret: Seq<char>,
)
    requires
        password_verdict(password, row.password_hash@) == Some(true),
    ensures
        login_answer(password, Ok(Some(row)), now, secret) == token_answer(
            Some(login_token(row, now, secret)),
        ),
{
}

/// A token is given only to who knows the password of a user that there is.
pub proof fn tokens_need_the_password(
    password: Seq<char>,
    user: Result<Option<CredentialRow>, DbFailure>,
    now: i64,
    secret: Seq<char>,
    token: Seq<char>,
)
    requires
        login_answer(password, user, now, secret) == token_answer(Some(token)),
    ensures
        user matches Ok(Some(row)) && password_verdict(password, row.password_hash@) == Some(true)
            && login_token(row, now, secret) == token,
{
    let given = token_answer(Some(token));
    assert(given.body->0->Object_0.len() == 2);
    assert(given.body->0->Object_0[1].1 == JsonView::Text(token));
    assert(forall|text: Seq<char>|
        (#[trigger] error_answer(OK, text)).body->0->Object_0.len() == 1);
    if let Ok(Some(row)) = user {
        let t = login_token(row, now, secret);
        assert(token_answer(Some(t)).body->0->Object_0[1].1 == JsonView::Text(t));
    }
}

/// A login is in due form just where both its texts are filled in, the email address holds an at
/// sign and a dot, and the password has eight bytes and a special character; the first of these
/// that is broken is told.
pub proof fn logins_in_due_form_pass(email: Seq<char>, password: Seq<char>, special: bool)
    ensures
        form_fault(email, password, special) is None <==> {
            &&& !is_blank_text(email)
            &&& !is_blank_text(password)
            &&& email.contains('@')
            &&& email.contains('.')
            &&& encode_utf8(password).len() >= 8
            &&& special
        },
        is_blank_text(email) || is_blank_text(password) ==> form_fault(email, password, special)
            == Some("both email and password are required"@),
        !is_blank_text(email) && !is_blank_text(password) ==> {
            &&& !email.contains('@') || !email.contains('.') ==> form_fault(
                email,
                password,
                special,
            ) == Some("invalid email address"@)
            &&& email.contains('@') && email.contains('.') ==> {
                &&& encode_utf8(password).len() < 8 ==> form_fault(email, password, special)
                    == Some("password must be at least 8 characters long"@)
                &&& encode_utf8(password).len() >= 8 && !special ==> form_fault(
                    email,
                    password,
                    special,
                ) == Some("password must contain a special character"@)
            }
        },
        special == has_special_character(password) ==> login_fault(email, password) == form_fault(
            email,
            password,
            special,
        ),
{
}

/// A session is that of the user who logged in, by the identifier and the email address in the
/// database, and ends a day after the login; its token is signed over just these.
pub proof fn sessions_are_those_of_the_user(row: CredentialRow, now: i64, secret: Seq<char>)
    ensures
        login_claims(row, now).sub == row.id,
        login_claims(row, now).email == row.email@,
        login_claims(row, now).exp == (now + 86400) as usize,
        0 <= now + 86400 <= usize::MAX ==> login_claims(row, now).exp == now + 86400,
        login_token(row, now, secret) == session_token(
            uuid_text_of(row.id),
            row.email@,
            (now + 86400) as usize as u64,
            secret,
        ),
{
}

/// A successful login is answered with its token, and every other with an error and no token: a
/// wrong password, an unknown user, a malformed hash and a failing database each with their own.
pub proof fn logins_are_answered(
    password: Seq<char>,
    row: CredentialRow,
    now: i64,
    secret: Seq<char>,
    failure: DbFailure,
)
    ensures
        password_verdict(password, row.password_hash@) == Some(true) ==> ({
            let reply = login_answer(password, Ok(Some(row)), now, secret);
            &&& reply.status == 200
            &&& reply.body matches Some(body) && body.size() == 2 && body.tells(
                0,
                "message"@,
                JsonView::Text("login successful"@),
            ) && body.tells(1, "token"@, JsonView::Text(login_token(row, now, secret)))
        }),
        password_verdict(password, row.password_hash@) == Some(false) ==> login_answer(
            password,
            Ok(Some(row)),
            now,
            secret,
        ) == error_answer(200, "invalid credentials"@),
        password_verdict(password, row.password_hash@) is None ==> login_answer(
            password,
            Ok(Some(row)),
            now,
            secret,
        ) == error_answer(200, "internal authentication error"@),
        login_answer(password, Ok(None), now, secret) == error_answer(200, "user not found"@),
        login_answer(password, Err(failure), now, secret) == error_answer(200, "database error"@),
{
}

/// The token that is told is the one that was made.
pub proof fn the_token_is_told_as_it_is(token: Seq<char>)
    ensures
        token_answer(Some(token)).status == 200,
        token_answer(Some(token)).body matches Some(body) && body.size() == 2 && body.tells(
            0,
            "message"@,
            JsonView::Text("login successful"@),
        ) && body.tells(1, "token"@, JsonView::Text(token)),
        verdict_answer(Some(true), Some(token)) == token_answer(Some(token)),
        verdict_answer(Some(true), None) == error_answer(200, "failed to generate token"@),
        verdict_answer(Some(false), Some(token)) == error_answer(200, "invalid credentials"@),
        verdict_answer(None, Some(token)) == error_answer(200, "internal authentication error"@),
{
}

} // verus!
