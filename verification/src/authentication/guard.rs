//! Who may call what: the endpoints that need a session, and what a session is.
use vstd::prelude::*;

use crate::external::{claims_view, parse_uuid, read_token, signed_claims, uuid_value};
use crate::reply::{error_answer, Reply, ReplyView, UNAUTHORIZED};
use crate::text::{
    a_prefix_and_the_rest_make_the_text, behind, is_blank, is_blank_text, text_behind,
};

verus! {

/// The endpoints of the service.
#[derive(PartialEq, Eq, Structural, Clone, Copy, Debug)]
pub enum Endpoint {
    SignUp,
    ListUsers,
    UpdateUser,
    DeleteUser,
    LogIn,
    ListReleases,
    PublishRelease,
    DeleteRelease,
    ListCompanies,
    CreateCompany,
    UpdateCompany,
    DeleteCompany,
    Ping,
    ListPings,
    PingSummary,
    DeviceLocations,
    ReadMeter,
    ConfirmReading,
}

/// Whether an endpoint is for administrators: the directory of companies, the management of
/// releases and the view of the fleet. Devices never log in, so what they call is open: the check
/// for an update, the ping and the two meter endpoints.
pub open spec fn is_guarded(endpoint: Endpoint) -> bool {
    match endpoint {
        Endpoint::PublishRelease | Endpoint::DeleteRelease => true,
        Endpoint::ListCompanies | Endpoint::CreateCompany => true,
        Endpoint::UpdateCompany | Endpoint::DeleteCompany => true,
        Endpoint::ListPings | Endpoint::PingSummary | Endpoint::DeviceLocations => true,
        Endpoint::ListReleases | Endpoint::Ping => false,
        Endpoint::ReadMeter | Endpoint::ConfirmReading => false,
        Endpoint::SignUp | Endpoint::ListUsers | Endpoint::UpdateUser => false,
        Endpoint::DeleteUser | Endpoint::LogIn => false,
    }
}

/// Whether a call of an endpoint needs a session.
pub fn needs_session(endpoint: Endpoint) -> (guarded: bool)
    ensures
        guarded == is_guarded(endpoint),
{
    match endpoint {
        Endpoint::PublishRelease | Endpoint::DeleteRelease => true,
        Endpoint::ListCompanies | Endpoint::CreateCompany => true,
        Endpoint::UpdateCompany | Endpoint::DeleteCompany => true,
        Endpoint::ListPings | Endpoint::PingSummary | Endpoint::DeviceLocations => true,
        Endpoint::ListReleases | Endpoint::Ping => false,
        Endpoint::ReadMeter | Endpoint::ConfirmReading => false,
        Endpoint::SignUp | Endpoint::ListUsers | Endpoint::UpdateUser => false,
        Endpoint::DeleteUser | Endpoint::LogIn => false,
    }
}

/// Who a session belongs to, and when it ends.
#[derive(Debug, PartialEq)]
pub struct Claims {
    /// The identifier of the user.
    pub sub: u128,
    pub email: String,
    /// The end of the session in seconds since the start of 1970.
    pub exp: usize,
}

/// The mathematical value of [`Claims`].
pub struct ClaimsView {
    pub sub: u128,
    pub email: Seq<char>,
    pub exp: usize,
}

impl View for Claims {
    type V = ClaimsView;

    open spec fn view(&self) -> ClaimsView {
        ClaimsView { sub: self.sub, email: self.email@, exp: self.exp }
    }
}

/// The claims that the members of a token's payload make: all three have to be there, and the
/// subject has to be the identifier of a user.
pub open spec fn claims_of(parts: (Option<Seq<char>>, Option<Seq<char>>, Option<u64>)) -> Option<
    ClaimsView,
> {
    match parts {
        (Some(sub), Some(email), Some(exp)) => match uuid_value(sub) {
            Some(id) => if exp <= usize::MAX {
                Some(ClaimsView { sub: id, email, exp: exp as usize })
            } else {
                None
            },
            None => None,
        },
        _ => None,
    }
}

/// Whether a token is signed with a secret and carries claims.
pub open spec fn token_carries(token: Seq<char>, secret: Seq<char>, claims: ClaimsView) -> bool {
    signed_claims(token, secret) matches Some(parts) && claims_of(parts) == Some(claims)
}

/// The token in the value of an `Authorization` header: what stands behind `Bearer `, unless it
/// is blank.
pub open spec fn token_in(header: Option<&str>) -> Option<Seq<char>> {
    match header {
        Some(value) => match text_behind(value@, "Bearer "@) {
            Some(token) => if is_blank_text(token) {
                None
            } else {
                Some(token)
            },
            None => None,
        },
        None => None,
    }
}

/// The token in the value of an `Authorization` header.
pub fn bearer_token<'a>(header: Option<&'a str>) -> (token: Option<&'a str>)
    ensures
        token is Some <==> token_in(header) is Some,
        token matches Some(t) ==> token_in(header) == Some(t@),
{
    match header {
        Some(value) => match behind(value, "Bearer ") {
            Some(token) => if is_blank(token) {
                None
            } else {
                Some(token)
            },
            None => None,
        },
        None => None,
    }
}

pub open spec fn no_token_answer() -> ReplyView {
    error_answer(UNAUTHORIZED, "missing or malformed Authorization header"@)
}

pub open spec fn no_session_answer() -> ReplyView {
    error_answer(UNAUTHORIZED, "invalid or expired session — please log in again"@)
}

/// The answer to a caller that may not do what it asks for.
pub fn unauthorized(msg: &str) -> (reply: Reply)
    ensures
        reply@ == error_answer(UNAUTHORIZED, msg@),
{
    Reply::error(UNAUTHORIZED, msg)
}

/// The secret where none is configured. It protects nothing.
pub const FALLBACK_SECRET: &'static str = "change_me";

/// The secret that sessions are signed with: the configured one, else the fallback.
pub fn session_secret(variable: Option<String>) -> (secret: String)
    ensures
        match variable {
            Some(configured) => secret == configured,
            None => secret@ == FALLBACK_SECRET@,
        },
{
    match variable {
        Some(secret) => secret,
        None => FALLBACK_SECRET.to_owned(),
    }
}

/// The session in the payload of a token: none where the token was not accepted.
pub open spec fn session_in(
    payload: Option<(Option<String>, Option<String>, Option<u64>)>,
) -> Option<ClaimsView> {
    match payload {
        Some(parts) => claims_of(claims_view(parts)),
        None => None,
    }
}

/// The session of the user with an identifier, or the answer where a claim is missing or the end
/// of the session is beyond what the machine counts.
pub fn session_of(sub: Option<u128>, email: Option<String>, exp: Option<u64>) -> (session: Result<
    Claims,
    Reply,
>)
    ensures
        match (sub, email, exp) {
            (Some(id), Some(address), Some(end)) if end <= usize::MAX => session matches Ok(c)
                && c.sub == id && c.email == address && c.exp == end,
            _ => session matches Err(reply) && reply@ == no_session_answer(),
        },
{
    match (sub, email, exp) {
        (Some(id), Some(address), Some(end)) => if end <= usize::MAX as u64 {
            Ok(Claims { sub: id, email: address, exp: end as usize })
        } else {
            Err(unauthorized("invalid or expired session — please log in again"))
        },
        _ => Err(unauthorized("invalid or expired session — please log in again")),
    }
}

/// The session that the members of an accepted token's payload make, or the answer where the
/// token was not accepted (`None`) or they make none.
pub fn session_from(payload: Option<(Option<String>, Option<String>, Option<u64>)>) -> (session:
    Result<Claims, Reply>)
    ensures
        match session_in(payload) {
            Some(claims) => session matches Ok(c) && c@ == claims,
            None => session matches Err(reply) && reply@ == no_session_answer(),
        },
{
    match payload {
        Some((sub, email, exp)) => {
            let id = match sub {
                Some(text) => parse_uuid(text.as_str()),
                None => None,
            };
            session_of(id, email, exp)
        },
        None => session_of(None, None, None),
    }
}

/// The session of a caller, from the value of its `Authorization` header. A caller without a
/// token, or with one that is not accepted, is answered. Whether a token is accepted rests on the
/// clock too.
pub fn authorize(header: Option<&str>, secret: &str) -> (session: Result<Claims, Reply>)
    ensures
        match token_in(header) {
            None => session matches Err(reply) && reply@ == no_token_answer(),
            Some(token) => match session {
                Ok(claims) => token_carries(token, secret@, claims@),
                Err(reply) => reply@ == no_session_answer(),
            },
        },
{
    let token = match bearer_token(header) {
        Some(t) => t,
        None => return Err(unauthorized("missing or malformed Authorization header")),
    };
    match read_token(token, secret) {
        Ok(payload) => session_from(Some(payload)),
        Err(_) => session_from(None),
    }
}

/// What a token says is one thing: whoever is let in with the token of a login is let in as the
/// user who logged in.
pub proof fn a_session_is_who_logged_in(
    token: Seq<char>,
    secret: Seq<char>,
    logged_in: ClaimsView,
    let_in: ClaimsView,
)
    requires
        token_carries(token, secret, logged_in),
        token_carries(token, secret, let_in),
    ensures
        let_in == logged_in,
{
}

/// What a device calls needs no session, since a device has none.
pub proof fn devices_need_no_session(endpoint: Endpoint)
    requires
        endpoint is Ping || endpoint is ListReleases || endpoint is ReadMeter || endpoint
            is ConfirmReading,
    ensures
        !is_guarded(endpoint),
{
}

/// The token is just what stands behind `Bearer ` in the header, white space and all, unless that
/// is blank.
pub proof fn tokens_stand_behind_bearer(header: &str, token: Seq<char>)
    ensures
        token_in(Some(header)) == Some(token) <==> header@ == "Bearer "@ + token && !is_blank_text(
            token,
        ),
        token_in(None) is None,
{
    a_prefix_and_the_rest_make_the_text(header@, "Bearer "@, token);
}

/// A session is made of just the three claims that a token carries: its subject read as an
/// identifier, its email address and its end. Without one of them there is none.
pub proof fn sessions_are_made_of_the_claims(
    sub: Seq<char>,
    email: Seq<char>,
    exp: u64,
    claims: ClaimsView,
)
    ensures
        claims_of((Some(sub), Some(email), Some(exp))) == Some(claims) <==> {
            &&& uuid_value(sub) == Some(claims.sub)
            &&& email == claims.email
            &&& exp == claims.exp
        },
        claims_of((None, Some(email), Some(exp))) is None,
        claims_of((Some(sub), None, Some(exp))) is None,
        claims_of((Some(sub), Some(email), None)) is None,
{
}

/// A session tells who it belongs to as it was read: the identifier, the email address and the
/// end.
pub proof fn sessions_keep_their_claims(
    claims: Claims,
    sub: Option<String>,
    email: Option<String>,
    exp: Option<u64>,
)
    requires
        session_in(Some((sub, email, exp))) == Some(claims@),
    ensures
        sub matches Some(text) && uuid_value(text@) == Some(claims.sub),
        email matches Some(text) && text@ == claims.email@,
        exp matches Some(end) && end == claims.exp,
        session_in(None) is None,
{
}

/// A token carries just the claims that are signed in it, and none where it is not signed with the
/// secret.
pub proof fn tokens_carry_what_is_signed(
    token: Seq<char>,
    secret: Seq<char>,
    sub: Seq<char>,
    email: Seq<char>,
    exp: u64,
    claims: ClaimsView,
)
    ensures
        signed_claims(token, secret) == Some((Some(sub), Some(email), Some(exp))) ==> (
        token_carries(token, secret, claims) <==> {
            &&& uuid_value(sub) == Some(claims.sub)
            &&& email == claims.email
            &&& exp == claims.exp
        }),
        signed_claims(token, secret) is None ==> !token_carries(token, secret, claims),
{
}

} // verus!
