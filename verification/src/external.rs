//! The calls into other crates: password hashes, session tokens, identifiers, timestamps and
//! base64. What is said of each here is taken from that crate; everything else is proved.
use vstd::arithmetic::power::pow;
use vstd::prelude::*;

use base64::engine::general_purpose::STANDARD;
use base64::Engine;
use chrono::DateTime;
use jsonwebtoken::{decode, encode, DecodingKey, EncodingKey, Header, Validation};
use serde_json::value::RawValue;
use serde_json::{from_str, Value};
use std::collections::HashMap;
use uuid::Uuid;

verus! {

/// The error type of the `bcrypt` crate.
#[verifier::external_type_specification]
#[verifier::external_body]
pub struct ExBcryptError(bcrypt::BcryptError);

/// The error type of the `jsonwebtoken` crate.
#[verifier::external_type_specification]
#[verifier::external_body]
pub struct ExTokenError(jsonwebtoken::errors::Error);

/// What `bcrypt::verify` finds for a password and a hash: whether they belong together, or
/// nothing where the hash is malformed.
pub uninterp spec fn password_verdict(password: Seq<char>, hash: Seq<char>) -> Option<bool>;

/// `bcrypt::verify` recomputes the hash of a password with the cost and the salt that a hash
/// carries, and tells whether the two hashes agree. It fails on a malformed hash. The outcome
/// is a function of the two texts.
#[verifier::external_body]
pub(crate) fn verify_password(password: &str, hash: &str) -> (verdict: Result<
    bool,
    bcrypt::BcryptError,
>)
    ensures
        verdict is Ok <==> password_verdict(password@, hash@) is Some,
        verdict matches Ok(same) ==> password_verdict(password@, hash@) == Some(same),
{
    bcrypt::verify(password, hash)
}

/// `bcrypt::hash` hashes a password at the crate's default cost with a random salt, which the
/// hash carries: `bcrypt::verify` accepts the password for the hash. The salt is random, so the
/// hash differs from call to call. It fails where the operating system gives no random bytes.
#[verifier::external_body]
pub(crate) fn hash_password(password: &str) -> (hash: Result<String, bcrypt::BcryptError>)
    ensures
        hash matches Ok(h) ==> password_verdict(password@, h@) == Some(true),
{
    bcrypt::hash(password, bcrypt::DEFAULT_COST)
}

/// The members `sub`, `email` and `exp` of the claims that a token carries, as far as they are
/// texts and a natural number, where the token is signed with the secret (HS256).
pub uninterp spec fn signed_claims(token: Seq<char>, secret: Seq<char>) -> Option<
    (Option<Seq<char>>, Option<Seq<char>>, Option<u64>),
>;

/// The token that `jsonwebtoken::encode` makes of claims.
pub uninterp spec fn session_token(
    sub: Seq<char>,
    email: Seq<char>,
    exp: u64,
    secret: Seq<char>,
) -> Seq<char>;

/// `jsonwebtoken::encode` with the default header signs claims by HMAC-SHA256. With a secret as
/// key and claims of two texts and a number it does not fail. The token is a function of the
/// claims and the secret, and carries the claims under that signature.
#[verifier::external_body]
pub(crate) fn sign_claims(sub: &str, email: &str, exp: u64, secret: &str) -> (token: Result<
    String,
    jsonwebtoken::errors::Error,
>)
    ensures
        token is Ok,
        token matches Ok(t) ==> t@ == session_token(sub@, email@, exp, secret@),
        token matches Ok(t) ==> signed_claims(t@, secret@) == Some(
            (Some(sub@), Some(email@), Some(exp)),
        ),
{
    let mut claims = serde_json::Map::new();
    claims.insert("sub".to_string(), Value::from(sub));
    claims.insert("email".to_string(), Value::from(email));
    claims.insert("exp".to_string(), Value::from(exp));
    encode(&Header::default(), &claims, &EncodingKey::from_secret(secret.as_bytes()))
}

/// The texts of the two first claims, where they are present.
pub open spec fn claims_view(claims: (Option<String>, Option<String>, Option<u64>)) -> (
    Option<Seq<char>>,
    Option<Seq<char>>,
    Option<u64>,
) {
    (crate::text::text_of(claims.0), crate::text::text_of(claims.1), claims.2)
}

/// `jsonwebtoken::decode` with the default validation accepts a token only where it is signed
/// with the secret by HMAC-SHA256, and gives the claims that it carries. It also rejects a token
/// whose `exp` is missing or lies more than a minute in the past, and one with an audience: as
/// the clock decides with it, nothing is said of when a token is accepted. The clock has to show
/// a time later than the first minute of 1970. Members other than the three are passed over
/// unread. Of an `email` that is written twice the last one counts, and claims that are not UTF-8
/// are rejected.
#[verifier::external_body]
pub(crate) fn read_token(token: &str, secret: &str) -> (claims: Result<
    (Option<String>, Option<String>, Option<u64>),
    jsonwebtoken::errors::Error,
>)
    ensures
        claims matches Ok(c) ==> signed_claims(token@, secret@) == Some(claims_view(c)),
{
    let key = DecodingKey::from_secret(secret.as_bytes());
    let decoded = decode::<HashMap<String, Box<RawValue>>>(token, &key, &Validation::default())?;
    let claims = decoded.claims;
    let sub = claims.get("sub").and_then(|raw| from_str::<String>(raw.get()).ok());
    let email = claims.get("email").and_then(|raw| from_str::<String>(raw.get()).ok());
    Ok((sub, email, claims.get("exp").and_then(|raw| from_str::<u64>(raw.get()).ok())))
}

/// Whether the bits of an identifier mark it as random (version 4 of RFC 9562).
pub open spec fn is_random_uuid(id: u128) -> bool {
    (id >> 76) & 0xf == 4 && (id >> 62) & 0x3 == 2
}

/// `uuid::Uuid::new_v4` draws 122 random bits from the operating system and marks the identifier
/// as version 4. It panics where the operating system gives no random bytes.
#[verifier::external_body]
pub(crate) fn new_uuid() -> (id: u128)
    ensures
        is_random_uuid(id),
{
    Uuid::new_v4().as_u128()
}

/// A hexadecimal digit in lower case.
pub open spec fn hex_digit(n: int) -> char {
    if n < 10 {
        ('0' as u32 + n) as char
    } else {
        ('a' as u32 + (n - 10)) as char
    }
}

/// How many hyphens stand before a place in the text of an identifier.
pub open spec fn hyphens_before(place: int) -> int {
    if place <= 8 {
        0
    } else if place <= 13 {
        1
    } else if place <= 18 {
        2
    } else if place <= 23 {
        3
    } else {
        4
    }
}

/// The text of an identifier: 32 hexadecimal digits in groups of 8, 4, 4, 4 and 12 with hyphens
/// between them.
pub open spec fn uuid_text_of(id: u128) -> Seq<char> {
    Seq::new(
        36,
        |place: int|
            if place == 8 || place == 13 || place == 18 || place == 23 {
                '-'
            } else {
                hex_digit((id as int / pow(16, (31 - (place - hyphens_before(place))) as nat)) % 16)
            },
    )
}

/// The identifier that `uuid::Uuid::parse_str` finds in a text.
pub uninterp spec fn uuid_value(text: Seq<char>) -> Option<u128>;

/// `uuid::Uuid` as text is the hyphenated form in lower case, which `uuid::Uuid::parse_str`
/// reads back.
#[verifier::external_body]
pub(crate) fn uuid_text(id: u128) -> (text: String)
    ensures
        text@ == uuid_text_of(id),
        uuid_value(text@) == Some(id),
{
    Uuid::from_u128(id).to_string()
}

/// `uuid::Uuid::parse_str` reads an identifier from a text in any of the forms that it knows.
#[verifier::external_body]
pub(crate) fn parse_uuid(text: &str) -> (id: Option<u128>)
    ensures
        id == uuid_value(text@),
{
    Uuid::parse_str(text).ok().map(|id| id.as_u128())
}

/// The instant that `chrono::DateTime::parse_from_rfc3339` finds in a text: the seconds since the
/// start of 1970 in UTC, and the nanoseconds beyond them.
pub uninterp spec fn rfc3339_instant(text: Seq<char>) -> Option<(i64, u32)>;

/// `chrono::DateTime::parse_from_rfc3339` reads a date and time with an offset from a text. The
/// instant that it denotes is a function of the text.
#[verifier::external_body]
pub(crate) fn parse_rfc3339(text: &str) -> (instant: Option<(i64, u32)>)
    ensures
        instant == rfc3339_instant(text@),
{
    DateTime::parse_from_rfc3339(text)
        .ok()
        .map(|t| (t.timestamp(), t.timestamp_subsec_nanos()))
}

/// A digit of base64 (the standard alphabet of RFC 4648).
pub open spec fn base64_digit(n: int) -> char {
    if n < 26 {
        ('A' as u32 + n) as char
    } else if n < 52 {
        ('a' as u32 + (n - 26)) as char
    } else if n < 62 {
        ('0' as u32 + (n - 52)) as char
    } else if n == 62 {
        '+'
    } else {
        '/'
    }
}

/// Bytes in base64: four digits for each three bytes, the last group padded with `=`.
pub open spec fn base64_text(bytes: Seq<u8>) -> Seq<char>
    decreases bytes.len(),
{
    let a = bytes[0] as int;
    let b = bytes[1] as int;
    let c = bytes[2] as int;
    if bytes.len() == 0 {
        Seq::empty()
    } else if bytes.len() == 1 {
        seq![base64_digit(a / 4), base64_digit(a % 4 * 16), '=', '=']
    } else if bytes.len() == 2 {
        seq![base64_digit(a / 4), base64_digit(a % 4 * 16 + b / 16), base64_digit(b % 16 * 4), '=']
    } else {
        seq![
            base64_digit(a / 4),
            base64_digit(a % 4 * 16 + b / 16),
            base64_digit(b % 16 * 4 + c / 64),
            base64_digit(c % 64),
        ] + base64_text(bytes.skip(3))
    }
}

/// `base64::Engine::encode` with the engine `STANDARD` writes bytes in the standard alphabet with
/// padding. It panics where the text would be too long to allocate.
#[verifier::external_body]
pub(crate) fn encode_base64(bytes: &Vec<u8>) -> (text: String)
    requires
        bytes@.len() / 3 * 4 + 4 <= isize::MAX,
    ensures
        text@ == base64_text(bytes@),
{
    STANDARD.encode(bytes)
}

} // verus!
