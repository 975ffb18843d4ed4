//! HTTP answers as plain data, and the ways in which a database operation fails.
use vstd::prelude::*;

use crate::json::{items_view, no_members, Json, JsonObject, JsonView};

verus! {

pub const OK: u16 = 200;

pub const CREATED: u16 = 201;

pub const BAD_REQUEST: u16 = 400;

pub const UNAUTHORIZED: u16 = 401;

pub const NOT_FOUND: u16 = 404;

pub const CONFLICT: u16 = 409;

pub const TOO_MANY_REQUESTS: u16 = 429;

pub const INTERNAL_SERVER_ERROR: u16 = 500;

/// How a database operation failed, as far as an answer depends on it.
#[derive(PartialEq, Eq, Structural, Clone, Copy, Debug)]
pub enum DbFailure {
    /// A unique constraint was violated.
    UniqueViolation,
    /// Anything else.
    Other,
}

/// An answer: a status code, and a JSON body unless the answer has none.
#[derive(Debug, PartialEq)]
pub struct Reply {
    pub status: u16,
    pub body: Option<Json>,
}

/// The mathematical value of a [`Reply`].
pub struct ReplyView {
    pub status: u16,
    pub body: Option<JsonView>,
}

impl View for Reply {
    type V = ReplyView;

    open spec fn view(&self) -> ReplyView {
        ReplyView {
            status: self.status,
            body: match self.body {
                Some(document) => Some(document@),
                None => None,
            },
        }
    }
}

/// The answer with a status and a body.
pub open spec fn answer(status: u16, body: JsonView) -> ReplyView {
    ReplyView { status, body: Some(body) }
}

/// The body `{ name: text }`.
pub open spec fn one_text(name: Seq<char>, text: Seq<char>) -> JsonView {
    JsonView::Object(no_members().push((name, JsonView::Text(text))))
}

/// The answer `{ "error": text }`.
pub open spec fn error_answer(status: u16, text: Seq<char>) -> ReplyView {
    answer(status, one_text("error"@, text))
}

/// The answer `{ "message": text }`.
pub open spec fn message_answer(status: u16, text: Seq<char>) -> ReplyView {
    answer(status, one_text("message"@, text))
}

/// The answer `{ "success": false, "error": code, "message": text }`.
pub open spec fn failure_answer(status: u16, code: Seq<char>, text: Seq<char>) -> ReplyView {
    answer(
        status,
        JsonView::Object(
            no_members()
                .push(("success"@, JsonView::Bool(false)))
                .push(("error"@, JsonView::Text(code)))
                .push(("message"@, JsonView::Text(text))),
        ),
    )
}

/// What is answered where the database fails.
pub open spec fn database_error_answer() -> ReplyView {
    error_answer(INTERNAL_SERVER_ERROR, "Database error"@)
}

impl Reply {
    /// The answer with a status and a body.
    pub fn new(status: u16, body: Json) -> (reply: Reply)
        ensures
            reply@ == answer(status, body@),
    {
        Reply { status, body: Some(body) }
    }

    /// The answer with a status and no body.
    pub fn bare(status: u16) -> (reply: Reply)
        ensures
            reply@ == (ReplyView { status, body: None }),
    {
        Reply { status, body: None }
    }

    /// The answer `{ "error": text }`.
    pub fn error(status: u16, text: &str) -> (reply: Reply)
        ensures
            reply@ == error_answer(status, text@),
    {
        Reply::new(status, JsonObject::new().with("error", Json::text(text)).build())
    }

    /// The answer `{ "message": text }`.
    pub fn message(status: u16, text: &str) -> (reply: Reply)
        ensures
            reply@ == message_answer(status, text@),
    {
        Reply::new(status, JsonObject::new().with("message", Json::text(text)).build())
    }

    /// The answer `{ "success": false, "error": code, "message": text }`.
    pub fn failure(status: u16, code: &str, text: &str) -> (reply: Reply)
        ensures
            reply@ == failure_answer(status, code@, text@),
    {
        Reply::new(
            status,
            JsonObject::new()
                .with("success", Json::flag(false))
                .with("error", Json::text(code))
                .with("message", Json::text(text))
                .build(),
        )
    }

    /// The answer where the database fails.
    pub fn database_error() -> (reply: Reply)
        ensures
            reply@ == database_error_answer(),
    {
        Reply::error(INTERNAL_SERVER_ERROR, "Database error")
    }
}

/// The answer where the service itself broke off.
pub fn panic_reply() -> (reply: Reply)
    ensures
        reply@ == error_answer(INTERNAL_SERVER_ERROR, "Internal server error"@),
{
    Reply::error(INTERNAL_SERVER_ERROR, "Internal server error")
}

/// What is answered to an operation on one named row: `missing` where no row was affected.
pub open spec fn affected_answer(
    affected: Result<u64, DbFailure>,
    missing: Seq<char>,
    done: Seq<char>,
) -> ReplyView {
    match affected {
        Ok(rows) => if rows == 0 {
            error_answer(NOT_FOUND, missing)
        } else {
            message_answer(OK, done)
        },
        Err(_) => database_error_answer(),
    }
}

/// The answer to an operation on one row that the caller names: `missing` where no row was
/// affected, `done` where one was.
pub fn affected_reply(affected: Result<u64, DbFailure>, missing: &str, done: &str) -> (reply: Reply)
    ensures
        reply@ == affected_answer(affected, missing@, done@),
{
    match affected {
        Ok(rows) => if rows == 0 {
            Reply::error(NOT_FOUND, missing)
        } else {
            Reply::message(OK, done)
        },
        Err(_) => Reply::database_error(),
    }
}

/// What is answered where a list was fetched as the member `data`.
pub open spec fn data_answer(rows: Result<Vec<Json>, DbFailure>) -> ReplyView {
    match rows {
        Ok(items) => answer(
            OK,
            JsonView::Object(no_members().push(("data"@, JsonView::List(items_view(items@))))),
        ),
        Err(_) => database_error_answer(),
    }
}

/// The answer `{ "data": rows }`.
pub fn data_reply(rows: Result<Vec<Json>, DbFailure>) -> (reply: Reply)
    ensures
        reply@ == data_answer(rows),
{
    match rows {
        Ok(items) => Reply::new(OK, JsonObject::new().with("data", Json::list(items)).build()),
        Err(_) => Reply::database_error(),
    }
}

// ---------------------------------------------------------------------------
// Laws
// ---------------------------------------------------------------------------

/// An answer is sent as it is meant: with its status, and with its body where it has one.
pub proof fn answers_are_sent_as_they_are_meant(reply: Reply, status: u16, body: JsonView)
    ensures
        reply@.status == reply.status,
        reply@.body is Some <==> reply.body is Some,
        reply.body matches Some(document) ==> reply@.body == Some(document@),
        reply@ == answer(status, body) <==> reply.status == status && reply.body is Some
            && reply.body->0@ == body,
{
}

/// An error, a message and a failure carry their status, and tell just the text they are given.
pub proof fn answers_tell_their_text(status: u16, code: Seq<char>, text: Seq<char>)
    ensures
        error_answer(status, text).status == status,
        error_answer(status, text).body matches Some(body) && body.size() == 1 && body.tells(
            0,
            "error"@,
            JsonView::Text(text),
        ),
        message_answer(status, text).status == status,
        message_answer(status, text).body matches Some(body) && body.size() == 1 && body.tells(
            0,
            "message"@,
            JsonView::Text(text),
        ),
        failure_answer(status, code, text).status == status,
        failure_answer(status, code, text).body matches Some(body) && body.size() == 3
            && body.tells(0, "success"@, JsonView::Bool(false)) && body.tells(
            1,
            "error"@,
            JsonView::Text(code),
        ) && body.tells(2, "message"@, JsonView::Text(text)),
        one_text(code, text).size() == 1,
        one_text(code, text).tells(0, code, JsonView::Text(text)),
{
}

/// An operation on one row is reported as missing with 404 just where it affected none, and as done
/// with 200 where it affected any, however many.
pub proof fn rows_that_are_not_there_are_missing(
    rows: u64,
    missing: Seq<char>,
    done: Seq<char>,
    failure: DbFailure,
)
    ensures
        rows == 0 ==> affected_answer(Ok(rows), missing, done) == error_answer(404, missing),
        rows > 0 ==> affected_answer(Ok(rows), missing, done) == message_answer(200, done),
        affected_answer(Err(failure), missing, done) == error_answer(500, "Database error"@),
{
}

/// A list is answered with every row at its place.
pub proof fn lists_tell_every_row(rows: Vec<Json>, i: int, failure: DbFailure)
    ensures
        data_answer(Err(failure)) == error_answer(500, "Database error"@),
        data_answer(Ok(rows)).status == 200,
        data_answer(Ok(rows)).body matches Some(body) && body.size() == 1 && ({
            let data = body->Object_0[0].1;
            &&& body.tells(0, "data"@, data)
            &&& data is List
            &&& data.size() == rows@.len()
            &&& 0 <= i < rows@.len() ==> data.lists(i, rows@[i]@)
        }),
{
}

} // verus!
