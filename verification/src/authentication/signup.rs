//! Users: signing up, changing and deleting them.
use vstd::prelude::*;
use vstd::string::*;

use crate::external::{
    hash_password, is_random_uuid, new_uuid, password_verdict, uuid_text, uuid_text_of,
};
use crate::json::{items_view, member_from, no_members, Json, JsonObject, JsonView};
use crate::reply::{
    affected_answer, affected_reply, answer, database_error_answer, error_answer, DbFailure, Reply,
    ReplyView, BAD_REQUEST, CONFLICT, CREATED, INTERNAL_SERVER_ERROR, OK,
};

verus! {

/// What a user signs up with.
#[derive(Debug, PartialEq)]
pub struct SignUpPayload {
    pub full_name: String,
    pub email: String,
    pub username: String,
    pub password: String,
    pub confirm_password: String,
}

/// What is to be changed of a user.
#[derive(Debug, PartialEq)]
pub struct UpdateUserPayload {
    pub username: Option<String>,
    pub email: Option<String>,
}

/// A user to be stored.
#[derive(Debug, PartialEq)]
pub struct NewUser {
    pub id: u128,
    pub full_name: String,
    pub email: String,
    pub username: String,
    pub password_hash: String,
}

impl NewUser {
    /// Whether this is the user whom a payload describes.
    pub open spec fn describes(self, payload: SignUpPayload) -> bool {
        &&& self.full_name == payload.full_name
        &&& self.email == payload.email
        &&& self.username == payload.username
    }
}

pub open spec fn mismatch_answer() -> ReplyView {
    error_answer(BAD_REQUEST, "Passwords do not match"@)
}

pub open spec fn hash_failed_answer() -> ReplyView {
    error_answer(INTERNAL_SERVER_ERROR, "Failed to hash password"@)
}

/// The user to be stored for a payload whose two passwords are the same, with the hash of the
/// password (`None` where it could not be made) and an identifier.
pub fn user_with(payload: SignUpPayload, hash: Option<String>, id: u128) -> (user: Result<
    NewUser,
    Reply,
>)
    ensures
        match hash {
            Some(h) => user matches Ok(u) && u.describes(payload) && u.password_hash == h && u.id
                == id,
            None => user matches Err(reply) && reply@ == hash_failed_answer(),
        },
{
    match hash {
        Some(password_hash) => Ok(
            NewUser {
                id,
                full_name: payload.full_name,
                email: payload.email,
                username: payload.username,
                password_hash,
            },
        ),
        None => Err(Reply::error(INTERNAL_SERVER_ERROR, "Failed to hash password")),
    }
}

/// The user to be stored for a payload. The two passwords have to be the same; of the password
/// only a hash is kept, and the password is the one that the hash accepts.
pub fn new_user(payload: SignUpPayload) -> (user: Result<NewUser, Reply>)
    ensures
        payload.password@ != payload.confirm_password@ ==> (user matches Err(reply) && reply@
            == mismatch_answer()),
        payload.password@ == payload.confirm_password@ ==> match user {
            Ok(u) => {
                &&& u.describes(payload)
                &&& password_verdict(payload.password@, u.password_hash@) == Some(true)
                &&& is_random_uuid(u.id)
            },
            Err(reply) => reply@ == hash_failed_answer(),
        },
{
    if payload.password != payload.confirm_password {
        return Err(Reply::error(BAD_REQUEST, "Passwords do not match"));
    }
    let hash = match hash_password(payload.password.as_str()) {
        Ok(h) => Some(h),
        Err(_) => None,
    };
    user_with(payload, hash, new_uuid())
}

/// What is answered to a user who signed up.
pub open spec fn signup_answer(id: u128, inserted: Result<(), DbFailure>) -> ReplyView {
    match inserted {
        Ok(_) => answer(
            CREATED,
            JsonView::Object(
                no_members()
                    .push(("message"@, JsonView::Text("User created successfully"@)))
                    .push(("id"@, JsonView::Text(uuid_text_of(id)))),
            ),
        ),
        Err(DbFailure::UniqueViolation) => error_answer(CONFLICT, "Email already registered"@),
        Err(DbFailure::Other) => database_error_answer(),
    }
}

/// The answer to a user who signed up, from what came of storing the user.
pub fn signup_reply(id: u128, inserted: Result<(), DbFailure>) -> (reply: Reply)
    ensures
        reply@ == signup_answer(id, inserted),
{
    match inserted {
        Ok(_) => Reply::new(
            CREATED,
            JsonObject::new()
                .with("message", Json::text("User created successfully"))
                .with("id", Json::text(uuid_text(id).as_str()))
                .build(),
        ),
        Err(DbFailure::UniqueViolation) => Reply::error(CONFLICT, "Email already registered"),
        Err(DbFailure::Other) => Reply::database_error(),
    }
}

/// What is told of a user.
#[derive(Debug, PartialEq)]
pub struct UserResponse {
    pub id: u128,
    pub full_name: String,
    pub username: String,
    pub email: String,
}

/// A user as an object.
pub open spec fn user_view(user: UserResponse) -> JsonView {
    JsonView::Object(
        no_members()
            .push(("id"@, JsonView::Text(uuid_text_of(user.id))))
            .push(("full_name"@, JsonView::Text(user.full_name@)))
            .push(("username"@, JsonView::Text(user.username@)))
            .push(("email"@, JsonView::Text(user.email@))),
    )
}

/// Nothing is told of a user but the identifier, the two names and the email address: no password,
/// and no hash of one.
pub proof fn users_are_told_without_passwords(user: UserResponse, key: Seq<char>)
    ensures
        user_view(user).member(key) is Some <==> key == "id"@ || key == "full_name"@ || key
            == "username"@ || key == "email"@,
        user_view(user).member("password"@) is None,
        user_view(user).member("password_hash"@) is None,
{
    reveal_with_fuel(member_from, 5);
    reveal_strlit("id");
    reveal_strlit("full_name");
    reveal_strlit("username");
    reveal_strlit("email");
    reveal_strlit("password");
    reveal_strlit("password_hash");
    assert("id"@.len() == 2 && "full_name"@.len() == 9 && "username"@.len() == 8
        && "email"@.len() == 5 && "password"@.len() == 8 && "password_hash"@.len() == 13);
    assert("username"@[0] == 'u' && "password"@[0] == 'p');
}

/// What is answered to a request for all users.
pub open spec fn users_answer(users: Result<Vec<UserResponse>, DbFailure>) -> ReplyView {
    match users {
        Ok(rows) => answer(
            OK,
            JsonView::List(Seq::new(rows@.len(), |i: int| user_view(rows@[i]))),
        ),
        Err(_) => error_answer(INTERNAL_SERVER_ERROR, "Could not fetch users"@),
    }
}

/// The answer to a request for all users. It tells nothing of their passwords.
pub fn users_reply(users: Result<Vec<UserResponse>, DbFailure>) -> (reply: Reply)
    ensures
        reply@ == users_answer(users),
{
    match users {
        Ok(rows) => {
            let mut items: Vec<Json> = Vec::new();
            for i in 0..rows.len()
                invariant
                    items@.len() == i,
                    forall|k: int| 0 <= k < i ==> (#[trigger] items@[k])@ == user_view(rows@[k]),
            {
                let user = &rows[i];
                let item = JsonObject::new()
                    .with("id", Json::text(uuid_text(user.id).as_str()))
                    .with("full_name", Json::text(user.full_name.as_str()))
                    .with("username", Json::text(user.username.as_str()))
                    .with("email", Json::text(user.email.as_str()))
                    .build();
                items.push(item);
            }
            assert(items_view(items@) =~= Seq::new(rows@.len(), |i: int| user_view(rows@[i])));
            Reply::new(OK, Json::list(items))
        },
        Err(_) => Reply::error(INTERNAL_SERVER_ERROR, "Could not fetch users"),
    }
}

/// The answer to the deletion of a user, from how many rows it affected.
pub fn user_deleted_reply(affected: Result<u64, DbFailure>) -> (reply: Reply)
    ensures
        reply@ == affected_answer(affected, "User not found"@, "User deleted"@),
{
    affected_reply(affected, "User not found", "User deleted")
}

/// The answer to the change of a user, from how many rows it affected.
pub fn user_updated_reply(affected: Result<u64, DbFailure>) -> (reply: Reply)
    ensures
        reply@ == affected_answer(affected, "User not found"@, "User updated"@),
{
    affected_reply(affected, "User not found", "User updated")
}

// ---------------------------------------------------------------------------
// Changing a user
// ---------------------------------------------------------------------------

/// A statement that changes a user. Its values are bound in order, and behind them the identifier
/// of the user.
#[derive(Debug, PartialEq)]
pub struct UpdateStatement {
    pub sql: String,
    pub values: Vec<String>,
}

/// The columns that a payload changes, each with its new value, in the order in which they are
/// set.
pub open spec fn changes(payload: UpdateUserPayload) -> Seq<(Seq<char>, Seq<char>)> {
    let username = match payload.username {
        Some(value) => Seq::<(Seq<char>, Seq<char>)>::empty().push(("username"@, value@)),
        None => Seq::empty(),
    };
    match payload.email {
        Some(value) => username.push(("email"@, value@)),
        None => username,
    }
}

/// The placeholder with a number from 1 to 9.
pub open spec fn placeholder(n: int) -> Seq<char> {
    seq!['$', ('0' as u32 + n) as char]
}

/// The assignments of the first `n` changes: the value with the number k is bound to the
/// placeholder with the number k, counted from 1.
pub open spec fn assignments(columns: Seq<(Seq<char>, Seq<char>)>, n: nat) -> Seq<char>
    decreases n,
{
    if n == 0 {
        Seq::empty()
    } else {
        let before = assignments(columns, (n - 1) as nat);
        let separator = if n == 1 {
            Seq::empty()
        } else {
            ", "@
        };
        before + separator + columns[n - 1].0 + " = "@ + placeholder(n as int)
    }
}

/// The statement that makes changes.
pub open spec fn update_sql(columns: Seq<(Seq<char>, Seq<char>)>) -> Seq<char> {
    "UPDATE users SET "@ + assignments(columns, columns.len()) + " WHERE id = "@ + placeholder(
        columns.len() as int + 1,
    )
}

pub open spec fn no_changes_answer() -> ReplyView {
    error_answer(BAD_REQUEST, "No fields to update"@)
}

fn placeholder_text(n: usize) -> (text: String)
    requires
        1 <= n <= 3,
    ensures
        text@ == placeholder(n as int),
{
    let digit = if n == 1 {
        "$1"
    } else if n == 2 {
        "$2"
    } else {
        "$3"
    };
    proof {
        reveal_strlit("$1");
        reveal_strlit("$2");
        reveal_strlit("$3");
        assert(digit@ =~= placeholder(n as int));
    }
    digit.to_owned()
}

/// The text of one more assignment.
fn with_assignment(before: String, column: &str, n: usize) -> (text: String)
    requires
        1 <= n <= 3,
    ensures
        text@ == before@ + (if n == 1 {
            Seq::<char>::empty()
        } else {
            ", "@
        }) + column@ + " = "@ + placeholder(n as int),
{
    let separator = if n == 1 {
        ""
    } else {
        ", "
    };
    proof {
        reveal_strlit("");
        assert(""@ =~= Seq::<char>::empty());
    }
    before
        .concat(separator)
        .concat(column)
        .concat(" = ")
        .concat(placeholder_text(n).as_str())
}

/// The statement that changes a user: only the columns that the payload names are set. Where it
/// names none, that is answered.
pub fn update_statement(payload: UpdateUserPayload) -> (statement: Result<UpdateStatement, Reply>)
    ensures
        match statement {
            Ok(s) => {
                &&& changes(payload).len() > 0
                &&& s.sql@ == update_sql(changes(payload))
                &&& s.values@.len() == changes(payload).len()
                &&& forall|i: int|
                    0 <= i < s.values@.len() ==> (#[trigger] s.values@[i])@ == changes(payload)[i].1
            },
            Err(reply) => changes(payload).len() == 0 && reply@ == no_changes_answer(),
        },
{
    let ghost columns = changes(payload);
    let mut values: Vec<String> = Vec::new();
    let mut parts = String::new();
    proof {
        reveal_with_fuel(assignments, 3);
    }
    match payload.username {
        Some(value) => {
            parts = with_assignment(parts, "username", values.len() + 1);
            values.push(value);
            assert(parts@ =~= assignments(columns, 1));
        },
        None => {},
    }
    match payload.email {
        Some(value) => {
            parts = with_assignment(parts, "email", values.len() + 1);
            values.push(value);
            assert(parts@ =~= assignments(columns, columns.len()));
        },
        None => {},
    }
    if values.len() == 0 {
        return Err(Reply::error(BAD_REQUEST, "No fields to update"));
    }
    let sql = "UPDATE users SET ".to_owned()
        .concat(parts.as_str())
        .concat(" WHERE id = ")
        .concat(placeholder_text(values.len() + 1).as_str());
    Ok(UpdateStatement { sql, values })
}

// ---------------------------------------------------------------------------
// Laws
// ---------------------------------------------------------------------------

/// A stored user has the names and the email address of the payload, each in its own place.
pub proof fn users_are_stored_as_they_signed_up(user: NewUser, payload: SignUpPayload)
    requires
        user.describes(payload),
    ensures
        user.full_name@ == payload.full_name@,
        user.email@ == payload.email@,
        user.username@ == payload.username@,
{
}

/// Signing up is answered with the identifier under which the user is stored.
pub proof fn signing_up_tells_the_identifier(id: u128)
    ensures
        signup_answer(id, Ok(())).status == 201,
        signup_answer(id, Ok(())).body matches Some(body) && body.size() == 2 && body.tells(
            0,
            "message"@,
            JsonView::Text("User created successfully"@),
        ) && body.tells(1, "id"@, JsonView::Text(uuid_text_of(id))),
        signup_answer(id, Err(DbFailure::UniqueViolation)) == error_answer(
            409,
            "Email already registered"@,
        ),
        signup_answer(id, Err(DbFailure::Other)) == error_answer(500, "Database error"@),
{
}

/// A list of users tells of every user at their place, by the identifier, the two names and the
/// email address of that very user.
pub proof fn users_are_told_in_order(users: Vec<UserResponse>, i: int, failure: DbFailure)
    ensures
        users_answer(Err(failure)) == error_answer(500, "Could not fetch users"@),
        users_answer(Ok(users)).status == 200,
        users_answer(Ok(users)).body matches Some(body) && body is List && body.size()
            == users@.len() && (0 <= i < users@.len() ==> ({
            let item = body->List_0[i];
            let user = users@[i];
            &&& item.size() == 4
            &&& item.tells(0, "id"@, JsonView::Text(uuid_text_of(user.id)))
            &&& item.tells(1, "full_name"@, JsonView::Text(user.full_name@))
            &&& item.tells(2, "username"@, JsonView::Text(user.username@))
            &&& item.tells(3, "email"@, JsonView::Text(user.email@))
        })),
{
}

/// The values that a statement binds are those of the payload, the username before the email
/// address, and what the payload does not name is not set.
pub proof fn changes_are_those_of_the_payload(payload: UpdateUserPayload)
    ensures
        payload.username is Some && payload.email is Some ==> changes(payload).len() == 2
            && changes(payload)[0] == ("username"@, payload.username->0@) && changes(payload)[1]
            == ("email"@, payload.email->0@),
        payload.username is Some && payload.email is None ==> changes(payload).len() == 1
            && changes(payload)[0] == ("username"@, payload.username->0@),
        payload.username is None && payload.email is Some ==> changes(payload).len() == 1
            && changes(payload)[0] == ("email"@, payload.email->0@),
        payload.username is None && payload.email is None ==> changes(payload).len() == 0,
{
}

/// The statement sets the columns that are named, numbers their values from one on, and asks for
/// the user by the next number. What the values are does not enter its text.
pub proof fn statements_number_their_values(payload: UpdateUserPayload)
    ensures
        payload.username is Some && payload.email is Some ==> update_sql(changes(payload))
            == "UPDATE users SET username = $1, email = $2 WHERE id = $3"@,
        payload.username is Some && payload.email is None ==> update_sql(changes(payload))
            == "UPDATE users SET username = $1 WHERE id = $2"@,
        payload.username is None && payload.email is Some ==> update_sql(changes(payload))
            == "UPDATE users SET email = $1 WHERE id = $2"@,
{
    reveal_strlit("UPDATE users SET username = $1, email = $2 WHERE id = $3");
    reveal_strlit("UPDATE users SET username = $1 WHERE id = $2");
    reveal_strlit("UPDATE users SET email = $1 WHERE id = $2");
    reveal_strlit("UPDATE users SET ");
    reveal_strlit(" WHERE id = ");
    reveal_strlit("username");
    reveal_strlit("email");
    reveal_strlit(" = ");
    reveal_strlit(", ");
    reveal_with_fuel(assignments, 3);
    let sql = update_sql(changes(payload));
    if payload.username is Some && payload.email is Some {
        assert(sql =~= "UPDATE users SET username = $1, email = $2 WHERE id = $3"@);
    } else if payload.username is Some {
        assert(sql =~= "UPDATE users SET username = $1 WHERE id = $2"@);
    } else if payload.email is Some {
        assert(sql =~= "UPDATE users SET email = $1 WHERE id = $2"@);
    }
}

} // verus!
