use vstd::prelude::*;

use crate::error::{message_of, status_of, AppError};
use crate::models::{updated_user, CreateUserInput, UpdateUserInput, User};
use crate::services::user as user_service;
use crate::store::{email_held_by_other, has_email, has_id, index_of, lookup, UserStore};

verus! {

/// The body of a reply.
#[derive(Debug, Clone)]
pub enum ReplyBody {
    User(User),
    Empty,
    Error(String),
}

/// A status with its body.
#[derive(Debug, Clone)]
pub struct Reply {
    pub status: u16,
    pub body: ReplyBody,
}

/// `r` is the error response of `e`.
pub open spec fn is_error_reply(r: Reply, e: AppError) -> bool {
    r.status == status_of(e) && (r.body matches ReplyBody::Error(m) && m@ == message_of(e))
}

/// `r` is the response to a service outcome, sent with `ok_status` on success.
pub open spec fn answers(r: Reply, res: Result<User, AppError>, ok_status: u16) -> bool {
    match res {
        Ok(u) => r.status == ok_status && (r.body matches ReplyBody::User(x) && x@ == u@),
        Err(e) => is_error_reply(r, e),
    }
}

/// What `uuid::Uuid::parse_str` makes of a text: the identifier's 128-bit
/// value, or `None` where the text is no identifier.
pub uninterp spec fn uuid_of(s: Seq<char>) -> Option<u128>;

/// Relies on `uuid::Uuid::parse_str` (any of the simple, hyphenated, URN and
/// braced forms) and `Uuid::as_u128`; the result depends on the text alone.
#[verifier::external_body]
fn parse_uuid(text: &str) -> (r: Option<u128>)
    ensures
        r == uuid_of(text@),
{
    uuid::Uuid::parse_str(text).ok().map(|u| u.as_u128())
}

/// Reads an identifier from a path segment; `Validation` when it is none.
pub fn parse_id(text: &str) -> (r: Result<u128, AppError>)
    ensures
        match uuid_of(text@) {
            Some(v) => r == Ok::<u128, AppError>(v),
            None => r matches Err(AppError::Validation(m)) && m@ == "invalid id"@,
        },
{
    match parse_uuid(text) {
        Some(v) => Ok(v),
        None => Err(AppError::validation("invalid id")),
    }
}

/// The error response of `e`.
pub fn error_reply(e: AppError) -> (r: Reply)
    ensures
        is_error_reply(r, e),
{
    let er = e.into_response();
    Reply { status: er.status, body: ReplyBody::Error(er.message) }
}

/// The response to a service outcome: `ok_status` and the user, or the error
/// response.
pub fn respond(res: Result<User, AppError>, ok_status: u16) -> (r: Reply)
    ensures
        answers(r, res, ok_status),
{
    match res {
        Ok(u) => Reply { status: ok_status, body: ReplyBody::User(u) },
        Err(e) => error_reply(e),
    }
}

/// The response to a delete: 204 with an empty body, or the error response.
pub fn respond_no_content(res: Result<(), AppError>) -> (r: Reply)
    ensures
        res is Ok ==> r.status == 204 && r.body is Empty,
        res matches Err(e) ==> is_error_reply(r, e),
{
    match res {
        Ok(()) => Reply { status: 204, body: ReplyBody::Empty },
        Err(e) => error_reply(e),
    }
}

/// `r` has status `status` and the error message `msg`.
pub open spec fn is_reply(r: Reply, status: u16, msg: Seq<char>) -> bool {
    r.status == status && (r.body matches ReplyBody::Error(m) && m@ == msg)
}

/// `GET /users/{id}`: 200 and the user, 404 when there is none, 400 for a
/// malformed identifier.
pub fn get(db: &UserStore, id: &str) -> (r: Reply)
    requires
        db.wf(),
    ensures
        uuid_of(id@) is None ==> is_reply(r, 400, "invalid id"@),
        uuid_of(id@) matches Some(v) ==> match lookup(db@, v) {
            Some(u) => r.status == 200 && (r.body matches ReplyBody::User(x) && x@ == u),
            None => is_reply(r, 404, "user"@),
        },
{
    match parse_id(id) {
        Ok(v) => respond(user_service::find_by_id(db, v), 200),
        Err(e) => error_reply(e),
    }
}

/// `POST /users`: 201 and the new user; 409 when the address is taken; 500
/// when the clock cannot be read or the drawn identifier was given out before.
pub fn create(db: &mut UserStore, input: CreateUserInput) -> (r: Reply)
    requires
        old(db).wf(),
    ensures
        final(db).wf(),
        has_email(old(db)@, input.email@) ==> is_reply(r, 409, "email already exists"@),
        !has_email(old(db)@, input.email@) ==> r.status == 201 || is_reply(r, 500, "internal error"@),
        r.status == 201 ==> (r.body matches ReplyBody::User(u) && !old(db).issued().contains(u.id)
            && u.email@ == input.email@ && u.name@ == input.name@ && u.created_at == u.updated_at
            && final(db)@ == old(db)@.push(u@) && final(db).issued() == old(db).issued().push(u.id)),
        r.status != 201 ==> final(db)@ == old(db)@ && final(db).issued() == old(db).issued(),
{
    let res = user_service::create(db, input);
    respond(res, 201)
}

/// `PUT /users/{id}`: 200 and the updated user; 404 for an unknown user, 409
/// when another user holds the new address, 400 for a malformed identifier,
/// 500 when the clock cannot be read.
pub fn update(db: &mut UserStore, id: &str, input: UpdateUserInput) -> (r: Reply)
    requires
        old(db).wf(),
    ensures
        final(db).wf(),
        uuid_of(id@) is None ==> is_reply(r, 400, "invalid id"@),
        r.status != 200 ==> final(db)@ == old(db)@,
        uuid_of(id@) matches Some(v) ==> {
            &&& !has_id(old(db)@, v) ==> is_reply(r, 404, "user"@)
            &&& has_id(old(db)@, v) && (input.email matches Some(m) && email_held_by_other(old(db)@, m@, v))
                ==> is_reply(r, 409, "email already exists"@)
            &&& has_id(old(db)@, v) && !(input.email matches Some(m) && email_held_by_other(old(db)@, m@, v))
                ==> r.status == 200 || is_reply(r, 500, "internal error"@)
            &&& r.status == 200 ==> (r.body matches ReplyBody::User(u)
                && u@ == updated_user(old(db)@[index_of(old(db)@, v)], input, u.updated_at)
                && final(db)@ == old(db)@.update(index_of(old(db)@, v), u@))
        },
{
    match parse_id(id) {
        Ok(v) => respond(user_service::update(db, v, input), 200),
        Err(e) => error_reply(e),
    }
}

/// `DELETE /users/{id}`: 204 with an empty body; 404 for an unknown user, 400
/// for a malformed identifier.
pub fn delete(db: &mut UserStore, id: &str) -> (r: Reply)
    requires
        old(db).wf(),
    ensures
        final(db).wf(),
        uuid_of(id@) is None ==> is_reply(r, 400, "invalid id"@) && final(db)@ == old(db)@,
        uuid_of(id@) matches Some(v) ==> {
            &&& has_id(old(db)@, v) ==> r.status == 204 && r.body is Empty
                && final(db)@ == old(db)@.remove(index_of(old(db)@, v))
            &&& !has_id(old(db)@, v) ==> is_reply(r, 404, "user"@) && final(db)@ == old(db)@
        },
{
    match parse_id(id) {
        Ok(v) => respond_no_content(user_service::delete(db, v)),
        Err(e) => error_reply(e),
    }
}

} // verus!
