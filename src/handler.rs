//! The HTTP side of the service: which status and body each request gets,
//! given what the record store answered.

use crate::identifier::{is_identifier_text, parse_identifier, spells, RecordId};
use crate::record::{RepoError, User, UserView};
use crate::store::{outcome_view, views};
use vstd::prelude::*;

verus! {

/// The body of a response.
#[derive(Debug)]
pub enum ReplyBody {
    /// No body.
    Empty,
    /// The insertion acknowledgment, with the assigned identifier.
    Inserted(RecordId),
    /// One record.
    Record(User),
    /// Every record of a listing.
    Records(Vec<User>),
    /// A confirmation text.
    Message(String),
}

/// A response: an HTTP status code and a body.
#[derive(Debug)]
pub struct Reply {
    pub status: u16,
    pub body: ReplyBody,
}

/// What the update route does once the store has applied the update.
#[derive(Debug)]
pub enum UpdateNext {
    /// Read the record again and answer with it.
    Reread,
    /// Answer at once.
    Respond(Reply),
}

/// The status code for a store failure.
pub open spec fn status_of(e: RepoError) -> u16 {
    match e {
        RepoError::InvalidIdentifier => 400,
        RepoError::NotFound => 404,
        RepoError::StoreError => 500,
    }
}

/// The confirmation text of a delete.
pub open spec fn deleted_text() -> Seq<char> {
    "User deleted successfully."@
}

/// Whether `r` is a failure response with status `status` and no body.
pub open spec fn is_failure(r: Reply, status: u16) -> bool {
    r.status == status && r.body is Empty
}

/// Whether `r` answers 200 with the record `u`.
pub open spec fn is_record_reply(r: Reply, u: UserView) -> bool {
    r.status == 200 && (r.body matches ReplyBody::Record(v) && v@ == u)
}

/// The status code for a store failure.
pub fn error_status(e: RepoError) -> (r: u16)
    ensures
        r == status_of(e),
{
    match e {
        RepoError::InvalidIdentifier => 400,
        RepoError::NotFound => 404,
        RepoError::StoreError => 500,
    }
}

/// A failure response for a store failure.
pub fn failure(e: RepoError) -> (r: Reply)
    ensures
        is_failure(r, status_of(e)),
{
    Reply { status: error_status(e), body: ReplyBody::Empty }
}

/// Checks the identifier of a path before any store access: an empty or
/// malformed identifier is answered with 400.
pub fn check_identifier(id: &str) -> (r: Result<RecordId, Reply>)
    ensures
        r is Ok <==> is_identifier_text(id@),
        r matches Ok(rid) ==> spells(id@, rid@),
        r matches Err(rep) ==> is_failure(rep, 400),
        id@.len() == 0 ==> (r matches Err(rep) && is_failure(rep, 400)),
{
    if id.is_empty() {
        return Err(failure(RepoError::InvalidIdentifier));
    }
    match parse_identifier(id) {
        Some(rid) => Ok(rid),
        None => Err(failure(RepoError::InvalidIdentifier)),
    }
}

/// The response to a create: 200 with the assigned identifier, or the status
/// of the failure.
pub fn create_reply(result: Result<RecordId, RepoError>) -> (r: Reply)
    ensures
        result matches Ok(rid) ==> (r.status == 200 && (r.body matches ReplyBody::Inserted(a)
            && a@ == rid@)),
        result matches Err(e) ==> is_failure(r, status_of(e)),
{
    match result {
        Ok(rid) => Reply { status: 200, body: ReplyBody::Inserted(rid) },
        Err(e) => failure(e),
    }
}

/// The response to a lookup: 200 with the record, 404 when none matched, and
/// the status of any other failure.
pub fn get_reply(result: Result<User, RepoError>) -> (r: Reply)
    ensures
        outcome_view(result) matches Ok(u) ==> is_record_reply(r, u),
        result matches Err(e) ==> is_failure(r, status_of(e)),
{
    match result {
        Ok(u) => Reply { status: 200, body: ReplyBody::Record(u) },
        Err(e) => failure(e),
    }
}

/// What follows an update: when the store reports the record it updated,
/// the record is read again; a record without identifier is answered with
/// 404, and a failure with its status.
pub fn after_update(result: Result<User, RepoError>) -> (r: UpdateNext)
    ensures
        result matches Ok(u) && u.id is Some ==> r is Reread,
        result matches Ok(u) && u.id is None ==> (r matches UpdateNext::Respond(rep)
            && is_failure(rep, 404)),
        result matches Err(e) ==> (r matches UpdateNext::Respond(rep) && is_failure(
            rep,
            status_of(e),
        )),
{
    match result {
        Ok(u) => {
            if u.id.is_some() {
                UpdateNext::Reread
            } else {
                UpdateNext::Respond(failure(RepoError::NotFound))
            }
        },
        Err(e) => UpdateNext::Respond(failure(e)),
    }
}

/// The response to a delete: 200 with a confirmation when the removed record
/// carried its identifier, 404 when it did not or none matched, and the
/// status of any other failure.
pub fn delete_reply(result: Result<User, RepoError>) -> (r: Reply)
    ensures
        result matches Ok(u) && u.id is Some ==> (r.status == 200
            && (r.body matches ReplyBody::Message(m) && m@ == deleted_text())),
        result matches Ok(u) && u.id is None ==> is_failure(r, 404),
        result matches Err(e) ==> is_failure(r, status_of(e)),
{
    match result {
        Ok(u) => {
            if u.id.is_some() {
                proof {
                    reveal_strlit("User deleted successfully.");
                }
                Reply {
                    status: 200,
                    body: ReplyBody::Message("User deleted successfully.".to_owned()),
                }
            } else {
                failure(RepoError::NotFound)
            }
        },
        Err(e) => failure(e),
    }
}

/// The response to a listing: 200 with every record, or the status of the
/// failure.
pub fn list_reply(result: Result<Vec<User>, RepoError>) -> (r: Reply)
    ensures
        result matches Ok(v) ==> (r.status == 200 && (r.body matches ReplyBody::Records(w)
            && views(w@) == views(v@))),
        result matches Err(e) ==> is_failure(r, status_of(e)),
{
    match result {
        Ok(v) => Reply { status: 200, body: ReplyBody::Records(v) },
        Err(e) => failure(e),
    }
}

} // verus!
