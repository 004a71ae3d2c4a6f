//! The record store's own rules: what it writes for each operation, and what
//! each answer of the document store means.
//!
//! The collection itself is modelled as a map from identifier bytes to record
//! values; the database round trips are made by the caller, who hands the
//! answers back to the functions here.

use crate::identifier::{is_identifier_text, parse_identifier, spells, RecordId};
use crate::password::{bcrypt_of, hash_password, is_password_hash, salt_of};
use crate::record::{RepoError, User, UserView};
use vstd::prelude::*;

verus! {

/// Whether `doc` is the document that create stores for `candidate`: no
/// identifier yet, the same name and email, and in place of the password its
/// bcrypt hash under the salt written in that hash.
pub open spec fn stored_form(candidate: UserView, doc: UserView) -> bool {
    &&& doc.id is None
    &&& doc.name == candidate.name
    &&& doc.email == candidate.email
    &&& is_password_hash(doc.password)
    &&& doc.password == bcrypt_of(candidate.password, salt_of(doc.password))
}

/// Whether `doc` is the document that update writes over the record `id` for
/// `candidate`: the same fields as at creation, under that identifier.
pub open spec fn update_form(id: Seq<u8>, candidate: UserView, doc: UserView) -> bool {
    &&& doc.id == Some(id)
    &&& doc.name == candidate.name
    &&& doc.email == candidate.email
    &&& is_password_hash(doc.password)
    &&& doc.password == bcrypt_of(candidate.password, salt_of(doc.password))
}

/// Builds the document that create stores for `candidate`, given the result
/// of hashing its password (`None` when hashing failed).
pub fn new_document(candidate: &User, hashed: Option<String>) -> (r: Result<User, RepoError>)
    ensures
        hashed is None ==> r == Err::<User, RepoError>(RepoError::StoreError),
        hashed matches Some(h) ==> r matches Ok(doc) && doc@ == (UserView {
            id: None,
            name: candidate.name@,
            email: candidate.email@,
            password: h@,
        }),
{
    match hashed {
        Some(h) => Ok(User::new(candidate.name.clone(), candidate.email.clone(), h)),
        None => Err(RepoError::StoreError),
    }
}

/// Prepares the document to insert for `candidate`: its password replaced by
/// a salted hash, its identifier left for the store to assign.
pub fn prepare_create(candidate: &User) -> (r: Result<User, RepoError>)
    ensures
        r matches Ok(doc) ==> stored_form(candidate@, doc@),
        r matches Err(e) ==> e == RepoError::StoreError,
{
    let hashed = hash_password(candidate.password.as_str());
    new_document(candidate, hashed)
}

/// Builds the document that update writes over the record `id`, given the
/// result of hashing the new password (`None` when hashing failed).
pub fn update_document(id: RecordId, candidate: &User, hashed: Option<String>) -> (r: Result<
    User,
    RepoError,
>)
    ensures
        hashed is None ==> r == Err::<User, RepoError>(RepoError::StoreError),
        hashed matches Some(h) ==> r matches Ok(doc) && doc@ == (UserView {
            id: Some(id@),
            name: candidate.name@,
            email: candidate.email@,
            password: h@,
        }),
{
    match hashed {
        Some(h) => {
            let mut doc = User::new(candidate.name.clone(), candidate.email.clone(), h);
            doc.id = Some(id);
            Ok(doc)
        },
        None => Err(RepoError::StoreError),
    }
}

/// Prepares an update of the record `id` to the fields of `candidate`: the
/// identifier is read first, and the new password is hashed as at creation.
pub fn prepare_update(id: &str, candidate: &User) -> (r: Result<(RecordId, User), RepoError>)
    ensures
        !is_identifier_text(id@) ==> r == Err::<(RecordId, User), RepoError>(
            RepoError::InvalidIdentifier,
        ),
        is_identifier_text(id@) ==> r != Err::<(RecordId, User), RepoError>(
            RepoError::InvalidIdentifier,
        ),
        r matches Ok((rid, doc)) ==> spells(id@, rid@) && update_form(rid@, candidate@, doc@),
        r matches Err(e) ==> e == RepoError::InvalidIdentifier || e == RepoError::StoreError,
{
    match parse_identifier(id) {
        None => Err(RepoError::InvalidIdentifier),
        Some(rid) => {
            let hashed = hash_password(candidate.password.as_str());
            match update_document(rid, candidate, hashed) {
                Ok(doc) => Ok((rid, doc)),
                Err(e) => Err(e),
            }
        },
    }
}

/// Reads the identifier of a lookup, update or delete.
pub fn prepare_lookup(id: &str) -> (r: Result<RecordId, RepoError>)
    ensures
        r is Ok <==> is_identifier_text(id@),
        r matches Ok(rid) ==> spells(id@, rid@),
        r matches Err(e) ==> e == RepoError::InvalidIdentifier,
{
    match parse_identifier(id) {
        Some(rid) => Ok(rid),
        None => Err(RepoError::InvalidIdentifier),
    }
}

/// The view of an optional record.
pub open spec fn found_view(found: Option<User>) -> Option<UserView> {
    match found {
        Some(u) => Some(u@),
        None => None,
    }
}

/// The view of a store outcome.
pub open spec fn outcome_view(r: Result<User, RepoError>) -> Result<UserView, RepoError> {
    match r {
        Ok(u) => Ok(u@),
        Err(e) => Err(e),
    }
}

/// What a single-record operation reports when the store found `found`.
pub open spec fn outcome_of(found: Option<UserView>) -> Result<UserView, RepoError> {
    match found {
        Some(u) => Ok(u),
        None => Err(RepoError::NotFound),
    }
}

/// Turns the store's answer to a lookup or a delete
/// into its outcome: the record, or `NotFound` when no document matched.
pub fn found_outcome(found: Option<User>) -> (r: Result<User, RepoError>)
    ensures
        outcome_view(r) == outcome_of(found_view(found)),
{
    match found {
        Some(u) => Ok(u),
        None => Err(RepoError::NotFound),
    }
}

/// The record an update reports when it matched `before` and wrote the
/// fields of `doc`: the identifier of `before`, the other fields of `doc`.
pub open spec fn updated_record(before: UserView, doc: UserView) -> UserView {
    UserView { id: before.id, ..doc }
}

/// What an update reports when the store matched `before` (if anything)
/// and the update wrote the fields of `doc`.
pub open spec fn update_outcome_of(before: Option<UserView>, doc: UserView) -> Result<
    UserView,
    RepoError,
> {
    match before {
        Some(b) => Ok(updated_record(b, doc)),
        None => Err(RepoError::NotFound),
    }
}

/// Turns the store's answer to an update, the matched document as it was
/// before, into the updated record: that document's identifier with the
/// fields of `written`; `NotFound` when no document matched.
pub fn update_outcome(before: Option<User>, written: &User) -> (r: Result<User, RepoError>)
    ensures
        outcome_view(r) == update_outcome_of(found_view(before), written@),
{
    match before {
        Some(b) => {
            let mut u = written.duplicate();
            u.id = b.id;
            Ok(u)
        },
        None => Err(RepoError::NotFound),
    }
}

/// The views of a sequence of records.
pub open spec fn views(us: Seq<User>) -> Seq<UserView> {
    us.map_values(|u: User| u@)
}

/// Gathers the documents a listing yielded, in order; the first failed
/// document fails the whole listing with its error.
pub fn collect_records(docs: &Vec<Result<User, RepoError>>) -> (r: Result<Vec<User>, RepoError>)
    ensures
        r is Ok <==> forall|i: int| 0 <= i < docs@.len() ==> (#[trigger] docs@[i]) is Ok,
        r matches Ok(v) ==> v@.len() == docs@.len() && forall|i: int|
            0 <= i < docs@.len() ==> outcome_view(docs@[i]) == Ok::<UserView, RepoError>(
                (#[trigger] v@[i])@,
            ),
        r matches Err(e) ==> exists|i: int|
            0 <= i < docs@.len() && (#[trigger] docs@[i]) == Err::<User, RepoError>(e) && forall|
                j: int,
            |
                0 <= j < i ==> (#[trigger] docs@[j]) is Ok,
{
    let mut out: Vec<User> = Vec::new();
    let mut i: usize = 0;
    while i < docs.len()
        invariant
            i <= docs@.len(),
            out@.len() == i,
            forall|j: int| 0 <= j < i ==> (#[trigger] docs@[j]) is Ok,
            forall|j: int|
                0 <= j < i ==> outcome_view(docs@[j]) == Ok::<UserView, RepoError>(
                    (#[trigger] out@[j])@,
                ),
        decreases docs@.len() - i,
    {
        match &docs[i] {
            Ok(u) => {
                out.push(u.duplicate());
            },
            Err(e) => {
                return Err(*e);
            },
        }
        i = i + 1;
    }
    Ok(out)
}

} // verus!
