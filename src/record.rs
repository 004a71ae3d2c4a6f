//! The user record and the errors of the record store.

use crate::identifier::RecordId;
use vstd::prelude::*;

verus! {

/// One user document. `id` is absent until the store assigns it.
#[derive(Debug)]
pub struct User {
    pub id: Option<RecordId>,
    pub name: String,
    pub email: String,
    pub password: String,
}

/// What can go wrong in the record store.
#[derive(Clone, Copy, Debug, PartialEq, Eq, Structural)]
pub enum RepoError {
    /// The identifier text is not a well-formed identifier.
    InvalidIdentifier,
    /// No document matches the identifier.
    NotFound,
    /// The store could not be reached, or the query or a conversion failed.
    StoreError,
}

/// The mathematical value of a user record.
pub ghost struct UserView {
    pub id: Option<Seq<u8>>,
    pub name: Seq<char>,
    pub email: Seq<char>,
    pub password: Seq<char>,
}

/// The view of an optional identifier.
pub open spec fn id_view(id: Option<RecordId>) -> Option<Seq<u8>> {
    match id {
        Some(i) => Some(i@),
        None => None,
    }
}

impl User {
    pub open spec fn view(&self) -> UserView {
        UserView {
            id: id_view(self.id),
            name: self.name@,
            email: self.email@,
            password: self.password@,
        }
    }

    /// A field-by-field copy of the record.
    pub fn duplicate(&self) -> (r: User)
        ensures
            r@ == self@,
    {
        User {
            id: self.id,
            name: self.name.clone(),
            email: self.email.clone(),
            password: self.password.clone(),
        }
    }

    /// A record with the given fields and no identifier yet.
    pub fn new(name: String, email: String, password: String) -> (r: User)
        ensures
            r@ == (UserView { id: None, name: name@, email: email@, password: password@ }),
    {
        User { id: None, name, email, password }
    }
}

} // verus!
