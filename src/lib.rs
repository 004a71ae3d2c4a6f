//! The data-access and request-handling rules of a small user-record service
//! backed by a document database.
//!
//! The database round trips and the HTTP server live outside this library: it
//! validates identifiers, prepares the documents that are written, decides what
//! each answer of the store means for the caller, and models the collection so
//! that the laws connecting the operations can be stated and proved.
//!
//! - `identifier`: record identifiers and their text form.
//! - `password`: salted password hashing.
//! - `record`: the user record and the store's errors.
//! - `store`: what each store operation writes and reports.
//! - `collection`: the collection as a map, and the laws over it.
//! - `handler`: the HTTP status and body of each response.
//! - `routes`: the route table of the service.

pub mod collection;
pub mod handler;
pub mod identifier;
pub mod password;
pub mod record;
pub mod routes;
pub mod store;
