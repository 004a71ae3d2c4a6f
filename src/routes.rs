//! The HTTP surface of the service: which method and path reach which
//! record-store operation.

use vstd::prelude::*;

verus! {

/// An HTTP method.
#[derive(Clone, Copy, Debug, PartialEq, Eq, Structural)]
pub enum Method {
    Get,
    Post,
    Put,
    Delete,
}

/// The record-store operation a route performs.
#[derive(Clone, Copy, Debug, PartialEq, Eq, Structural)]
pub enum Operation {
    Create,
    Read,
    Update,
    Remove,
    List,
}

/// One route: a method and a path pattern (`<id>` stands for the identifier
/// segment), and the operation it performs.
#[derive(Debug)]
pub struct Route {
    pub method: Method,
    pub path: String,
    pub operation: Operation,
}

impl Route {
    pub open spec fn view(&self) -> (Method, Seq<char>, Operation) {
        (self.method, self.path@, self.operation)
    }
}

/// The routes of the service, in the order they are mounted.
pub open spec fn route_table() -> Seq<(Method, Seq<char>, Operation)> {
    seq![
        (Method::Post, "/user"@, Operation::Create),
        (Method::Get, "/user/<id>"@, Operation::Read),
        (Method::Get, "/users"@, Operation::List),
        (Method::Put, "/user/<id>"@, Operation::Update),
        (Method::Delete, "/user/<id>"@, Operation::Remove),
    ]
}

fn route(method: Method, path: &str, operation: Operation) -> (r: Route)
    ensures
        r@ == (method, path@, operation),
{
    Route { method, path: path.to_owned(), operation }
}

/// The route table that the server mounts.
pub fn rocket() -> (r: Vec<Route>)
    ensures
        r@.len() == route_table().len(),
        forall|i: int| 0 <= i < r@.len() ==> (#[trigger] r@[i])@ == route_table()[i],
{
    let mut r: Vec<Route> = Vec::new();
    r.push(route(Method::Post, "/user", Operation::Create));
    r.push(route(Method::Get, "/user/<id>", Operation::Read));
    r.push(route(Method::Get, "/users", Operation::List));
    r.push(route(Method::Put, "/user/<id>", Operation::Update));
    r.push(route(Method::Delete, "/user/<id>", Operation::Remove));
    r
}

} // verus!
