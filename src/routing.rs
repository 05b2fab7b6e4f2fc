//! Route descriptions: which handler answers which method and path.

use vstd::prelude::*;
use vstd::string::StringExecFns;

verus! {

/// An HTTP method that a route answers.
#[derive(Debug, Clone, Copy, PartialEq, Eq, Structural)]
pub enum Method {
    Get,
    Post,
    Put,
    Patch,
    Delete,
}

/// A handler's name, method and path (relative to where its collection is
/// mounted; query and body parameters in angle brackets).
#[derive(Debug, Clone)]
pub struct Route {
    pub name: Option<String>,
    pub method: Method,
    pub uri: String,
}

/// `r` is the route of handler `name` for `method` on `uri`.
pub open spec fn route_is(r: Route, name: Seq<char>, method: Method, uri: Seq<char>) -> bool {
    &&& r.name matches Some(n) && n@ == name
    &&& r.method == method
    &&& r.uri@ == uri
}

/// The route of handler `name` for `method` on `uri`.
pub fn route(name: &str, method: Method, uri: &str) -> (r: Route)
    ensures
        route_is(r, name@, method, uri@),
{
    Route { name: Some(String::from_str(name)), method, uri: String::from_str(uri) }
}

} // verus!
