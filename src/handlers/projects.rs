//! The project routes.

use vstd::prelude::*;

use crate::routing::{route, route_is, Method, Route};

verus! {

/// The routes of the project collection.
pub fn routes() -> (r: Vec<Route>)
    ensures
        r@.len() == 6,
        route_is(r@[0], "create_project"@, Method::Post, "/"@),
        route_is(r@[1], "get_project"@, Method::Get, "/<project_id>"@),
        route_is(r@[2], "get_projects"@, Method::Get, "/"@),
        route_is(r@[3], "update_project"@, Method::Put, "/<project_id>"@),
        route_is(r@[4], "delete_project"@, Method::Delete, "/<project_id>"@),
        route_is(r@[5], "patch_project"@, Method::Patch, "/<project_id>"@),
{
    let mut r: Vec<Route> = Vec::new();
    r.push(route("create_project", Method::Post, "/"));
    r.push(route("get_project", Method::Get, "/<project_id>"));
    r.push(route("get_projects", Method::Get, "/"));
    r.push(route("update_project", Method::Put, "/<project_id>"));
    r.push(route("delete_project", Method::Delete, "/<project_id>"));
    r.push(route("patch_project", Method::Patch, "/<project_id>"));
    r
}

} // verus!
