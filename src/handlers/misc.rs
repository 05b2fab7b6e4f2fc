//! Service health, login status, and their routes.

use vstd::prelude::*;

use vstd::string::StringExecFns;

use chrono::NaiveDateTime;
use mongodb::bson::oid::ObjectId;

use crate::auth::User;
use crate::errors::StoreError;
use crate::hasher::is_lower_hex;
use crate::routing::{route, route_is, Method, Route};
use crate::text::views;

verus! {

/// Relies on bson's `ObjectId::to_hex`: the identifier's 12 bytes in
/// lowercase hexadecimal.
#[verifier::external_body]
fn object_id_hex(oid: ObjectId) -> (r: String)
    ensures
        r@.len() == 24,
        forall|i: int| 0 <= i < 24 ==> is_lower_hex(#[trigger] r@[i]),
{
    oid.to_hex()
}

/// Relies on chrono's `NaiveDateTime::format` with `%Y-%m-%d %H:%M:%S`.
#[verifier::external_body]
fn format_timestamp(t: NaiveDateTime) -> String {
    t.format("%Y-%m-%d %H:%M:%S").to_string()
}

/// Which collections are reachable.
pub struct CollectionStatus {
    pub books: String,
}

/// Whether the store is reachable, and which collections it holds.
pub struct HealthStatus {
    pub db_status: String,
    pub collections_status: CollectionStatus,
}

/// What a caller learns about its own credential.
pub struct CheckStatusResponse {
    pub valid: bool,
    pub is_admin: bool,
    pub user_id: String,
    pub created_at: String,
    pub last_used_at: Option<String>,
}

/// The health report for the store's answer to a listing of its collection
/// names.
pub fn health(collections: Result<Vec<String>, StoreError>) -> (r: HealthStatus)
    ensures
        r.db_status@ == (if collections is Ok {
            "database online!"@
        } else {
            "database offline :("@
        }),
        r.collections_status.books@ == (if collections matches Ok(names) && views(names@).contains(
            "books"@,
        ) {
            "Books collection online!"@
        } else {
            Seq::<char>::empty()
        }),
{
    match collections {
        Ok(names) => {
            let books = String::from_str("books");
            let mut found = false;
            let mut i: usize = 0;
            while i < names.len()
                invariant
                    i <= names@.len(),
                    found == exists|j: int| 0 <= j < i && #[trigger] views(names@)[j] == books@,
                decreases names@.len() - i,
            {
                if names[i] == books {
                    assert(views(names@)[i as int] == books@);
                    found = true;
                }
                i = i + 1;
            }
            let status = if found {
                String::from_str("Books collection online!")
            } else {
                String::new()
            };
            HealthStatus {
                db_status: String::from_str("database online!"),
                collections_status: CollectionStatus { books: status },
            }
        },
        Err(_) => HealthStatus {
            db_status: String::from_str("database offline :("),
            collections_status: CollectionStatus { books: String::new() },
        },
    }
}

/// The login status of an authenticated caller.
pub fn check_admin_status(user: User) -> (r: CheckStatusResponse)
    ensures
        r.valid,
        r.is_admin == user.api_key.is_admin,
        r.user_id@.len() == 24,
        forall|i: int| 0 <= i < 24 ==> is_lower_hex(#[trigger] r.user_id@[i]),
        r.last_used_at is Some == user.api_key.last_used_at is Some,
{
    CheckStatusResponse {
        valid: true,
        is_admin: user.is_admin(),
        user_id: object_id_hex(user.id()),
        created_at: format_timestamp(user.created_at()),
        last_used_at: match user.last_used_at() {
            Some(t) => Some(format_timestamp(t)),
            None => None,
        },
    }
}

/// The routes of the service's own endpoints.
pub fn routes() -> (r: Vec<Route>)
    ensures
        r@.len() == 2,
        route_is(r@[0], "health"@, Method::Get, "/check-health"@),
        route_is(r@[1], "check_admin_status"@, Method::Get, "/check-login"@),
{
    let mut r: Vec<Route> = Vec::new();
    r.push(route("health", Method::Get, "/check-health"));
    r.push(route("check_admin_status", Method::Get, "/check-login"));
    r
}

} // verus!
