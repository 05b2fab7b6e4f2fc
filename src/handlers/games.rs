//! Game searches and the game routes.

use vstd::prelude::*;

use crate::handlers::search::{
    int_condition, int_condition_of, opt_flag_of, parse_flag, some_item_contains, some_item_has,
    sort_of, sort_order, sort_view, IntCondition, SortOrder,
};
use crate::routing::{route, route_is, Method, Route};
use crate::text::copy_opt_string;

verus! {

/// The parameters of a game search.
pub struct GameQuery {
    pub title: Option<String>,
    pub developer: Option<String>,
    /// Part of one of the genres, in any case.
    pub genre: Option<String>,
    /// Part of one of the tags, in any case.
    pub tag: Option<String>,
    pub status: Option<String>,
    pub explicit: Option<String>,
    pub bad: Option<String>,
    pub min_progress: Option<i32>,
    pub max_progress: Option<i32>,
    pub exact_progress: Option<i32>,
    pub min_rating: Option<i32>,
    pub max_rating: Option<i32>,
    pub exact_rating: Option<i32>,
    pub sort: Option<String>,
}

/// The conditions of a game search that the store evaluates.
pub struct GameSearch {
    /// A case-insensitive pattern that the title must match.
    pub title_pattern: Option<String>,
    /// A case-insensitive pattern that the developer must match.
    pub developer_pattern: Option<String>,
    pub status: Option<String>,
    pub bad: Option<bool>,
    pub explicit: Option<bool>,
    pub rating: Option<IntCondition>,
    /// The condition on the completion percentage.
    pub percent: Option<IntCondition>,
    pub sort: Option<SortOrder>,
}

impl GameQuery {
    /// What the store is asked for: the title and developer as patterns,
    /// the status as given, the flags that read `true` or `false`, the
    /// rating and progress conditions (an exact value winning over bounds),
    /// and the order (`title`, `author` meaning the developer, or `rating`
    /// from the highest).
    pub fn store_search(&self) -> (r: GameSearch)
        ensures
            r.title_pattern == self.title,
            r.developer_pattern == self.developer,
            r.status == self.status,
            r.bad == opt_flag_of(self.bad),
            r.explicit == opt_flag_of(self.explicit),
            r.rating == int_condition_of(self.exact_rating, self.min_rating, self.max_rating),
            r.percent == int_condition_of(
                self.exact_progress,
                self.min_progress,
                self.max_progress,
            ),
            sort_view(r.sort) == sort_of(self.sort, "developer"@),
    {
        GameSearch {
            title_pattern: copy_opt_string(&self.title),
            developer_pattern: copy_opt_string(&self.developer),
            status: copy_opt_string(&self.status),
            bad: parse_flag(&self.bad),
            explicit: parse_flag(&self.explicit),
            rating: int_condition(self.exact_rating, self.min_rating, self.max_rating),
            percent: int_condition(self.exact_progress, self.min_progress, self.max_progress),
            sort: sort_order(&self.sort, "developer"),
        }
    }

    /// Whether a game with these genres and tags passes the genre and tag
    /// terms: some genre, and some tag, contains its term, in any case.
    pub fn accepts(&self, genres: &Vec<Option<String>>, tags: &Vec<Option<String>>) -> (r: bool)
        ensures
            r == ((match self.genre {
                Some(g) => some_item_has(genres@, g@),
                None => true,
            }) && (match self.tag {
                Some(t) => some_item_has(tags@, t@),
                None => true,
            })),
    {
        let genre_ok = match &self.genre {
            Some(g) => some_item_contains(genres, g.as_str()),
            None => true,
        };
        let tag_ok = match &self.tag {
            Some(t) => some_item_contains(tags, t.as_str()),
            None => true,
        };
        genre_ok && tag_ok
    }
}

/// The routes of the game collection.
pub fn routes() -> (r: Vec<Route>)
    ensures
        r@.len() == 8,
        route_is(r@[0], "get_games"@, Method::Get, "/search?<query..>"@),
        route_is(r@[1], "get_game_by_id"@, Method::Get, "/<game_id>"@),
        route_is(r@[2], "post_games"@, Method::Post, "/"@),
        route_is(r@[3], "update_game"@, Method::Put, "/<game_id>"@),
        route_is(r@[4], "patch_game"@, Method::Patch, "/<game_id>"@),
        route_is(r@[5], "delete_game"@, Method::Delete, "/<game_id>"@),
        route_is(r@[6], "bulk_delete_games"@, Method::Delete, "/bulk"@),
        route_is(r@[7], "bulk_update_games"@, Method::Patch, "/bulk"@),
{
    let mut r: Vec<Route> = Vec::new();
    r.push(route("get_games", Method::Get, "/search?<query..>"));
    r.push(route("get_game_by_id", Method::Get, "/<game_id>"));
    r.push(route("post_games", Method::Post, "/"));
    r.push(route("update_game", Method::Put, "/<game_id>"));
    r.push(route("patch_game", Method::Patch, "/<game_id>"));
    r.push(route("delete_game", Method::Delete, "/<game_id>"));
    r.push(route("bulk_delete_games", Method::Delete, "/bulk"));
    r.push(route("bulk_update_games", Method::Patch, "/bulk"));
    r
}

} // verus!
