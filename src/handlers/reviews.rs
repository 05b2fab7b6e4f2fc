//! Chapter lists and the review routes.

use vstd::prelude::*;

use crate::routing::{route, route_is, Method, Route};
use crate::text::{
    i32_of, lemma_pieces_split, lemma_pieces_whole, parse_i32, pieces, split_once,
};

verus! {

/// The chapters a comma-separated list names, if every piece of it is an
/// `i32`.
pub open spec fn chapters_of(list: Seq<char>) -> Option<Seq<i32>> {
    let ps = pieces(list, ',');
    if forall|i: int| 0 <= i < ps.len() ==> (#[trigger] i32_of(ps[i])) is Some {
        Some(ps.map_values(|p: Seq<char>| i32_of(p)->Some_0))
    } else {
        None
    }
}

/// Parses a comma-separated list of chapter numbers.
pub fn parse_chapters(list: &str) -> (r: Option<Vec<i32>>)
    ensures
        match r {
            Some(v) => chapters_of(list@) == Some(v@),
            None => chapters_of(list@) is None,
        },
{
    let ghost whole = pieces(list@, ',');
    let ghost mut done: Seq<Seq<char>> = Seq::empty();
    let mut out: Vec<i32> = Vec::new();
    let mut rest: &str = list;
    assert(whole =~= done + pieces(rest@, ','));
    loop
        invariant
            whole == pieces(list@, ','),
            whole == done + pieces(rest@, ','),
            out@.len() == done.len(),
            forall|j: int| 0 <= j < done.len() ==> i32_of(#[trigger] done[j]) == Some(out@[j]),
        decreases rest@.len(),
    {
        match split_once(rest, ',') {
            Some(parts) => {
                proof {
                    lemma_pieces_split(rest@, ',', parts.0@, parts.1@);
                    assert(whole[done.len() as int] == parts.0@);
                }
                match parse_i32(parts.0) {
                    Some(v) => {
                        out.push(v);
                        proof {
                            assert(whole =~= done.push(parts.0@) + pieces(parts.1@, ','));
                            done = done.push(parts.0@);
                        }
                        rest = parts.1;
                    },
                    None => {
                        assert(i32_of(whole[done.len() as int]) is None);
                        return None;
                    },
                }
            },
            None => {
                proof {
                    lemma_pieces_whole(rest@, ',');
                    assert(whole[done.len() as int] == rest@);
                }
                match parse_i32(rest) {
                    Some(v) => {
                        out.push(v);
                        proof {
                            assert(whole =~= done.push(rest@));
                            done = done.push(rest@);
                            assert(out@ =~= whole.map_values(|p: Seq<char>| i32_of(p)->Some_0));
                        }
                        return Some(out);
                    },
                    None => {
                        assert(i32_of(whole[done.len() as int]) is None);
                        return None;
                    },
                }
            },
        }
    }
}

/// The routes of the review collection.
pub fn routes() -> (r: Vec<Route>)
    ensures
        r@.len() == 9,
        route_is(r@[0], "get_review_by_chapter"@, Method::Get, "/<chapter>"@),
        route_is(r@[1], "get_review_by_oid"@, Method::Get, "/<id>"@),
        route_is(r@[2], "get_reviews"@, Method::Get, "/"@),
        route_is(r@[3], "create_review"@, Method::Post, "/"@),
        route_is(r@[4], "delete_review"@, Method::Delete, "/<chapter>"@),
        route_is(r@[5], "delete_review_by_id"@, Method::Delete, "/<id>"@),
        route_is(r@[6], "patch_review_by_chapter"@, Method::Patch, "/<chapter>"@),
        route_is(r@[7], "batch_delete_reviews"@, Method::Delete, "/batch/<chapters>"@),
        route_is(r@[8], "patch_review_by_id"@, Method::Patch, "/<id>"@),
{
    let mut r: Vec<Route> = Vec::new();
    r.push(route("get_review_by_chapter", Method::Get, "/<chapter>"));
    r.push(route("get_review_by_oid", Method::Get, "/<id>"));
    r.push(route("get_reviews", Method::Get, "/"));
    r.push(route("create_review", Method::Post, "/"));
    r.push(route("delete_review", Method::Delete, "/<chapter>"));
    r.push(route("delete_review_by_id", Method::Delete, "/<id>"));
    r.push(route("patch_review_by_chapter", Method::Patch, "/<chapter>"));
    r.push(route("batch_delete_reviews", Method::Delete, "/batch/<chapters>"));
    r.push(route("patch_review_by_id", Method::Patch, "/<id>"));
    r
}

} // verus!
