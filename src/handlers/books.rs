//! Book search filters and the book routes.

use vstd::prelude::*;

use crate::handlers::search::{
    int_condition, int_condition_of, opt_flag_of, parse_flag, sort_of, sort_order, sort_view,
    IntCondition, SortOrder,
};
use crate::routing::{route, route_is, Method, Route};
use crate::models::{
    locale_view, localized_as, text_of, texts_of, Book, LocalizedBook, LocalizedStringArray,
    LocalizedTexts,
};
use crate::text::{views, contains, copy_opt_string, has_prefix, lower_of, occurs_in, strip_prefix, to_lowercase};

verus! {

/// How a filter term constrains an item list.
#[derive(Debug, Clone, Copy, PartialEq, Eq, Structural)]
pub enum FilterKind {
    /// At least one of the included terms must occur.
    Include,
    /// The term must occur (written with a leading `+`).
    Require,
    /// The term must not occur (written with a leading `-`).
    Exclude,
}

/// One parsed filter term.
#[derive(Debug, Clone)]
pub enum FilterOperation {
    Include(String),
    Require(String),
    Exclude(String),
}

impl View for FilterOperation {
    type V = (FilterKind, Seq<char>);

    open spec fn view(&self) -> Self::V {
        match self {
            FilterOperation::Include(s) => (FilterKind::Include, s@),
            FilterOperation::Require(s) => (FilterKind::Require, s@),
            FilterOperation::Exclude(s) => (FilterKind::Exclude, s@),
        }
    }
}

/// The term a raw filter denotes: `+t` requires `t`, `-t` excludes `t`,
/// anything else is included as written.
pub open spec fn parse_filter(f: Seq<char>) -> (FilterKind, Seq<char>) {
    if has_prefix(f, "+"@) {
        (FilterKind::Require, f.subrange("+"@.len() as int, f.len() as int))
    } else if has_prefix(f, "-"@) {
        (FilterKind::Exclude, f.subrange("-"@.len() as int, f.len() as int))
    } else {
        (FilterKind::Include, f)
    }
}

/// Some item contains `needle`.
pub open spec fn any_item_contains(items: Seq<Seq<char>>, needle: Seq<char>) -> bool {
    exists|i: int| 0 <= i < items.len() && occurs_in(needle, #[trigger] items[i])
}

/// Whether `items` pass the filter terms `ops`: no excluded term occurs, every
/// required term occurs, and, if there are included terms, one of them occurs.
pub open spec fn ops_match(items: Seq<Seq<char>>, ops: Seq<(FilterKind, Seq<char>)>) -> bool {
    &&& forall|i: int|
        0 <= i < ops.len() && (#[trigger] ops[i]).0 == FilterKind::Exclude ==> !any_item_contains(
            items,
            ops[i].1,
        )
    &&& forall|i: int|
        0 <= i < ops.len() && (#[trigger] ops[i]).0 == FilterKind::Require ==> any_item_contains(
            items,
            ops[i].1,
        )
    &&& (forall|i: int| 0 <= i < ops.len() ==> (#[trigger] ops[i]).0 != FilterKind::Include)
        || exists|i: int|
        0 <= i < ops.len() && (#[trigger] ops[i]).0 == FilterKind::Include && any_item_contains(
            items,
            ops[i].1,
        )
}

/// The terms of a sequence of operations.
pub open spec fn terms(ops: Seq<FilterOperation>) -> Seq<(FilterKind, Seq<char>)> {
    ops.map_values(|o: FilterOperation| o@)
}

/// The terms with their texts in lowercase.
pub open spec fn lowered_terms(t: Seq<(FilterKind, Seq<char>)>) -> Seq<(FilterKind, Seq<char>)> {
    t.map_values(|p: (FilterKind, Seq<char>)| (p.0, lower_of(p.1)))
}

/// The texts in lowercase.
pub open spec fn lowered_texts(texts: Seq<Seq<char>>) -> Seq<Seq<char>> {
    texts.map_values(|t: Seq<char>| lower_of(t))
}

impl FilterOperation {
    /// Parses raw filter terms, one operation per term, in order.
    pub fn parse_filters(filters: &[String]) -> (r: Vec<FilterOperation>)
        ensures
            r@.len() == filters@.len(),
            forall|i: int| 0 <= i < r@.len() ==> (#[trigger] r@[i])@ == parse_filter(filters@[i]@),
    {
        let mut out: Vec<FilterOperation> = Vec::new();
        let mut i: usize = 0;
        while i < filters.len()
            invariant
                i <= filters@.len(),
                out@.len() == i,
                forall|j: int| 0 <= j < i ==> (#[trigger] out@[j])@ == parse_filter(filters@[j]@),
            decreases filters@.len() - i,
        {
            let f = filters[i].as_str();
            let op = if let Some(rest) = strip_prefix(f, "+") {
                FilterOperation::Require(rest.to_owned())
            } else if let Some(rest) = strip_prefix(f, "-") {
                FilterOperation::Exclude(rest.to_owned())
            } else {
                FilterOperation::Include(filters[i].clone())
            };
            out.push(op);
            i = i + 1;
        }
        out
    }

    /// The term's text.
    pub fn text(&self) -> (r: &String)
        ensures
            r@ == self@.1,
    {
        match self {
            FilterOperation::Include(s) => s,
            FilterOperation::Require(s) => s,
            FilterOperation::Exclude(s) => s,
        }
    }

    /// The same kind of term, with its text in lowercase.
    pub fn lowered(&self) -> (r: FilterOperation)
        ensures
            r@ == (self@.0, lower_of(self@.1)),
    {
        match self {
            FilterOperation::Include(s) => FilterOperation::Include(to_lowercase(s.as_str())),
            FilterOperation::Require(s) => FilterOperation::Require(to_lowercase(s.as_str())),
            FilterOperation::Exclude(s) => FilterOperation::Exclude(to_lowercase(s.as_str())),
        }
    }
}

/// Whether some item contains `needle`.
fn any_contains(items: &Vec<String>, needle: &str) -> (r: bool)
    ensures
        r == any_item_contains(views(items@), needle@),
{
    let mut i: usize = 0;
    while i < items.len()
        invariant
            i <= items@.len(),
            forall|j: int| 0 <= j < i ==> !occurs_in(needle@, #[trigger] views(items@)[j]),
        decreases items@.len() - i,
    {
        if contains(items[i].as_str(), needle) {
            assert(occurs_in(needle@, views(items@)[i as int]));
            return true;
        }
        i = i + 1;
    }
    false
}

/// Whether `items` pass the terms `ops`, comparing texts exactly as given.
pub fn matches_lowered(items: &Vec<String>, ops: &Vec<FilterOperation>) -> (r: bool)
    ensures
        r == ops_match(views(items@), terms(ops@)),
{
    let ghost opv = ops@.map_values(|o: FilterOperation| o@);
    let mut has_include = false;
    let mut include_hit = false;
    let mut i: usize = 0;
    while i < ops.len()
        invariant
            i <= ops@.len(),
            opv == ops@.map_values(|o: FilterOperation| o@),
            forall|j: int|
                0 <= j < i && (#[trigger] opv[j]).0 == FilterKind::Exclude ==> !any_item_contains(
                    views(items@),
                    opv[j].1,
                ),
            forall|j: int|
                0 <= j < i && (#[trigger] opv[j]).0 == FilterKind::Require ==> any_item_contains(
                    views(items@),
                    opv[j].1,
                ),
            has_include == exists|j: int| 0 <= j < i && (#[trigger] opv[j]).0 == FilterKind::Include,
            include_hit == exists|j: int|
                0 <= j < i && (#[trigger] opv[j]).0 == FilterKind::Include && any_item_contains(
                    views(items@),
                    opv[j].1,
                ),
        decreases ops@.len() - i,
    {
        let op = &ops[i];
        let hit = any_contains(items, op.text().as_str());
        assert(opv[i as int] == op@);
        match op {
            FilterOperation::Exclude(_) => {
                if hit {
                    return false;
                }
            },
            FilterOperation::Require(_) => {
                if !hit {
                    return false;
                }
            },
            FilterOperation::Include(_) => {
                has_include = true;
                if hit {
                    include_hit = true;
                }
            },
        }
        i = i + 1;
    }
    !has_include || include_hit
}

/// Whether a book's item list passes the filter terms for `locale`: items and
/// terms are compared in lowercase, by substring.
pub fn matches_filter_operations(
    book_items: &LocalizedStringArray,
    operations: &[FilterOperation],
    locale: Option<&str>,
) -> (r: bool)
    ensures
        r == ops_match(
            lowered_texts(texts_of(book_items@, locale_view(locale))),
            lowered_terms(terms(operations@)),
        ),
{
    let texts = book_items.get_texts(locale);
    let mut items: Vec<String> = Vec::new();
    let mut i: usize = 0;
    while i < texts.len()
        invariant
            i <= texts@.len(),
            items@.len() == i,
            forall|j: int| 0 <= j < i ==> (#[trigger] items@[j])@ == lower_of(texts@[j]@),
        decreases texts@.len() - i,
    {
        items.push(to_lowercase(texts[i].as_str()));
        i = i + 1;
    }
    let mut ops: Vec<FilterOperation> = Vec::new();
    let mut k: usize = 0;
    while k < operations.len()
        invariant
            k <= operations@.len(),
            ops@.len() == k,
            forall|j: int| 0 <= j < k ==> (#[trigger] ops@[j])@ == (operations@[j]@.0, lower_of(operations@[j]@.1)),
        decreases operations@.len() - k,
    {
        ops.push(operations[k].lowered());
        k = k + 1;
    }
    assert(views(items@) =~= lowered_texts(texts_of(book_items@, locale_view(locale))));
    assert(terms(ops@) =~= lowered_terms(terms(operations@)));
    matches_lowered(&items, &ops)
}

/// The parameters of a book search.
pub struct BookQuery {
    /// Part of the title, in any case.
    pub title: Option<String>,
    /// Part of the author's name, in any case.
    pub author: Option<String>,
    /// Genre filter terms.
    pub genre: Option<Vec<String>>,
    /// Tag filter terms.
    pub tag: Option<Vec<String>>,
    pub status: Option<String>,
    pub explicit: Option<String>,
    pub min_rating: Option<i32>,
    pub max_rating: Option<i32>,
    pub sort: Option<String>,
    /// A locale that overrides the request's preferred one.
    pub locale: Option<String>,
}

/// The conditions of a book search that the store evaluates.
pub struct BookSearch {
    /// A case-insensitive pattern that the title must match.
    pub title_pattern: Option<String>,
    /// A case-insensitive pattern that the author must match.
    pub author_pattern: Option<String>,
    pub status: Option<String>,
    pub explicit: Option<bool>,
    pub rating: Option<IntCondition>,
    pub sort: Option<SortOrder>,
}

impl BookQuery {
    /// What the store is asked for: the title and author as patterns, the
    /// status as given, the explicit flag if it reads `true` or `false`, the
    /// rating bounds, and the order (`title`, `author`, or `rating` from the
    /// highest).
    pub fn store_search(&self) -> (r: BookSearch)
        ensures
            r.title_pattern == self.title,
            r.author_pattern == self.author,
            r.status == self.status,
            r.explicit == opt_flag_of(self.explicit),
            r.rating == int_condition_of(None, self.min_rating, self.max_rating),
            sort_view(r.sort) == sort_of(self.sort, "author"@),
    {
        BookSearch {
            title_pattern: copy_opt_string(&self.title),
            author_pattern: copy_opt_string(&self.author),
            status: copy_opt_string(&self.status),
            explicit: parse_flag(&self.explicit),
            rating: int_condition(None, self.min_rating, self.max_rating),
            sort: sort_order(&self.sort, "author"),
        }
    }
}

/// The locale a search resolves texts in: the query's own, else the
/// request's.
pub open spec fn search_locale(q: BookQuery, requested: Option<Seq<char>>) -> Option<Seq<char>> {
    match q.locale {
        Some(l) => Some(l@),
        None => requested,
    }
}

/// A text passes an optional part-of filter, compared in lowercase.
pub open spec fn text_passes(filter: Option<String>, text: Seq<char>) -> bool {
    match filter {
        None => true,
        Some(f) => occurs_in(lower_of(f@), lower_of(text)),
    }
}

/// An item list passes optional filter terms.
pub open spec fn items_pass(filters: Option<Vec<String>>, items: LocalizedTexts, locale: Option<Seq<char>>) -> bool {
    match filters {
        None => true,
        Some(fs) => ops_match(
            lowered_texts(texts_of(items, locale)),
            lowered_terms(fs@.map_values(|f: String| parse_filter(f@))),
        ),
    }
}

/// A book passes every text and term filter of a search.
pub open spec fn book_selected(b: Book, q: BookQuery, locale: Option<Seq<char>>) -> bool {
    &&& text_passes(q.title, text_of(b.title@, locale))
    &&& text_passes(q.author, text_of(b.author@, locale))
    &&& items_pass(q.genre, b.genres@, locale)
    &&& items_pass(q.tag, b.tags@, locale)
}

/// Whether `text` contains the lowercase form of `filter`, compared in
/// lowercase.
fn text_filter_passes(filter: &Option<String>, text: String) -> (r: bool)
    ensures
        r == text_passes(*filter, text@),
{
    match filter {
        None => true,
        Some(f) => {
            let needle = to_lowercase(f.as_str());
            let hay = to_lowercase(text.as_str());
            contains(hay.as_str(), needle.as_str())
        },
    }
}

/// Whether an item list passes optional filter terms.
fn terms_pass(filters: &Option<Vec<String>>, items: &LocalizedStringArray, locale: Option<&str>) -> (r: bool)
    ensures
        r == items_pass(*filters, items@, locale_view(locale)),
{
    match filters {
        None => true,
        Some(fs) => {
            let ops = FilterOperation::parse_filters(fs.as_slice());
            assert(terms(ops@) =~= fs@.map_values(|f: String| parse_filter(f@)));
            matches_filter_operations(items, ops.as_slice(), locale)
        },
    }
}

/// The books, in order, that pass the search, each resolved for the search's
/// locale (`requested` being the request's preferred one).
pub fn select_books(books: &Vec<Book>, query: &BookQuery, requested: Option<&str>) -> (r: Vec<LocalizedBook>)
    ensures
        ({
            let locale = search_locale(*query, locale_view(requested));
            let kept = books@.filter(|b: Book| book_selected(b, *query, locale));
            &&& r@.len() == kept.len()
            &&& forall|i: int| 0 <= i < r@.len() ==> localized_as(#[trigger] r@[i], kept[i], locale)
        }),
{
    let locale: Option<&str> = match &query.locale {
        Some(l) => Some(l.as_str()),
        None => requested,
    };
    let ghost loc = search_locale(*query, locale_view(requested));
    assert(locale_view(locale) == loc);
    let ghost pred = |b: Book| book_selected(b, *query, loc);
    let mut out: Vec<LocalizedBook> = Vec::new();
    let mut i: usize = 0;
    while i < books.len()
        invariant
            i <= books@.len(),
            locale_view(locale) == loc,
            pred == (|b: Book| book_selected(b, *query, loc)),
            out@.len() == books@.subrange(0, i as int).filter(pred).len(),
            forall|j: int|
                0 <= j < out@.len() ==> localized_as(
                    #[trigger] out@[j],
                    books@.subrange(0, i as int).filter(pred)[j],
                    loc,
                ),
        decreases books@.len() - i,
    {
        let b = &books[i];
        let pass = text_filter_passes(&query.title, b.title.get_text(locale))
            && text_filter_passes(&query.author, b.author.get_text(locale))
            && terms_pass(&query.genre, &b.genres, locale)
            && terms_pass(&query.tag, &b.tags, locale);
        proof {
            assert(books@.subrange(0, i + 1) =~= books@.subrange(0, i as int).push(books@[i as int]));
            books@.subrange(0, i as int).lemma_filter_push(books@[i as int], pred);
        }
        if pass {
            out.push(b.localize(locale));
        }
        i = i + 1;
    }
    assert(books@.subrange(0, books@.len() as int) =~= books@);
    out
}

/// The routes of the book collection.
pub fn routes() -> (r: Vec<Route>)
    ensures
        r@.len() == 9,
        route_is(r@[0], "get_books"@, Method::Get, "/search?<query..>"@),
        route_is(r@[1], "get_book_by_id"@, Method::Get, "/<book_id>"@),
        route_is(r@[2], "post_books"@, Method::Post, "/"@),
        route_is(r@[3], "update_book"@, Method::Put, "/<book_id>"@),
        route_is(r@[4], "patch_book"@, Method::Patch, "/<book_id>"@),
        route_is(r@[5], "delete_book"@, Method::Delete, "/<book_id>"@),
        route_is(r@[6], "bulk_delete_books"@, Method::Delete, "/bulk"@),
        route_is(r@[7], "bulk_update_books"@, Method::Patch, "/bulk"@),
        route_is(r@[8], "get_raw_book_by_id"@, Method::Get, "/raw/<book_id>"@),
{
    let mut r: Vec<Route> = Vec::new();
    r.push(route("get_books", Method::Get, "/search?<query..>"));
    r.push(route("get_book_by_id", Method::Get, "/<book_id>"));
    r.push(route("post_books", Method::Post, "/"));
    r.push(route("update_book", Method::Put, "/<book_id>"));
    r.push(route("patch_book", Method::Patch, "/<book_id>"));
    r.push(route("delete_book", Method::Delete, "/<book_id>"));
    r.push(route("bulk_delete_books", Method::Delete, "/bulk"));
    r.push(route("bulk_update_books", Method::Patch, "/bulk"));
    r.push(route("get_raw_book_by_id", Method::Get, "/raw/<book_id>"));
    r
}

} // verus!
