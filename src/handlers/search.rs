//! The parts of a collection search that do not depend on the collection:
//! flags, integer conditions, sort orders, and term matching.

use vstd::prelude::*;
use vstd::string::StringExecFns;

use crate::text::{contains, lower_of, occurs_in, to_lowercase};

verus! {

/// A condition on an integer field.
#[derive(Debug, Clone, Copy, PartialEq, Eq, Structural)]
pub enum IntCondition {
    /// The field equals this value.
    Equals(i32),
    /// The field lies within the given bounds, both inclusive.
    Between { min: Option<i32>, max: Option<i32> },
}

/// The condition that an exact value or bounds ask for: an exact value wins
/// over bounds, and with neither there is no condition.
pub open spec fn int_condition_of(exact: Option<i32>, min: Option<i32>, max: Option<i32>) -> Option<
    IntCondition,
> {
    match exact {
        Some(v) => Some(IntCondition::Equals(v)),
        None => if min is Some || max is Some {
            Some(IntCondition::Between { min, max })
        } else {
            None
        },
    }
}

/// The condition that an exact value or bounds ask for.
pub fn int_condition(exact: Option<i32>, min: Option<i32>, max: Option<i32>) -> (r: Option<
    IntCondition,
>)
    ensures
        r == int_condition_of(exact, min, max),
{
    match exact {
        Some(v) => Some(IntCondition::Equals(v)),
        None => if min.is_some() || max.is_some() {
            Some(IntCondition::Between { min, max })
        } else {
            None
        },
    }
}

/// The flag a query parameter spells: `true`, `false`, or nothing.
pub open spec fn flag_of(s: Seq<char>) -> Option<bool> {
    if s == "true"@ {
        Some(true)
    } else if s == "false"@ {
        Some(false)
    } else {
        None
    }
}

/// The flag an optional query parameter spells.
pub open spec fn opt_flag_of(s: Option<String>) -> Option<bool> {
    match s {
        Some(t) => flag_of(t@),
        None => None,
    }
}

/// The flag an optional query parameter spells; anything but `true` or
/// `false` sets no condition.
pub fn parse_flag(s: &Option<String>) -> (r: Option<bool>)
    ensures
        r == opt_flag_of(*s),
{
    match s {
        None => None,
        Some(t) => {
            let yes = String::from_str("true");
            let no = String::from_str("false");
            if *t == yes {
                Some(true)
            } else if *t == no {
                Some(false)
            } else {
                None
            }
        },
    }
}

/// An order of results: by a field, ascending or descending.
#[derive(Debug, Clone)]
pub struct SortOrder {
    pub field: String,
    pub ascending: bool,
}

/// The order a `sort` parameter asks for: `title` and `author` ascending
/// (`author` sorting by `author_field`), `rating` descending, anything else
/// no order.
pub open spec fn sort_of(s: Option<String>, author_field: Seq<char>) -> Option<(Seq<char>, bool)> {
    match s {
        None => None,
        Some(t) => if t@ == "title"@ {
            Some(("title"@, true))
        } else if t@ == "author"@ {
            Some((author_field, true))
        } else if t@ == "rating"@ {
            Some(("rating"@, false))
        } else {
            None
        },
    }
}

/// The view of an optional sort order.
pub open spec fn sort_view(o: Option<SortOrder>) -> Option<(Seq<char>, bool)> {
    match o {
        Some(s) => Some((s.field@, s.ascending)),
        None => None,
    }
}

/// The order a `sort` parameter asks for.
pub fn sort_order(s: &Option<String>, author_field: &str) -> (r: Option<SortOrder>)
    ensures
        sort_view(r) == sort_of(*s, author_field@),
{
    match s {
        None => None,
        Some(t) => {
            let title = String::from_str("title");
            let author = String::from_str("author");
            let rating = String::from_str("rating");
            if *t == title {
                Some(SortOrder { field: title, ascending: true })
            } else if *t == author {
                Some(SortOrder { field: String::from_str(author_field), ascending: true })
            } else if *t == rating {
                Some(SortOrder { field: rating, ascending: false })
            } else {
                None
            }
        },
    }
}

/// An item is present and contains `term`, compared in lowercase.
pub open spec fn item_has(item: Option<String>, term: Seq<char>) -> bool {
    match item {
        Some(t) => occurs_in(lower_of(term), lower_of(t@)),
        None => false,
    }
}

/// Some present item contains `term`, compared in lowercase.
pub open spec fn some_item_has(items: Seq<Option<String>>, term: Seq<char>) -> bool {
    exists|i: int| 0 <= i < items.len() && item_has(#[trigger] items[i], term)
}

/// Whether some present item contains `term`, compared in lowercase.
pub fn some_item_contains(items: &Vec<Option<String>>, term: &str) -> (r: bool)
    ensures
        r == some_item_has(items@, term@),
{
    let needle = to_lowercase(term);
    let mut i: usize = 0;
    while i < items.len()
        invariant
            i <= items@.len(),
            needle@ == lower_of(term@),
            forall|j: int| 0 <= j < i ==> !item_has(#[trigger] items@[j], term@),
        decreases items@.len() - i,
    {
        if let Some(t) = &items[i] {
            let hay = to_lowercase(t.as_str());
            if contains(hay.as_str(), needle.as_str()) {
                assert(item_has(items@[i as int], term@));
                return true;
            }
        }
        i = i + 1;
    }
    false
}

} // verus!
