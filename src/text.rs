//! The few operations on text that the library takes from std.

use vstd::prelude::*;

verus! {

/// `p` is a prefix of `s`.
pub open spec fn has_prefix(s: Seq<char>, p: Seq<char>) -> bool {
    p.len() <= s.len() && s.subrange(0, p.len() as int) == p
}

/// `needle` occurs in `hay` as a contiguous run.
pub open spec fn occurs_in(needle: Seq<char>, hay: Seq<char>) -> bool {
    exists|i: int|
        0 <= i && i + needle.len() <= hay.len() && #[trigger] hay.subrange(i, i + needle.len())
            == needle
}

/// The texts of a list of strings.
pub open spec fn views(v: Seq<String>) -> Seq<Seq<char>> {
    v.map_values(|s: String| s@)
}

/// A copy of a list of strings.
pub fn copy_strings(v: &Vec<String>) -> (r: Vec<String>)
    ensures
        r@ == v@,
{
    let mut out: Vec<String> = Vec::new();
    let mut i: usize = 0;
    while i < v.len()
        invariant
            i <= v@.len(),
            out@ == v@.subrange(0, i as int),
        decreases v@.len() - i,
    {
        out.push(v[i].clone());
        i = i + 1;
    }
    assert(v@.subrange(0, v@.len() as int) =~= v@);
    out
}

/// A copy of a list of string pairs.
pub fn copy_pairs(v: &Vec<(String, String)>) -> (r: Vec<(String, String)>)
    ensures
        r@ == v@,
{
    let mut out: Vec<(String, String)> = Vec::new();
    let mut i: usize = 0;
    while i < v.len()
        invariant
            i <= v@.len(),
            out@ == v@.subrange(0, i as int),
        decreases v@.len() - i,
    {
        out.push((v[i].0.clone(), v[i].1.clone()));
        assert(out@ =~= v@.subrange(0, i + 1));
        i = i + 1;
    }
    assert(v@.subrange(0, v@.len() as int) =~= v@);
    out
}

/// A copy of an optional string.
pub fn copy_opt_string(o: &Option<String>) -> (r: Option<String>)
    ensures
        r == *o,
{
    match o {
        Some(s) => Some(s.clone()),
        None => None,
    }
}

/// The lowercase form of a text under Unicode case mapping.
pub uninterp spec fn lower_of(s: Seq<char>) -> Seq<char>;

/// Relies on `str::strip_prefix`: the remainder after `prefix`, present
/// exactly when `s` starts with `prefix`.
#[verifier::external_body]
pub(crate) fn strip_prefix<'a>(s: &'a str, prefix: &str) -> (r: Option<&'a str>)
    ensures
        r is Some <==> has_prefix(s@, prefix@),
        r matches Some(t) ==> t@ == s@.subrange(prefix@.len() as int, s@.len() as int),
{
    s.strip_prefix(prefix)
}

/// Relies on `str::split_once`: the parts before and after the first
/// occurrence of `sep`, present exactly when `sep` occurs in `s`.
#[verifier::external_body]
pub(crate) fn split_once<'a>(s: &'a str, sep: char) -> (r: Option<(&'a str, &'a str)>)
    ensures
        r is Some <==> s@.contains(sep),
        r matches Some(p) ==> s@ == p.0@ + seq![sep] + p.1@ && !p.0@.contains(sep),
{
    s.split_once(sep)
}

/// Relies on `str::contains`: whether `needle` occurs in `hay`.
#[verifier::external_body]
pub(crate) fn contains(hay: &str, needle: &str) -> (r: bool)
    ensures
        r == occurs_in(needle@, hay@),
{
    hay.contains(needle)
}

/// An ASCII decimal digit.
pub open spec fn is_digit(ch: char) -> bool {
    '0' <= ch && ch <= '9'
}

/// The value of a run of decimal digits.
pub open spec fn digits_value(d: Seq<char>) -> int
    decreases d.len(),
{
    if d.len() == 0 {
        0
    } else {
        10 * digits_value(d.drop_last()) + (d.last() as int - '0' as int)
    }
}

/// The integer a text spells: an optional `+` or `-` followed by one or more
/// ASCII digits, and nothing else.
pub open spec fn integer_of(s: Seq<char>) -> Option<int> {
    let signed = s.len() > 0 && (s[0] == '-' || s[0] == '+');
    let d = if signed {
        s.drop_first()
    } else {
        s
    };
    if d.len() > 0 && forall|i: int| 0 <= i < d.len() ==> is_digit(#[trigger] d[i]) {
        Some(
            if s[0] == '-' {
                -digits_value(d)
            } else {
                digits_value(d)
            },
        )
    } else {
        None
    }
}

/// The `i32` a text spells, if it spells one in range.
pub open spec fn i32_of(s: Seq<char>) -> Option<i32> {
    match integer_of(s) {
        Some(v) => if i32::MIN <= v <= i32::MAX {
            Some(v as i32)
        } else {
            None
        },
        None => None,
    }
}

/// Relies on `i32`'s `FromStr`: an optional sign followed by ASCII digits,
/// in range; anything else is an error.
#[verifier::external_body]
pub(crate) fn parse_i32(s: &str) -> (r: Option<i32>)
    ensures
        r == i32_of(s@),
{
    s.parse::<i32>().ok()
}

/// The pieces of `s` between the separators `c`; at least one, possibly
/// empty.
pub open spec fn pieces(s: Seq<char>, c: char) -> Seq<Seq<char>>
    decreases s.len(),
{
    if s.len() == 0 {
        seq![Seq::empty()]
    } else {
        let rest = pieces(s.drop_first(), c);
        if s[0] == c {
            seq![Seq::empty()] + rest
        } else {
            rest.update(0, seq![s[0]] + rest[0])
        }
    }
}

proof fn lemma_pieces_len(s: Seq<char>, c: char)
    ensures
        pieces(s, c).len() >= 1,
    decreases s.len(),
{
    if s.len() > 0 {
        lemma_pieces_len(s.drop_first(), c);
    }
}

/// Splitting at the first separator takes off the first piece.
pub proof fn lemma_pieces_split(s: Seq<char>, c: char, before: Seq<char>, after: Seq<char>)
    requires
        s == before + seq![c] + after,
        !before.contains(c),
    ensures
        pieces(s, c) == seq![before] + pieces(after, c),
    decreases before.len(),
{
    if before.len() == 0 {
        assert(s.drop_first() =~= after);
        assert(s[0] == c);
        assert(before =~= Seq::<char>::empty());
        assert(pieces(s, c) == seq![Seq::<char>::empty()] + pieces(s.drop_first(), c));
    } else {
        assert(before[0] != c);
        assert(s.drop_first() =~= before.drop_first() + seq![c] + after);
        assert(!before.drop_first().contains(c)) by {
            if before.drop_first().contains(c) {
                let j = choose|j: int| 0 <= j < before.drop_first().len() && before.drop_first()[j] == c;
                assert(before[j + 1] == c);
            }
        }
        lemma_pieces_split(s.drop_first(), c, before.drop_first(), after);
        assert(before =~= seq![before[0]] + before.drop_first());
        assert(pieces(s, c) =~= seq![before] + pieces(after, c));
    }
}

/// Without a separator there is one piece, the whole text.
pub proof fn lemma_pieces_whole(s: Seq<char>, c: char)
    requires
        !s.contains(c),
    ensures
        pieces(s, c) == seq![s],
    decreases s.len(),
{
    if s.len() > 0 {
        assert(!s.drop_first().contains(c)) by {
            if s.drop_first().contains(c) {
                let j = choose|j: int| 0 <= j < s.drop_first().len() && s.drop_first()[j] == c;
                assert(s[j + 1] == c);
            }
        }
        assert(s[0] != c);
        lemma_pieces_whole(s.drop_first(), c);
        assert(s =~= seq![s[0]] + s.drop_first());
        assert(pieces(s, c) =~= seq![s]);
    } else {
        assert(s =~= Seq::<char>::empty());
        assert(pieces(s, c) =~= seq![s]);
    }
}

/// A text without its leading and trailing Unicode whitespace.
pub uninterp spec fn trimmed_of(s: Seq<char>) -> Seq<char>;

/// Relies on `str::trim`: the result depends on the characters alone.
#[verifier::external_body]
pub(crate) fn trim(s: &str) -> (r: &str)
    ensures
        r@ == trimmed_of(s@),
{
    s.trim()
}

/// Relies on `str::to_lowercase`: the result depends on the characters alone.
#[verifier::external_body]
pub(crate) fn to_lowercase(s: &str) -> (r: String)
    ensures
        r@ == lower_of(s@),
{
    s.to_lowercase()
}

/// What precedes the first `c` in `s`; all of `s` if it has none.
pub open spec fn before_first(s: Seq<char>, c: char) -> Seq<char>
    decreases s.len(),
{
    if s.len() == 0 || s[0] == c {
        Seq::empty()
    } else {
        seq![s[0]] + before_first(s.drop_first(), c)
    }
}

proof fn lemma_before_first_split(s: Seq<char>, c: char, before: Seq<char>, after: Seq<char>)
    requires
        s == before + seq![c] + after,
        !before.contains(c),
    ensures
        before_first(s, c) == before,
    decreases before.len(),
{
    if before.len() == 0 {
        assert(s[0] == c);
    } else {
        assert(before[0] != c);
        assert(s.drop_first() =~= before.drop_first() + seq![c] + after);
        assert(!before.drop_first().contains(c)) by {
            if before.drop_first().contains(c) {
                let j = choose|j: int| 0 <= j < before.drop_first().len() && before.drop_first()[j] == c;
                assert(before[j + 1] == c);
            }
        }
        lemma_before_first_split(s.drop_first(), c, before.drop_first(), after);
        assert(before =~= seq![before[0]] + before.drop_first());
    }
}

proof fn lemma_before_first_whole(s: Seq<char>, c: char)
    requires
        !s.contains(c),
    ensures
        before_first(s, c) == s,
    decreases s.len(),
{
    if s.len() > 0 {
        assert(!s.drop_first().contains(c)) by {
            if s.drop_first().contains(c) {
                let j = choose|j: int| 0 <= j < s.drop_first().len() && s.drop_first()[j] == c;
                assert(s[j + 1] == c);
            }
        }
        assert(s[0] != c);
        lemma_before_first_whole(s.drop_first(), c);
        assert(s =~= seq![s[0]] + s.drop_first());
    }
}

/// What precedes the first `c` in `s`.
pub fn prefix_before(s: &str, c: char) -> (r: String)
    ensures
        r@ == before_first(s@, c),
{
    match split_once(s, c) {
        Some(parts) => {
            proof {
                lemma_before_first_split(s@, c, parts.0@, parts.1@);
            }
            parts.0.to_owned()
        },
        None => {
            proof {
                lemma_before_first_whole(s@, c);
            }
            s.to_owned()
        },
    }
}

} // verus!
