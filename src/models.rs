//! Records and data-transfer shapes shared by the service and its callers.

use vstd::prelude::*;
use vstd::string::StringExecFns;

use chrono::NaiveDateTime;
use mongodb::bson::oid::ObjectId;

use crate::text::{before_first, copy_opt_string, copy_pairs, copy_strings, prefix_before, trim, trimmed_of, views};

verus! {

#[verifier::external_type_specification]
#[verifier::external_body]
pub struct ExObjectId(ObjectId);

#[verifier::external_type_specification]
#[verifier::external_body]
pub struct ExNaiveDateTime(NaiveDateTime);

/// Relies on bson's derived `Clone` for `ObjectId`, a `Copy` type: the clone is
/// the same identifier.
pub assume_specification[ <ObjectId as Clone>::clone ](o: &ObjectId) -> (r: ObjectId)
    ensures
        r == *o,
;

/// Relies on chrono's derived `Clone` for `NaiveDateTime`, a `Copy` type: the
/// clone is the same instant.
pub assume_specification[ <NaiveDateTime as Clone>::clone ](t: &NaiveDateTime) -> (r:
    NaiveDateTime)
    ensures
        r == *t,
;

/// A stored credential: its identifier, the digest of its key, whether it
/// carries the admin capability, and when it was created and last used.
#[derive(Debug, Clone)]
pub struct ApiKey {
    pub oid: ObjectId,
    pub key_hash: String,
    pub is_admin: bool,
    pub created_at: NaiveDateTime,
    pub last_used_at: Option<NaiveDateTime>,
}

impl ApiKey {
    /// A field-for-field copy of this record.
    pub fn copied(&self) -> (r: ApiKey)
        ensures
            r == *self,
    {
        ApiKey {
            oid: self.oid,
            key_hash: self.key_hash.clone(),
            is_admin: self.is_admin,
            created_at: self.created_at,
            last_used_at: self.last_used_at,
        }
    }
}

/// The client-supplied part of a credential.
#[derive(Debug, Clone)]
pub struct NewApiKey {
    pub key_hash: String,
    pub is_admin: bool,
}

/// The locale a request prefers, if it states one.
pub struct Locale(pub Option<String>);

impl Locale {
    /// The first entry of an `Accept-Language` header value, trimmed.
    pub fn from_accept_language(header: Option<&str>) -> (r: Locale)
        ensures
            match header {
                None => r.0 is None,
                Some(h) => r.0 matches Some(l) && l@ == trimmed_of(before_first(h@, ',')),
            },
    {
        match header {
            None => Locale(None),
            Some(h) => {
                let first = prefix_before(h, ',');
                Locale(Some(trim(first.as_str()).to_owned()))
            },
        }
    }
}

/// A table of locale tags and their texts, as values.
pub open spec fn pairs_view(v: Seq<(String, String)>) -> Seq<(Seq<char>, Seq<char>)> {
    v.map_values(|p: (String, String)| (p.0@, p.1@))
}

/// The text stored for `locale`: the first entry with that locale.
pub open spec fn lookup_text(entries: Seq<(Seq<char>, Seq<char>)>, locale: Seq<char>) -> Option<
    Seq<char>,
>
    decreases entries.len(),
{
    if entries.len() == 0 {
        None
    } else if entries[0].0 == locale {
        Some(entries[0].1)
    } else {
        lookup_text(entries.drop_first(), locale)
    }
}

/// The text of a localized table for an optional locale: the exact locale,
/// then its language (what precedes the first `-`), then English, then the
/// first entry, then nothing.
pub open spec fn localized_text(entries: Seq<(Seq<char>, Seq<char>)>, locale: Option<Seq<char>>) -> Seq<
    char,
> {
    let exact = match locale {
        Some(l) => lookup_text(entries, l),
        None => None,
    };
    let lang = match locale {
        Some(l) => lookup_text(entries, before_first(l, '-')),
        None => None,
    };
    if exact is Some {
        exact->Some_0
    } else if lang is Some {
        lang->Some_0
    } else if lookup_text(entries, "en"@) is Some {
        lookup_text(entries, "en"@)->Some_0
    } else if entries.len() > 0 {
        entries[0].1
    } else {
        Seq::empty()
    }
}

/// A string, either plain or given per locale.
#[derive(Debug, Clone)]
pub enum LocalizedString {
    /// The same text in every locale.
    Simple(String),
    /// Locale tags (`en`, `es-MX`, ...) paired with their texts.
    Localized(Vec<(String, String)>),
}

/// The value of a [`LocalizedString`].
pub enum LocalizedText {
    Simple(Seq<char>),
    Localized(Seq<(Seq<char>, Seq<char>)>),
}

impl View for LocalizedString {
    type V = LocalizedText;

    open spec fn view(&self) -> LocalizedText {
        match self {
            LocalizedString::Simple(t) => LocalizedText::Simple(t@),
            LocalizedString::Localized(v) => LocalizedText::Localized(pairs_view(v@)),
        }
    }
}

/// The text of a localized string for an optional locale.
pub open spec fn text_of(s: LocalizedText, locale: Option<Seq<char>>) -> Seq<char> {
    match s {
        LocalizedText::Simple(t) => t,
        LocalizedText::Localized(entries) => localized_text(entries, locale),
    }
}

/// The view of an optional locale.
pub open spec fn locale_view(locale: Option<&str>) -> Option<Seq<char>> {
    match locale {
        Some(l) => Some(l@),
        None => None,
    }
}

proof fn lemma_lookup_skip(entries: Seq<(Seq<char>, Seq<char>)>, locale: Seq<char>, i: int)
    requires
        0 <= i <= entries.len(),
        forall|j: int| 0 <= j < i ==> entries[j].0 != locale,
    ensures
        lookup_text(entries, locale) == lookup_text(entries.subrange(i, entries.len() as int), locale),
    decreases i,
{
    if i > 0 {
        lemma_lookup_skip(entries.drop_first(), locale, i - 1);
        assert(entries.drop_first().subrange(i - 1, entries.drop_first().len() as int)
            =~= entries.subrange(i, entries.len() as int));
    } else {
        assert(entries.subrange(0, entries.len() as int) =~= entries);
    }
}

/// The text stored for `locale` in `entries`, if any.
fn find_text(entries: &Vec<(String, String)>, locale: &String) -> (r: Option<String>)
    ensures
        match r {
            Some(t) => lookup_text(pairs_view(entries@), locale@) == Some(t@),
            None => lookup_text(pairs_view(entries@), locale@) is None,
        },
{
    let ghost pv = pairs_view(entries@);
    let mut i: usize = 0;
    while i < entries.len()
        invariant
            i <= entries@.len(),
            pv == pairs_view(entries@),
            forall|j: int| 0 <= j < i ==> pv[j].0 != locale@,
        decreases entries@.len() - i,
    {
        if entries[i].0 == *locale {
            proof {
                lemma_lookup_skip(pv, locale@, i as int);
            }
            return Some(entries[i].1.clone());
        }
        i = i + 1;
    }
    proof {
        lemma_lookup_skip(pv, locale@, i as int);
    }
    None
}

impl LocalizedString {
    /// A copy of this string.
    pub fn copied(&self) -> (r: LocalizedString)
        ensures
            r@ == self@,
    {
        match self {
            LocalizedString::Simple(t) => LocalizedString::Simple(t.clone()),
            LocalizedString::Localized(v) => LocalizedString::Localized(copy_pairs(v)),
        }
    }

    /// The text for `locale`: the exact locale, else its language, else
    /// English, else the first entry, else the empty string.
    pub fn get_text(&self, locale: Option<&str>) -> (r: String)
        ensures
            r@ == text_of(self@, locale_view(locale)),
    {
        match self {
            LocalizedString::Simple(text) => text.clone(),
            LocalizedString::Localized(entries) => {
                if let Some(l) = locale {
                    let tag = l.to_owned();
                    if let Some(t) = find_text(entries, &tag) {
                        return t;
                    }
                    let lang = prefix_before(l, '-');
                    if let Some(t) = find_text(entries, &lang) {
                        return t;
                    }
                }
                let en = String::from_str("en");
                if let Some(t) = find_text(entries, &en) {
                    return t;
                }
                if entries.len() > 0 {
                    entries[0].1.clone()
                } else {
                    String::new()
                }
            },
        }
    }
}

/// A list of strings, either plain or each given per locale.
#[derive(Debug, Clone)]
pub enum LocalizedStringArray {
    /// The same texts in every locale.
    Simple(Vec<String>),
    /// One localized string per item.
    Localized(Vec<LocalizedString>),
}

/// The value of a [`LocalizedStringArray`].
pub enum LocalizedTexts {
    Simple(Seq<Seq<char>>),
    Localized(Seq<LocalizedText>),
}

impl View for LocalizedStringArray {
    type V = LocalizedTexts;

    open spec fn view(&self) -> LocalizedTexts {
        match self {
            LocalizedStringArray::Simple(v) => LocalizedTexts::Simple(views(v@)),
            LocalizedStringArray::Localized(v) => LocalizedTexts::Localized(
                v@.map_values(|s: LocalizedString| s@),
            ),
        }
    }
}

/// The texts of a localized list for an optional locale.
pub open spec fn texts_of(a: LocalizedTexts, locale: Option<Seq<char>>) -> Seq<Seq<char>> {
    match a {
        LocalizedTexts::Simple(v) => v,
        LocalizedTexts::Localized(v) => v.map_values(|s: LocalizedText| text_of(s, locale)),
    }
}

impl LocalizedStringArray {
    /// Every item's text for `locale`, in order.
    pub fn get_texts(&self, locale: Option<&str>) -> (r: Vec<String>)
        ensures
            views(r@) == texts_of(self@, locale_view(locale)),
    {
        let mut out: Vec<String> = Vec::new();
        match self {
            LocalizedStringArray::Simple(texts) => {
                out = copy_strings(texts);
            },
            LocalizedStringArray::Localized(items) => {
                let mut i: usize = 0;
                while i < items.len()
                    invariant
                        i <= items@.len(),
                        out@.len() == i,
                        forall|j: int| 0 <= j < i ==> #[trigger] out@[j]@ == text_of(items@[j]@, locale_view(locale)),
                    decreases items@.len() - i,
                {
                    out.push(items[i].get_text(locale));
                    i = i + 1;
                }
            },
        }
        assert(views(out@) =~= texts_of(self@, locale_view(locale)));
        out
    }

    /// A copy of this list.
    pub fn copied(&self) -> (r: LocalizedStringArray)
        ensures
            r@ == self@,
    {
        match self {
            LocalizedStringArray::Simple(v) => LocalizedStringArray::Simple(copy_strings(v)),
            LocalizedStringArray::Localized(v) => {
                let mut out: Vec<LocalizedString> = Vec::new();
                let mut i: usize = 0;
                while i < v.len()
                    invariant
                        i <= v@.len(),
                        out@.len() == i,
                        forall|j: int| 0 <= j < i ==> (#[trigger] out@[j])@ == v@[j]@,
                    decreases v@.len() - i,
                {
                    out.push(v[i].copied());
                    i = i + 1;
                }
                let r = LocalizedStringArray::Localized(out);
                assert(out@.map_values(|s: LocalizedString| s@) =~= v@.map_values(
                    |s: LocalizedString| s@,
                ));
                r
            },
        }
    }
}

/// The value of an optional table of string pairs.
pub open spec fn opt_pairs_view(o: Option<Vec<(String, String)>>) -> Option<Seq<(String, String)>> {
    match o {
        Some(v) => Some(v@),
        None => None,
    }
}

/// A copy of an optional link table.
fn copy_links(o: &Option<Vec<(String, String)>>) -> (r: Option<Vec<(String, String)>>)
    ensures
        opt_pairs_view(r) == opt_pairs_view(*o),
{
    match o {
        Some(v) => Some(copy_pairs(v)),
        None => None,
    }
}

/// A stored book; its texts may be given per locale.
#[derive(Debug)]
pub struct Book {
    pub oid: ObjectId,
    pub title: LocalizedString,
    pub author: LocalizedString,
    pub genres: LocalizedStringArray,
    pub tags: LocalizedStringArray,
    pub rating: i32,
    pub status: LocalizedString,
    pub description: LocalizedString,
    pub my_thoughts: LocalizedString,
    /// Link names paired with their URLs.
    pub links: Option<Vec<(String, String)>>,
    pub cover_image: String,
    pub explicit: bool,
    pub color: Option<String>,
}

/// A book as submitted, before it has an identifier.
#[derive(Debug)]
pub struct NewBook {
    pub title: LocalizedString,
    pub author: LocalizedString,
    pub genres: LocalizedStringArray,
    pub tags: LocalizedStringArray,
    pub rating: i32,
    pub status: LocalizedString,
    pub description: LocalizedString,
    pub my_thoughts: LocalizedString,
    pub links: Option<Vec<(String, String)>>,
    pub cover_image: String,
    pub explicit: bool,
    pub color: Option<String>,
}

/// A book with every text resolved for one locale.
#[derive(Debug)]
pub struct LocalizedBook {
    pub oid: ObjectId,
    pub title: String,
    pub author: String,
    pub genres: Vec<String>,
    pub tags: Vec<String>,
    pub rating: i32,
    pub status: String,
    pub description: String,
    pub my_thoughts: String,
    pub links: Option<Vec<(String, String)>>,
    pub cover_image: String,
    pub explicit: bool,
    pub color: Option<String>,
}

/// `lb` is `b` with its texts resolved for `locale`.
pub open spec fn localized_as(lb: LocalizedBook, b: Book, locale: Option<Seq<char>>) -> bool {
    &&& lb.oid == b.oid
    &&& lb.title@ == text_of(b.title@, locale)
    &&& lb.author@ == text_of(b.author@, locale)
    &&& views(lb.genres@) == texts_of(b.genres@, locale)
    &&& views(lb.tags@) == texts_of(b.tags@, locale)
    &&& lb.rating == b.rating
    &&& lb.status@ == text_of(b.status@, locale)
    &&& lb.description@ == text_of(b.description@, locale)
    &&& lb.my_thoughts@ == text_of(b.my_thoughts@, locale)
    &&& opt_pairs_view(lb.links) == opt_pairs_view(b.links)
    &&& lb.cover_image == b.cover_image
    &&& lb.explicit == b.explicit
    &&& lb.color == b.color
}

impl Book {
    /// This book with every text resolved for `locale`.
    pub fn localize(&self, locale: Option<&str>) -> (r: LocalizedBook)
        ensures
            localized_as(r, *self, locale_view(locale)),
    {
        LocalizedBook {
            oid: self.oid,
            title: self.title.get_text(locale),
            author: self.author.get_text(locale),
            genres: self.genres.get_texts(locale),
            tags: self.tags.get_texts(locale),
            rating: self.rating,
            status: self.status.get_text(locale),
            description: self.description.get_text(locale),
            my_thoughts: self.my_thoughts.get_text(locale),
            links: copy_links(&self.links),
            cover_image: self.cover_image.clone(),
            explicit: self.explicit,
            color: copy_opt_string(&self.color),
        }
    }
}

impl NewBook {
    /// The stored form of this book, under identifier `oid`.
    pub fn to_book_with_id(&self, oid: ObjectId) -> (r: Book)
        ensures
            r.oid == oid,
            r.title@ == self.title@,
            r.author@ == self.author@,
            r.genres@ == self.genres@,
            r.tags@ == self.tags@,
            r.rating == self.rating,
            r.status@ == self.status@,
            r.description@ == self.description@,
            r.my_thoughts@ == self.my_thoughts@,
            opt_pairs_view(r.links) == opt_pairs_view(self.links),
            r.cover_image == self.cover_image,
            r.explicit == self.explicit,
            r.color == self.color,
    {
        Book {
            oid,
            title: self.title.copied(),
            author: self.author.copied(),
            genres: self.genres.copied(),
            tags: self.tags.copied(),
            rating: self.rating,
            status: self.status.copied(),
            description: self.description.copied(),
            my_thoughts: self.my_thoughts.copied(),
            links: copy_links(&self.links),
            cover_image: self.cover_image.clone(),
            explicit: self.explicit,
            color: copy_opt_string(&self.color),
        }
    }
}

/// A partial update of a book; absent fields stay as they are.
#[derive(Debug)]
pub struct UpdateBook {
    pub title: Option<LocalizedString>,
    pub author: Option<LocalizedString>,
    pub genres: Option<LocalizedStringArray>,
    pub tags: Option<LocalizedStringArray>,
    pub rating: Option<i32>,
    pub status: Option<LocalizedString>,
    pub description: Option<LocalizedString>,
    pub my_thoughts: Option<LocalizedString>,
    pub links: Option<Vec<(String, String)>>,
    pub cover_image: Option<String>,
    pub explicit: Option<bool>,
    pub color: Option<String>,
}

/// A partial update of a book with its texts resolved for one locale: what
/// is written to the store.
#[derive(Debug)]
pub struct BookChanges {
    pub title: Option<String>,
    pub author: Option<String>,
    pub genres: Option<Vec<String>>,
    pub tags: Option<Vec<String>>,
    pub rating: Option<i32>,
    pub status: Option<String>,
    pub description: Option<String>,
    pub my_thoughts: Option<String>,
    pub links: Option<Vec<(String, String)>>,
    pub cover_image: Option<String>,
    pub explicit: Option<bool>,
    pub color: Option<String>,
}

/// An optional text resolved as an optional localized string is.
pub open spec fn resolved(r: Option<String>, s: Option<LocalizedString>, locale: Option<Seq<char>>) -> bool {
    match (r, s) {
        (Some(t), Some(l)) => t@ == text_of(l@, locale),
        (None, None) => true,
        _ => false,
    }
}

/// An optional list resolved as an optional localized list is.
pub open spec fn resolved_list(
    r: Option<Vec<String>>,
    s: Option<LocalizedStringArray>,
    locale: Option<Seq<char>>,
) -> bool {
    match (r, s) {
        (Some(t), Some(l)) => views(t@) == texts_of(l@, locale),
        (None, None) => true,
        _ => false,
    }
}

fn resolve(s: &Option<LocalizedString>, locale: Option<&str>) -> (r: Option<String>)
    ensures
        resolved(r, *s, locale_view(locale)),
{
    match s {
        Some(l) => Some(l.get_text(locale)),
        None => None,
    }
}

fn resolve_list(s: &Option<LocalizedStringArray>, locale: Option<&str>) -> (r: Option<Vec<String>>)
    ensures
        resolved_list(r, *s, locale_view(locale)),
{
    match s {
        Some(l) => Some(l.get_texts(locale)),
        None => None,
    }
}

impl UpdateBook {
    /// The changes to write, with every localized text resolved for `locale`.
    pub fn changes_for(&self, locale: Option<&str>) -> (r: BookChanges)
        ensures
            resolved(r.title, self.title, locale_view(locale)),
            resolved(r.author, self.author, locale_view(locale)),
            resolved_list(r.genres, self.genres, locale_view(locale)),
            resolved_list(r.tags, self.tags, locale_view(locale)),
            r.rating == self.rating,
            resolved(r.status, self.status, locale_view(locale)),
            resolved(r.description, self.description, locale_view(locale)),
            resolved(r.my_thoughts, self.my_thoughts, locale_view(locale)),
            opt_pairs_view(r.links) == opt_pairs_view(self.links),
            r.cover_image == self.cover_image,
            r.explicit == self.explicit,
            r.color == self.color,
    {
        BookChanges {
            title: resolve(&self.title, locale),
            author: resolve(&self.author, locale),
            genres: resolve_list(&self.genres, locale),
            tags: resolve_list(&self.tags, locale),
            rating: self.rating,
            status: resolve(&self.status, locale),
            description: resolve(&self.description, locale),
            my_thoughts: resolve(&self.my_thoughts, locale),
            links: copy_links(&self.links),
            cover_image: copy_opt_string(&self.cover_image),
            explicit: self.explicit,
            color: copy_opt_string(&self.color),
        }
    }
}

} // verus!
