//! A time-bounded cache from key digest to credential record.
//!
//! Time is a caller-supplied monotonic reading in milliseconds. An entry is
//! served only while it is younger than [`CACHE_TTL_MS`]; stale entries are
//! skipped on read and dropped by an explicit sweep, [`ApiKeyCache::cleanup_expired`],
//! which the caller runs periodically. Sharing between threads is the caller's
//! concern: readers take `&self`, writers `&mut self`.

use vstd::prelude::*;

use crate::models::ApiKey;

verus! {

/// How long a cached record is trusted: seven days, in milliseconds.
pub const CACHE_TTL_MS: u64 = 604_800_000;

/// Whether an entry cached at `cached_at` may still be served at `now`.
/// A reading earlier than the insertion counts as age zero.
pub open spec fn entry_fresh(cached_at: u64, now: u64) -> bool {
    now - cached_at < CACHE_TTL_MS
}

/// What the cache serves for a digest at a given time.
pub open spec fn cached_record(m: Map<Seq<char>, (ApiKey, u64)>, h: Seq<char>, now: u64) -> Option<
    ApiKey,
> {
    if m.contains_key(h) && entry_fresh(m[h].1, now) {
        Some(m[h].0)
    } else {
        None
    }
}

/// The entries of `m` that are still fresh at `now`.
pub open spec fn fresh_entries(m: Map<Seq<char>, (ApiKey, u64)>, now: u64) -> Map<
    Seq<char>,
    (ApiKey, u64),
> {
    m.restrict(m.dom().filter(|k: Seq<char>| entry_fresh(m[k].1, now)))
}

struct CacheEntry {
    key_hash: String,
    api_key: ApiKey,
    cached_at: u64,
}

/// `s` holds each key of `m` exactly once, with its record and insertion time.
spec fn models(s: Seq<CacheEntry>, m: Map<Seq<char>, (ApiKey, u64)>) -> bool {
    &&& forall|i: int, j: int|
        0 <= i < j < s.len() ==> (#[trigger] s[i]).key_hash@ != (#[trigger] s[j]).key_hash@
    &&& forall|i: int|
        0 <= i < s.len() ==> #[trigger] m.contains_key(s[i].key_hash@) && m[s[i].key_hash@] == (
            s[i].api_key,
            s[i].cached_at,
        )
    &&& forall|k: Seq<char>|
        #[trigger] m.contains_key(k) ==> exists|i: int| 0 <= i < s.len() && s[i].key_hash@ == k
}

/// The cache of validated credentials, keyed by key digest.
pub struct ApiKeyCache {
    entries: Vec<CacheEntry>,
    contents: Ghost<Map<Seq<char>, (ApiKey, u64)>>,
}

impl View for ApiKeyCache {
    type V = Map<Seq<char>, (ApiKey, u64)>;

    closed spec fn view(&self) -> Self::V {
        self.contents@
    }
}

impl ApiKeyCache {
    /// The cache's internal consistency.
    pub closed spec fn wf(&self) -> bool {
        models(self.entries@, self.contents@)
    }

    /// An empty cache.
    pub fn new() -> (r: Self)
        ensures
            r.wf(),
            r@ == Map::<Seq<char>, (ApiKey, u64)>::empty(),
    {
        ApiKeyCache { entries: Vec::new(), contents: Ghost(Map::empty()) }
    }

    /// The position of the entry for `key_hash`, if any.
    fn position(&self, key_hash: &String) -> (r: Option<usize>)
        requires
            self.wf(),
        ensures
            match r {
                Some(i) => i < self.entries@.len() && self.entries@[i as int].key_hash@
                    == key_hash@,
                None => !self@.contains_key(key_hash@),
            },
    {
        let mut i: usize = 0;
        while i < self.entries.len()
            invariant
                self.wf(),
                i <= self.entries@.len(),
                forall|j: int| 0 <= j < i ==> self.entries@[j].key_hash@ != key_hash@,
            decreases self.entries@.len() - i,
        {
            if self.entries[i].key_hash == *key_hash {
                return Some(i);
            }
            i = i + 1;
        }
        None
    }

    /// The record cached for `key_hash`, if it is present and fresh at `now`.
    /// A stale entry is not removed here.
    pub fn get(&self, key_hash: &str, now: u64) -> (r: Option<ApiKey>)
        requires
            self.wf(),
        ensures
            r == cached_record(self@, key_hash@, now),
    {
        let key = key_hash.to_owned();
        match self.position(&key) {
            Some(i) => {
                assert(self@.contains_key(self.entries@[i as int].key_hash@));
                let entry = &self.entries[i];
                if now < entry.cached_at || now - entry.cached_at < CACHE_TTL_MS {
                    Some(entry.api_key.copied())
                } else {
                    None
                }
            },
            None => None,
        }
    }

    /// Drops the entry for `key_hash`; nothing happens if there is none.
    pub fn remove(&mut self, key_hash: &str)
        requires
            old(self).wf(),
        ensures
            final(self).wf(),
            final(self)@ == old(self)@.remove(key_hash@),
    {
        let key = key_hash.to_owned();
        match self.position(&key) {
            Some(i) => {
                let ghost s = self.entries@;
                let ghost m = self.contents@;
                self.entries.remove(i);
                self.contents = Ghost(m.remove(key@));
                assert forall|a: int, b: int|
                    0 <= a < b < self.entries@.len() implies (#[trigger] self.entries@[a]).key_hash@
                    != (#[trigger] self.entries@[b]).key_hash@ by {
                    let a0 = if a < i { a } else { a + 1 };
                    let b0 = if b < i { b } else { b + 1 };
                    assert(self.entries@[a] == s[a0] && self.entries@[b] == s[b0]);
                }
                assert forall|a: int| 0 <= a < self.entries@.len() implies #[trigger] self.contents@.contains_key(
                    self.entries@[a].key_hash@,
                ) && self.contents@[self.entries@[a].key_hash@] == (
                    self.entries@[a].api_key,
                    self.entries@[a].cached_at,
                ) by {
                    let a0 = if a < i { a } else { a + 1 };
                    assert(self.entries@[a] == s[a0]);
                    assert(m.contains_key(s[a0].key_hash@));
                    if a0 < i {
                        assert(s[a0].key_hash@ != s[i as int].key_hash@);
                    } else {
                        assert(s[i as int].key_hash@ != s[a0].key_hash@);
                    }
                }
                assert forall|k: Seq<char>| #[trigger] self.contents@.contains_key(k) implies exists|
                    a: int,
                | 0 <= a < self.entries@.len() && self.entries@[a].key_hash@ == k by {
                    let j = choose|j: int| 0 <= j < s.len() && s[j].key_hash@ == k;
                    assert(j != i);
                    let a = if j < i { j } else { j - 1 };
                    assert(self.entries@[a] == s[j]);
                }
            },
            None => {
                assert(self.contents@.remove(key@) =~= self.contents@);
            },
        }
    }

    /// Caches `api_key` under `key_hash` as of `now`, replacing any entry for
    /// that digest.
    pub fn insert(&mut self, key_hash: String, api_key: ApiKey, now: u64)
        requires
            old(self).wf(),
        ensures
            final(self).wf(),
            final(self)@ == old(self)@.insert(key_hash@, (api_key, now)),
    {
        self.remove(key_hash.as_str());
        let ghost s = self.entries@;
        let ghost m = self.contents@;
        let ghost k = key_hash@;
        self.entries.push(CacheEntry { key_hash, api_key, cached_at: now });
        self.contents = Ghost(m.insert(k, (api_key, now)));
        assert forall|a: int, b: int|
            0 <= a < b < self.entries@.len() implies (#[trigger] self.entries@[a]).key_hash@
            != (#[trigger] self.entries@[b]).key_hash@ by {
            assert(self.entries@[a] == s[a]);
            if b == s.len() {
                assert(m.contains_key(s[a].key_hash@));
            } else {
                assert(self.entries@[b] == s[b]);
            }
        }
        assert forall|a: int| 0 <= a < self.entries@.len() implies #[trigger] self.contents@.contains_key(
            self.entries@[a].key_hash@,
        ) && self.contents@[self.entries@[a].key_hash@] == (
            self.entries@[a].api_key,
            self.entries@[a].cached_at,
        ) by {
            if a < s.len() {
                assert(self.entries@[a] == s[a]);
                assert(m.contains_key(s[a].key_hash@));
            }
        }
        assert forall|j: Seq<char>| #[trigger] self.contents@.contains_key(j) implies exists|a: int|
            0 <= a < self.entries@.len() && self.entries@[a].key_hash@ == j by {
            if j == k {
                assert(self.entries@[s.len() as int].key_hash@ == j);
            } else {
                let a = choose|a: int| 0 <= a < s.len() && s[a].key_hash@ == j;
                assert(self.entries@[a] == s[a]);
            }
        }
    }

    /// Drops every entry that is no longer fresh at `now`.
    pub fn cleanup_expired(&mut self, now: u64)
        requires
            old(self).wf(),
        ensures
            final(self).wf(),
            final(self)@ == fresh_entries(old(self)@, now),
    {
        let ghost s = self.entries@;
        let ghost m = self.contents@;
        let mut old_entries: Vec<CacheEntry> = Vec::new();
        std::mem::swap(&mut old_entries, &mut self.entries);
        let mut kept: Vec<CacheEntry> = Vec::new();
        let ghost mut m2: Map<Seq<char>, (ApiKey, u64)> = Map::empty();
        while old_entries.len() > 0
            invariant
                models(s, m),
                old_entries@.len() <= s.len(),
                forall|j: int| 0 <= j < old_entries@.len() ==> #[trigger] old_entries@[j] == s[j],
                models(kept@, m2),
                forall|k: Seq<char>| #[trigger] m2.contains_key(k) ==> m.contains_key(k)
                    && entry_fresh(m[k].1, now) && m2[k] == m[k] && exists|j: int|
                    old_entries@.len() <= j < s.len() && s[j].key_hash@ == k,
                forall|j: int|
                    old_entries@.len() <= j < s.len() && entry_fresh(#[trigger] s[j].cached_at, now)
                        ==> m2.contains_key(s[j].key_hash@),
            decreases old_entries@.len(),
        {
            let ghost n = old_entries@.len() - 1;
            let entry = old_entries.pop().unwrap();
            assert(entry == s[n]);
            if now < entry.cached_at || now - entry.cached_at < CACHE_TTL_MS {
                let ghost ks = kept@;
                let ghost m1 = m2;
                let ghost k = entry.key_hash@;
                assert(m.contains_key(s[n].key_hash@));
                assert(!m1.contains_key(k)) by {
                    if m1.contains_key(k) {
                        let j = choose|j: int| n < j < s.len() && s[j].key_hash@ == k;
                        assert(s[n].key_hash@ != s[j].key_hash@);
                    }
                }
                proof {
                    m2 = m1.insert(k, (entry.api_key, entry.cached_at));
                }
                kept.push(entry);
                assert forall|a: int, b: int|
                    0 <= a < b < kept@.len() implies (#[trigger] kept@[a]).key_hash@
                    != (#[trigger] kept@[b]).key_hash@ by {
                    assert(kept@[a] == ks[a]);
                    if b == ks.len() {
                        assert(m1.contains_key(ks[a].key_hash@));
                    } else {
                        assert(kept@[b] == ks[b]);
                    }
                }
                assert forall|a: int| 0 <= a < kept@.len() implies #[trigger] m2.contains_key(
                    kept@[a].key_hash@,
                ) && m2[kept@[a].key_hash@] == (kept@[a].api_key, kept@[a].cached_at) by {
                    if a < ks.len() {
                        assert(kept@[a] == ks[a]);
                        assert(m1.contains_key(ks[a].key_hash@));
                    }
                }
                assert forall|j: Seq<char>| #[trigger] m2.contains_key(j) implies exists|a: int|
                    0 <= a < kept@.len() && kept@[a].key_hash@ == j by {
                    if j == k {
                        assert(kept@[ks.len() as int].key_hash@ == j);
                    } else {
                        let a = choose|a: int| 0 <= a < ks.len() && ks[a].key_hash@ == j;
                        assert(kept@[a] == ks[a]);
                    }
                }
                assert forall|j: Seq<char>| #[trigger] m2.contains_key(j) implies m.contains_key(j)
                    && entry_fresh(m[j].1, now) && m2[j] == m[j] && exists|i: int|
                    n <= i < s.len() && s[i].key_hash@ == j by {
                    if j != k {
                        let i = choose|i: int| n < i < s.len() && s[i].key_hash@ == j;
                        assert(n <= i < s.len() && s[i].key_hash@ == j);
                    } else {
                        assert(s[n as int].key_hash@ == j);
                    }
                }
            } else {
                assert forall|j: Seq<char>| #[trigger] m2.contains_key(j) implies m.contains_key(j)
                    && entry_fresh(m[j].1, now) && m2[j] == m[j] && exists|i: int|
                    n <= i < s.len() && s[i].key_hash@ == j by {
                    let i = choose|i: int| n < i < s.len() && s[i].key_hash@ == j;
                    assert(n <= i < s.len() && s[i].key_hash@ == j);
                }
            }
        }
        self.entries = kept;
        self.contents = Ghost(m2);
        assert(m2 =~= fresh_entries(m, now)) by {
            assert forall|k: Seq<char>| #[trigger] fresh_entries(m, now).contains_key(k) implies m2.contains_key(k) by {
                let j = choose|j: int| 0 <= j < s.len() && s[j].key_hash@ == k;
                assert(m[s[j].key_hash@] == (s[j].api_key, s[j].cached_at));
            }
        }
    }
}

/// A sweep at `now` drops an entry cached a full TTL or more before `now`
/// and keeps one cached at `now`; a record cached at `now` is served at `now`.
pub proof fn lemma_sweep_and_serve(
    m: Map<Seq<char>, (ApiKey, u64)>,
    stale_hash: Seq<char>,
    stale: ApiKey,
    then: u64,
    new_hash: Seq<char>,
    record: ApiKey,
    now: u64,
)
    requires
        stale_hash != new_hash,
        now - then >= CACHE_TTL_MS,
    ensures
        ({
            let swept = fresh_entries(m.insert(stale_hash, (stale, then)).insert(new_hash, (record, now)), now);
            &&& !swept.contains_key(stale_hash)
            &&& swept.contains_key(new_hash)
            &&& swept[new_hash] == (record, now)
        }),
        cached_record(m.insert(new_hash, (record, now)), new_hash, now) == Some(record),
{
}

} // verus!
