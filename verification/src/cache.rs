//! The MCP server's session cache of analysis results: at most ten paths,
//! entries expire after five minutes, and the oldest entry is evicted to make
//! room.
//!
//! Timestamps are readings of a monotonic clock in milliseconds, taken by the
//! caller; an entry is fresh while fewer than 300 whole seconds have passed.

use vstd::prelude::*;
use crate::text::{chars_eq, str_chars};

verus! {

/// Most paths the cache holds.
pub const MAX_CACHE_ENTRIES: usize = 10;

/// Seconds for which a cached result stays valid.
pub const CACHE_TTL_SECONDS: u64 = 300;

/// One cached analysis.
pub struct CacheEntry<R> {
    pub path: String,
    pub results: R,
    pub timestamp: u64,
}

/// The cache's entries, in insertion order.
struct CacheEntries<R> {
    entries: Vec<CacheEntry<R>>,
}

/// Session-level analysis cache keyed by path.
pub struct AnalysisCache<R> {
    inner: CacheEntries<R>,
}

/// Milliseconds elapsed from `timestamp` to `now` (zero if the clock reads
/// earlier, as a monotonic clock's elapsed time saturates).
pub open spec fn elapsed(timestamp: u64, now: u64) -> int {
    if now >= timestamp { now - timestamp } else { 0 }
}

/// Whether an entry stamped `timestamp` is still valid at `now`: fewer than
/// 300 whole seconds have elapsed.
pub open spec fn is_fresh(timestamp: u64, now: u64) -> bool {
    elapsed(timestamp, now) / 1000 < CACHE_TTL_SECONDS
}

/// Whether `k` names an entry with the smallest timestamp of `m`.
pub open spec fn is_oldest<R>(m: Map<Seq<char>, (R, u64)>, k: Seq<char>) -> bool {
    &&& m.contains_key(k)
    &&& forall|k2: Seq<char>| #[trigger] m.contains_key(k2) ==> m[k].1 <= m[k2].1
}

impl<R> View for CacheEntries<R> {
    type V = Map<Seq<char>, (R, u64)>;

    closed spec fn view(&self) -> Map<Seq<char>, (R, u64)> {
        self.as_map()
    }
}

impl<R> CacheEntries<R> {
    /// No two entries share a path, and there are at most ten.
    spec fn wf(&self) -> bool {
        &&& self.entries.len() <= MAX_CACHE_ENTRIES
        &&& self.unique()
    }

    spec fn size(&self) -> nat {
        self.entries.len() as nat
    }

    spec fn index_of(&self, k: Seq<char>) -> int {
        choose|i: int| 0 <= i < self.entries.len() && self.entries@[i].path@ == k
    }

    spec fn has(&self, k: Seq<char>) -> bool {
        exists|i: int| 0 <= i < self.entries.len() && self.entries@[i].path@ == k
    }

    spec fn as_map(&self) -> Map<Seq<char>, (R, u64)> {
        Map::new(
            |k: Seq<char>| self.has(k),
            |k: Seq<char>| (self.entries@[self.index_of(k)].results, self.entries@[self.index_of(k)].timestamp),
        )
    }

    fn new() -> (c: Self)
        ensures
            c.wf(),
            c.size() == 0,
            c@ == Map::<Seq<char>, (R, u64)>::empty(),
    {
        let c = CacheEntries { entries: Vec::new() };
        assert(c@ =~= Map::<Seq<char>, (R, u64)>::empty());
        c
    }

    proof fn lemma_size(&self)
        requires
            self.wf(),
        ensures
            self.size() <= MAX_CACHE_ENTRIES,
            self@.dom().finite(),
            self@.dom().len() == self.size(),
    {
        self.lemma_dom_len(self.entries.len() as int);
        assert(self@.dom() =~= self.keys_below(self.entries.len() as int));
    }

    spec fn keys_below(&self, n: int) -> Set<Seq<char>> {
        Set::new(|k: Seq<char>| exists|i: int| 0 <= i < n && self.entries@[i].path@ == k)
    }

    proof fn lemma_dom_len(&self, n: int)
        requires
            self.wf(),
            0 <= n <= self.entries.len(),
        ensures
            self.keys_below(n).finite(),
            self.keys_below(n).len() == n,
        decreases n,
    {
        if n == 0 {
            assert(self.keys_below(0) =~= Set::empty());
        } else {
            self.lemma_dom_len(n - 1);
            let k = self.entries@[n - 1].path@;
            assert(!self.keys_below(n - 1).contains(k));
            assert(self.keys_below(n) =~= self.keys_below(n - 1).insert(k));
        }
    }

    fn get_cached_analysis(&self, path: &str, now: u64) -> (res: Option<&R>)
        requires
            self.wf(),
        ensures
            res is Some <==> (self@.contains_key(path@) && is_fresh(self@[path@].1, now)),
            res matches Some(r) ==> *r == self@[path@].0,
    {
        let p = str_chars(path);
        match self.find_unique(&p) {
            Some(i) => {
                proof { self.lemma_index_of_unique(i as int); }
                let entry = &self.entries[i];
                if fresh_at(entry.timestamp, now) {
                    Some(&entry.results)
                } else {
                    None
                }
            },
            None => None,
        }
    }

    fn oldest_index(&self) -> (res: usize)
        requires
            self.wf(),
            self.entries.len() > 0,
        ensures
            res < self.entries.len(),
            forall|j: int| 0 <= j < self.entries.len() ==> self.entries@[res as int].timestamp <= #[trigger] self.entries@[j].timestamp,
    {
        let mut best: usize = 0;
        let mut i: usize = 1;
        while i < self.entries.len()
            invariant
                1 <= i <= self.entries.len(),
                best < i,
                forall|j: int| 0 <= j < i ==> self.entries@[best as int].timestamp <= #[trigger] self.entries@[j].timestamp,
            decreases self.entries.len() - i,
        {
            if self.entries[i].timestamp < self.entries[best].timestamp {
                best = i;
            }
            i += 1;
        }
        best
    }

    fn evict_oldest_cache_entry(&mut self) -> (res: Option<String>)
        requires
            old(self).wf(),
        ensures
            final(self).wf(),
            old(self).size() == 0 <==> res is None,
            res is None ==> final(self)@ == old(self)@,
            res matches Some(k) ==> is_oldest(old(self)@, k@) && final(self)@ == old(self)@.remove(k@),
            res is Some ==> final(self).size() == old(self).size() - 1,
    {
        if self.entries.len() == 0 {
            return None;
        }
        let ghost m0 = self@;
        let i = self.oldest_index();
        let ghost k = self.entries@[i as int].path@;
        proof {
            self.lemma_index_of_unique(i as int);
            assert forall|k2: Seq<char>| #[trigger] m0.contains_key(k2) implies m0[k].1 <= m0[k2].1 by {
                let j = self.index_of(k2);
                assert(0 <= j < self.entries.len());
            }
        }
        let ghost before = self.entries@;
        let removed = self.entries.remove(i);
        proof {
            assert forall|x: int, y: int|
                0 <= x < self.entries.len() && 0 <= y < self.entries.len() && x != y
                implies #[trigger] self.entries@[x].path@ != #[trigger] self.entries@[y].path@ by {
                let bx = if x < i { x } else { x + 1 };
                let by = if y < i { y } else { y + 1 };
                assert(self.entries@[x] == before[bx]);
                assert(self.entries@[y] == before[by]);
            }
            assert forall|k2: Seq<char>| self.has(k2) <==> (m0.contains_key(k2) && k2 != k) by {
                if self.has(k2) {
                    let x = choose|x: int| 0 <= x < self.entries.len() && self.entries@[x].path@ == k2;
                    let bx = if x < i { x } else { x + 1 };
                    assert(self.entries@[x] == before[bx]);
                    assert(before[bx].path@ == k2);
                    assert(bx != i);
                }
                if m0.contains_key(k2) && k2 != k {
                    let b = choose|b: int| 0 <= b < before.len() && before[b].path@ == k2;
                    assert(b != i);
                    let x = if b < i { b } else { b - 1 };
                    assert(self.entries@[x] == before[b]);
                }
            }
            assert forall|k2: Seq<char>| self.has(k2) implies self@[k2] == m0[k2] by {
                let x = self.index_of(k2);
                let bx = if x < i { x } else { x + 1 };
                assert(self.entries@[x] == before[bx]);
                assert(0 <= bx < before.len() && before[bx].path@ == k2);
                let b = choose|b: int| 0 <= b < before.len() && before[b].path@ == k2;
                if b != bx {
                    assert(before[b].path@ != before[bx].path@);
                }
            }
            assert(self@ =~= m0.remove(k));
        }
        Some(removed.path)
    }

    fn insert_analysis_into_cache(&mut self, path: String, results: R, now: u64)
        requires
            old(self).wf(),
        ensures
            final(self).wf(),
            old(self).size() < MAX_CACHE_ENTRIES
                ==> final(self)@ == old(self)@.insert(path@, (results, now)),
            old(self).size() >= MAX_CACHE_ENTRIES ==> exists|k: Seq<char>|
                is_oldest(old(self)@, k) && final(self)@ == old(self)@.remove(k).insert(path@, (results, now)),
    {
        let ghost m0 = self@;
        if self.entries.len() >= MAX_CACHE_ENTRIES {
            let evicted = self.evict_oldest_cache_entry();
            let ghost k = evicted->0@;
            self.insert_entry(path, results, now);
            assert(is_oldest(m0, k) && self@ == m0.remove(k).insert(path@, (results, now)));
        } else {
            self.insert_entry(path, results, now);
        }
    }

    fn contains(&self, path: &str) -> (res: bool)
        requires
            self.wf(),
        ensures
            res == self@.contains_key(path@),
    {
        let p = str_chars(path);
        match self.find_unique(&p) {
            Some(i) => {
                proof { self.lemma_index_of_unique(i as int); }
                true
            },
            None => false,
        }
    }

    fn insert_entry(&mut self, path: String, results: R, now: u64)
        requires
            old(self).unique(),
            old(self).entries.len() < MAX_CACHE_ENTRIES,
        ensures
            final(self).wf(),
            final(self)@ == old(self)@.insert(path@, (results, now)),
    {
        let ghost m0 = self@;
        let ghost before = self.entries@;
        let p = str_chars(path.as_str());
        let found = self.find_unique(&p);
        match found {
            Some(i) => {
                proof { self.lemma_index_of_unique(i as int); }
                self.entries.set(i, CacheEntry { path, results, timestamp: now });
                proof {
                    assert(self.entries@[i as int].path@ == p@);
                    assert forall|k2: Seq<char>| self.has(k2) <==> m0.insert(p@, (results, now)).contains_key(k2) by {
                        if k2 == p@ {
                            assert(self.entries@[i as int].path@ == k2);
                        }
                        if self.has(k2) {
                            let x = choose|x: int| 0 <= x < self.entries.len() && self.entries@[x].path@ == k2;
                            if x != i {
                                assert(self.entries@[x] == before[x]);
                            }
                        }
                        if m0.contains_key(k2) {
                            let b = choose|b: int| 0 <= b < before.len() && before[b].path@ == k2;
                            if b != i {
                                assert(self.entries@[b] == before[b]);
                            }
                        }
                    }
                    assert forall|k2: Seq<char>| self.has(k2) implies
                        self@[k2] == m0.insert(p@, (results, now))[k2] by {
                        self.lemma_index_of_unique(self.index_of(k2));
                        let x = self.index_of(k2);
                        if x != i {
                            assert(self.entries@[x] == before[x]);
                            assert(0 <= x < before.len() && before[x].path@ == k2);
                            let b = choose|b: int| 0 <= b < before.len() && before[b].path@ == k2;
                            if b != x {
                                assert(before[b].path@ != before[x].path@);
                            }
                        } else {
                            assert(k2 == p@);
                        }
                    }
                    assert(self@ =~= m0.insert(p@, (results, now)));
                }
            },
            None => {
                self.entries.push(CacheEntry { path, results, timestamp: now });
                proof {
                    let n = before.len() as int;
                    assert(self.entries@[n].path@ == p@);
                    assert forall|k2: Seq<char>| self.has(k2) <==> m0.insert(p@, (results, now)).contains_key(k2) by {
                        if self.has(k2) {
                            let x = choose|x: int| 0 <= x < self.entries.len() && self.entries@[x].path@ == k2;
                            if x != n {
                                assert(self.entries@[x] == before[x]);
                            }
                        }
                        if m0.contains_key(k2) {
                            let b = choose|b: int| 0 <= b < before.len() && before[b].path@ == k2;
                            assert(self.entries@[b] == before[b]);
                        }
                    }
                    assert forall|k2: Seq<char>| self.has(k2) implies
                        self@[k2] == m0.insert(p@, (results, now))[k2] by {
                        self.lemma_index_of_unique(self.index_of(k2));
                        let x = self.index_of(k2);
                        if x != n {
                            assert(self.entries@[x] == before[x]);
                            assert(0 <= x < before.len() && before[x].path@ == k2);
                            let b = choose|b: int| 0 <= b < before.len() && before[b].path@ == k2;
                            if b != x {
                                assert(before[b].path@ != before[x].path@);
                            }
                        }
                    }
                    assert(self@ =~= m0.insert(p@, (results, now)));
                }
            },
        }
    }

    spec fn unique(&self) -> bool {
        forall|i: int, j: int|
            0 <= i < self.entries.len() && 0 <= j < self.entries.len() && i != j
                ==> #[trigger] self.entries@[i].path@ != #[trigger] self.entries@[j].path@
    }

    proof fn lemma_index_of_unique(&self, i: int)
        requires
            self.unique(),
            0 <= i < self.entries.len(),
        ensures
            self.has(self.entries@[i].path@),
            self.index_of(self.entries@[i].path@) == i,
    {
        let k = self.entries@[i].path@;
        assert(self.has(k));
        let j = self.index_of(k);
        if j != i {
            assert(self.entries@[j].path@ != self.entries@[i].path@);
        }
    }

    fn find_unique(&self, path: &Vec<char>) -> (res: Option<usize>)
        ensures
            match res {
                Some(i) => i < self.entries.len() && self.entries@[i as int].path@ == path@,
                None => !self.has(path@),
            },
    {
        let mut i: usize = 0;
        while i < self.entries.len()
            invariant
                0 <= i <= self.entries.len(),
                forall|j: int| 0 <= j < i ==> self.entries@[j].path@ != path@,
            decreases self.entries.len() - i,
        {
            let cs = str_chars(self.entries[i].path.as_str());
            if chars_eq(&cs, path) {
                return Some(i);
            }
            i += 1;
        }
        None
    }
}

/// Whether an entry stamped `timestamp` is still valid at `now`.
fn fresh_at(timestamp: u64, now: u64) -> (res: bool)
    ensures
        res == is_fresh(timestamp, now),
{
    let age = if now >= timestamp { now - timestamp } else { 0 };
    age / 1000 < CACHE_TTL_SECONDS
}

impl<R> AnalysisCache<R> {
    /// No two entries share a path, and there are at most ten.
    #[verifier::type_invariant]
    spec fn inv(self) -> bool {
        self.inner.wf()
    }

    /// The cache as a map from path to (results, timestamp).
    pub closed spec fn view(&self) -> Map<Seq<char>, (R, u64)> {
        self.inner.as_map()
    }

    /// The number of cached paths.
    pub open spec fn size(&self) -> nat {
        self@.dom().len()
    }

    /// An empty cache.
    pub fn new() -> (c: Self)
        ensures
            c@ == Map::<Seq<char>, (R, u64)>::empty(),
    {
        AnalysisCache { inner: CacheEntries::new() }
    }

    /// The number of cached paths: never more than ten.
    pub fn len(&self) -> (n: usize)
        ensures
            n == self.size(),
            n <= MAX_CACHE_ENTRIES,
            self@.dom().finite(),
    {
        proof {
            use_type_invariant(self);
            self.inner.lemma_size();
        }
        self.inner.entries.len()
    }

    /// Checks if a cache entry stamped `timestamp` (in milliseconds) is still
    /// valid at `now`: under five minutes old.
    pub fn cache_entry_is_fresh(timestamp: u64, now: u64) -> (res: bool)
        ensures
            res == is_fresh(timestamp, now),
    {
        fresh_at(timestamp, now)
    }

    /// Cached results for `path` if present and still valid at `now`.
    pub fn get_cached_analysis(&self, path: &str, now: u64) -> (res: Option<&R>)
        ensures
            res is Some <==> (self@.contains_key(path@) && is_fresh(self@[path@].1, now)),
            res matches Some(r) ==> *r == self@[path@].0,
    {
        proof { use_type_invariant(self); }
        self.inner.get_cached_analysis(path, now)
    }

    /// Whether `path` is cached (fresh or not).
    pub fn contains(&self, path: &str) -> (res: bool)
        ensures
            res == self@.contains_key(path@),
    {
        proof { use_type_invariant(self); }
        self.inner.contains(path)
    }

    /// Removes an entry with the oldest timestamp and returns its path;
    /// `None` when the cache is empty.
    pub fn evict_oldest_cache_entry(&mut self) -> (res: Option<String>)
        ensures
            old(self).size() == 0 <==> res is None,
            res is None ==> final(self)@ == old(self)@,
            res matches Some(k) ==> is_oldest(old(self)@, k@) && final(self)@ == old(self)@.remove(k@),
            final(self).size() <= MAX_CACHE_ENTRIES,
    {
        proof {
            use_type_invariant(&*self);
            self.inner.lemma_size();
        }
        let mut inner = CacheEntries::new();
        std::mem::swap(&mut inner, &mut self.inner);
        let res = inner.evict_oldest_cache_entry();
        proof { inner.lemma_size(); }
        self.inner = inner;
        res
    }

    /// Inserts analysis results for a path at time `now`. When the cache is
    /// full, an entry with the oldest timestamp is evicted first.
    pub fn insert_analysis_into_cache(&mut self, path: String, results: R, now: u64)
        ensures
            old(self).size() < MAX_CACHE_ENTRIES
                ==> final(self)@ == old(self)@.insert(path@, (results, now)),
            old(self).size() >= MAX_CACHE_ENTRIES ==> exists|k: Seq<char>|
                is_oldest(old(self)@, k) && final(self)@ == old(self)@.remove(k).insert(path@, (results, now)),
            final(self).size() <= MAX_CACHE_ENTRIES,
    {
        proof {
            use_type_invariant(&*self);
            self.inner.lemma_size();
        }
        let mut inner = CacheEntries::new();
        std::mem::swap(&mut inner, &mut self.inner);
        inner.insert_analysis_into_cache(path, results, now);
        proof { inner.lemma_size(); }
        self.inner = inner;
    }
}

/// What one `cache_analysis` call leaves behind, as its contract states it:
/// the new entry, after at most one eviction of an oldest entry when full.
pub open spec fn cache_step<R>(before: Map<Seq<char>, (R, u64)>, full: bool, after: Map<Seq<char>, (R, u64)>, path: Seq<char>, results: R, now: u64) -> bool {
    if !full {
        after == before.insert(path, (results, now))
    } else {
        exists|k: Seq<char>| is_oldest(before, k) && after == before.remove(k).insert(path, (results, now))
    }
}

/// A read right after a write returns what was written, and every other path
/// that was cached stays cached with its results, except one evicted oldest
/// entry when the cache was full.
pub proof fn lemma_cache_read_after_write<R>(
    before: Map<Seq<char>, (R, u64)>,
    full: bool,
    after: Map<Seq<char>, (R, u64)>,
    path: Seq<char>,
    results: R,
    now: u64,
)
    requires
        cache_step(before, full, after, path, results, now),
    ensures
        after.contains_key(path),
        after[path] == (results, now),
        is_fresh(after[path].1, now),
        !full ==> forall|k: Seq<char>| #[trigger] before.contains_key(k) && k != path ==> after.contains_key(k) && after[k] == before[k],
        full ==> forall|k: Seq<char>| #[trigger] before.contains_key(k) && k != path && !is_oldest(before, k)
            ==> after.contains_key(k) && after[k] == before[k],
{
    if full {
        let e = choose|k: Seq<char>| is_oldest(before, k) && after == before.remove(k).insert(path, (results, now));
        assert forall|k: Seq<char>| #[trigger] before.contains_key(k) && k != path && !is_oldest(before, k)
            implies after.contains_key(k) && after[k] == before[k] by {
            assert(k != e);
        }
    }
}

} // verus!
