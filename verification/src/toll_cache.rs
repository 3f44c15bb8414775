//! In-memory cache of toll stations keyed by `toll_id`, with a time-to-live per entry, a bound on
//! the number of entries (least recently used entries are evicted first) and hit/miss/eviction
//! counters.

use vstd::prelude::*;
use crate::clock::timestamp_ms;
use crate::keyed::{
    keep_map, lemma_keep_map, restrict_map, distinct_keys, lemma_seq_to_map_contents, lemma_seq_to_map_push, lemma_seq_to_map_remove,
    lemma_seq_to_map_update, seq_to_map,
};
use crate::toll_types::TOLL;

verus! {

/// A cached station with the time it was stored, the time it was last read and how often it
/// was read.
#[derive(Debug)]
pub struct TollCacheEntry {
    pub toll: TOLL,
    pub created_at: i64,
    pub last_access: i64,
    pub access_count: u64,
}

/// Counters returned by [`TollCache::get_stats`].
#[derive(Debug, Clone, Default)]
pub struct TollCacheStats {
    pub total_entries: usize,
    pub hits: u64,
    pub misses: u64,
    pub evictions: u64,
}

/// The key of a cache entry.
pub open spec fn toll_key(e: TollCacheEntry) -> i32 {
    e.toll.toll_id
}

/// `x + 1`, wrapping to 0 past `u64::MAX` (an atomic `fetch_add(1)`).
pub open spec fn wrap_inc(x: u64) -> u64 {
    if x < u64::MAX {
        (x + 1) as u64
    } else {
        0
    }
}

/// `x + 1`, wrapping to 0 past `u64::MAX`.
pub fn wrapping_inc(x: u64) -> (r: u64)
    ensures
        r == wrap_inc(x),
{
    if x < u64::MAX {
        x + 1
    } else {
        0
    }
}

/// Whether an entry stored at `created_at` is still live at `now` under time-to-live `ttl`.
pub open spec fn is_fresh(created_at: i64, now: i64, ttl: i64) -> bool {
    now - created_at < ttl
}

/// Whether an entry stored at `created_at` is still live at `now` under time-to-live `ttl`.
pub fn fresh(created_at: i64, now: i64, ttl: i64) -> (r: bool)
    ensures
        r == is_fresh(created_at, now, ttl),
{
    (now as i128) - (created_at as i128) < (ttl as i128)
}

/// `after` is `before` with some keys dropped, `n` of them, none of which was read more
/// recently than any key that stays.
pub open spec fn lru_evicted(before: Map<i32, TollCacheEntry>, after: Map<i32, TollCacheEntry>, n: nat) -> bool {
    &&& after.dom().subset_of(before.dom())
    &&& forall|k: i32| #[trigger] after.contains_key(k) ==> after[k] == before[k]
    &&& after.len() + n == before.len()
    &&& forall|k1: i32, k2: i32|
        before.contains_key(k1) && !after.contains_key(k1) && after.contains_key(k2) ==> before[k1].last_access
            <= before[k2].last_access
}

/// TOLL memory cache: `toll_id` -> TOLL.
pub struct TollCache {
    data: Vec<TollCacheEntry>,
    default_ttl_ms: i64,
    max_total_entries: usize,
    hits: u64,
    misses: u64,
    evictions: u64,
}

impl View for TollCache {
    type V = Map<i32, TollCacheEntry>;

    closed spec fn view(&self) -> Map<i32, TollCacheEntry> {
        seq_to_map(self.data@, |e: TollCacheEntry| toll_key(e))
    }
}

/// Distinct station ids, as many as the entries and each of an entry, name every entry.
proof fn lemma_ids_cover(r: Seq<TOLL>, m: Map<i32, TollCacheEntry>)
    requires
        m.dom().finite(),
        r.len() == m.len(),
        forall|i: int| 0 <= i < r.len() ==> #[trigger] m.contains_key(r[i].toll_id),
        forall|i: int, j: int| 0 <= i < r.len() && 0 <= j < r.len() && i != j ==> r[i].toll_id != r[j].toll_id,
    ensures
        forall|k: i32| #[trigger] m.contains_key(k) ==> exists|i: int| 0 <= i < r.len() && r[i].toll_id == k,
{
    let ids = r.map_values(|t: TOLL| t.toll_id);
    assert(ids.no_duplicates()) by {
        assert forall|i: int, j: int| 0 <= i < ids.len() && 0 <= j < ids.len() && i != j implies ids[i] != ids[j] by {
            assert(ids[i] == r[i].toll_id && ids[j] == r[j].toll_id);
        }
    }
    ids.unique_seq_to_set();
    assert(ids.to_set().subset_of(m.dom())) by {
        assert forall|k: i32| ids.to_set().contains(k) implies m.dom().contains(k) by {
            let i = choose|i: int| 0 <= i < ids.len() && ids[i] == k;
            assert(m.contains_key(r[i].toll_id));
        }
    }
    vstd::seq_lib::seq_to_set_is_finite(ids);
    vstd::set_lib::lemma_subset_equality(ids.to_set(), m.dom());
    assert forall|k: i32| #[trigger] m.contains_key(k) implies exists|i: int| 0 <= i < r.len() && r[i].toll_id == k by {
        assert(ids.to_set().contains(k));
        let i = choose|i: int| 0 <= i < ids.len() && ids[i] == k;
        assert(r[i].toll_id == k);
    }
}

impl TollCache {
    /// The cache's internal consistency: one entry per station.
    pub closed spec fn wf(&self) -> bool {
        &&& distinct_keys(self.data@, |e: TollCacheEntry| toll_key(e))
        &&& self@.dom().finite()
    }

    /// Time-to-live of an entry, in milliseconds.
    pub closed spec fn ttl(&self) -> i64 {
        self.default_ttl_ms
    }

    /// Maximum number of entries.
    pub closed spec fn capacity(&self) -> usize {
        self.max_total_entries
    }

    /// Number of reads that found a live entry.
    pub closed spec fn hit_count(&self) -> u64 {
        self.hits
    }

    /// Number of reads that found no live entry.
    pub closed spec fn miss_count(&self) -> u64 {
        self.misses
    }

    /// Number of entries evicted for lack of room.
    pub closed spec fn eviction_count(&self) -> u64 {
        self.evictions
    }

    proof fn lemma_view(&self)
        requires
            distinct_keys(self.data@, |e: TollCacheEntry| toll_key(e)),
        ensures
            self@.dom().finite(),
            self@.len() == self.data@.len(),
            forall|k: i32|
                self@.contains_key(k) <==> exists|i: int|
                    0 <= i < self.data@.len() && toll_key(self.data@[i]) == k,
            forall|i: int|
                0 <= i < self.data@.len() ==> #[trigger] self@[toll_key(self.data@[i])]
                    == self.data@[i],
    {
        lemma_seq_to_map_contents(self.data@, |e: TollCacheEntry| toll_key(e));
        assert forall|k: i32| self@.contains_key(k) <==> exists|i: int|
            0 <= i < self.data@.len() && toll_key(self.data@[i]) == k by {
            assert(forall|i: int| #[trigger] toll_key(self.data@[i]) == (|e: TollCacheEntry| toll_key(e))(self.data@[i]));
        }
    }

    /// A cache with time-to-live one hour and room for 1000 stations.
    pub fn new() -> (r: TollCache)
        ensures
            r.wf(),
            r@ == Map::<i32, TollCacheEntry>::empty(),
            r.ttl() == 3_600_000,
            r.capacity() == 1000,
            r.hit_count() == 0 && r.miss_count() == 0 && r.eviction_count() == 0,
    {
        Self::with_config(3_600_000, 1000)
    }

    /// An empty cache with the given time-to-live and capacity.
    pub fn with_config(default_ttl_ms: i64, max_total_entries: usize) -> (r: TollCache)
        ensures
            r.wf(),
            r@ == Map::<i32, TollCacheEntry>::empty(),
            r.ttl() == default_ttl_ms,
            r.capacity() == max_total_entries,
            r.hit_count() == 0 && r.miss_count() == 0 && r.eviction_count() == 0,
    {
        let r = TollCache {
            data: Vec::new(),
            default_ttl_ms,
            max_total_entries,
            hits: 0,
            misses: 0,
            evictions: 0,
        };
        proof {
            r.lemma_view();
        }
        r
    }

    /// Position of the entry for `toll_id`, if any.
    fn find(&self, toll_id: i32) -> (r: Option<usize>)
        requires
            self.wf(),
        ensures
            match r {
                Some(i) => i < self.data@.len() && toll_key(self.data@[i as int]) == toll_id
                    && self@.contains_key(toll_id) && self@[toll_id] == self.data@[i as int],
                None => !self@.contains_key(toll_id),
            },
    {
        proof {
            self.lemma_view();
        }
        let mut i: usize = 0;
        while i < self.data.len()
            invariant
                self.wf(),
                i <= self.data@.len(),
                forall|j: int| 0 <= j < i ==> toll_key(self.data@[j]) != toll_id,
            decreases self.data@.len() - i,
        {
            if self.data[i].toll.toll_id == toll_id {
                proof {
                    self.lemma_view();
                    assert(self@[toll_key(self.data@[i as int])] == self.data@[i as int]);
                }
                return Some(i);
            }
            i = i + 1;
        }
        None
    }

    /// Evicts least recently read entries until at most `capacity()` remain.
    fn evict_if_needed(&mut self)
        requires
            old(self).wf(),
        ensures
            final(self).wf(),
            final(self).default_ttl_ms == old(self).default_ttl_ms,
            final(self).max_total_entries == old(self).max_total_entries,
            final(self).hits == old(self).hits,
            final(self).misses == old(self).misses,
            old(self)@.len() <= old(self).max_total_entries ==> final(self)@ == old(self)@
                && final(self).evictions == old(self).evictions,
            old(self)@.len() > old(self).max_total_entries ==> final(self)@.len()
                == old(self).max_total_entries,
            lru_evicted(old(self)@, final(self)@, (old(self)@.len() - final(self)@.len()) as nat),
            final(self).evictions == wrap_add(old(self).evictions, (old(self)@.len() - final(self)@.len()) as nat),
    {
        proof {
            self.lemma_view();
        }
        let ghost before = self@;
        let ghost ev0 = self.evictions;
        if self.data.len() <= self.max_total_entries {
            proof {
                assert(before.len() - self@.len() == 0);
            }
            return;
        }
        let to_remove = self.data.len() - self.max_total_entries;
        let mut r: usize = 0;
        while r < to_remove
            invariant
                self.wf(),
                r <= to_remove,
                to_remove == before.len() - self.max_total_entries,
                self.data@.len() == before.len() - r,
                self@.dom().subset_of(before.dom()),
                forall|k: i32| #[trigger] self@.contains_key(k) ==> self@[k] == before[k],
                forall|k1: i32, k2: i32|
                    before.contains_key(k1) && !self@.contains_key(k1) && self@.contains_key(k2)
                        ==> before[k1].last_access <= before[k2].last_access,
                self.evictions == wrap_add(ev0, r as nat),
                self.default_ttl_ms == old(self).default_ttl_ms,
                self.max_total_entries == old(self).max_total_entries,
                self.hits == old(self).hits,
                self.misses == old(self).misses,
                before == old(self)@,
                before.dom().finite(),
                ev0 == old(self).evictions,
            decreases to_remove - r,
        {
            proof {
                self.lemma_view();
            }
            let mut best: usize = 0;
            let mut j: usize = 1;
            while j < self.data.len()
                invariant
                    0 < self.data@.len(),
                    best < j <= self.data@.len(),
                    forall|q: int| 0 <= q < j ==> self.data@[best as int].last_access
                        <= self.data@[q].last_access,
                decreases self.data@.len() - j,
            {
                if self.data[j].last_access < self.data[best].last_access {
                    best = j;
                }
                j = j + 1;
            }
            let ghost old_data = self.data@;
            let ghost old_map = self@;
            let ghost k0 = toll_key(old_data[best as int]);
            proof {
                lemma_seq_to_map_remove(old_data, |e: TollCacheEntry| toll_key(e), best as int);
            }
            self.data.remove(best);
            self.evictions = wrapping_inc(self.evictions);
            proof {
                lemma_wrap_add_step(ev0, r as nat);
                self.lemma_view();
                assert(self@ == old_map.remove(k0));
                assert forall|k1: i32, k2: i32|
                    before.contains_key(k1) && !self@.contains_key(k1) && self@.contains_key(k2)
                        implies before[k1].last_access <= before[k2].last_access by {
                    if k1 == k0 {
                        let q = choose|q: int| 0 <= q < self.data@.len() && toll_key(self.data@[q]) == k2;
                        let q2 = if q < best { q } else { q + 1 };
                        assert(self.data@[q] == old_data[q2]);
                        assert(old_map[k2] == old_data[q2]);
                    }
                }
            }
            r = r + 1;
        }
        proof {
            self.lemma_view();
            assert(self@.len() == before.len() - to_remove);
        }
    }
}


/// The entry stored for `toll` at time `now`.
pub open spec fn new_entry(toll: TOLL, now: i64) -> TollCacheEntry {
    TollCacheEntry { toll, created_at: now, last_access: now, access_count: 0 }
}

/// `e` after a read at time `now`.
pub open spec fn touched(e: TollCacheEntry, now: i64) -> TollCacheEntry {
    TollCacheEntry { last_access: now, access_count: wrap_inc(e.access_count), ..e }
}

/// What `put` leaves: the station stored (replacing any entry with its id), then least recently
/// read entries evicted down to the capacity.
pub open spec fn put_post(old: TollCache, new: TollCache, toll: TOLL, now: i64) -> bool {
    let m1 = old@.insert(toll.toll_id, new_entry(toll, now));
    &&& new.wf()
    &&& new.ttl() == old.ttl() && new.capacity() == old.capacity()
    &&& new.hit_count() == old.hit_count() && new.miss_count() == old.miss_count()
    &&& new@.len() == if m1.len() <= old.capacity() { m1.len() } else { old.capacity() as nat }
    &&& lru_evicted(m1, new@, (m1.len() - new@.len()) as nat)
    &&& new.eviction_count() == wrap_add(old.eviction_count(), (m1.len() - new@.len()) as nat)
}

/// What `get` answers and leaves: a live entry is returned and marked read (a hit); an expired
/// entry is dropped and, like a missing one, counted as a miss.
pub open spec fn get_post(old: TollCache, new: TollCache, toll_id: i32, now: i64, r: Option<TOLL>) -> bool {
    &&& new.wf()
    &&& new.ttl() == old.ttl() && new.capacity() == old.capacity()
    &&& new.eviction_count() == old.eviction_count()
    &&& if !old@.contains_key(toll_id) {
        &&& r is None
        &&& new@ == old@
        &&& new.miss_count() == wrap_inc(old.miss_count()) && new.hit_count() == old.hit_count()
    } else if is_fresh(old@[toll_id].created_at, now, old.ttl()) {
        &&& r == Some(old@[toll_id].toll)
        &&& new@ == old@.insert(toll_id, touched(old@[toll_id], now))
        &&& new.hit_count() == wrap_inc(old.hit_count()) && new.miss_count() == old.miss_count()
    } else {
        &&& r is None
        &&& new@ == old@.remove(toll_id)
        &&& new.miss_count() == wrap_inc(old.miss_count()) && new.hit_count() == old.hit_count()
    }
}

/// What a lookup by station code at `now` returns and leaves: a station live at `now` with
/// that code, marked read (a hit); or, where no live station has that code, `None` (a miss),
/// the entries unchanged. Expired entries are kept either way.
pub open spec fn get_by_code_post(old: TollCache, new: TollCache, toll_code: Seq<char>, now: i64, r: Option<TOLL>) -> bool {
    &&& new.wf()
    &&& new.ttl() == old.ttl() && new.capacity() == old.capacity()
    &&& new.eviction_count() == old.eviction_count()
    &&& match r {
        Some(t) => {
            &&& old@.contains_key(t.toll_id)
            &&& old@[t.toll_id].toll == t
            &&& t.toll_code@ == toll_code
            &&& entry_fresh(old@[t.toll_id], now, old.ttl())
            &&& new@ == old@.insert(t.toll_id, touched(old@[t.toll_id], now))
            &&& new.hit_count() == wrap_inc(old.hit_count())
            &&& new.miss_count() == old.miss_count()
        },
        None => {
            &&& forall|k: i32| #[trigger] old@.contains_key(k) ==> !(entry_fresh(old@[k], now, old.ttl())
                && old@[k].toll.toll_code@ == toll_code)
            &&& new@ == old@
            &&& new.miss_count() == wrap_inc(old.miss_count())
            &&& new.hit_count() == old.hit_count()
        },
    }
}

/// Whether the entry `e` is live at `now` under time-to-live `ttl`.
pub open spec fn entry_fresh(e: TollCacheEntry, now: i64, ttl: i64) -> bool {
    is_fresh(e.created_at, now, ttl)
}

/// The live entries of `m` at `now`, each marked read.
pub open spec fn live_touched(m: Map<i32, TollCacheEntry>, now: i64, ttl: i64) -> Map<i32, TollCacheEntry> {
    restrict_map(m, |e: TollCacheEntry| entry_fresh(e, now, ttl), |e: TollCacheEntry| touched(e, now))
}

/// The live entries of `m` at `now`, unchanged.
pub open spec fn live(m: Map<i32, TollCacheEntry>, now: i64, ttl: i64) -> Map<i32, TollCacheEntry> {
    restrict_map(m, |e: TollCacheEntry| entry_fresh(e, now, ttl), |e: TollCacheEntry| e)
}

/// The stations of `tolls` as entries stored at `now`; a later station wins an id.
pub open spec fn entries_of(tolls: Seq<TOLL>, now: i64) -> Map<i32, TollCacheEntry>
    decreases tolls.len(),
{
    if tolls.len() == 0 {
        Map::empty()
    } else {
        entries_of(tolls.drop_last(), now).insert(tolls.last().toll_id, new_entry(tolls.last(), now))
    }
}

impl TollCache {
    /// Stores `toll` as read at `now`, replacing any entry with its id, then evicts least
    /// recently read entries down to the capacity.
    pub fn put_at(&mut self, toll: TOLL, now: i64)
        requires
            old(self).wf(),
        ensures
            put_post(*old(self), *final(self), toll, now),
    {
        let ghost toll0 = toll;
        proof {
            self.lemma_view();
        }
        let toll_id = toll.toll_id;
        let entry = TollCacheEntry { toll, created_at: now, last_access: now, access_count: 0 };
        let ghost e = entry;
        match self.find(toll_id) {
            Some(i) => {
                proof {
                    lemma_seq_to_map_update(self.data@, |e: TollCacheEntry| toll_key(e), i as int, e);
                }
                self.data.set(i, entry);
            },
            None => {
                proof {
                    lemma_seq_to_map_push(self.data@, |e: TollCacheEntry| toll_key(e), e);
                    assert forall|a: int, b: int| 0 <= a < self.data@.push(e).len() && 0 <= b < self.data@.push(e).len() && a != b implies toll_key(self.data@.push(e)[a]) != toll_key(self.data@.push(e)[b]) by {
                        if a == self.data@.len() {
                            assert(!(exists|i: int| 0 <= i < self.data@.len() && toll_key(self.data@[i]) == toll_id));
                            assert(toll_key(self.data@[b]) != toll_id);
                        } else if b == self.data@.len() {
                            assert(!(exists|i: int| 0 <= i < self.data@.len() && toll_key(self.data@[i]) == toll_id));
                            assert(toll_key(self.data@[a]) != toll_id);
                        }
                    }
                }
                self.data.push(entry);
            },
        }
        proof {
            self.lemma_view();
            assert(self@ == old(self)@.insert(toll_id, new_entry(toll0, now)));
        }
        self.evict_if_needed();
    }

    /// Stores `toll` as read now (see [`TollCache::put_at`]).
    pub fn put(&mut self, toll: TOLL)
        requires
            old(self).wf(),
        ensures
            exists|now: i64| put_post(*old(self), *final(self), toll, now),
    {
        let now = timestamp_ms();
        self.put_at(toll, now);
    }

    /// The station `toll_id` if its entry is live at `now` (marking it read); an expired entry
    /// is dropped.
    pub fn get_at(&mut self, toll_id: i32, now: i64) -> (r: Option<TOLL>)
        requires
            old(self).wf(),
        ensures
            get_post(*old(self), *final(self), toll_id, now, r),
    {
        proof {
            self.lemma_view();
        }
        match self.find(toll_id) {
            Some(i) => {
                if fresh(self.data[i].created_at, now, self.default_ttl_ms) {
                    let t = self.data[i].toll.clone();
                    let count = wrapping_inc(self.data[i].access_count);
                    let created = self.data[i].created_at;
                    let ghost old_e = self.data@[i as int];
                    let t2 = self.data[i].toll.clone();
                    let e2 = TollCacheEntry { toll: t2, created_at: created, last_access: now, access_count: count };
                    proof {
                        assert(e2 == touched(old_e, now));
                        lemma_seq_to_map_update(self.data@, |e: TollCacheEntry| toll_key(e), i as int, e2);
                    }
                    self.data.set(i, e2);
                    self.hits = wrapping_inc(self.hits);
                    proof {
                        self.lemma_view();
                    }
                    Some(t)
                } else {
                    proof {
                        lemma_seq_to_map_remove(self.data@, |e: TollCacheEntry| toll_key(e), i as int);
                    }
                    self.data.remove(i);
                    self.misses = wrapping_inc(self.misses);
                    proof {
                        self.lemma_view();
                    }
                    None
                }
            },
            None => {
                self.misses = wrapping_inc(self.misses);
                None
            },
        }
    }

    /// The station `toll_id` if its entry is live now (see [`TollCache::get_at`]).
    pub fn get(&mut self, toll_id: i32) -> (r: Option<TOLL>)
        requires
            old(self).wf(),
        ensures
            exists|now: i64| get_post(*old(self), *final(self), toll_id, now, r),
    {
        let now = timestamp_ms();
        self.get_at(toll_id, now)
    }

    /// Removes the entry of `toll_id`; whether there was one.
    pub fn remove(&mut self, toll_id: i32) -> (r: bool)
        requires
            old(self).wf(),
        ensures
            final(self).wf(),
            r == old(self)@.contains_key(toll_id),
            final(self)@ == old(self)@.remove(toll_id),
            final(self).ttl() == old(self).ttl() && final(self).capacity() == old(self).capacity(),
            final(self).hit_count() == old(self).hit_count() && final(self).miss_count() == old(self).miss_count(),
            final(self).eviction_count() == old(self).eviction_count(),
    {
        proof {
            self.lemma_view();
        }
        match self.find(toll_id) {
            Some(i) => {
                proof {
                    lemma_seq_to_map_remove(self.data@, |e: TollCacheEntry| toll_key(e), i as int);
                }
                self.data.remove(i);
                proof {
                    self.lemma_view();
                }
                true
            },
            None => {
                proof {
                    assert(old(self)@.remove(toll_id) =~= old(self)@);
                }
                false
            },
        }
    }

    /// Removes every entry; the counters are kept.
    pub fn clear(&mut self)
        requires
            old(self).wf(),
        ensures
            final(self).wf(),
            final(self)@ == Map::<i32, TollCacheEntry>::empty(),
            final(self).ttl() == old(self).ttl() && final(self).capacity() == old(self).capacity(),
            final(self).hit_count() == old(self).hit_count() && final(self).miss_count() == old(self).miss_count(),
            final(self).eviction_count() == old(self).eviction_count(),
    {
        self.data.clear();
        proof {
            self.lemma_view();
        }
    }

    /// Entry count and counters.
    pub fn get_stats(&self) -> (r: TollCacheStats)
        requires
            self.wf(),
        ensures
            r.total_entries == self@.len(),
            r.hits == self.hit_count(),
            r.misses == self.miss_count(),
            r.evictions == self.eviction_count(),
    {
        proof {
            self.lemma_view();
        }
        TollCacheStats {
            total_entries: self.data.len(),
            hits: self.hits,
            misses: self.misses,
            evictions: self.evictions,
        }
    }
}

impl TollCache {
    /// Splits the entries of `self` into those live at `now` (kept, each marked read when
    /// `touch`) and the others (dropped), and returns the kept stations in entry order.
    fn keep_live(&mut self, now: i64, touch: bool) -> (r: Vec<TOLL>)
        requires
            old(self).wf(),
        ensures
            final(self).wf(),
            final(self).default_ttl_ms == old(self).default_ttl_ms,
            final(self).max_total_entries == old(self).max_total_entries,
            final(self).hits == old(self).hits && final(self).misses == old(self).misses,
            final(self).evictions == old(self).evictions,
            touch ==> final(self)@ == live_touched(old(self)@, now, old(self).default_ttl_ms),
            !touch ==> final(self)@ == live(old(self)@, now, old(self).default_ttl_ms),
            final(self).data@.len() <= old(self).data@.len(),
            r@.len() == final(self)@.len(),
            forall|i: int| 0 <= i < r@.len() ==> #[trigger] final(self)@.contains_key(r@[i].toll_id)
                && r@[i] == final(self)@[r@[i].toll_id].toll,
            forall|i: int, j: int| 0 <= i < r@.len() && 0 <= j < r@.len() && i != j ==> r@[i].toll_id != r@[j].toll_id,
    {
        let ttl = self.default_ttl_ms;
        let ghost keep = |e: TollCacheEntry| entry_fresh(e, now, ttl);
        let ghost f = if touch { |e: TollCacheEntry| touched(e, now) } else { |e: TollCacheEntry| e };
        let mut old_data: Vec<TollCacheEntry> = Vec::new();
        std::mem::swap(&mut self.data, &mut old_data);
        let mut kept: Vec<TollCacheEntry> = Vec::new();
        let mut result: Vec<TOLL> = Vec::new();
        let mut k: usize = 0;
        while k < old_data.len()
            invariant
                k <= old_data@.len(),
                kept@ == keep_map(old_data@.subrange(0, k as int), keep, f),
                result@.len() == kept@.len(),
                forall|i: int| 0 <= i < kept@.len() ==> #[trigger] result@[i] == kept@[i].toll,
                keep == |e: TollCacheEntry| entry_fresh(e, now, ttl),
                f == if touch { |e: TollCacheEntry| touched(e, now) } else { |e: TollCacheEntry| e },
            decreases old_data@.len() - k,
        {
            let ghost sub = old_data@.subrange(0, k as int);
            let ghost sub1 = old_data@.subrange(0, k + 1);
            proof {
                assert(sub1.drop_last() =~= sub);
                assert(sub1.last() == old_data@[k as int]);
            }
            if fresh(old_data[k].created_at, now, ttl) {
                let t = old_data[k].toll.clone();
                let t2 = old_data[k].toll.clone();
                let e = if touch {
                    TollCacheEntry { toll: t2, created_at: old_data[k].created_at, last_access: now, access_count: wrapping_inc(old_data[k].access_count) }
                } else {
                    TollCacheEntry { toll: t2, created_at: old_data[k].created_at, last_access: old_data[k].last_access, access_count: old_data[k].access_count }
                };
                proof {
                    assert(e == f(old_data@[k as int]));
                }
                kept.push(e);
                result.push(t);
            }
            k = k + 1;
        }
        proof {
            assert(old_data@.subrange(0, old_data@.len() as int) =~= old_data@);
            assert(old(self).data@ == old_data@);
            let key = |e: TollCacheEntry| toll_key(e);
            assert forall|e: TollCacheEntry| #[trigger] key(f(e)) == key(e) by {
                if touch {
                    assert(f(e) == touched(e, now));
                } else {
                    assert(f(e) == e);
                }
            }
            lemma_keep_map(old_data@, key, keep, f);
        }
        self.data = kept;
        proof {
            self.lemma_view();
            if touch {
                assert(self@ =~= live_touched(old(self)@, now, ttl));
            } else {
                assert(self@ =~= live(old(self)@, now, ttl));
            }
            assert forall|i: int| 0 <= i < result@.len() implies #[trigger] self@.contains_key(result@[i].toll_id)
                && result@[i] == self@[result@[i].toll_id].toll by {
                assert(toll_key(self.data@[i]) == result@[i].toll_id);
                assert(self@[toll_key(self.data@[i])] == self.data@[i]);
            }
            assert forall|i: int, j: int| 0 <= i < result@.len() && 0 <= j < result@.len() && i != j implies result@[i].toll_id != result@[j].toll_id by {
                assert(toll_key(self.data@[i]) != toll_key(self.data@[j]));
            }
        }
        result
    }

    /// All stations live at `now` (each marked read); expired entries are dropped.
    pub fn get_all_at(&mut self, now: i64) -> (r: Vec<TOLL>)
        requires
            old(self).wf(),
        ensures
            final(self).wf(),
            final(self)@ == live_touched(old(self)@, now, old(self).ttl()),
            final(self).ttl() == old(self).ttl() && final(self).capacity() == old(self).capacity(),
            final(self).hit_count() == old(self).hit_count() && final(self).miss_count() == old(self).miss_count(),
            final(self).eviction_count() == old(self).eviction_count(),
            r@.len() == final(self)@.len(),
            forall|i: int| 0 <= i < r@.len() ==> #[trigger] final(self)@.contains_key(r@[i].toll_id)
                && r@[i] == final(self)@[r@[i].toll_id].toll,
            forall|i: int, j: int| 0 <= i < r@.len() && 0 <= j < r@.len() && i != j ==> r@[i].toll_id != r@[j].toll_id,
            forall|k: i32| #[trigger] final(self)@.contains_key(k) ==> exists|i: int| 0 <= i < r@.len() && r@[i].toll_id == k,
    {
        let r = self.keep_live(now, true);
        proof {
            self.lemma_view();
            lemma_ids_cover(r@, self@);
        }
        r
    }

    /// All stations live now (see [`TollCache::get_all_at`]).
    pub fn get_all(&mut self) -> (r: Vec<TOLL>)
        requires
            old(self).wf(),
        ensures
            final(self).wf(),
            exists|now: i64| final(self)@ == live_touched(old(self)@, now, old(self).ttl()),
            final(self).ttl() == old(self).ttl() && final(self).capacity() == old(self).capacity(),
            final(self).hit_count() == old(self).hit_count() && final(self).miss_count() == old(self).miss_count(),
            final(self).eviction_count() == old(self).eviction_count(),
            r@.len() == final(self)@.len(),
            forall|i: int| 0 <= i < r@.len() ==> #[trigger] final(self)@.contains_key(r@[i].toll_id)
                && r@[i] == final(self)@[r@[i].toll_id].toll,
            forall|i: int, j: int| 0 <= i < r@.len() && 0 <= j < r@.len() && i != j ==> r@[i].toll_id != r@[j].toll_id,
            forall|k: i32| #[trigger] final(self)@.contains_key(k) ==> exists|i: int| 0 <= i < r@.len() && r@[i].toll_id == k,
    {
        let now = timestamp_ms();
        self.get_all_at(now)
    }

    /// Drops the entries expired at `now`; how many were dropped.
    pub fn cleanup_expired_at(&mut self, now: i64) -> (r: usize)
        requires
            old(self).wf(),
        ensures
            final(self).wf(),
            final(self)@ == live(old(self)@, now, old(self).ttl()),
            r == old(self)@.len() - final(self)@.len(),
            final(self).ttl() == old(self).ttl() && final(self).capacity() == old(self).capacity(),
            final(self).hit_count() == old(self).hit_count() && final(self).miss_count() == old(self).miss_count(),
            final(self).eviction_count() == old(self).eviction_count(),
    {
        proof {
            self.lemma_view();
        }
        let before = self.data.len();
        let _kept = self.keep_live(now, false);
        proof {
            self.lemma_view();
        }
        before - self.data.len()
    }

    /// Drops the entries expired now (see [`TollCache::cleanup_expired_at`]).
    pub fn cleanup_expired(&mut self) -> (r: usize)
        requires
            old(self).wf(),
        ensures
            final(self).wf(),
            exists|now: i64| final(self)@ == live(old(self)@, now, old(self).ttl()),
            r == old(self)@.len() - final(self)@.len(),
            final(self).ttl() == old(self).ttl() && final(self).capacity() == old(self).capacity(),
            final(self).hit_count() == old(self).hit_count() && final(self).miss_count() == old(self).miss_count(),
            final(self).eviction_count() == old(self).eviction_count(),
    {
        let now = timestamp_ms();
        self.cleanup_expired_at(now)
    }

    /// The first station (in entry order) live at `now` whose code is `toll_code`, marked read
    /// (a hit); otherwise `None` (a miss). Expired entries are kept.
    pub fn get_by_code_at(&mut self, toll_code: &str, now: i64) -> (r: Option<TOLL>)
        requires
            old(self).wf(),
        ensures
            get_by_code_post(*old(self), *final(self), toll_code@, now, r),
    {
        proof {
            self.lemma_view();
        }
        let code = toll_code.to_owned();
        let mut i: usize = 0;
        while i < self.data.len()
            invariant
                self.wf(),
                self.data@ == old(self).data@,
                self.default_ttl_ms == old(self).default_ttl_ms,
                self.max_total_entries == old(self).max_total_entries,
                self.hits == old(self).hits && self.misses == old(self).misses,
                self.evictions == old(self).evictions,
                code@ == toll_code@,
                i <= self.data@.len(),
                forall|j: int| 0 <= j < i ==> !(entry_fresh(#[trigger] self.data@[j], now, self.default_ttl_ms)
                    && self.data@[j].toll.toll_code@ == toll_code@),
            decreases self.data@.len() - i,
        {
            if fresh(self.data[i].created_at, now, self.default_ttl_ms) && self.data[i].toll.toll_code == code {
                let t = self.data[i].toll.clone();
                let t2 = self.data[i].toll.clone();
                let ghost old_e = self.data@[i as int];
                let e2 = TollCacheEntry { toll: t2, created_at: self.data[i].created_at, last_access: now, access_count: wrapping_inc(self.data[i].access_count) };
                proof {
                    self.lemma_view();
                    assert(self@[toll_key(self.data@[i as int])] == self.data@[i as int]);
                    lemma_seq_to_map_update(self.data@, |e: TollCacheEntry| toll_key(e), i as int, e2);
                }
                self.data.set(i, e2);
                self.hits = wrapping_inc(self.hits);
                proof {
                    self.lemma_view();
                }
                return Some(t);
            }
            i = i + 1;
        }
        self.misses = wrapping_inc(self.misses);
        proof {
            self.lemma_view();
            assert forall|k: i32| #[trigger] old(self)@.contains_key(k) implies !(entry_fresh(old(self)@[k], now, old(self).ttl())
                && old(self)@[k].toll.toll_code@ == toll_code@) by {
                let j = choose|j: int| 0 <= j < self.data@.len() && toll_key(self.data@[j]) == k;
                assert(old(self)@[toll_key(self.data@[j])] == self.data@[j]);
            }
        }
        None
    }

    /// The first station live now whose code is `toll_code` (see [`TollCache::get_by_code_at`]).
    pub fn get_by_code(&mut self, toll_code: &str) -> (r: Option<TOLL>)
        requires
            old(self).wf(),
        ensures
            exists|now: i64| get_by_code_post(*old(self), *final(self), toll_code@, now, r),
    {
        let now = timestamp_ms();
        self.get_by_code_at(toll_code, now)
    }

    /// Replaces all entries by the stations of `tolls`, stored at `now` (a later station wins
    /// an id). The counters are kept and nothing is evicted.
    pub fn replace_all_at(&mut self, tolls: Vec<TOLL>, now: i64)
        requires
            old(self).wf(),
        ensures
            final(self).wf(),
            final(self)@ == entries_of(tolls@, now),
            final(self).ttl() == old(self).ttl() && final(self).capacity() == old(self).capacity(),
            final(self).hit_count() == old(self).hit_count() && final(self).miss_count() == old(self).miss_count(),
            final(self).eviction_count() == old(self).eviction_count(),
    {
        self.data.clear();
        proof {
            self.lemma_view();
        }
        let mut k: usize = 0;
        while k < tolls.len()
            invariant
                self.wf(),
                k <= tolls@.len(),
                self@ == entries_of(tolls@.subrange(0, k as int), now),
                self.default_ttl_ms == old(self).default_ttl_ms,
                self.max_total_entries == old(self).max_total_entries,
                self.hits == old(self).hits && self.misses == old(self).misses,
                self.evictions == old(self).evictions,
            decreases tolls@.len() - k,
        {
            proof {
                assert(tolls@.subrange(0, k + 1).drop_last() =~= tolls@.subrange(0, k as int));
            }
            let t = tolls[k].clone();
            let toll_id = t.toll_id;
            let entry = TollCacheEntry { toll: t, created_at: now, last_access: now, access_count: 0 };
            let ghost e = entry;
            proof {
                self.lemma_view();
            }
            match self.find(toll_id) {
                Some(i) => {
                    proof {
                        lemma_seq_to_map_update(self.data@, |e: TollCacheEntry| toll_key(e), i as int, e);
                    }
                    self.data.set(i, entry);
                },
                None => {
                    proof {
                        lemma_seq_to_map_push(self.data@, |e: TollCacheEntry| toll_key(e), e);
                        assert forall|a: int, b: int| 0 <= a < self.data@.push(e).len() && 0 <= b < self.data@.push(e).len() && a != b implies toll_key(self.data@.push(e)[a]) != toll_key(self.data@.push(e)[b]) by {
                            if a == self.data@.len() {
                                assert(toll_key(self.data@[b]) != toll_id);
                            } else if b == self.data@.len() {
                                assert(toll_key(self.data@[a]) != toll_id);
                            }
                        }
                    }
                    self.data.push(entry);
                },
            }
            proof {
                self.lemma_view();
            }
            k = k + 1;
        }
        proof {
            assert(tolls@.subrange(0, tolls@.len() as int) =~= tolls@);
        }
    }

    /// Replaces all entries by the stations of `tolls`, stored now.
    pub fn replace_all(&mut self, tolls: Vec<TOLL>)
        requires
            old(self).wf(),
        ensures
            final(self).wf(),
            exists|now: i64| final(self)@ == entries_of(tolls@, now),
            final(self).ttl() == old(self).ttl() && final(self).capacity() == old(self).capacity(),
            final(self).hit_count() == old(self).hit_count() && final(self).miss_count() == old(self).miss_count(),
            final(self).eviction_count() == old(self).eviction_count(),
    {
        let now = timestamp_ms();
        self.replace_all_at(tolls, now);
    }
}

/// `x + n`, wrapping modulo 2^64.
pub open spec fn wrap_add(x: u64, n: nat) -> u64
    decreases n,
{
    if n == 0 {
        x
    } else {
        wrap_inc(wrap_add(x, (n - 1) as nat))
    }
}

proof fn lemma_wrap_add_step(x: u64, n: nat)
    ensures
        wrap_add(x, n + 1) == wrap_inc(wrap_add(x, n)),
{
}

/// A stored station that does not overflow the capacity is read back right away.
pub proof fn law_put_then_get(c0: TollCache, c1: TollCache, c2: TollCache, toll: TOLL, now: i64, r: Option<TOLL>)
    requires
        c0.wf(),
        put_post(c0, c1, toll, now),
        get_post(c1, c2, toll.toll_id, now, r),
        c0.ttl() > 0,
        c0@.insert(toll.toll_id, new_entry(toll, now)).len() <= c0.capacity(),
    ensures
        r == Some(toll),
{
    let m1 = c0@.insert(toll.toll_id, new_entry(toll, now));
    let k = toll.toll_id;
    if !c1@.contains_key(k) {
        assert(c1@.dom().subset_of(m1.dom().remove(k)));
        vstd::set_lib::lemma_len_subset(c1@.dom(), m1.dom().remove(k));
    }
}

/// A stored station survives the eviction that follows when the capacity is not zero and every
/// other entry was last read before the store.
pub proof fn law_put_survives_eviction(c0: TollCache, c1: TollCache, toll: TOLL, now: i64)
    requires
        c0.wf(),
        put_post(c0, c1, toll, now),
        c0.capacity() > 0,
        forall|k: i32| #[trigger] c0@.contains_key(k) && k != toll.toll_id ==> c0@[k].last_access < now,
    ensures
        c1@.contains_key(toll.toll_id),
        c1@[toll.toll_id] == new_entry(toll, now),
{
    let m1 = c0@.insert(toll.toll_id, new_entry(toll, now));
    let k = toll.toll_id;
    assert(m1.dom().finite());
    if !c1@.contains_key(k) {
        if m1.len() <= c0.capacity() {
            assert(c1@.dom().subset_of(m1.dom().remove(k)));
            vstd::set_lib::lemma_len_subset(c1@.dom(), m1.dom().remove(k));
        } else {
            assert(c1@.len() > 0);
            let k2 = c1@.dom().choose();
            assert(c1@.dom().contains(k2));
            assert(m1[k].last_access <= m1[k2].last_access);
        }
    }
}

/// A removed station is no longer read.
pub proof fn law_remove_then_get(c0: TollCache, c1: TollCache, c2: TollCache, toll_id: i32, now: i64, r: Option<TOLL>)
    requires
        c1@ == c0@.remove(toll_id),
        get_post(c1, c2, toll_id, now, r),
    ensures
        r is None,
{
}

} // verus!
