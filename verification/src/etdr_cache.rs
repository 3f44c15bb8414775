//! In-memory cache of entry transaction records (ETDR), grouped by normalized etag. Each etag
//! holds several records; `put` keeps a record per ticket, orders the etag's records by ticket
//! (newest first), bounds their number, and bounds the total number of records by evicting the
//! least recently read ones. A record stays valid until an hour after its checkout; a record
//! without checkout never expires.
//!
//! The cache is held as one sequence of slots, each an etag with one record; the records of an
//! etag are the slots with that etag, in order. The order of the etags among themselves carries
//! no meaning.

use vstd::prelude::*;
use crate::clock::timestamp_ms;
use crate::etdr_types::{clone_etdr, etdr_same, ETDR};
use crate::text::{normalize_etag, normalize_seq};
use crate::toll_cache::{wrap_inc, wrapping_inc};

verus! {

/// How long a checked-out record stays valid: one hour, in milliseconds.
pub const ETDR_TTL_MS: i64 = 3_600_000;

/// A cached record with the time it stands for (its checkin time), the time it was last read
/// and how often it was read.
#[derive(Debug)]
pub struct EtdrCacheEntry {
    pub etdr: ETDR,
    pub created_at: i64,
    pub last_access: i64,
    pub access_count: u64,
}

/// One record of the cache under its normalized etag.
#[derive(Debug)]
pub struct EtdrSlot {
    pub etag: String,
    pub entry: EtdrCacheEntry,
}

/// Counters returned by [`ETDRCache::get_stats`].
#[derive(Debug, Clone, Default)]
pub struct CacheStats {
    pub total_entries: usize,
    pub total_etags: usize,
    pub hits: u64,
    pub misses: u64,
    pub evictions: u64,
}

/// `a - b`, saturating at the bounds of `i64`.
pub open spec fn sat_sub(a: i64, b: i64) -> i64 {
    if a - b > i64::MAX {
        i64::MAX
    } else if a - b < i64::MIN {
        i64::MIN
    } else {
        (a - b) as i64
    }
}

/// `a - b`, saturating at the bounds of `i64`.
pub fn saturating_sub_i64(a: i64, b: i64) -> (r: i64)
    ensures
        r == sat_sub(a, b),
{
    let d: i128 = (a as i128) - (b as i128);
    if d > (i64::MAX as i128) {
        i64::MAX
    } else if d < (i64::MIN as i128) {
        i64::MIN
    } else {
        d as i64
    }
}

/// Whether `e` is still valid at `now`: not checked out, or checked out at most an hour ago.
pub open spec fn within_ttl(e: ETDR, now: i64) -> bool {
    e.checkout_datetime == 0 || sat_sub(now, e.checkout_datetime) <= ETDR_TTL_MS
}

/// Whether `etdr` is still valid at `now` (see [`within_ttl`]).
pub fn etdr_within_ttl_at(etdr: &ETDR, now: i64) -> (r: bool)
    ensures
        r == within_ttl(*etdr, now),
{
    if etdr.checkout_datetime == 0 {
        return true;
    }
    saturating_sub_i64(now, etdr.checkout_datetime) <= ETDR_TTL_MS
}

/// Whether `etdr` is still valid now (see [`within_ttl`]).
pub fn etdr_within_ttl(etdr: &ETDR) -> (r: bool)
    ensures
        exists|now: i64| r == within_ttl(*etdr, now),
{
    let now = timestamp_ms();
    etdr_within_ttl_at(etdr, now)
}

/// Whether a slot is under etag `k`.
pub open spec fn has_etag(k: Seq<char>) -> spec_fn(EtdrSlot) -> bool {
    |s: EtdrSlot| s.etag@ == k
}

/// Whether a slot is under another etag than `k`.
pub open spec fn not_etag(k: Seq<char>) -> spec_fn(EtdrSlot) -> bool {
    |s: EtdrSlot| s.etag@ != k
}

/// The record of a slot.
pub open spec fn entry_of() -> spec_fn(EtdrSlot) -> EtdrCacheEntry {
    |s: EtdrSlot| s.entry
}

/// The records of etag `k`, in order.
pub open spec fn bucket_of(v: Seq<EtdrSlot>, k: Seq<char>) -> Seq<EtdrCacheEntry> {
    v.filter(has_etag(k)).map_values(entry_of())
}

/// The text of each string.
pub open spec fn str_views(v: Seq<String>) -> Seq<Seq<char>> {
    v.map_values(|s: String| s@)
}

/// The etag of each slot.
pub open spec fn etag_views(v: Seq<EtdrSlot>) -> Seq<Seq<char>> {
    v.map_values(|s: EtdrSlot| s.etag@)
}

/// The etags that have a record.
pub open spec fn etags_of(v: Seq<EtdrSlot>) -> Set<Seq<char>> {
    Set::new(|k: Seq<char>| exists|i: int| 0 <= i < v.len() && #[trigger] v[i].etag@ == k)
}

/// Where a checkin record is looked up when it is not cached.
#[derive(Debug, Clone, Copy, PartialEq, Eq, Structural, Default)]
pub enum EtdrCheckinSource {
    /// The back-end's own transaction table only.
    Bect,
    /// The operators' transaction table only.
    #[default]
    VetcVdtc,
    /// Both tables, the record with the latest checkin winning.
    Any,
}

/// ETDR memory cache: normalized etag -> records, with hit/miss/eviction counters.
pub struct ETDRCache {
    slots: Vec<EtdrSlot>,
    max_entries_per_etag: usize,
    default_ttl_ms: i64,
    max_total_entries: usize,
    hits: u64,
    misses: u64,
    evictions: u64,
}

impl View for ETDRCache {
    type V = Seq<EtdrSlot>;

    closed spec fn view(&self) -> Seq<EtdrSlot> {
        self.slots@
    }
}

impl ETDRCache {
    /// Maximum number of records per etag.
    pub closed spec fn per_etag_capacity(&self) -> usize {
        self.max_entries_per_etag
    }

    /// The configured time-to-live in milliseconds (validity itself follows [`within_ttl`]).
    pub closed spec fn ttl(&self) -> i64 {
        self.default_ttl_ms
    }

    /// Maximum number of records in all.
    pub closed spec fn capacity(&self) -> usize {
        self.max_total_entries
    }

    /// Number of latest-record reads that found a record.
    pub closed spec fn hit_count(&self) -> u64 {
        self.hits
    }

    /// Number of latest-record reads that found none.
    pub closed spec fn miss_count(&self) -> u64 {
        self.misses
    }

    /// Number of records evicted for lack of room.
    pub closed spec fn eviction_count(&self) -> u64 {
        self.evictions
    }

    /// Whether the records of every etag come largest ticket first (see [`slots_ordered`]):
    /// what a new cache is and every operation keeps, but for an update that changes a ticket.
    pub open spec fn records_ordered(&self) -> bool {
        slots_ordered(self@)
    }

    /// Whether the configuration and counters of `self` and `other` agree.
    pub open spec fn same_config(&self, other: &ETDRCache) -> bool {
        &&& self.per_etag_capacity() == other.per_etag_capacity()
        &&& self.ttl() == other.ttl()
        &&& self.capacity() == other.capacity()
    }

    /// A cache with room for 100 records per etag and 10000 in all, validity one hour.
    pub fn new() -> (r: ETDRCache)
        ensures
            r@ == Seq::<EtdrSlot>::empty(),
            r.per_etag_capacity() == 100,
            r.ttl() == ETDR_TTL_MS,
            r.capacity() == 10000,
            r.hit_count() == 0 && r.miss_count() == 0 && r.eviction_count() == 0,
            r.records_ordered(),
    {
        Self::with_config(100, ETDR_TTL_MS, 10000)
    }

    /// An empty cache with the given bounds.
    pub fn with_config(max_entries_per_etag: usize, default_ttl_ms: i64, max_total_entries: usize) -> (r: ETDRCache)
        ensures
            r@ == Seq::<EtdrSlot>::empty(),
            r.per_etag_capacity() == max_entries_per_etag,
            r.ttl() == default_ttl_ms,
            r.capacity() == max_total_entries,
            r.hit_count() == 0 && r.miss_count() == 0 && r.eviction_count() == 0,
            r.records_ordered(),
    {
        ETDRCache {
            slots: Vec::new(),
            max_entries_per_etag,
            default_ttl_ms,
            max_total_entries,
            hits: 0,
            misses: 0,
            evictions: 0,
        }
    }

    /// Number of records.
    pub fn count(&self) -> (r: usize)
        ensures
            r == self@.len(),
    {
        self.slots.len()
    }

    /// Number of etags that have a record.
    pub fn etag_count(&self) -> (r: usize)
        ensures
            r == etags_of(self@).len(),
            etags_of(self@).finite(),
    {
        let mut seen: Vec<String> = Vec::new();
        let mut i: usize = 0;
        while i < self.slots.len()
            invariant
                i <= self.slots@.len(),
                seen@.len() <= i,
                str_views(seen@).no_duplicates(),
                str_views(seen@).to_set() == etag_views(self.slots@.subrange(0, i as int)).to_set(),
            decreases self.slots@.len() - i,
        {
            let mut found = false;
            let mut a: usize = 0;
            while a < seen.len()
                invariant
                    a <= seen@.len(),
                    i < self.slots@.len(),
                    found <==> exists|b: int| 0 <= b < a && str_views(seen@)[b] == self.slots@[i as int].etag@,
                decreases seen@.len() - a,
            {
                proof {
                    assert(str_views(seen@)[a as int] == seen@[a as int]@);
                }
                if seen[a] == self.slots[i].etag {
                    found = true;
                }
                a = a + 1;
            }
            let ghost k = self.slots@[i as int].etag@;
            let ghost sv0 = str_views(seen@);
            proof {
                assert(etag_views(self.slots@.subrange(0, i + 1)) =~= etag_views(self.slots@.subrange(0, i as int)).push(k));
                assert(etag_views(self.slots@.subrange(0, i as int)).push(k).to_set() =~= etag_views(self.slots@.subrange(0, i as int)).to_set().insert(k)) by {
                    broadcast use vstd::seq_lib::group_seq_properties;
                }
            }
            if !found {
                let s = self.slots[i].etag.clone();
                seen.push(s);
                proof {
                    assert(str_views(seen@) =~= sv0.push(k));
                    assert(sv0.push(k).to_set() =~= sv0.to_set().insert(k)) by {
                        broadcast use vstd::seq_lib::group_seq_properties;
                    }
                    assert forall|x: int, y: int| 0 <= x < y < sv0.push(k).len() implies sv0.push(k)[x] != sv0.push(k)[y] by {
                        if y == sv0.len() {
                            assert(sv0[x] == str_views(seen@)[x]);
                        }
                    }
                }
            } else {
                proof {
                    let b = choose|b: int| 0 <= b < seen@.len() && str_views(seen@)[b] == k;
                    assert(sv0.to_set().contains(k));
                    assert(sv0.to_set().insert(k) =~= sv0.to_set());
                }
            }
            i = i + 1;
        }
        proof {
            assert(self.slots@.subrange(0, self.slots@.len() as int) =~= self.slots@);
            let ks = etags_of(self@);
            assert forall|k: Seq<char>| ks.contains(k) <==> etag_views(self.slots@).to_set().contains(k) by {
                if ks.contains(k) {
                    let j = choose|j: int| 0 <= j < self@.len() && #[trigger] self@[j].etag@ == k;
                    assert(etag_views(self.slots@)[j] == k);
                }
                if etag_views(self.slots@).to_set().contains(k) {
                    let j = choose|j: int| 0 <= j < etag_views(self.slots@).len() && etag_views(self.slots@)[j] == k;
                    assert(self@[j].etag@ == k);
                }
            }
            assert(ks =~= str_views(seen@).to_set());
            str_views(seen@).unique_seq_to_set();
        }
        seen.len()
    }

    /// Entry counts and counters.
    pub fn get_stats(&self) -> (r: CacheStats)
        ensures
            r.total_entries == self@.len(),
            r.total_etags == etags_of(self@).len(),
            r.hits == self.hit_count(),
            r.misses == self.miss_count(),
            r.evictions == self.eviction_count(),
    {
        CacheStats {
            total_entries: self.slots.len(),
            total_etags: self.etag_count(),
            hits: self.hits,
            misses: self.misses,
            evictions: self.evictions,
        }
    }

    /// Removes every record and resets the counters.
    pub fn clear(&mut self)
        ensures
            final(self)@ == Seq::<EtdrSlot>::empty(),
            final(self).same_config(old(self)),
            final(self).hit_count() == 0 && final(self).miss_count() == 0 && final(self).eviction_count() == 0,
            final(self).records_ordered(),
    {
        self.slots.clear();
        self.hits = 0;
        self.misses = 0;
        self.evictions = 0;
    }

    /// Takes the records of etag `k` out of the cache, in order.
    fn take_bucket(&mut self, k: &String) -> (r: Vec<EtdrCacheEntry>)
        ensures
            final(self)@ == old(self)@.filter(not_etag(k@)),
            r@ == bucket_of(old(self)@, k@),
            final(self).same_config(old(self)),
            final(self).max_entries_per_etag == old(self).max_entries_per_etag,
            final(self).default_ttl_ms == old(self).default_ttl_ms,
            final(self).max_total_entries == old(self).max_total_entries,
            final(self).hits == old(self).hits && final(self).misses == old(self).misses,
            final(self).evictions == old(self).evictions,
    {
        let mut src: Vec<EtdrSlot> = Vec::new();
        std::mem::swap(&mut src, &mut self.slots);
        let ghost s0 = src@;
        let mut taken: Vec<EtdrCacheEntry> = Vec::new();
        let mut i: usize = 0;
        proof {
            reveal(Seq::filter);
            assert(s0.subrange(0, 0) =~= Seq::<EtdrSlot>::empty());
        }
        let n = src.len();
        while i < n
            invariant
                n == s0.len(),
                i <= s0.len(),
                src@ == s0.subrange(i as int, s0.len() as int),
                self.slots@ == s0.subrange(0, i as int).filter(not_etag(k@)),
                taken@ == s0.subrange(0, i as int).filter(has_etag(k@)).map_values(entry_of()),
                self.max_entries_per_etag == old(self).max_entries_per_etag,
                self.default_ttl_ms == old(self).default_ttl_ms,
                self.max_total_entries == old(self).max_total_entries,
                self.hits == old(self).hits && self.misses == old(self).misses,
                self.evictions == old(self).evictions,
                s0 == old(self)@,
            decreases src@.len(),
        {
            proof {
                assert(src@.len() == s0.len() - i);
            }
            let slot = src.remove(0);
            let ghost p = s0.subrange(0, i as int);
            proof {
                assert(slot == s0[i as int]);
                assert(s0.subrange(0, i + 1) =~= p.push(slot));
                p.lemma_filter_push(slot, not_etag(k@));
                p.lemma_filter_push(slot, has_etag(k@));
            }
            if slot.etag == *k {
                let ghost before = taken@;
                taken.push(slot.entry);
                proof {
                    assert(taken@ =~= p.push(slot).filter(has_etag(k@)).map_values(entry_of()));
                }
            } else {
                self.slots.push(slot);
            }
            i = i + 1;
            proof {
                assert(src@ =~= s0.subrange(i as int, s0.len() as int));
            }
        }
        proof {
            assert(s0.subrange(0, s0.len() as int) =~= s0);
        }
        taken
    }
}

/// Whether `a` comes no later than `b` in an etag's records: a larger ticket first, then a later
/// time first.
pub open spec fn entry_ge(a: EtdrCacheEntry, b: EtdrCacheEntry) -> bool {
    a.etdr.ticket_id > b.etdr.ticket_id || (a.etdr.ticket_id == b.etdr.ticket_id && a.created_at >= b.created_at)
}

/// The records are ordered by ticket, largest first, then by time, latest first.
pub open spec fn sorted_desc(s: Seq<EtdrCacheEntry>) -> bool {
    forall|i: int, j: int| 0 <= i < j < s.len() ==> entry_ge(s[i], s[j])
}

fn entry_ge_exec(a: &EtdrCacheEntry, b: &EtdrCacheEntry) -> (r: bool)
    ensures
        r == entry_ge(*a, *b),
{
    a.etdr.ticket_id > b.etdr.ticket_id || (a.etdr.ticket_id == b.etdr.ticket_id && a.created_at >= b.created_at)
}

/// The records of `v` ordered by [`entry_ge`] (records that compare equal keep their order).
fn sort_entries(v: Vec<EtdrCacheEntry>) -> (r: Vec<EtdrCacheEntry>)
    ensures
        sorted_desc(r@),
        r@.to_multiset() == v@.to_multiset(),
{
    broadcast use vstd::multiset::group_multiset_axioms;
    let ghost v0 = v@;
    let mut src = v;
    let mut res: Vec<EtdrCacheEntry> = Vec::new();
    let n = src.len();
    let mut i: usize = 0;
    proof {
        vstd::seq_lib::lemma_multiset_commutative(Seq::<EtdrCacheEntry>::empty(), v0);
        assert(Seq::<EtdrCacheEntry>::empty() + v0 =~= v0);
        assert(res@.to_multiset().add(src@.to_multiset()) =~= v0.to_multiset()) by {
            assert(res@ =~= Seq::<EtdrCacheEntry>::empty());
            vstd::seq_lib::lemma_seq_union_to_multiset_commutative(Seq::<EtdrCacheEntry>::empty(), v0);
            vstd::seq_lib::to_multiset_len(Seq::<EtdrCacheEntry>::empty());
            vstd::multiset::lemma_multiset_empty_len(Seq::<EtdrCacheEntry>::empty().to_multiset());
        }
    }
    while i < n
        invariant
            i <= n,
            src@.len() == n - i,
            sorted_desc(res@),
            res@.to_multiset().add(src@.to_multiset()) == v0.to_multiset(),
        decreases n - i,
    {
        let ghost s_before = src@;
        let e = src.remove(0);
        proof {
            vstd::seq_lib::to_multiset_remove(s_before, 0);
            s_before.to_multiset_ensures();
            assert(s_before[0] == e);
            assert(s_before.contains(e));
        }
        let mut p: usize = 0;
        while p < res.len() && entry_ge_exec(&res[p], &e)
            invariant
                p <= res@.len(),
                forall|q: int| 0 <= q < p ==> entry_ge(res@[q], e),
            decreases res@.len() - p,
        {
            p = p + 1;
        }
        let ghost r_before = res@;
        res.insert(p, e);
        proof {
            vstd::seq_lib::to_multiset_insert(r_before, p as int, e);
            assert forall|a: int, b: int| 0 <= a < b < res@.len() implies entry_ge(res@[a], res@[b]) by {
                if a < p && b == p {
                } else if a < p && b > p {
                    assert(res@[b] == r_before[b - 1]);
                } else if a == p && b > p {
                    assert(res@[b] == r_before[b - 1]);
                    assert(!entry_ge(r_before[p as int], e));
                    assert(entry_ge(r_before[p as int], r_before[b - 1]) || p == b - 1);
                } else if a > p {
                    assert(res@[a] == r_before[a - 1]);
                    assert(res@[b] == r_before[b - 1]);
                } else {
                    assert(res@[a] == r_before[a]);
                    assert(res@[b] == r_before[b]);
                }
            }
            assert forall|x: EtdrCacheEntry| #[trigger] res@.to_multiset().add(src@.to_multiset()).count(x) == v0.to_multiset().count(x) by {
                assert(r_before.to_multiset().add(s_before.to_multiset()).count(x) == v0.to_multiset().count(x));
            }
            assert(res@.to_multiset().add(src@.to_multiset()) =~= v0.to_multiset());
        }
        i = i + 1;
    }
    proof {
        assert(src@ =~= Seq::<EtdrCacheEntry>::empty());
        vstd::seq_lib::to_multiset_len(src@);
        vstd::multiset::lemma_multiset_empty_len(src@.to_multiset());
        assert(res@.to_multiset().add(src@.to_multiset()) =~= res@.to_multiset());
    }
    res
}

/// The etag and ticket of a slot.
pub open spec fn slot_pair(s: EtdrSlot) -> (Seq<char>, i64) {
    (s.etag@, s.entry.etdr.ticket_id)
}

/// Whether a slot's etag and ticket are not among `vic`.
pub open spec fn not_victim(vic: Set<(Seq<char>, i64)>) -> spec_fn(EtdrSlot) -> bool {
    |s: EtdrSlot| !vic.contains(slot_pair(s))
}

/// `w` is what eviction leaves of `v` under capacity `cap`: nothing changes within the
/// capacity; beyond it some (etag, ticket) pairs are chosen, each from a record read no more
/// recently than any record that stays, every record with a chosen pair leaves, and at most
/// `cap` records stay.
pub open spec fn lru_evicted_records(v: Seq<EtdrSlot>, w: Seq<EtdrSlot>, cap: usize) -> bool {
    if v.len() <= cap {
        w == v
    } else {
        exists|vic: Set<(Seq<char>, i64)>| #![trigger v.filter(not_victim(vic))] {
            &&& w == v.filter(not_victim(vic))
            &&& w.len() <= cap
            &&& forall|pr: (Seq<char>, i64)| #[trigger] vic.contains(pr) ==> exists|i: int| {
                &&& 0 <= i < v.len()
                &&& slot_pair(#[trigger] v[i]) == pr
                &&& forall|j: int| 0 <= j < v.len() && !vic.contains(slot_pair(#[trigger] v[j])) ==> v[i].entry.last_access <= v[j].entry.last_access
            }
        }
    }
}

/// `a + n` modulo 2^64.
pub open spec fn wrap_add_u64(a: u64, n: int) -> u64 {
    ((a + n) % 0x1_0000_0000_0000_0000) as u64
}

/// `a + n` modulo 2^64.
fn wrapping_add_count(a: u64, n: usize) -> (r: u64)
    ensures
        r == wrap_add_u64(a, n as int),
{
    let x: u128 = (a as u128) + (n as u128);
    (x % 0x1_0000_0000_0000_0000u128) as u64
}

impl ETDRCache {
    /// Beyond the total capacity, evicts the least recently read records: the excess number of
    /// records is chosen in order of last read, and every record sharing etag and ticket with a
    /// chosen one leaves. The eviction counter grows by the excess.
    fn evict_if_needed(&mut self)
        ensures
            lru_evicted_records(old(self)@, final(self)@, old(self).max_total_entries),
            final(self).evictions == if old(self)@.len() > old(self).max_total_entries {
                wrap_add_u64(old(self).evictions, old(self)@.len() - old(self).max_total_entries)
            } else {
                old(self).evictions
            },
            final(self).max_entries_per_etag == old(self).max_entries_per_etag,
            final(self).default_ttl_ms == old(self).default_ttl_ms,
            final(self).max_total_entries == old(self).max_total_entries,
            final(self).hits == old(self).hits && final(self).misses == old(self).misses,
    {
        let total = self.slots.len();
        if total <= self.max_total_entries {
            return;
        }
        let to_remove = total - self.max_total_entries;
        let ghost s0 = self.slots@;
        let mut chosen: Vec<bool> = Vec::new();
        let mut q: usize = 0;
        while q < total
            invariant
                q <= total,
                chosen@.len() == q,
                forall|a: int| 0 <= a < q ==> !chosen@[a],
            decreases total - q,
        {
            chosen.push(false);
            q = q + 1;
        }
        let mut victims: Vec<usize> = Vec::new();
        let mut r: usize = 0;
        proof {
            assert(victims@.to_set() =~= Set::<usize>::empty());
        }
        while r < to_remove
            invariant
                self.slots@ == s0,
                total == s0.len(),
                to_remove <= total,
                r <= to_remove,
                chosen@.len() == total,
                victims@.len() == r,
                victims@.no_duplicates(),
                forall|k: int| 0 <= k < victims@.len() ==> #[trigger] victims@[k] < total,
                forall|a: int| 0 <= a < total ==> (#[trigger] chosen@[a] <==> victims@.contains(a as usize)),
                forall|a: int, b: int| 0 <= a < total && 0 <= b < total && chosen@[a] && !chosen@[b]
                    ==> s0[a].entry.last_access <= s0[b].entry.last_access,
            decreases to_remove - r,
        {
            proof {
                if forall|a: int| 0 <= a < total ==> #[trigger] chosen@[a] {
                    let f = |b: usize| b as int;
                    let vs = victims@.to_set().map(f);
                    victims@.unique_seq_to_set();
                    vstd::set_lib::lemma_map_size(victims@.to_set(), vs, f);
                    let ir = vstd::set_lib::set_int_range(0, total as int);
                    vstd::set_lib::lemma_int_range(0, total as int);
                    assert forall|a: int| ir.contains(a) implies vs.contains(a) by {
                        assert(chosen@[a]);
                        assert(victims@.to_set().contains(a as usize));
                        assert(f(a as usize) == a);
                    }
                    vstd::set_lib::lemma_len_subset(ir, vs);
                    assert(false);
                }
            }
            let mut best: usize = total;
            let mut j: usize = 0;
            while j < total
                invariant
                    self.slots@ == s0,
                    total == s0.len(),
                    chosen@.len() == total,
                    j <= total,
                    best == total ==> forall|a: int| 0 <= a < j ==> #[trigger] chosen@[a],
                    best < total ==> best < j && !chosen@[best as int]
                        && forall|a: int| 0 <= a < j && !#[trigger] chosen@[a] ==> s0[best as int].entry.last_access <= s0[a].entry.last_access,
                    best <= total,
                decreases total - j,
            {
                if !chosen[j] && (best == total || self.slots[j].entry.last_access < self.slots[best].entry.last_access) {
                    best = j;
                }
                j = j + 1;
            }
            proof {
                if best == total {
                    let a = choose|a: int| 0 <= a < total && !#[trigger] chosen@[a];
                }
            }
            let ghost c_before = chosen@;
            let ghost v_before = victims@;
            chosen.set(best, true);
            victims.push(best);
            proof {
                assert forall|a: int| 0 <= a < total implies (#[trigger] chosen@[a] <==> victims@.contains(a as usize)) by {
                    if a == best {
                        assert(victims@[victims@.len() - 1] == best);
                    } else {
                        assert(chosen@[a] == c_before[a]);
                        if victims@.contains(a as usize) {
                            let k = choose|k: int| 0 <= k < victims@.len() && victims@[k] == a as usize;
                            assert(k < victims@.len() - 1);
                            assert(v_before[k] == a as usize);
                        }
                        if c_before[a] {
                            assert(v_before.contains(a as usize));
                            let k = choose|k: int| 0 <= k < v_before.len() && v_before[k] == a as usize;
                            assert(victims@[k] == a as usize);
                        }
                    }
                }
                assert forall|x: int, y: int| 0 <= x < y < victims@.len() implies victims@[x] != victims@[y] by {
                    if y == victims@.len() - 1 {
                        assert(!c_before[best as int]);
                        assert(v_before[x] == victims@[x]);
                        if victims@[x] == best {
                            assert(v_before.contains(best));
                        }
                    }
                }
            }
            r = r + 1;
        }
        let ghost vic = Set::new(|pr: (Seq<char>, i64)| exists|k: int| 0 <= k < victims@.len() && slot_pair(s0[victims@[k] as int]) == pr);
        let mut keep: Vec<bool> = Vec::new();
        let mut j: usize = 0;
        while j < total
            invariant
                self.slots@ == s0,
                total == s0.len(),
                j <= total,
                keep@.len() == j,
                forall|k: int| 0 <= k < victims@.len() ==> #[trigger] victims@[k] < total,
                vic == Set::new(|pr: (Seq<char>, i64)| exists|k: int| 0 <= k < victims@.len() && slot_pair(s0[victims@[k] as int]) == pr),
                forall|a: int| 0 <= a < j ==> (#[trigger] keep@[a] <==> !vic.contains(slot_pair(s0[a]))),
            decreases total - j,
        {
            let mut hit = false;
            let mut k: usize = 0;
            while k < victims.len()
                invariant
                    self.slots@ == s0,
                    total == s0.len(),
                    j < total,
                    k <= victims@.len(),
                    forall|k2: int| 0 <= k2 < victims@.len() ==> #[trigger] victims@[k2] < total,
                    hit <==> exists|k2: int| 0 <= k2 < k && slot_pair(s0[victims@[k2] as int]) == slot_pair(s0[j as int]),
                decreases victims@.len() - k,
            {
                let p = victims[k];
                if self.slots[p].etag == self.slots[j].etag && self.slots[p].entry.etdr.ticket_id == self.slots[j].entry.etdr.ticket_id {
                    hit = true;
                }
                k = k + 1;
            }
            keep.push(!hit);
            j = j + 1;
        }
        let mut src: Vec<EtdrSlot> = Vec::new();
        std::mem::swap(&mut src, &mut self.slots);
        let mut i: usize = 0;
        let ghost mut kept_pos: Set<int> = Set::empty();
        proof {
            reveal(Seq::filter);
            assert(s0.subrange(0, 0) =~= Seq::<EtdrSlot>::empty());
        }
        while i < total
            invariant
                total == s0.len(),
                i <= total,
                src@ == s0.subrange(i as int, total as int),
                keep@.len() == total,
                forall|a: int| 0 <= a < total ==> (#[trigger] keep@[a] <==> !vic.contains(slot_pair(s0[a]))),
                self.slots@ == s0.subrange(0, i as int).filter(not_victim(vic)),
                kept_pos.finite(),
                kept_pos.len() == self.slots@.len(),
                forall|a: int| #[trigger] kept_pos.contains(a) ==> 0 <= a < i && !chosen@[a],
                forall|a: int| 0 <= a < total ==> (#[trigger] chosen@[a] <==> victims@.contains(a as usize)),
                vic == Set::new(|pr: (Seq<char>, i64)| exists|k: int| 0 <= k < victims@.len() && slot_pair(s0[victims@[k] as int]) == pr),
                chosen@.len() == total,
                self.max_entries_per_etag == old(self).max_entries_per_etag,
                self.default_ttl_ms == old(self).default_ttl_ms,
                self.max_total_entries == old(self).max_total_entries,
                self.hits == old(self).hits && self.misses == old(self).misses,
                self.evictions == old(self).evictions,
            decreases total - i,
        {
            proof {
                assert(src@.len() == total - i);
            }
            let slot = src.remove(0);
            let ghost pfx = s0.subrange(0, i as int);
            proof {
                assert(slot == s0[i as int]);
                assert(s0.subrange(0, i + 1) =~= pfx.push(slot));
                pfx.lemma_filter_push(slot, not_victim(vic));
            }
            if keep[i] {
                proof {
                    if chosen@[i as int] {
                        let k = choose|k: int| 0 <= k < victims@.len() && victims@[k] == i as usize;
                        assert(vic.contains(slot_pair(s0[victims@[k] as int])));
                    }
                    kept_pos = kept_pos.insert(i as int);
                }
                self.slots.push(slot);
            }
            i = i + 1;
            proof {
                assert(src@ =~= s0.subrange(i as int, total as int));
            }
        }
        proof {
            assert(s0.subrange(0, total as int) =~= s0);
            let vs = Set::new(|a: int| 0 <= a < total && chosen@[a]);
            let range = vstd::set_lib::set_int_range(0, total as int);
            vstd::set_lib::lemma_int_range(0, total as int);
            victims@.unique_seq_to_set();
            assert(vs =~= victims@.to_set().map(|a: usize| a as int)) by {
                assert forall|a: int| vs.contains(a) implies victims@.to_set().map(|b: usize| b as int).contains(a) by {
                    assert(victims@.to_set().contains(a as usize));
                }
            }
            vstd::set_lib::lemma_map_size(victims@.to_set(), vs, |b: usize| b as int);
            assert(kept_pos.subset_of(range.difference(vs)));
            vstd::set_lib::lemma_set_difference_len(range, vs);
            assert(range.intersect(vs) =~= vs);
            vstd::set_lib::lemma_len_subset(kept_pos, range.difference(vs));
            assert forall|pr: (Seq<char>, i64)| #[trigger] vic.contains(pr) implies exists|i: int| {
                &&& 0 <= i < s0.len()
                &&& slot_pair(#[trigger] s0[i]) == pr
                &&& forall|j: int| 0 <= j < s0.len() && !vic.contains(slot_pair(#[trigger] s0[j])) ==> s0[i].entry.last_access <= s0[j].entry.last_access
            } by {
                let k = choose|k: int| 0 <= k < victims@.len() && slot_pair(s0[victims@[k] as int]) == pr;
                let p = victims@[k] as int;
                assert(chosen@[p]);
                assert forall|j: int| 0 <= j < s0.len() && !vic.contains(slot_pair(#[trigger] s0[j])) implies s0[p].entry.last_access <= s0[j].entry.last_access by {
                    if chosen@[j] {
                        let k2 = choose|k2: int| 0 <= k2 < victims@.len() && victims@[k2] == j as usize;
                        assert(vic.contains(slot_pair(s0[victims@[k2] as int])));
                    }
                }
            }
        }
        self.evictions = wrapping_add_count(self.evictions, to_remove);
    }
}

/// `i` is the first position of ticket `t` in `b`.
pub open spec fn first_ticket_at(b: Seq<EtdrCacheEntry>, t: i64, i: int) -> bool {
    &&& 0 <= i < b.len()
    &&& b[i].etdr.ticket_id == t
    &&& forall|j: int| 0 <= j < i ==> #[trigger] b[j].etdr.ticket_id != t
}

/// The record stored for `etdr` when its ticket is not yet cached.
pub open spec fn fresh_record(etdr: ETDR, now: i64) -> EtdrCacheEntry {
    EtdrCacheEntry { etdr, created_at: etdr.checkin_datetime, last_access: now, access_count: 0 }
}

/// The record `old` after `etdr`, with the same ticket, replaced it.
pub open spec fn replaced_record(old: EtdrCacheEntry, etdr: ETDR, now: i64) -> EtdrCacheEntry {
    EtdrCacheEntry { etdr, created_at: etdr.checkin_datetime, last_access: now, access_count: wrap_inc(old.access_count) }
}

/// The records of an etag after storing `etdr`: a non-zero ticket already present is replaced
/// at its first position; otherwise the record goes first.
pub open spec fn bucket_after_store(b: Seq<EtdrCacheEntry>, etdr: ETDR, now: i64) -> Seq<EtdrCacheEntry> {
    if etdr.ticket_id != 0 && exists|i: int| first_ticket_at(b, etdr.ticket_id, i) {
        let i = choose|i: int| first_ticket_at(b, etdr.ticket_id, i);
        b.update(i, replaced_record(b[i], etdr, now))
    } else {
        seq![fresh_record(etdr, now)] + b
    }
}

/// `n` bounded by `cap`.
pub open spec fn at_most(n: nat, cap: usize) -> nat {
    if n <= cap { n } else { cap as nat }
}

/// `v1` is the cache `v0` after storing `etdr` at `now`, before the total bound applies: the
/// records of its etag, with `etdr` stored, ordered by [`entry_ge`] and cut to `cap`, come
/// after the records of the other etags, which stay in order.
pub open spec fn put_mid(v0: Seq<EtdrSlot>, v1: Seq<EtdrSlot>, etdr: ETDR, now: i64, cap: usize) -> bool {
    let k = normalize_seq(etdr.etag_id@);
    let b1 = bucket_after_store(bucket_of(v0, k), etdr, now);
    let rest = v0.filter(not_etag(k));
    exists|sorted: Seq<EtdrCacheEntry>| #![trigger sorted.to_multiset()] {
        &&& sorted_desc(sorted)
        &&& sorted.to_multiset() == b1.to_multiset()
        &&& v1.len() == rest.len() + at_most(b1.len(), cap)
        &&& v1.subrange(0, rest.len() as int) == rest
        &&& forall|i: int| 0 <= i < v1.len() - rest.len() ==> (#[trigger] v1[rest.len() + i]).etag@ == k
            && v1[rest.len() + i].entry == sorted[i]
    }
}

/// What storing `etdr` at `now` leaves: the record stored as [`put_mid`] says, the records cut
/// from its etag counted as evictions, then the total bound applied as
/// [`lru_evicted_records`] says, the excess counted as evictions.
pub open spec fn etdr_put_post(old: ETDRCache, new: ETDRCache, etdr: ETDR, now: i64) -> bool {
    &&& new.same_config(&old)
    &&& new.hit_count() == old.hit_count() && new.miss_count() == old.miss_count()
    &&& exists|v1: Seq<EtdrSlot>| #![trigger put_mid(old@, v1, etdr, now, old.per_etag_capacity())] {
        let b1 = bucket_after_store(bucket_of(old@, normalize_seq(etdr.etag_id@)), etdr, now);
        let ev1 = wrap_add_u64(old.eviction_count(), b1.len() - at_most(b1.len(), old.per_etag_capacity()));
        &&& put_mid(old@, v1, etdr, now, old.per_etag_capacity())
        &&& lru_evicted_records(v1, new@, old.capacity())
        &&& new.eviction_count() == if v1.len() > old.capacity() {
            wrap_add_u64(ev1, v1.len() - old.capacity())
        } else {
            ev1
        }
    }
}

impl ETDRCache {
    /// Stores `etdr` under its normalized etag at time `now` (see [`put_mid`]), counting the
    /// records cut from its etag as evictions, then applies the total bound (see
    /// [`lru_evicted_records`]).
    pub fn put_at(&mut self, etdr: ETDR, now: i64)
        ensures
            old(self).records_ordered() ==> final(self).records_ordered(),
            etdr_put_post(*old(self), *final(self), etdr, now),
    {
        let ghost e0 = etdr;
        let ghost v0 = self@;
        let k = normalize_etag(etdr.etag_id.as_str());
        let mut b = self.take_bucket(&k);
        let ghost b0 = b@;
        let t = etdr.ticket_id;
        let mut found: Option<usize> = None;
        if t != 0 {
            let mut i: usize = 0;
            while i < b.len() && found.is_none()
                invariant
                    i <= b@.len(),
                    found is None ==> forall|j: int| 0 <= j < i ==> #[trigger] b@[j].etdr.ticket_id != t,
                    found is Some ==> first_ticket_at(b@, t, found->0 as int),
                decreases b@.len() - i,
            {
                if b[i].etdr.ticket_id == t {
                    found = Some(i);
                }
                i = i + 1;
            }
        }
        let created = etdr.checkin_datetime;
        match found {
            Some(i) => {
                let c = wrapping_inc(b[i].access_count);
                let e = EtdrCacheEntry { etdr, created_at: created, last_access: now, access_count: c };
                proof {
                    assert(e == replaced_record(b0[i as int], e0, now));
                    assert(exists|i: int| first_ticket_at(b0, e0.ticket_id, i));
                    let i2 = choose|i2: int| first_ticket_at(b0, e0.ticket_id, i2);
                    assert(i2 == i as int) by {
                        if i2 < i {
                            assert(b0[i2].etdr.ticket_id != t);
                        } else if i2 > i {
                            assert(b0[i as int].etdr.ticket_id != t);
                        }
                    }
                }
                b.set(i, e);
            },
            None => {
                let e = EtdrCacheEntry { etdr, created_at: created, last_access: now, access_count: 0 };
                proof {
                    assert(!(e0.ticket_id != 0 && exists|i: int| first_ticket_at(b0, e0.ticket_id, i)));
                }
                b.insert(0, e);
                proof {
                    assert(b@ =~= seq![fresh_record(e0, now)] + b0);
                }
            },
        }
        let ghost b1 = b@;
        let mut sorted = sort_entries(b);
        let ghost srt = sorted@;
        proof {
            vstd::seq_lib::to_multiset_len(srt);
            vstd::seq_lib::to_multiset_len(b1);
        }
        if sorted.len() > self.max_entries_per_etag {
            let removed = sorted.len() - self.max_entries_per_etag;
            sorted.truncate(self.max_entries_per_etag);
            self.evictions = wrapping_add_count(self.evictions, removed);
        } else {
            proof {
                assert(wrap_add_u64(old(self).evictions, 0) == old(self).evictions) by {
                    assert((old(self).evictions + 0) % 0x1_0000_0000_0000_0000 == old(self).evictions);
                }
            }
        }
        let ghost ev1 = self.evictions;
        let ghost rest = self.slots@;
        let n = sorted.len();
        let mut j: usize = 0;
        while j < n
            invariant
                n == sorted@.len() + j,
                j <= n,
                sorted@ == srt.subrange(j as int, n as int),
                n == at_most(b1.len(), old(self).max_entries_per_etag),
                srt.len() == b1.len(),
                self.slots@.len() == rest.len() + j,
                self.slots@.subrange(0, rest.len() as int) == rest,
                forall|q: int| 0 <= q < j ==> (#[trigger] self.slots@[rest.len() + q]).etag@ == k@
                    && self.slots@[rest.len() + q].entry == srt[q],
                self.max_entries_per_etag == old(self).max_entries_per_etag,
                self.default_ttl_ms == old(self).default_ttl_ms,
                self.max_total_entries == old(self).max_total_entries,
                self.hits == old(self).hits && self.misses == old(self).misses,
                self.evictions == ev1,
            decreases n - j,
        {
            let e = sorted.remove(0);
            let ghost before = self.slots@;
            self.slots.push(EtdrSlot { etag: k.clone(), entry: e });
            proof {
                assert(self.slots@.subrange(0, rest.len() as int) =~= before.subrange(0, rest.len() as int));
                assert forall|q: int| 0 <= q < j + 1 implies (#[trigger] self.slots@[rest.len() + q]).etag@ == k@
                    && self.slots@[rest.len() + q].entry == srt[q] by {
                    if q < j {
                        assert(self.slots@[rest.len() + q] == before[rest.len() + q]);
                    }
                }
            }
            j = j + 1;
            proof {
                assert(sorted@ =~= srt.subrange(j as int, n as int));
            }
        }
        let ghost v1 = self@;
        proof {
            assert(put_mid(v0, v1, e0, now, old(self).max_entries_per_etag)) by {
                assert(srt.to_multiset() == b1.to_multiset());
            }
        }
        self.evict_if_needed();
        proof {
            lemma_put_mid_ordered(v0, v1, e0, now, old(self).max_entries_per_etag);
            lemma_evicted_keeps_order(v1, self@, old(self).max_total_entries, k@);
        }
    }

    /// Stores `etdr` now (see [`ETDRCache::put_at`]).
    pub fn put(&mut self, etdr: ETDR)
        ensures
            old(self).records_ordered() ==> final(self).records_ordered(),
            exists|now: i64| etdr_put_post(*old(self), *final(self), etdr, now),
    {
        let now = timestamp_ms();
        self.put_at(etdr, now);
    }
}

/// `p` is the first position of `v` whose slot satisfies `pred`.
pub open spec fn first_slot_at(v: Seq<EtdrSlot>, pred: spec_fn(EtdrSlot) -> bool, p: int) -> bool {
    &&& 0 <= p < v.len()
    &&& pred(v[p])
    &&& forall|j: int| 0 <= j < p ==> !pred(#[trigger] v[j])
}

/// A record of etag `k` valid at `now` (and not checked out when `open_only`).
pub open spec fn latest_pred(k: Seq<char>, now: i64, open_only: bool) -> spec_fn(EtdrSlot) -> bool {
    |s: EtdrSlot| s.etag@ == k && within_ttl(s.entry.etdr, now) && (!open_only || s.entry.etdr.toll_out == 0)
}

/// A record valid at `now` with reference transaction `r`.
pub open spec fn ref_pred(r: i64, now: i64) -> spec_fn(EtdrSlot) -> bool {
    |s: EtdrSlot| within_ttl(s.entry.etdr, now) && s.entry.etdr.ref_trans_id == r
}

/// A record valid at `now` with ticket `t`.
pub open spec fn ticket_pred(t: i64, now: i64) -> spec_fn(EtdrSlot) -> bool {
    |s: EtdrSlot| within_ttl(s.entry.etdr, now) && s.entry.etdr.ticket_id == t
}

/// A record with request `r`, valid or not.
pub open spec fn request_any_pred(r: i64) -> spec_fn(EtdrSlot) -> bool {
    |s: EtdrSlot| s.entry.etdr.request_id == r
}

/// A record with ticket `t`, valid or not.
pub open spec fn ticket_any_pred(t: i64) -> spec_fn(EtdrSlot) -> bool {
    |s: EtdrSlot| s.entry.etdr.ticket_id == t
}

/// A record of etag `k` with reference transaction `r`, valid or not.
pub open spec fn etag_ref_pred(k: Seq<char>, r: i64) -> spec_fn(EtdrSlot) -> bool {
    |s: EtdrSlot| s.etag@ == k && s.entry.etdr.ref_trans_id == r
}

/// A record valid at `now`.
pub open spec fn valid_pred(now: i64) -> spec_fn(EtdrSlot) -> bool {
    |s: EtdrSlot| within_ttl(s.entry.etdr, now)
}

/// The slot `s` after a read at `now`.
pub open spec fn touched_slot(s: EtdrSlot, now: i64) -> EtdrSlot {
    EtdrSlot { entry: EtdrCacheEntry { last_access: now, access_count: wrap_inc(s.entry.access_count), ..s.entry }, ..s }
}

impl ETDRCache {
    fn find_latest(&self, k: &String, now: i64, open_only: bool) -> (r: Option<usize>)
        ensures
            match r {
                Some(p) => first_slot_at(self@, latest_pred(k@, now, open_only), p as int),
                None => forall|j: int| 0 <= j < self@.len() ==> !latest_pred(k@, now, open_only)(#[trigger] self@[j]),
            },
    {
        let mut i: usize = 0;
        while i < self.slots.len()
            invariant
                i <= self.slots@.len(),
                forall|j: int| 0 <= j < i ==> !latest_pred(k@, now, open_only)(#[trigger] self@[j]),
            decreases self.slots@.len() - i,
        {
            if self.slots[i].etag == *k && etdr_within_ttl_at(&self.slots[i].entry.etdr, now)
                && (!open_only || self.slots[i].entry.etdr.toll_out == 0) {
                return Some(i);
            }
            i = i + 1;
        }
        None
    }

    fn find_ref(&self, r: i64, now: i64) -> (res: Option<usize>)
        ensures
            match res {
                Some(p) => first_slot_at(self@, ref_pred(r, now), p as int),
                None => forall|j: int| 0 <= j < self@.len() ==> !ref_pred(r, now)(#[trigger] self@[j]),
            },
    {
        let mut i: usize = 0;
        while i < self.slots.len()
            invariant
                i <= self.slots@.len(),
                forall|j: int| 0 <= j < i ==> !ref_pred(r, now)(#[trigger] self@[j]),
            decreases self.slots@.len() - i,
        {
            if etdr_within_ttl_at(&self.slots[i].entry.etdr, now) && self.slots[i].entry.etdr.ref_trans_id == r {
                return Some(i);
            }
            i = i + 1;
        }
        None
    }

    fn find_ticket(&self, t: i64, now: i64) -> (res: Option<usize>)
        ensures
            match res {
                Some(p) => first_slot_at(self@, ticket_pred(t, now), p as int),
                None => forall|j: int| 0 <= j < self@.len() ==> !ticket_pred(t, now)(#[trigger] self@[j]),
            },
    {
        let mut i: usize = 0;
        while i < self.slots.len()
            invariant
                i <= self.slots@.len(),
                forall|j: int| 0 <= j < i ==> !ticket_pred(t, now)(#[trigger] self@[j]),
            decreases self.slots@.len() - i,
        {
            if etdr_within_ttl_at(&self.slots[i].entry.etdr, now) && self.slots[i].entry.etdr.ticket_id == t {
                return Some(i);
            }
            i = i + 1;
        }
        None
    }

    fn find_request_any(&self, r: i64) -> (res: Option<usize>)
        ensures
            match res {
                Some(p) => first_slot_at(self@, request_any_pred(r), p as int),
                None => forall|j: int| 0 <= j < self@.len() ==> !request_any_pred(r)(#[trigger] self@[j]),
            },
    {
        let mut i: usize = 0;
        while i < self.slots.len()
            invariant
                i <= self.slots@.len(),
                forall|j: int| 0 <= j < i ==> !request_any_pred(r)(#[trigger] self@[j]),
            decreases self.slots@.len() - i,
        {
            if self.slots[i].entry.etdr.request_id == r {
                return Some(i);
            }
            i = i + 1;
        }
        None
    }

    fn find_ticket_any(&self, t: i64) -> (res: Option<usize>)
        ensures
            match res {
                Some(p) => first_slot_at(self@, ticket_any_pred(t), p as int),
                None => forall|j: int| 0 <= j < self@.len() ==> !ticket_any_pred(t)(#[trigger] self@[j]),
            },
    {
        let mut i: usize = 0;
        while i < self.slots.len()
            invariant
                i <= self.slots@.len(),
                forall|j: int| 0 <= j < i ==> !ticket_any_pred(t)(#[trigger] self@[j]),
            decreases self.slots@.len() - i,
        {
            if self.slots[i].entry.etdr.ticket_id == t {
                return Some(i);
            }
            i = i + 1;
        }
        None
    }

    fn find_etag_ref(&self, k: &String, r: i64) -> (res: Option<usize>)
        ensures
            match res {
                Some(p) => first_slot_at(self@, etag_ref_pred(k@, r), p as int),
                None => forall|j: int| 0 <= j < self@.len() ==> !etag_ref_pred(k@, r)(#[trigger] self@[j]),
            },
    {
        let mut i: usize = 0;
        while i < self.slots.len()
            invariant
                i <= self.slots@.len(),
                forall|j: int| 0 <= j < i ==> !etag_ref_pred(k@, r)(#[trigger] self@[j]),
            decreases self.slots@.len() - i,
        {
            if self.slots[i].etag == *k && self.slots[i].entry.etdr.ref_trans_id == r {
                return Some(i);
            }
            i = i + 1;
        }
        None
    }

    /// Marks the record at `p` read at `now` and returns a copy of it.
    fn touch_at(&mut self, p: usize, now: i64) -> (r: ETDR)
        requires
            p < old(self)@.len(),
        ensures
            slots_ordered(old(self)@) ==> slots_ordered(final(self)@),
            final(self)@ == old(self)@.update(p as int, touched_slot(old(self)@[p as int], now)),
            etdr_same(r, old(self)@[p as int].entry.etdr),
            final(self).max_entries_per_etag == old(self).max_entries_per_etag,
            final(self).default_ttl_ms == old(self).default_ttl_ms,
            final(self).max_total_entries == old(self).max_total_entries,
            final(self).hits == old(self).hits && final(self).misses == old(self).misses,
            final(self).evictions == old(self).evictions,
    {
        let mut s = self.slots.remove(p);
        s.entry.last_access = now;
        s.entry.access_count = wrapping_inc(s.entry.access_count);
        let r = clone_etdr(&s.entry.etdr);
        self.slots.insert(p, s);
        proof {
            assert(self.slots@ =~= old(self)@.update(p as int, touched_slot(old(self)@[p as int], now)));
            if slots_ordered(old(self)@) {
                lemma_update_keeps_order(old(self)@, p as int, touched_slot(old(self)@[p as int], now));
            }
        }
        r
    }
}

/// What a read of the latest record answers and leaves: the first matching record of the etag,
/// marked read, as a hit; otherwise nothing, as a miss.
pub open spec fn latest_post(old: ETDRCache, new: ETDRCache, pred: spec_fn(EtdrSlot) -> bool, now: i64, r: Option<ETDR>) -> bool {
    &&& new.same_config(&old)
    &&& new.eviction_count() == old.eviction_count()
    &&& match r {
        Some(e) => exists|p: int| #![trigger first_slot_at(old@, pred, p)] {
            &&& first_slot_at(old@, pred, p)
            &&& etdr_same(e, old@[p].entry.etdr)
            &&& new@ == old@.update(p, touched_slot(old@[p], now))
            &&& new.hit_count() == wrap_inc(old.hit_count()) && new.miss_count() == old.miss_count()
        },
        None => {
            &&& forall|j: int| 0 <= j < old@.len() ==> !pred(#[trigger] old@[j])
            &&& new@ == old@
            &&& new.miss_count() == wrap_inc(old.miss_count()) && new.hit_count() == old.hit_count()
        },
    }
}

/// What a lookup answers and leaves: the first matching record, marked read; otherwise nothing.
/// The counters stay.
pub open spec fn lookup_post(old: ETDRCache, new: ETDRCache, pred: spec_fn(EtdrSlot) -> bool, now: i64, r: Option<ETDR>) -> bool {
    &&& new.same_config(&old)
    &&& new.eviction_count() == old.eviction_count()
    &&& new.hit_count() == old.hit_count() && new.miss_count() == old.miss_count()
    &&& match r {
        Some(e) => exists|p: int| #![trigger first_slot_at(old@, pred, p)] {
            &&& first_slot_at(old@, pred, p)
            &&& etdr_same(e, old@[p].entry.etdr)
            &&& new@ == old@.update(p, touched_slot(old@[p], now))
        },
        None => {
            &&& forall|j: int| 0 <= j < old@.len() ==> !pred(#[trigger] old@[j])
            &&& new@ == old@
        },
    }
}

impl ETDRCache {
    /// The latest record of `etag` (normalized) valid at `now`: the first valid record of the
    /// etag, which after `put` is the one with the largest ticket.
    pub fn get_latest_checkin_at(&mut self, etag: &str, now: i64) -> (r: Option<ETDR>)
        ensures
            old(self).records_ordered() ==> final(self).records_ordered(),
            latest_post(*old(self), *final(self), latest_pred(normalize_seq(etag@), now, false), now, r),
    {
        let k = normalize_etag(etag);
        match self.find_latest(&k, now, false) {
            Some(p) => {
                let e = self.touch_at(p, now);
                self.hits = wrapping_inc(self.hits);
                Some(e)
            },
            None => {
                self.misses = wrapping_inc(self.misses);
                None
            },
        }
    }

    /// The latest record of `etag` valid now (see [`ETDRCache::get_latest_checkin_at`]).
    pub fn get_latest_checkin(&mut self, etag: &str) -> (r: Option<ETDR>)
        ensures
            old(self).records_ordered() ==> final(self).records_ordered(),
            exists|now: i64| latest_post(*old(self), *final(self), latest_pred(normalize_seq(etag@), now, false), now, r),
    {
        let now = timestamp_ms();
        self.get_latest_checkin_at(etag, now)
    }

    /// The latest record of `etag` (normalized) valid at `now` and not checked out
    /// (`toll_out == 0`).
    pub fn get_latest_checkin_without_checkout_at(&mut self, etag: &str, now: i64) -> (r: Option<ETDR>)
        ensures
            old(self).records_ordered() ==> final(self).records_ordered(),
            latest_post(*old(self), *final(self), latest_pred(normalize_seq(etag@), now, true), now, r),
    {
        let k = normalize_etag(etag);
        match self.find_latest(&k, now, true) {
            Some(p) => {
                let e = self.touch_at(p, now);
                self.hits = wrapping_inc(self.hits);
                Some(e)
            },
            None => {
                self.misses = wrapping_inc(self.misses);
                None
            },
        }
    }

    /// The latest open record of `etag` valid now (see
    /// [`ETDRCache::get_latest_checkin_without_checkout_at`]).
    pub fn get_latest_checkin_without_checkout(&mut self, etag: &str) -> (r: Option<ETDR>)
        ensures
            old(self).records_ordered() ==> final(self).records_ordered(),
            exists|now: i64| latest_post(*old(self), *final(self), latest_pred(normalize_seq(etag@), now, true), now, r),
    {
        let now = timestamp_ms();
        self.get_latest_checkin_without_checkout_at(etag, now)
    }

    /// The first record valid at `now` with reference transaction `ref_trans_id`, marked read.
    pub fn get_by_ref_trans_id_at(&mut self, ref_trans_id: i64, now: i64) -> (r: Option<ETDR>)
        ensures
            old(self).records_ordered() ==> final(self).records_ordered(),
            lookup_post(*old(self), *final(self), ref_pred(ref_trans_id, now), now, r),
    {
        match self.find_ref(ref_trans_id, now) {
            Some(p) => Some(self.touch_at(p, now)),
            None => None,
        }
    }

    /// The first record valid now with reference transaction `ref_trans_id`.
    pub fn get_by_ref_trans_id(&mut self, ref_trans_id: i64) -> (r: Option<ETDR>)
        ensures
            old(self).records_ordered() ==> final(self).records_ordered(),
            exists|now: i64| lookup_post(*old(self), *final(self), ref_pred(ref_trans_id, now), now, r),
    {
        let now = timestamp_ms();
        self.get_by_ref_trans_id_at(ref_trans_id, now)
    }

    /// The first record valid at `now` with ticket `ticket_id`, marked read.
    pub fn get_by_ticket_id_at(&mut self, ticket_id: i64, now: i64) -> (r: Option<ETDR>)
        ensures
            old(self).records_ordered() ==> final(self).records_ordered(),
            lookup_post(*old(self), *final(self), ticket_pred(ticket_id, now), now, r),
    {
        match self.find_ticket(ticket_id, now) {
            Some(p) => Some(self.touch_at(p, now)),
            None => None,
        }
    }

    /// The first record valid now with ticket `ticket_id`.
    pub fn get_by_ticket_id(&mut self, ticket_id: i64) -> (r: Option<ETDR>)
        ensures
            old(self).records_ordered() ==> final(self).records_ordered(),
            exists|now: i64| lookup_post(*old(self), *final(self), ticket_pred(ticket_id, now), now, r),
    {
        let now = timestamp_ms();
        self.get_by_ticket_id_at(ticket_id, now)
    }
}

/// The slot `s` with hub `hub` set on its record, marked read at `now` (the read count stays).
pub open spec fn hub_set_slot(s: EtdrSlot, hub: i64, now: i64) -> EtdrSlot {
    EtdrSlot { entry: EtdrCacheEntry { etdr: ETDR { hub_id: Some(hub), ..s.entry.etdr }, last_access: now, ..s.entry }, ..s }
}

/// The slot `s` with its record replaced by `e2`, marked read at `now` (the read count stays).
pub open spec fn updated_slot(s: EtdrSlot, e2: ETDR, now: i64) -> EtdrSlot {
    EtdrSlot { entry: EtdrCacheEntry { etdr: e2, last_access: now, ..s.entry }, ..s }
}

/// A record not checked out whose checkin is more than `max_age_ms` before `now` does not stay.
pub open spec fn not_stale_pred(max_age_ms: i64, now: i64) -> spec_fn(EtdrSlot) -> bool {
    |s: EtdrSlot| !(s.entry.etdr.checkout_datetime == 0 && sat_sub(now, s.entry.etdr.checkin_datetime) > max_age_ms)
}

/// A record stays unless it is under etag `k` with ticket `t`.
pub open spec fn not_etag_ticket_pred(k: Seq<char>, t: i64) -> spec_fn(EtdrSlot) -> bool {
    |s: EtdrSlot| !(s.etag@ == k && s.entry.etdr.ticket_id == t)
}

/// A record valid at `now` not yet saved to the database.
pub open spec fn unsaved_pred(now: i64) -> spec_fn(EtdrSlot) -> bool {
    |s: EtdrSlot| within_ttl(s.entry.etdr, now) && !s.entry.etdr.db_saved
}

/// The larger of a record's ticket and its operator ticket.
pub open spec fn slot_top_ticket(s: EtdrSlot) -> i64 {
    if s.entry.etdr.ticket_id >= s.entry.etdr.boo_ticket_id { s.entry.etdr.ticket_id } else { s.entry.etdr.boo_ticket_id }
}

/// `r` is the largest ticket (or operator ticket) among the records of `v` valid at `now`, and
/// `None` exactly when none is valid.
pub open spec fn max_ticket_of(v: Seq<EtdrSlot>, now: i64, r: Option<i64>) -> bool {
    &&& r is None <==> forall|j: int| 0 <= j < v.len() ==> !within_ttl((#[trigger] v[j]).entry.etdr, now)
    &&& r matches Some(m) ==> (exists|j: int| 0 <= j < v.len() && within_ttl((#[trigger] v[j]).entry.etdr, now)
        && slot_top_ticket(v[j]) == m)
        && forall|j: int| 0 <= j < v.len() && within_ttl((#[trigger] v[j]).entry.etdr, now) ==> slot_top_ticket(v[j]) <= m
}

/// `v` with every slot satisfying `pred` marked read at `now`.
pub open spec fn touch_all(v: Seq<EtdrSlot>, pred: spec_fn(EtdrSlot) -> bool, now: i64) -> Seq<EtdrSlot> {
    Seq::new(v.len(), |j: int| if pred(v[j]) { touched_slot(v[j], now) } else { v[j] })
}

enum KeepRule {
    Valid,
    NotStale(i64),
    NotEtagTicket(String, i64),
}

spec fn rule_keeps(rule: KeepRule, now: i64) -> spec_fn(EtdrSlot) -> bool {
    match rule {
        KeepRule::Valid => valid_pred(now),
        KeepRule::NotStale(a) => not_stale_pred(a, now),
        KeepRule::NotEtagTicket(k, t) => not_etag_ticket_pred(k@, t),
    }
}

fn rule_keeps_exec(rule: &KeepRule, s: &EtdrSlot, now: i64) -> (r: bool)
    ensures
        r == rule_keeps(*rule, now)(*s),
{
    match rule {
        KeepRule::Valid => etdr_within_ttl_at(&s.entry.etdr, now),
        KeepRule::NotStale(a) => !(s.entry.etdr.checkout_datetime == 0
            && saturating_sub_i64(now, s.entry.etdr.checkin_datetime) > *a),
        KeepRule::NotEtagTicket(k, t) => !(s.etag == *k && s.entry.etdr.ticket_id == *t),
    }
}

impl ETDRCache {
    /// Keeps the slots that `rule` keeps, in order.
    fn retain_rule(&mut self, rule: &KeepRule, now: i64)
        ensures
            slots_ordered(old(self)@) ==> slots_ordered(final(self)@),
            final(self)@ == old(self)@.filter(rule_keeps(*rule, now)),
            final(self).max_entries_per_etag == old(self).max_entries_per_etag,
            final(self).default_ttl_ms == old(self).default_ttl_ms,
            final(self).max_total_entries == old(self).max_total_entries,
            final(self).hits == old(self).hits && final(self).misses == old(self).misses,
            final(self).evictions == old(self).evictions,
    {
        let mut src: Vec<EtdrSlot> = Vec::new();
        std::mem::swap(&mut src, &mut self.slots);
        let ghost s0 = src@;
        let n = src.len();
        let mut i: usize = 0;
        proof {
            reveal(Seq::filter);
            assert(s0.subrange(0, 0) =~= Seq::<EtdrSlot>::empty());
        }
        while i < n
            invariant
                n == s0.len(),
                i <= n,
                src@ == s0.subrange(i as int, n as int),
                self.slots@ == s0.subrange(0, i as int).filter(rule_keeps(*rule, now)),
                s0 == old(self)@,
                self.max_entries_per_etag == old(self).max_entries_per_etag,
                self.default_ttl_ms == old(self).default_ttl_ms,
                self.max_total_entries == old(self).max_total_entries,
                self.hits == old(self).hits && self.misses == old(self).misses,
                self.evictions == old(self).evictions,
            decreases n - i,
        {
            proof {
                assert(src@.len() == n - i);
            }
            let slot = src.remove(0);
            let ghost pfx = s0.subrange(0, i as int);
            proof {
                assert(slot == s0[i as int]);
                assert(s0.subrange(0, i + 1) =~= pfx.push(slot));
                pfx.lemma_filter_push(slot, rule_keeps(*rule, now));
            }
            if rule_keeps_exec(rule, &slot, now) {
                self.slots.push(slot);
            }
            i = i + 1;
            proof {
                assert(src@ =~= s0.subrange(i as int, n as int));
            }
        }
        proof {
            assert(s0.subrange(0, n as int) =~= s0);
            if slots_ordered(s0) {
                lemma_filter_keeps_order(s0, rule_keeps(*rule, now));
            }
        }
    }

    /// Drops the records no longer valid at `now`; how many were dropped.
    pub fn cleanup_expired_at(&mut self, now: i64) -> (r: usize)
        ensures
            old(self).records_ordered() ==> final(self).records_ordered(),
            final(self)@ == old(self)@.filter(valid_pred(now)),
            r == old(self)@.len() - final(self)@.len(),
            final(self).same_config(old(self)),
            final(self).hit_count() == old(self).hit_count() && final(self).miss_count() == old(self).miss_count(),
            final(self).eviction_count() == old(self).eviction_count(),
    {
        let before = self.slots.len();
        self.retain_rule(&KeepRule::Valid, now);
        proof {
            old(self)@.filter_lemma(valid_pred(now));
        }
        before - self.slots.len()
    }

    /// Drops the records no longer valid now (see [`ETDRCache::cleanup_expired_at`]).
    pub fn cleanup_expired(&mut self) -> (r: usize)
        ensures
            old(self).records_ordered() ==> final(self).records_ordered(),
            exists|now: i64| final(self)@ == old(self)@.filter(valid_pred(now)),
            r == old(self)@.len() - final(self)@.len(),
            final(self).same_config(old(self)),
            final(self).hit_count() == old(self).hit_count() && final(self).miss_count() == old(self).miss_count(),
            final(self).eviction_count() == old(self).eviction_count(),
    {
        let now = timestamp_ms();
        self.cleanup_expired_at(now)
    }

    /// Drops the records not checked out whose checkin is more than `max_age_ms` before `now`;
    /// how many were dropped.
    pub fn cleanup_no_checkout_older_than_at(&mut self, max_age_ms: i64, now: i64) -> (r: usize)
        ensures
            old(self).records_ordered() ==> final(self).records_ordered(),
            final(self)@ == old(self)@.filter(not_stale_pred(max_age_ms, now)),
            r == old(self)@.len() - final(self)@.len(),
            final(self).same_config(old(self)),
            final(self).hit_count() == old(self).hit_count() && final(self).miss_count() == old(self).miss_count(),
            final(self).eviction_count() == old(self).eviction_count(),
    {
        let before = self.slots.len();
        self.retain_rule(&KeepRule::NotStale(max_age_ms), now);
        proof {
            old(self)@.filter_lemma(not_stale_pred(max_age_ms, now));
        }
        before - self.slots.len()
    }

    /// Drops the stale records not checked out, as of now (see
    /// [`ETDRCache::cleanup_no_checkout_older_than_at`]).
    pub fn cleanup_no_checkout_older_than(&mut self, max_age_ms: i64) -> (r: usize)
        ensures
            old(self).records_ordered() ==> final(self).records_ordered(),
            exists|now: i64| final(self)@ == old(self)@.filter(not_stale_pred(max_age_ms, now)),
            r == old(self)@.len() - final(self)@.len(),
            final(self).same_config(old(self)),
            final(self).hit_count() == old(self).hit_count() && final(self).miss_count() == old(self).miss_count(),
            final(self).eviction_count() == old(self).eviction_count(),
    {
        let now = timestamp_ms();
        self.cleanup_no_checkout_older_than_at(max_age_ms, now)
    }

    /// Removes every record of `etag` (normalized); whether it had any.
    pub fn remove_etag(&mut self, etag: &str) -> (r: bool)
        ensures
            old(self).records_ordered() ==> final(self).records_ordered(),
            final(self)@ == old(self)@.filter(not_etag(normalize_seq(etag@))),
            r == exists|j: int| 0 <= j < old(self)@.len() && (#[trigger] old(self)@[j]).etag@ == normalize_seq(etag@),
            final(self).same_config(old(self)),
            final(self).hit_count() == old(self).hit_count() && final(self).miss_count() == old(self).miss_count(),
            final(self).eviction_count() == old(self).eviction_count(),
    {
        let k = normalize_etag(etag);
        let b = self.take_bucket(&k);
        proof {
            if slots_ordered(old(self)@) {
                lemma_filter_keeps_order(old(self)@, not_etag(k@));
            }
            let v = old(self)@;
            let f = v.filter(has_etag(k@));
            v.filter_lemma(has_etag(k@));
            if exists|j: int| 0 <= j < v.len() && (#[trigger] v[j]).etag@ == k@ {
                let j = choose|j: int| 0 <= j < v.len() && (#[trigger] v[j]).etag@ == k@;
                assert(has_etag(k@)(v[j]));
                assert(f.contains(v[j]));
            }
            if f.len() > 0 {
                assert(has_etag(k@)(f[0]));
                assert(f.contains(f[0]));
                v.lemma_filter_contains_rev(has_etag(k@), f[0]);
                let j = choose|j: int| 0 <= j < v.len() && v[j] == f[0];
                assert(v[j].etag@ == k@);
            }
        }
        b.len() > 0
    }

    /// Removes the records with ticket `ticket_id` under the etag of the first record holding
    /// that ticket; whether there was one. Ticket 0 removes nothing.
    pub fn remove_by_ticket_id(&mut self, ticket_id: i64) -> (r: bool)
        ensures
            old(self).records_ordered() ==> final(self).records_ordered(),
            ticket_id == 0 ==> !r && final(self)@ == old(self)@,
            ticket_id != 0 ==> r == exists|j: int| 0 <= j < old(self)@.len() && (#[trigger] old(self)@[j]).entry.etdr.ticket_id == ticket_id,
            r ==> exists|p: int| #![trigger first_slot_at(old(self)@, ticket_any_pred(ticket_id), p)]
                first_slot_at(old(self)@, ticket_any_pred(ticket_id), p)
                && final(self)@ == old(self)@.filter(not_etag_ticket_pred(old(self)@[p].etag@, ticket_id)),
            !r ==> final(self)@ == old(self)@,
            final(self).same_config(old(self)),
            final(self).hit_count() == old(self).hit_count() && final(self).miss_count() == old(self).miss_count(),
            final(self).eviction_count() == old(self).eviction_count(),
    {
        if ticket_id == 0 {
            return false;
        }
        match self.find_ticket_any(ticket_id) {
            Some(p) => {
                let k = self.slots[p].etag.clone();
                proof {
                    assert(ticket_any_pred(ticket_id)(self@[p as int]));
                }
                self.retain_rule(&KeepRule::NotEtagTicket(k, ticket_id), 0);
                true
            },
            None => {
                proof {
                    assert forall|j: int| 0 <= j < old(self)@.len() implies (#[trigger] old(self)@[j]).entry.etdr.ticket_id != ticket_id by {
                        assert(!ticket_any_pred(ticket_id)(old(self)@[j]));
                    }
                }
                false
            },
        }
    }
}

/// What setting the hub of the first record satisfying `pred` leaves: that record gets the hub
/// and is marked read at `now`; `r` says whether there was one.
pub open spec fn hub_post(old: ETDRCache, new: ETDRCache, pred: spec_fn(EtdrSlot) -> bool, hub: i64, now: i64, r: bool) -> bool {
    &&& new.same_config(&old)
    &&& new.hit_count() == old.hit_count() && new.miss_count() == old.miss_count()
    &&& new.eviction_count() == old.eviction_count()
    &&& r == exists|j: int| 0 <= j < old@.len() && pred(#[trigger] old@[j])
    &&& r ==> exists|p: int| #![trigger first_slot_at(old@, pred, p)]
        first_slot_at(old@, pred, p) && new@ == old@.update(p, hub_set_slot(old@[p], hub, now))
    &&& !r ==> new@ == old@
}

impl ETDRCache {
    fn set_hub_at(&mut self, p: usize, hub_id: i64, now: i64)
        requires
            p < old(self)@.len(),
        ensures
            slots_ordered(old(self)@) ==> slots_ordered(final(self)@),
            final(self)@ == old(self)@.update(p as int, hub_set_slot(old(self)@[p as int], hub_id, now)),
            final(self).max_entries_per_etag == old(self).max_entries_per_etag,
            final(self).default_ttl_ms == old(self).default_ttl_ms,
            final(self).max_total_entries == old(self).max_total_entries,
            final(self).hits == old(self).hits && final(self).misses == old(self).misses,
            final(self).evictions == old(self).evictions,
    {
        let mut s = self.slots.remove(p);
        s.entry.etdr.hub_id = Some(hub_id);
        s.entry.last_access = now;
        self.slots.insert(p, s);
        proof {
            assert(self.slots@ =~= old(self)@.update(p as int, hub_set_slot(old(self)@[p as int], hub_id, now)));
            if slots_ordered(old(self)@) {
                lemma_update_keeps_order(old(self)@, p as int, hub_set_slot(old(self)@[p as int], hub_id, now));
            }
        }
    }

    /// Sets hub `hub_id` on the first record with request `request_id`, marking it read at `now`;
    /// whether there was one.
    pub fn update_hub_id_by_request_id_at(&mut self, request_id: i64, hub_id: i64, now: i64) -> (r: bool)
        ensures
            old(self).records_ordered() ==> final(self).records_ordered(),
            hub_post(*old(self), *final(self), request_any_pred(request_id), hub_id, now, r),
    {
        match self.find_request_any(request_id) {
            Some(p) => {
                self.set_hub_at(p, hub_id, now);
                true
            },
            None => false,
        }
    }

    /// Sets hub `hub_id` on the first record with request `request_id`, as of now.
    pub fn update_hub_id_by_request_id(&mut self, request_id: i64, hub_id: i64) -> (r: bool)
        ensures
            old(self).records_ordered() ==> final(self).records_ordered(),
            exists|now: i64| hub_post(*old(self), *final(self), request_any_pred(request_id), hub_id, now, r),
    {
        let now = timestamp_ms();
        self.update_hub_id_by_request_id_at(request_id, hub_id, now)
    }

    /// Sets hub `hub_id` on the first record with ticket `ticket_id`, marking it read at `now`;
    /// whether there was one.
    pub fn update_hub_id_by_ticket_id_at(&mut self, ticket_id: i64, hub_id: i64, now: i64) -> (r: bool)
        ensures
            old(self).records_ordered() ==> final(self).records_ordered(),
            hub_post(*old(self), *final(self), ticket_any_pred(ticket_id), hub_id, now, r),
    {
        match self.find_ticket_any(ticket_id) {
            Some(p) => {
                self.set_hub_at(p, hub_id, now);
                true
            },
            None => false,
        }
    }

    /// Sets hub `hub_id` on the first record with ticket `ticket_id`, as of now.
    pub fn update_hub_id_by_ticket_id(&mut self, ticket_id: i64, hub_id: i64) -> (r: bool)
        ensures
            old(self).records_ordered() ==> final(self).records_ordered(),
            exists|now: i64| hub_post(*old(self), *final(self), ticket_any_pred(ticket_id), hub_id, now, r),
    {
        let now = timestamp_ms();
        self.update_hub_id_by_ticket_id_at(ticket_id, hub_id, now)
    }

    /// Replaces the first record of `etag` (normalized) with reference transaction
    /// `ref_trans_id` by what `updater` makes of it, marking it read at `now`; whether there was
    /// one.
    pub fn update_etdr_at<F: FnOnce(ETDR) -> ETDR>(&mut self, etag: &str, ref_trans_id: i64, updater: F, now: i64) -> (r: bool)
        requires
            forall|e: ETDR| #[trigger] updater.requires((e,)),
        ensures
            old(self).records_ordered() && (forall|e: ETDR, e2: ETDR| #[trigger] updater.ensures((e,), e2) ==> e2.ticket_id == e.ticket_id)
                ==> final(self).records_ordered(),
            final(self).same_config(old(self)),
            final(self).hit_count() == old(self).hit_count() && final(self).miss_count() == old(self).miss_count(),
            final(self).eviction_count() == old(self).eviction_count(),
            r == exists|j: int| 0 <= j < old(self)@.len() && etag_ref_pred(normalize_seq(etag@), ref_trans_id)(#[trigger] old(self)@[j]),
            r ==> exists|p: int, e2: ETDR| #![trigger first_slot_at(old(self)@, etag_ref_pred(normalize_seq(etag@), ref_trans_id), p), updater.ensures((old(self)@[p].entry.etdr,), e2)] {
                &&& first_slot_at(old(self)@, etag_ref_pred(normalize_seq(etag@), ref_trans_id), p)
                &&& updater.ensures((old(self)@[p].entry.etdr,), e2)
                &&& final(self)@ == old(self)@.update(p, updated_slot(old(self)@[p], e2, now))
            },
            !r ==> final(self)@ == old(self)@,
    {
        let k = normalize_etag(etag);
        match self.find_etag_ref(&k, ref_trans_id) {
            Some(p) => {
                let mut s = self.slots.remove(p);
                let mut e = ETDR::new();
                std::mem::swap(&mut e, &mut s.entry.etdr);
                let ghost e_old = e;
                let e2 = updater(e);
                s.entry.etdr = e2;
                s.entry.last_access = now;
                self.slots.insert(p, s);
                proof {
                    assert(e_old == old(self)@[p as int].entry.etdr);
                    assert(self.slots@ =~= old(self)@.update(p as int, updated_slot(old(self)@[p as int], e2, now)));
                    if slots_ordered(old(self)@) && (forall|e: ETDR, e3: ETDR| #[trigger] updater.ensures((e,), e3) ==> e3.ticket_id == e.ticket_id) {
                        assert(updater.ensures((e_old,), e2));
                        lemma_update_keeps_order(old(self)@, p as int, self.slots@[p as int]);
                    }
                }
                true
            },
            None => false,
        }
    }

    /// Replaces the matching record by what `updater` makes of it, as of now (see
    /// [`ETDRCache::update_etdr_at`]).
    pub fn update_etdr<F: FnOnce(ETDR) -> ETDR>(&mut self, etag: &str, ref_trans_id: i64, updater: F) -> (r: bool)
        requires
            forall|e: ETDR| #[trigger] updater.requires((e,)),
        ensures
            old(self).records_ordered() && (forall|e: ETDR, e2: ETDR| #[trigger] updater.ensures((e,), e2) ==> e2.ticket_id == e.ticket_id)
                ==> final(self).records_ordered(),
            final(self).same_config(old(self)),
            final(self).hit_count() == old(self).hit_count() && final(self).miss_count() == old(self).miss_count(),
            final(self).eviction_count() == old(self).eviction_count(),
            r == exists|j: int| 0 <= j < old(self)@.len() && etag_ref_pred(normalize_seq(etag@), ref_trans_id)(#[trigger] old(self)@[j]),
            r ==> exists|now: i64, p: int, e2: ETDR| #![trigger updated_slot(old(self)@[p], e2, now)] {
                &&& first_slot_at(old(self)@, etag_ref_pred(normalize_seq(etag@), ref_trans_id), p)
                &&& updater.ensures((old(self)@[p].entry.etdr,), e2)
                &&& final(self)@ == old(self)@.update(p, updated_slot(old(self)@[p], e2, now))
            },
            !r ==> final(self)@ == old(self)@,
    {
        let now = timestamp_ms();
        self.update_etdr_at(etag, ref_trans_id, updater, now)
    }

    /// The records of `etag` (normalized) valid at `now`, in order, each marked read.
    pub fn get_all_by_etag_at(&mut self, etag: &str, now: i64) -> (r: Vec<ETDR>)
        ensures
            old(self).records_ordered() ==> final(self).records_ordered(),
            ({
                let f = old(self)@.filter(latest_pred(normalize_seq(etag@), now, false));
                &&& r@.len() == f.len()
                &&& forall|i: int| 0 <= i < f.len() ==> etdr_same(#[trigger] r@[i], f[i].entry.etdr)
            }),
            final(self)@ == touch_all(old(self)@, latest_pred(normalize_seq(etag@), now, false), now),
            final(self).same_config(old(self)),
            final(self).hit_count() == old(self).hit_count() && final(self).miss_count() == old(self).miss_count(),
            final(self).eviction_count() == old(self).eviction_count(),
    {
        let k = normalize_etag(etag);
        let ghost pred = latest_pred(k@, now, false);
        let ghost v0 = self@;
        let mut out: Vec<ETDR> = Vec::new();
        let n = self.slots.len();
        let mut j: usize = 0;
        proof {
            reveal(Seq::filter);
            assert(v0.subrange(0, 0) =~= Seq::<EtdrSlot>::empty());
        }
        while j < n
            invariant
                n == v0.len(),
                j <= n,
                pred == latest_pred(k@, now, false),
                self@.len() == n,
                forall|q: int| 0 <= q < n ==> #[trigger] self@[q] == if q < j && pred(v0[q]) { touched_slot(v0[q], now) } else { v0[q] },
                out@.len() == v0.subrange(0, j as int).filter(pred).len(),
                forall|i: int| 0 <= i < out@.len() ==> etdr_same(#[trigger] out@[i], v0.subrange(0, j as int).filter(pred)[i].entry.etdr),
                self.max_entries_per_etag == old(self).max_entries_per_etag,
                self.default_ttl_ms == old(self).default_ttl_ms,
                self.max_total_entries == old(self).max_total_entries,
                self.hits == old(self).hits && self.misses == old(self).misses,
                self.evictions == old(self).evictions,
                v0 == old(self)@,
            decreases n - j,
        {
            let ghost pfx = v0.subrange(0, j as int);
            proof {
                assert(self@[j as int] == v0[j as int]);
                assert(v0.subrange(0, j + 1) =~= pfx.push(v0[j as int]));
                pfx.lemma_filter_push(v0[j as int], pred);
            }
            if self.slots[j].etag == k && etdr_within_ttl_at(&self.slots[j].entry.etdr, now) {
                let ghost before = self@;
                let e = self.touch_at(j, now);
                out.push(e);
                proof {
                    assert forall|q: int| 0 <= q < n implies #[trigger] self@[q] == if q < j + 1 && pred(v0[q]) { touched_slot(v0[q], now) } else { v0[q] } by {
                        if q != j {
                            assert(self@[q] == before[q]);
                        }
                    }
                    assert forall|i: int| 0 <= i < out@.len() implies etdr_same(#[trigger] out@[i], v0.subrange(0, j + 1).filter(pred)[i].entry.etdr) by {
                        if i < out@.len() - 1 {
                            assert(out@[i] == out@.drop_last()[i]);
                        }
                    }
                }
            }
            j = j + 1;
        }
        proof {
            assert(v0.subrange(0, n as int) =~= v0);
            assert(self@ =~= touch_all(v0, pred, now));
            if slots_ordered(v0) {
                lemma_same_keys_ordered(v0, self@);
            }
        }
        out
    }

    /// The records of `etag` valid now, each marked read (see [`ETDRCache::get_all_by_etag_at`]).
    pub fn get_all_by_etag(&mut self, etag: &str) -> (r: Vec<ETDR>)
        ensures
            old(self).records_ordered() ==> final(self).records_ordered(),
            exists|now: i64| #![trigger latest_pred(normalize_seq(etag@), now, false)] {
                let f = old(self)@.filter(latest_pred(normalize_seq(etag@), now, false));
                &&& r@.len() == f.len()
                &&& forall|i: int| 0 <= i < f.len() ==> etdr_same(#[trigger] r@[i], f[i].entry.etdr)
                &&& final(self)@ == touch_all(old(self)@, latest_pred(normalize_seq(etag@), now, false), now)
            },
            final(self).same_config(old(self)),
            final(self).hit_count() == old(self).hit_count() && final(self).miss_count() == old(self).miss_count(),
            final(self).eviction_count() == old(self).eviction_count(),
    {
        let now = timestamp_ms();
        self.get_all_by_etag_at(etag, now)
    }

    /// The largest ticket (or operator ticket) among the records valid at `now`; `None` when
    /// no record is valid.
    pub fn get_max_ticket_id_at(&self, now: i64) -> (r: Option<i64>)
        ensures
            max_ticket_of(self@, now, r),
            r is None <==> forall|j: int| 0 <= j < self@.len() ==> !within_ttl((#[trigger] self@[j]).entry.etdr, now),
            r matches Some(m) ==> (exists|j: int| 0 <= j < self@.len() && within_ttl((#[trigger] self@[j]).entry.etdr, now)
                && slot_top_ticket(self@[j]) == m)
                && forall|j: int| 0 <= j < self@.len() && within_ttl((#[trigger] self@[j]).entry.etdr, now)
                    ==> slot_top_ticket(self@[j]) <= m,
    {
        let mut best: Option<i64> = None;
        let mut j: usize = 0;
        while j < self.slots.len()
            invariant
                j <= self@.len(),
                best is None <==> forall|q: int| 0 <= q < j ==> !within_ttl((#[trigger] self@[q]).entry.etdr, now),
                best matches Some(m) ==> (exists|q: int| 0 <= q < j && within_ttl((#[trigger] self@[q]).entry.etdr, now)
                    && slot_top_ticket(self@[q]) == m)
                    && forall|q: int| 0 <= q < j && within_ttl((#[trigger] self@[q]).entry.etdr, now)
                        ==> slot_top_ticket(self@[q]) <= m,
            decreases self@.len() - j,
        {
            if etdr_within_ttl_at(&self.slots[j].entry.etdr, now) {
                let tid = self.slots[j].entry.etdr.ticket_id;
                let boo = self.slots[j].entry.etdr.boo_ticket_id;
                let cur = if tid >= boo { tid } else { boo };
                proof {
                    assert(cur == slot_top_ticket(self@[j as int]));
                }
                best = match best {
                    Some(m) => if m >= cur { Some(m) } else { Some(cur) },
                    None => Some(cur),
                };
            }
            j = j + 1;
        }
        best
    }

    /// The largest ticket among the records valid now (see [`ETDRCache::get_max_ticket_id_at`]).
    pub fn get_max_ticket_id(&self) -> (r: Option<i64>)
        ensures
            exists|now: i64| max_ticket_of(self@, now, r),
    {
        let now = timestamp_ms();
        self.get_max_ticket_id_at(now)
    }

    /// The records valid at `now` not yet saved to the database, each with its etag and time.
    pub fn get_all_unsaved_etdrs_at(&self, now: i64) -> (r: Vec<(String, ETDR, i64)>)
        ensures
            ({
                let f = self@.filter(unsaved_pred(now));
                &&& r@.len() == f.len()
                &&& forall|i: int| 0 <= i < f.len() ==> (#[trigger] r@[i]).0@ == f[i].etag@
                    && etdr_same(r@[i].1, f[i].entry.etdr) && r@[i].2 == f[i].entry.created_at
            }),
    {
        let ghost v0 = self@;
        let mut out: Vec<(String, ETDR, i64)> = Vec::new();
        let n = self.slots.len();
        let mut j: usize = 0;
        proof {
            reveal(Seq::filter);
            assert(v0.subrange(0, 0) =~= Seq::<EtdrSlot>::empty());
        }
        while j < n
            invariant
                n == v0.len(),
                v0 == self@,
                j <= n,
                out@.len() == v0.subrange(0, j as int).filter(unsaved_pred(now)).len(),
                forall|i: int| 0 <= i < out@.len() ==> (#[trigger] out@[i]).0@ == v0.subrange(0, j as int).filter(unsaved_pred(now))[i].etag@
                    && etdr_same(out@[i].1, v0.subrange(0, j as int).filter(unsaved_pred(now))[i].entry.etdr)
                    && out@[i].2 == v0.subrange(0, j as int).filter(unsaved_pred(now))[i].entry.created_at,
            decreases n - j,
        {
            let ghost pfx = v0.subrange(0, j as int);
            proof {
                assert(v0.subrange(0, j + 1) =~= pfx.push(v0[j as int]));
                pfx.lemma_filter_push(v0[j as int], unsaved_pred(now));
            }
            if etdr_within_ttl_at(&self.slots[j].entry.etdr, now) && !self.slots[j].entry.etdr.db_saved {
                let item = (self.slots[j].etag.clone(), clone_etdr(&self.slots[j].entry.etdr), self.slots[j].entry.created_at);
                out.push(item);
                proof {
                    assert forall|i: int| 0 <= i < out@.len() implies (#[trigger] out@[i]).0@ == v0.subrange(0, j + 1).filter(unsaved_pred(now))[i].etag@
                        && etdr_same(out@[i].1, v0.subrange(0, j + 1).filter(unsaved_pred(now))[i].entry.etdr)
                        && out@[i].2 == v0.subrange(0, j + 1).filter(unsaved_pred(now))[i].entry.created_at by {
                        if i < out@.len() - 1 {
                            assert(out@[i] == out@.drop_last()[i]);
                        }
                    }
                }
            }
            j = j + 1;
        }
        proof {
            assert(v0.subrange(0, n as int) =~= v0);
        }
        out
    }

    /// The unsaved records valid now (see [`ETDRCache::get_all_unsaved_etdrs_at`]).
    pub fn get_all_unsaved_etdrs(&self) -> (r: Vec<(String, ETDR, i64)>)
        ensures
            exists|now: i64| #![trigger unsaved_pred(now)] {
                let f = self@.filter(unsaved_pred(now));
                &&& r@.len() == f.len()
                &&& forall|i: int| 0 <= i < f.len() ==> (#[trigger] r@[i]).0@ == f[i].etag@
                    && etdr_same(r@[i].1, f[i].entry.etdr) && r@[i].2 == f[i].entry.created_at
            },
    {
        let now = timestamp_ms();
        self.get_all_unsaved_etdrs_at(now)
    }
}

/// A record stored with a ticket no record holds yet, valid at the time of the store and
/// fitting both bounds, is found again by its ticket right away.
pub proof fn law_put_then_get_by_ticket(c0: ETDRCache, c1: ETDRCache, c2: ETDRCache, etdr: ETDR, now: i64, r: Option<ETDR>)
    requires
        etdr_put_post(c0, c1, etdr, now),
        lookup_post(c1, c2, ticket_pred(etdr.ticket_id, now), now, r),
        forall|j: int| 0 <= j < c0@.len() ==> (#[trigger] c0@[j]).entry.etdr.ticket_id != etdr.ticket_id,
        within_ttl(etdr, now),
        bucket_of(c0@, normalize_seq(etdr.etag_id@)).len() + 1 <= c0.per_etag_capacity(),
        c0@.len() + 1 <= c0.capacity(),
    ensures
        r matches Some(e) && etdr_same(e, etdr),
{
    broadcast use vstd::multiset::group_multiset_axioms;
    let t = etdr.ticket_id;
    let k = normalize_seq(etdr.etag_id@);
    let b0 = bucket_of(c0@, k);
    let f0 = c0@.filter(has_etag(k));
    let rest = c0@.filter(not_etag(k));
    let cap = c0.per_etag_capacity();
    let v1 = choose|v1: Seq<EtdrSlot>| #![trigger put_mid(c0@, v1, etdr, now, cap)] {
        let b1 = bucket_after_store(b0, etdr, now);
        let ev1 = wrap_add_u64(c0.eviction_count(), b1.len() - at_most(b1.len(), cap));
        &&& put_mid(c0@, v1, etdr, now, cap)
        &&& lru_evicted_records(v1, c1@, c0.capacity())
        &&& c1.eviction_count() == if v1.len() > c0.capacity() {
            wrap_add_u64(ev1, v1.len() - c0.capacity())
        } else {
            ev1
        }
    };
    // No record of the etag holds the ticket, so the record goes first.
    assert forall|i: int| 0 <= i < b0.len() implies (#[trigger] b0[i]).etdr.ticket_id != t by {
        c0@.filter_lemma(has_etag(k));
        assert(f0.contains(f0[i]));
        c0@.lemma_filter_contains_rev(has_etag(k), f0[i]);
        let j = choose|j: int| 0 <= j < c0@.len() && c0@[j] == f0[i];
        assert(c0@[j].entry.etdr.ticket_id != t);
    }
    assert(!exists|i: int| first_ticket_at(b0, t, i));
    let fresh = fresh_record(etdr, now);
    let b1 = seq![fresh] + b0;
    assert(bucket_after_store(b0, etdr, now) == b1);
    let sorted = choose|sorted: Seq<EtdrCacheEntry>| #![trigger sorted.to_multiset()] {
        &&& sorted_desc(sorted)
        &&& sorted.to_multiset() == b1.to_multiset()
        &&& v1.len() == rest.len() + at_most(b1.len(), cap)
        &&& v1.subrange(0, rest.len() as int) == rest
        &&& forall|i: int| 0 <= i < v1.len() - rest.len() ==> (#[trigger] v1[rest.len() + i]).etag@ == k
            && v1[rest.len() + i].entry == sorted[i]
    };
    vstd::seq_lib::to_multiset_len(sorted);
    vstd::seq_lib::to_multiset_len(b1);
    sorted.to_multiset_ensures();
    b1.to_multiset_ensures();
    assert(b1[0] == fresh);
    assert(b1.contains(fresh));
    assert(b1.to_multiset().count(fresh) > 0);
    assert(sorted.to_multiset().count(fresh) > 0);
    assert(sorted.contains(fresh));
    let i0 = choose|i: int| 0 <= i < sorted.len() && sorted[i] == fresh;
    // Every record of the etag after the store is the new one or an older one.
    assert forall|i: int| 0 <= i < sorted.len() && sorted[i].etdr.ticket_id == t implies sorted[i] == fresh by {
        assert(sorted.contains(sorted[i]));
        assert(sorted.to_multiset().count(sorted[i]) > 0);
        assert(b1.to_multiset().count(sorted[i]) > 0);
        assert(b1.contains(sorted[i]));
        let q = choose|q: int| 0 <= q < b1.len() && b1[q] == sorted[i];
        if q > 0 {
            assert(b1[q] == b0[q - 1]);
        }
    }
    // The filter of the other etags keeps slots of the cache.
    assert forall|i: int| 0 <= i < rest.len() implies (#[trigger] rest[i]).entry.etdr.ticket_id != t by {
        c0@.filter_lemma(not_etag(k));
        assert(rest.contains(rest[i]));
        c0@.lemma_filter_contains_rev(not_etag(k), rest[i]);
        let j = choose|j: int| 0 <= j < c0@.len() && c0@[j] == rest[i];
    }
    assert(b0.len() == f0.len());
    c0@.filter_lemma(has_etag(k));
    c0@.filter_lemma(not_etag(k));
    assert(rest.len() + f0.len() == c0@.len()) by {
        lemma_filter_split(c0@, k);
    }
    assert(v1.len() <= c0.capacity());
    assert(c1@ == v1);
    let p0 = rest.len() + i0;
    assert(v1[p0].entry == fresh);
    assert(ticket_pred(t, now)(v1[p0]));
    // The lookup finds the new record: any earlier match would hold the ticket.
    match r {
        Some(e) => {
            let p = choose|p: int| #![trigger first_slot_at(c1@, ticket_pred(t, now), p)]
                first_slot_at(c1@, ticket_pred(t, now), p) && etdr_same(e, c1@[p].entry.etdr)
                && c2@ == c1@.update(p, touched_slot(c1@[p], now));
            if p < rest.len() {
                assert(v1[p] == v1.subrange(0, rest.len() as int)[p]);
                assert(v1[p] == rest[p]);
            } else {
                let i = p - rest.len();
                assert(v1[rest.len() + i].entry == sorted[i]);
            }
        },
        None => {
            assert(!ticket_pred(t, now)(c1@[p0]));
        },
    }
}

/// Reading an etag's records right after storing a record under it, when neither bound drops
/// anything: they are the records of the store (see [`bucket_after_store`]: the record with the
/// same non-zero ticket replaced, else the new record added), largest ticket first, the stored
/// record among them; the records of the other etags are untouched; and the cache grows by one
/// record exactly when the store added one.
pub proof fn law_put_then_read_etag(c0: ETDRCache, c1: ETDRCache, etdr: ETDR, now: i64)
    requires
        etdr_put_post(c0, c1, etdr, now),
        bucket_of(c0@, normalize_seq(etdr.etag_id@)).len() + 1 <= c0.per_etag_capacity(),
        c0@.len() + 1 <= c0.capacity(),
    ensures
        ({
            let k = normalize_seq(etdr.etag_id@);
            let b0 = bucket_of(c0@, k);
            let b = bucket_of(c1@, k);
            &&& sorted_desc(b)
            &&& b.to_multiset() == bucket_after_store(b0, etdr, now).to_multiset()
            &&& exists|i: int| 0 <= i < b.len() && (#[trigger] b[i]).etdr == etdr
            &&& c1@.filter(not_etag(k)) == c0@.filter(not_etag(k))
            &&& c1@.len() == c0@.len() + bucket_after_store(b0, etdr, now).len() - b0.len()
        }),
{
    broadcast use vstd::multiset::group_multiset_axioms;
    let t = etdr.ticket_id;
    let k = normalize_seq(etdr.etag_id@);
    let b0 = bucket_of(c0@, k);
    let f0 = c0@.filter(has_etag(k));
    let rest = c0@.filter(not_etag(k));
    let cap = c0.per_etag_capacity();
    let b1 = bucket_after_store(b0, etdr, now);
    let v1 = choose|v1: Seq<EtdrSlot>| #![trigger put_mid(c0@, v1, etdr, now, cap)] {
        let ev1 = wrap_add_u64(c0.eviction_count(), b1.len() - at_most(b1.len(), cap));
        &&& put_mid(c0@, v1, etdr, now, cap)
        &&& lru_evicted_records(v1, c1@, c0.capacity())
        &&& c1.eviction_count() == if v1.len() > c0.capacity() {
            wrap_add_u64(ev1, v1.len() - c0.capacity())
        } else {
            ev1
        }
    };
    let sorted = choose|sorted: Seq<EtdrCacheEntry>| #![trigger sorted.to_multiset()] {
        &&& sorted_desc(sorted)
        &&& sorted.to_multiset() == b1.to_multiset()
        &&& v1.len() == rest.len() + at_most(b1.len(), cap)
        &&& v1.subrange(0, rest.len() as int) == rest
        &&& forall|i: int| 0 <= i < v1.len() - rest.len() ==> (#[trigger] v1[rest.len() + i]).etag@ == k
            && v1[rest.len() + i].entry == sorted[i]
    };
    // The bucket grows by at most one record.
    let stored = if t != 0 && exists|i: int| first_ticket_at(b0, t, i) {
        let i = choose|i: int| first_ticket_at(b0, t, i);
        assert(b1 == b0.update(i, replaced_record(b0[i], etdr, now)));
        assert(b1[i].etdr == etdr);
        i
    } else {
        assert(b1 == seq![fresh_record(etdr, now)] + b0);
        assert(b1[0].etdr == etdr);
        0
    };
    assert(b1.len() <= b0.len() + 1);
    assert(b1[stored].etdr == etdr);
    vstd::seq_lib::to_multiset_len(sorted);
    vstd::seq_lib::to_multiset_len(b1);
    assert(sorted.len() == b1.len());
    // Nothing is dropped.
    c0@.filter_lemma(has_etag(k));
    c0@.filter_lemma(not_etag(k));
    lemma_filter_split(c0@, k);
    assert(b0.len() == f0.len());
    assert(at_most(b1.len(), cap) == b1.len());
    assert(v1.len() <= c0.capacity());
    assert(c1@ == v1);
    let tail = v1.subrange(rest.len() as int, v1.len() as int);
    assert(v1 =~= rest + tail);
    assert forall|i: int| 0 <= i < rest.len() implies !has_etag(k)(#[trigger] rest[i]) by {
        assert(not_etag(k)(rest[i]));
    }
    assert forall|i: int| 0 <= i < tail.len() implies has_etag(k)(#[trigger] tail[i]) by {
        assert(tail[i] == v1[rest.len() + i]);
    }
    lemma_slot_filter_none(rest, has_etag(k));
    lemma_slot_filter_all(tail, has_etag(k));
    lemma_slot_filter_all(rest, not_etag(k));
    assert forall|i: int| 0 <= i < tail.len() implies !not_etag(k)(#[trigger] tail[i]) by {
        assert(has_etag(k)(tail[i]));
    }
    lemma_slot_filter_none(tail, not_etag(k));
    Seq::filter_distributes_over_add(rest, tail, has_etag(k));
    Seq::filter_distributes_over_add(rest, tail, not_etag(k));
    assert(v1.filter(has_etag(k)) =~= tail);
    assert(v1.filter(not_etag(k)) =~= rest);
    assert(bucket_of(c1@, k) =~= sorted) by {
        assert forall|i: int| 0 <= i < sorted.len() implies bucket_of(c1@, k)[i] == sorted[i] by {
            assert(tail[i] == v1[rest.len() + i]);
        }
    }
    // The stored record is among them.
    sorted.to_multiset_ensures();
    b1.to_multiset_ensures();
    assert(b1.contains(b1[stored]));
    assert(sorted.to_multiset().count(b1[stored]) > 0);
    assert(sorted.contains(b1[stored]));
    let j = choose|j: int| 0 <= j < sorted.len() && sorted[j] == b1[stored];
    assert(bucket_of(c1@, k)[j].etdr == etdr);
}

/// Filtering by a predicate no slot meets leaves nothing.
proof fn lemma_slot_filter_none(v: Seq<EtdrSlot>, p: spec_fn(EtdrSlot) -> bool)
    requires
        forall|i: int| 0 <= i < v.len() ==> !p(#[trigger] v[i]),
    ensures
        v.filter(p) == Seq::<EtdrSlot>::empty(),
    decreases v.len(),
{
    reveal(Seq::filter);
    if v.len() > 0 {
        assert forall|i: int| 0 <= i < v.drop_last().len() implies !p(#[trigger] v.drop_last()[i]) by {
            assert(v.drop_last()[i] == v[i]);
        }
        lemma_slot_filter_none(v.drop_last(), p);
        assert(!p(v[v.len() - 1]));
    }
    assert(v.filter(p) =~= Seq::<EtdrSlot>::empty());
}

/// Filtering by a predicate every slot meets keeps them all.
proof fn lemma_slot_filter_all(v: Seq<EtdrSlot>, p: spec_fn(EtdrSlot) -> bool)
    requires
        forall|i: int| 0 <= i < v.len() ==> p(#[trigger] v[i]),
    ensures
        v.filter(p) == v,
    decreases v.len(),
{
    reveal(Seq::filter);
    if v.len() > 0 {
        assert forall|i: int| 0 <= i < v.drop_last().len() implies p(#[trigger] v.drop_last()[i]) by {
            assert(v.drop_last()[i] == v[i]);
        }
        lemma_slot_filter_all(v.drop_last(), p);
        assert(p(v[v.len() - 1]));
        assert(v.drop_last().push(v.last()) =~= v);
    }
}

/// Whether the cache went from `a` to `b` by the call `c`: a latest-checkin read (`Some` of what
/// it looked for, when, and what it answered) or any other call (`None`), which leaves the
/// counters alone.
pub open spec fn call_step(a: ETDRCache, b: ETDRCache, c: Option<(spec_fn(EtdrSlot) -> bool, i64, Option<ETDR>)>) -> bool {
    match c {
        Some((pred, now, r)) => latest_post(a, b, pred, now, r),
        None => b.hit_count() == a.hit_count() && b.miss_count() == a.miss_count(),
    }
}

/// How many reads of `cs` answered with a record (`found`) or without one.
pub open spec fn reads_answered(cs: Seq<Option<(spec_fn(EtdrSlot) -> bool, i64, Option<ETDR>)>>, found: bool) -> nat
    decreases cs.len(),
{
    if cs.len() == 0 {
        0
    } else {
        reads_answered(cs.drop_last(), found) + match cs.last() {
            Some((_, _, r)) => if (r is Some) == found { 1nat } else { 0nat },
            None => 0nat,
        }
    }
}

/// Over any history of calls, the hit count grows by the number of latest-checkin reads that
/// found a record and the miss count by the number that found none (modulo 2^64); starting from
/// a new or cleared cache, whose counts are zero, the statistics count exactly those reads.
pub proof fn law_stats_count_reads(caches: Seq<ETDRCache>, calls: Seq<Option<(spec_fn(EtdrSlot) -> bool, i64, Option<ETDR>)>>)
    requires
        caches.len() == calls.len() + 1,
        forall|i: int| 0 <= i < calls.len() ==> call_step(#[trigger] caches[i], caches[i + 1], calls[i]),
    ensures
        caches.last().hit_count() == wrap_add_u64(caches[0].hit_count(), reads_answered(calls, true) as int),
        caches.last().miss_count() == wrap_add_u64(caches[0].miss_count(), reads_answered(calls, false) as int),
    decreases calls.len(),
{
    let a0 = caches[0].hit_count() as int;
    let m0 = caches[0].miss_count() as int;
    let mm = 0x1_0000_0000_0000_0000int;
    if calls.len() == 0 {
        assert(caches.last() == caches[0]);
        vstd::arithmetic::div_mod::lemma_small_mod(a0 as nat, mm as nat);
        vstd::arithmetic::div_mod::lemma_small_mod(m0 as nat, mm as nat);
    } else {
        let n = calls.len() - 1;
        let cs = caches.subrange(0, n + 1);
        let ks = calls.drop_last();
        assert forall|i: int| 0 <= i < ks.len() implies call_step(#[trigger] cs[i], cs[i + 1], ks[i]) by {
            assert(cs[i] == caches[i] && cs[i + 1] == caches[i + 1] && ks[i] == calls[i]);
        }
        law_stats_count_reads(cs, ks);
        assert(cs.last() == caches[n]);
        assert(call_step(caches[n], caches[n + 1], calls[n]));
        assert(caches.last() == caches[n + 1]);
        let h = reads_answered(ks, true) as int;
        let m = reads_answered(ks, false) as int;
        let x = caches[n].hit_count();
        let y = caches[n].miss_count();
        assert(x as int == (a0 + h) % mm);
        assert(y as int == (m0 + m) % mm);
        vstd::arithmetic::div_mod::lemma_add_mod_noop(a0 + h, 1, mm);
        vstd::arithmetic::div_mod::lemma_add_mod_noop(m0 + m, 1, mm);
        vstd::arithmetic::div_mod::lemma_small_mod(1nat, mm as nat);
        vstd::arithmetic::div_mod::lemma_mod_self_0(mm);
        if x < u64::MAX {
            vstd::arithmetic::div_mod::lemma_small_mod((x + 1) as nat, mm as nat);
        }
        if y < u64::MAX {
            vstd::arithmetic::div_mod::lemma_small_mod((y + 1) as nat, mm as nat);
        }
        assert(wrap_inc(x) as int == (a0 + h + 1) % mm);
        assert(wrap_inc(y) as int == (m0 + m + 1) % mm);
    }
}

/// The slots of one etag and those of the others together are all the slots.
proof fn lemma_filter_split(v: Seq<EtdrSlot>, k: Seq<char>)
    ensures
        v.filter(not_etag(k)).len() + v.filter(has_etag(k)).len() == v.len(),
    decreases v.len(),
{
    reveal(Seq::filter);
    if v.len() > 0 {
        lemma_filter_split(v.drop_last(), k);
    }
}

/// Whether the records of etag `k` in `v` come largest ticket first (see [`entry_ge`]).
pub open spec fn etag_ordered(v: Seq<EtdrSlot>, k: Seq<char>) -> bool {
    forall|i: int, j: int| 0 <= i < j < v.len() && (#[trigger] v[i]).etag@ == k && (#[trigger] v[j]).etag@ == k
        ==> entry_ge(v[i].entry, v[j].entry)
}

/// Dropping slots keeps the order of the records of an etag.
proof fn lemma_filter_keeps_etag_order(v: Seq<EtdrSlot>, p: spec_fn(EtdrSlot) -> bool, k: Seq<char>)
    requires
        etag_ordered(v, k),
    ensures
        etag_ordered(v.filter(p), k),
    decreases v.len(),
{
    reveal(Seq::filter);
    if v.len() > 0 {
        let d = v.drop_last();
        assert(etag_ordered(d, k)) by {
            assert forall|i: int, j: int| 0 <= i < j < d.len() && (#[trigger] d[i]).etag@ == k && (#[trigger] d[j]).etag@ == k
                implies entry_ge(d[i].entry, d[j].entry) by {
                assert(d[i] == v[i] && d[j] == v[j]);
            }
        }
        lemma_filter_keeps_etag_order(d, p, k);
        let f = d.filter(p);
        if p(v.last()) {
            let out = f.push(v.last());
            assert(v.filter(p) == out);
            assert forall|i: int, j: int| 0 <= i < j < out.len() && (#[trigger] out[i]).etag@ == k && (#[trigger] out[j]).etag@ == k
                implies entry_ge(out[i].entry, out[j].entry) by {
                if j < f.len() {
                    assert(out[i] == f[i] && out[j] == f[j]);
                } else {
                    assert(out[i] == f[i]);
                    assert(f.contains(f[i]));
                    d.lemma_filter_contains_rev(p, f[i]);
                    let m = choose|m: int| 0 <= m < d.len() && d[m] == f[i];
                    assert(v[m] == d[m]);
                    assert(out[j] == v[v.len() - 1]);
                }
            }
        }
    }
}

/// Whether, for every etag, the records of `v` under it come largest ticket first (see
/// [`entry_ge`]).
pub open spec fn slots_ordered(v: Seq<EtdrSlot>) -> bool {
    forall|i: int, j: int| 0 <= i < j < v.len() && (#[trigger] v[i]).etag@ == (#[trigger] v[j]).etag@
        ==> entry_ge(v[i].entry, v[j].entry)
}

/// `b` has the slots of `a` in the same places with the same etags, tickets and creation times.
pub open spec fn same_order_keys(a: Seq<EtdrSlot>, b: Seq<EtdrSlot>) -> bool {
    &&& a.len() == b.len()
    &&& forall|i: int| 0 <= i < a.len() ==> (#[trigger] b[i]).etag@ == a[i].etag@
        && b[i].entry.etdr.ticket_id == a[i].entry.etdr.ticket_id
        && b[i].entry.created_at == a[i].entry.created_at
}

proof fn lemma_same_keys_ordered(a: Seq<EtdrSlot>, b: Seq<EtdrSlot>)
    requires
        slots_ordered(a),
        same_order_keys(a, b),
    ensures
        slots_ordered(b),
{
    assert forall|i: int, j: int| 0 <= i < j < b.len() && (#[trigger] b[i]).etag@ == (#[trigger] b[j]).etag@
        implies entry_ge(b[i].entry, b[j].entry) by {
        assert(a[i].etag@ == a[j].etag@);
        assert(entry_ge(a[i].entry, a[j].entry));
    }
}

/// Marking a slot read, or setting its hub, keeps the order.
proof fn lemma_update_keeps_order(v: Seq<EtdrSlot>, p: int, s: EtdrSlot)
    requires
        slots_ordered(v),
        0 <= p < v.len(),
        s.etag@ == v[p].etag@,
        s.entry.etdr.ticket_id == v[p].entry.etdr.ticket_id,
        s.entry.created_at == v[p].entry.created_at,
    ensures
        slots_ordered(v.update(p, s)),
{
    lemma_same_keys_ordered(v, v.update(p, s));
}

/// Dropping slots keeps the order of every etag.
proof fn lemma_filter_keeps_order(v: Seq<EtdrSlot>, p: spec_fn(EtdrSlot) -> bool)
    requires
        slots_ordered(v),
    ensures
        slots_ordered(v.filter(p)),
{
    let f = v.filter(p);
    assert forall|i: int, j: int| 0 <= i < j < f.len() && (#[trigger] f[i]).etag@ == (#[trigger] f[j]).etag@
        implies entry_ge(f[i].entry, f[j].entry) by {
        let k = f[i].etag@;
        assert(etag_ordered(v, k));
        lemma_filter_keeps_etag_order(v, p, k);
    }
}

/// Eviction keeps the order of an etag, and of all of them.
proof fn lemma_evicted_keeps_order(v: Seq<EtdrSlot>, w: Seq<EtdrSlot>, cap: usize, k: Seq<char>)
    requires
        lru_evicted_records(v, w, cap),
    ensures
        etag_ordered(v, k) ==> etag_ordered(w, k),
        slots_ordered(v) ==> slots_ordered(w),
{
    if v.len() > cap {
        let vic = choose|vic: Set<(Seq<char>, i64)>| #![trigger v.filter(not_victim(vic))] {
            &&& w == v.filter(not_victim(vic))
            &&& w.len() <= cap
            &&& forall|pr: (Seq<char>, i64)| #[trigger] vic.contains(pr) ==> exists|i: int| {
                &&& 0 <= i < v.len()
                &&& slot_pair(#[trigger] v[i]) == pr
                &&& forall|j: int| 0 <= j < v.len() && !vic.contains(slot_pair(#[trigger] v[j])) ==> v[i].entry.last_access <= v[j].entry.last_access
            }
        };
        if etag_ordered(v, k) {
            lemma_filter_keeps_etag_order(v, not_victim(vic), k);
        }
        if slots_ordered(v) {
            lemma_filter_keeps_order(v, not_victim(vic));
        }
    }
}

/// Storing a record (before the total bound applies) orders the records of its etag, and keeps
/// the order of the other etags.
proof fn lemma_put_mid_ordered(v0: Seq<EtdrSlot>, v1: Seq<EtdrSlot>, etdr: ETDR, now: i64, cap: usize)
    requires
        put_mid(v0, v1, etdr, now, cap),
    ensures
        etag_ordered(v1, normalize_seq(etdr.etag_id@)),
        slots_ordered(v0) ==> slots_ordered(v1),
{
    let k = normalize_seq(etdr.etag_id@);
    let b1 = bucket_after_store(bucket_of(v0, k), etdr, now);
    let rest = v0.filter(not_etag(k));
    let sorted = choose|sorted: Seq<EtdrCacheEntry>| #![trigger sorted.to_multiset()] {
        &&& sorted_desc(sorted)
        &&& sorted.to_multiset() == b1.to_multiset()
        &&& v1.len() == rest.len() + at_most(b1.len(), cap)
        &&& v1.subrange(0, rest.len() as int) == rest
        &&& forall|i: int| 0 <= i < v1.len() - rest.len() ==> (#[trigger] v1[rest.len() + i]).etag@ == k
            && v1[rest.len() + i].entry == sorted[i]
    };
    vstd::seq_lib::to_multiset_len(sorted);
    vstd::seq_lib::to_multiset_len(b1);
    assert forall|i: int| 0 <= i < rest.len() implies (#[trigger] v1[i]) == rest[i] && rest[i].etag@ != k by {
        assert(v1[i] == v1.subrange(0, rest.len() as int)[i]);
        v0.lemma_filter_pred(not_etag(k), i);
    }
    assert(etag_ordered(v1, k)) by {
        assert forall|i: int, j: int| 0 <= i < j < v1.len() && (#[trigger] v1[i]).etag@ == k && (#[trigger] v1[j]).etag@ == k
            implies entry_ge(v1[i].entry, v1[j].entry) by {
            let a = i - rest.len();
            let b = j - rest.len();
            assert(v1[rest.len() + a].entry == sorted[a]);
            assert(v1[rest.len() + b].entry == sorted[b]);
            assert(entry_ge(sorted[a], sorted[b]));
        }
    }
    if slots_ordered(v0) {
        lemma_filter_keeps_order(v0, not_etag(k));
        assert forall|i: int, j: int| 0 <= i < j < v1.len() && (#[trigger] v1[i]).etag@ == (#[trigger] v1[j]).etag@
            implies entry_ge(v1[i].entry, v1[j].entry) by {
            if j < rest.len() {
                assert(rest[i].etag@ == rest[j].etag@);
            } else if i >= rest.len() {
                assert(v1[rest.len() + (j - rest.len())].etag@ == k);
            } else {
                assert(v1[rest.len() + (j - rest.len())].etag@ == k);
            }
        }
    }
}

/// Storing a record leaves the records of its etag largest ticket first, whatever the order
/// before and whatever the eviction takes.
pub proof fn law_put_orders_etag(c0: ETDRCache, c1: ETDRCache, etdr: ETDR, now: i64)
    requires
        etdr_put_post(c0, c1, etdr, now),
    ensures
        etag_ordered(c1@, normalize_seq(etdr.etag_id@)),
{
    let k = normalize_seq(etdr.etag_id@);
    let cap = c0.per_etag_capacity();
    let v1 = choose|v1: Seq<EtdrSlot>| #![trigger put_mid(c0@, v1, etdr, now, cap)] {
        let b1 = bucket_after_store(bucket_of(c0@, k), etdr, now);
        let ev1 = wrap_add_u64(c0.eviction_count(), b1.len() - at_most(b1.len(), cap));
        &&& put_mid(c0@, v1, etdr, now, cap)
        &&& lru_evicted_records(v1, c1@, c0.capacity())
        &&& c1.eviction_count() == if v1.len() > c0.capacity() {
            wrap_add_u64(ev1, v1.len() - c0.capacity())
        } else {
            ev1
        }
    };
    lemma_put_mid_ordered(c0@, v1, etdr, now, cap);
    lemma_evicted_keeps_order(v1, c1@, c0.capacity(), k);
}

/// Where the records of etag `k` come largest ticket first, the first record of `k` that
/// qualifies has the largest ticket of those that qualify.
proof fn lemma_latest_in_ordered_etag(c: ETDRCache, c2: ETDRCache, k: Seq<char>, now: i64, open_only: bool, e: ETDR)
    requires
        etag_ordered(c@, k),
        latest_post(c, c2, latest_pred(k, now, open_only), now, Some(e)),
    ensures
        forall|j: int| 0 <= j < c@.len() && latest_pred(k, now, open_only)(#[trigger] c@[j])
            ==> c@[j].entry.etdr.ticket_id <= e.ticket_id,
{
    let pred = latest_pred(k, now, open_only);
    let p = choose|p: int| #![trigger first_slot_at(c@, pred, p)] {
        &&& first_slot_at(c@, pred, p)
        &&& etdr_same(e, c@[p].entry.etdr)
        &&& c2@ == c@.update(p, touched_slot(c@[p], now))
        &&& c2.hit_count() == wrap_inc(c.hit_count()) && c2.miss_count() == c.miss_count()
    };
    assert forall|j: int| 0 <= j < c@.len() && pred(#[trigger] c@[j]) implies c@[j].entry.etdr.ticket_id <= e.ticket_id by {
        if j > p {
            assert(c@[p].etag@ == k && c@[j].etag@ == k);
            assert(entry_ge(c@[p].entry, c@[j].entry));
        } else if j < p {
            assert(!pred(c@[j]));
        }
    }
}

/// In an ordered cache (as every operation but a ticket-changing update leaves it), the latest
/// record found for an etag has the largest ticket of the records of that etag that qualify.
pub proof fn law_latest_is_largest(c: ETDRCache, c2: ETDRCache, k: Seq<char>, now: i64, open_only: bool, e: ETDR)
    requires
        c.records_ordered(),
        latest_post(c, c2, latest_pred(k, now, open_only), now, Some(e)),
    ensures
        forall|j: int| 0 <= j < c@.len() && latest_pred(k, now, open_only)(#[trigger] c@[j])
            ==> c@[j].entry.etdr.ticket_id <= e.ticket_id,
{
    assert(etag_ordered(c@, k));
    lemma_latest_in_ordered_etag(c, c2, k, now, open_only, e);
}

/// Right after a record is stored, whatever the order before, the latest record found for its
/// etag has the largest ticket of the records of that etag that qualify.
pub proof fn law_put_then_latest_is_largest(c0: ETDRCache, c1: ETDRCache, c2: ETDRCache, etdr: ETDR, now: i64, open_only: bool, e: ETDR)
    requires
        etdr_put_post(c0, c1, etdr, now),
        latest_post(c1, c2, latest_pred(normalize_seq(etdr.etag_id@), now, open_only), now, Some(e)),
    ensures
        forall|j: int| 0 <= j < c1@.len() && latest_pred(normalize_seq(etdr.etag_id@), now, open_only)(#[trigger] c1@[j])
            ==> c1@[j].entry.etdr.ticket_id <= e.ticket_id,
{
    law_put_orders_etag(c0, c1, etdr, now);
    lemma_latest_in_ordered_etag(c1, c2, normalize_seq(etdr.etag_id@), now, open_only, e);
}

/// Storing a record with a non-zero ticket under an etag whose tickets are distinct (as every
/// store keeps them), with room for one more record, leaves exactly one record of that etag
/// with that ticket, the stored one; the cache grows by one record exactly when the etag had no
/// record with that ticket, and otherwise keeps its size.
pub proof fn law_put_stores_one_record(c0: ETDRCache, c1: ETDRCache, etdr: ETDR, now: i64)
    requires
        etdr_put_post(c0, c1, etdr, now),
        etdr.ticket_id != 0,
        unique_tickets(bucket_of(c0@, normalize_seq(etdr.etag_id@))),
        bucket_of(c0@, normalize_seq(etdr.etag_id@)).len() + 1 <= c0.per_etag_capacity(),
        c0@.len() + 1 <= c0.capacity(),
    ensures
        ({
            let b0 = bucket_of(c0@, normalize_seq(etdr.etag_id@));
            let b = bucket_of(c1@, normalize_seq(etdr.etag_id@));
            &&& exists|i: int| 0 <= i < b.len() && (#[trigger] b[i]).etdr == etdr
            &&& forall|i: int| 0 <= i < b.len() && (#[trigger] b[i]).etdr.ticket_id == etdr.ticket_id ==> b[i].etdr == etdr
            &&& c1@.len() == c0@.len() + if exists|j: int| 0 <= j < b0.len() && (#[trigger] b0[j]).etdr.ticket_id == etdr.ticket_id {
                0int
            } else {
                1int
            }
        }),
{
    let t = etdr.ticket_id;
    let k = normalize_seq(etdr.etag_id@);
    let b0 = bucket_of(c0@, k);
    let b = bucket_of(c1@, k);
    let b1 = bucket_after_store(b0, etdr, now);
    law_put_then_read_etag(c0, c1, etdr, now);
    law_store_keeps_tickets_unique(b0, etdr, now);
    let stored = if exists|i: int| first_ticket_at(b0, t, i) {
        let i = choose|i: int| first_ticket_at(b0, t, i);
        assert(b1 == b0.update(i, replaced_record(b0[i], etdr, now)));
        assert(b0[i].etdr.ticket_id == t);
        i
    } else {
        assert(b1 == seq![fresh_record(etdr, now)] + b0);
        assert forall|j: int| 0 <= j < b0.len() implies (#[trigger] b0[j]).etdr.ticket_id != t by {
            if b0[j].etdr.ticket_id == t {
                lemma_first_ticket_exists(b0, t, j);
            }
        }
        0
    };
    assert(0 <= stored < b1.len() && b1[stored].etdr == etdr);
    b.to_multiset_ensures();
    b1.to_multiset_ensures();
    assert forall|i: int| 0 <= i < b.len() && (#[trigger] b[i]).etdr.ticket_id == t implies b[i].etdr == etdr by {
        assert(b.contains(b[i]));
        assert(b.to_multiset().count(b[i]) > 0);
        assert(b.to_multiset() == b1.to_multiset());
        assert(b1.to_multiset().count(b[i]) > 0);
        assert(b1.contains(b[i]));
        let m = choose|m: int| 0 <= m < b1.len() && b1[m] == b[i];
        if m != stored {
            assert(b1[m].etdr.ticket_id != b1[stored].etdr.ticket_id);
        }
    }
}

/// No two records of `b` share a non-zero ticket.
pub open spec fn unique_tickets(b: Seq<EtdrCacheEntry>) -> bool {
    forall|i: int, j: int| 0 <= i < b.len() && 0 <= j < b.len() && i != j && (#[trigger] b[i]).etdr.ticket_id != 0
        ==> b[i].etdr.ticket_id != (#[trigger] b[j]).etdr.ticket_id
}

proof fn lemma_first_ticket_exists(b: Seq<EtdrCacheEntry>, t: i64, j: int)
    requires
        0 <= j < b.len(),
        b[j].etdr.ticket_id == t,
    ensures
        exists|i: int| first_ticket_at(b, t, i),
    decreases j,
{
    if exists|k: int| 0 <= k < j && #[trigger] b[k].etdr.ticket_id == t {
        let k = choose|k: int| 0 <= k < j && #[trigger] b[k].etdr.ticket_id == t;
        lemma_first_ticket_exists(b, t, k);
    } else {
        assert(first_ticket_at(b, t, j));
    }
}

/// Storing a record whose non-zero ticket is already among the records of its etag replaces
/// that record: the etag keeps as many records, the new one among them.
pub proof fn law_store_replaces_same_ticket(b: Seq<EtdrCacheEntry>, etdr: ETDR, now: i64, j: int)
    requires
        etdr.ticket_id != 0,
        0 <= j < b.len(),
        b[j].etdr.ticket_id == etdr.ticket_id,
    ensures
        bucket_after_store(b, etdr, now).len() == b.len(),
        exists|i: int| 0 <= i < b.len() && (#[trigger] bucket_after_store(b, etdr, now)[i]).etdr == etdr,
{
    lemma_first_ticket_exists(b, etdr.ticket_id, j);
    let i = choose|i: int| first_ticket_at(b, etdr.ticket_id, i);
    assert(bucket_after_store(b, etdr, now)[i].etdr == etdr);
}

/// Storing a record never gives two records of an etag the same non-zero ticket.
pub proof fn law_store_keeps_tickets_unique(b: Seq<EtdrCacheEntry>, etdr: ETDR, now: i64)
    requires
        unique_tickets(b),
    ensures
        unique_tickets(bucket_after_store(b, etdr, now)),
{
    let t = etdr.ticket_id;
    let r = bucket_after_store(b, etdr, now);
    if t != 0 && exists|i: int| first_ticket_at(b, t, i) {
        let i = choose|i: int| first_ticket_at(b, t, i);
        assert forall|p: int, q: int| 0 <= p < r.len() && 0 <= q < r.len() && p != q && (#[trigger] r[p]).etdr.ticket_id != 0
            implies r[p].etdr.ticket_id != (#[trigger] r[q]).etdr.ticket_id by {
            assert(r[p].etdr.ticket_id == b[p].etdr.ticket_id);
            assert(r[q].etdr.ticket_id == b[q].etdr.ticket_id);
        }
    } else {
        assert forall|q: int| 0 <= q < b.len() && t != 0 implies (#[trigger] b[q]).etdr.ticket_id != t by {
            if b[q].etdr.ticket_id == t {
                lemma_first_ticket_exists(b, t, q);
            }
        }
        assert forall|p: int, q: int| 0 <= p < r.len() && 0 <= q < r.len() && p != q && (#[trigger] r[p]).etdr.ticket_id != 0
            implies r[p].etdr.ticket_id != (#[trigger] r[q]).etdr.ticket_id by {
            if p == 0 {
                assert(r[q] == b[q - 1]);
            } else if q == 0 {
                assert(r[p] == b[p - 1]);
            } else {
                assert(r[p] == b[p - 1] && r[q] == b[q - 1]);
            }
        }
    }
}

impl Default for ETDRCache {
    /// The cache of [`ETDRCache::new`].
    fn default() -> (r: ETDRCache)
        ensures
            r@ == Seq::<EtdrSlot>::empty(),
            r.per_etag_capacity() == 100,
            r.ttl() == ETDR_TTL_MS,
            r.capacity() == 10000,
            r.hit_count() == 0 && r.miss_count() == 0 && r.eviction_count() == 0,
    {
        ETDRCache::new()
    }
}

} // verus!
