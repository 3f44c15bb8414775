//! In-memory cache of toll lanes keyed by `toll_lane_id`, with an index from `toll_id` to the
//! lane ids stored under it, a time-to-live per entry, a bound on the number of entries (least
//! recently used entries are evicted first) and hit/miss/eviction counters.
//!
//! The index lists each lane id at most once, under the station of its entry: storing a lane
//! takes its id out of every list and appends it to the list of its station, and an entry dropped
//! from the cache takes its id out of the list of the station it belonged to. A list that becomes
//! empty is dropped.

use vstd::prelude::*;
use crate::clock::timestamp_ms;
use crate::keyed::{
    distinct_keys, lemma_seq_to_map_contents, lemma_seq_to_map_push, lemma_seq_to_map_remove,
    lemma_seq_to_map_update, seq_to_map,
};
use crate::toll_cache::{fresh, is_fresh, wrap_inc, wrapping_inc};
use crate::toll_types::TOLL_LANE;

verus! {

/// A cached lane with the time it was stored, the time it was last read and how often it was
/// read.
#[derive(Debug)]
pub struct TollLaneCacheEntry {
    pub lane: TOLL_LANE,
    pub created_at: i64,
    pub last_access: i64,
    pub access_count: u64,
}

/// Counters returned by [`TollLaneCache::get_stats`].
#[derive(Debug, Clone, Default)]
pub struct TollLaneCacheStats {
    pub total_entries: usize,
    pub hits: u64,
    pub misses: u64,
    pub evictions: u64,
}

/// The lane ids stored under one station.
struct LaneGroup {
    toll_id: i32,
    lane_ids: Vec<i32>,
}

/// The key of a cache entry.
pub open spec fn lane_key(e: TollLaneCacheEntry) -> i32 {
    e.lane.toll_lane_id
}

spec fn group_key(g: LaneGroup) -> i32 {
    g.toll_id
}

/// The entry stored for `lane` at time `now`.
pub open spec fn new_lane_entry(lane: TOLL_LANE, now: i64) -> TollLaneCacheEntry {
    TollLaneCacheEntry { lane, created_at: now, last_access: now, access_count: 0 }
}

/// `e` after a read at time `now`.
pub open spec fn lane_touched(e: TollLaneCacheEntry, now: i64) -> TollLaneCacheEntry {
    TollLaneCacheEntry { last_access: now, access_count: wrap_inc(e.access_count), ..e }
}

/// Whether the entry `e` is live at `now` under time-to-live `ttl`.
pub open spec fn lane_fresh(e: TollLaneCacheEntry, now: i64, ttl: i64) -> bool {
    is_fresh(e.created_at, now, ttl)
}

/// The index with `lane_id` taken out of every list; lists left empty are dropped.
pub open spec fn index_without(ix: Map<i32, Seq<i32>>, lane_id: i32) -> Map<i32, Seq<i32>> {
    Map::new(
        |t: i32| ix.contains_key(t) && ix[t].filter(other_than(lane_id)).len() > 0,
        |t: i32| ix[t].filter(other_than(lane_id)),
    )
}

/// The index after storing lane `lane_id` under station `toll_id`: the id leaves every list and
/// is appended to the list of `toll_id`.
pub open spec fn index_add(ix: Map<i32, Seq<i32>>, toll_id: i32, lane_id: i32) -> Map<i32, Seq<i32>> {
    index_appended(index_without(ix, lane_id), toll_id, lane_id)
}

/// Whether the list `s` of station `t` names each lane at most once, and only lanes whose
/// entries in `m` (where they have one) belong to `t`.
pub open spec fn listed_under(m: Map<i32, TollLaneCacheEntry>, s: Seq<i32>, t: i32) -> bool {
    &&& s.no_duplicates()
    &&& forall|x: i32| #[trigger] s.contains(x) && m.contains_key(x) ==> m[x].lane.toll_id == t
}

/// Whether every list of the index `ix` is sound for the entries `m` (see [`listed_under`]).
pub open spec fn index_sound(m: Map<i32, TollLaneCacheEntry>, ix: Map<i32, Seq<i32>>) -> bool {
    forall|t: i32| #[trigger] ix.contains_key(t) ==> listed_under(m, ix[t], t)
}

/// Whether every entry of `m2` is an entry of `m` on the same station.
pub open spec fn same_stations(m: Map<i32, TollLaneCacheEntry>, m2: Map<i32, TollLaneCacheEntry>) -> bool {
    forall|x: i32| #[trigger] m2.contains_key(x) ==> m.contains_key(x) && m2[x].lane.toll_id == m[x].lane.toll_id
}

/// Filtering a list keeps it free of repeats and takes in no new element.
proof fn lemma_filter_sub(s: Seq<i32>, p: spec_fn(i32) -> bool)
    ensures
        s.no_duplicates() ==> s.filter(p).no_duplicates(),
        forall|x: i32| #[trigger] s.filter(p).contains(x) ==> s.contains(x),
    decreases s.len(),
{
    reveal(Seq::filter);
    if s.len() > 0 {
        let s0 = s.drop_last();
        let a = s.last();
        lemma_filter_sub(s0, p);
        assert(s0.push(a) =~= s);
        s0.lemma_filter_push(a, p);
        let f = s0.filter(p);
        assert forall|x: i32| #[trigger] s.filter(p).contains(x) implies s.contains(x) by {
            if x == a {
                assert(s[s.len() - 1] == a);
            } else {
                let i = choose|i: int| 0 <= i < s.filter(p).len() && s.filter(p)[i] == x;
                if p(a) {
                    assert(i < f.len());
                    assert(f[i] == x);
                }
                assert(f.contains(x));
                let j = choose|j: int| 0 <= j < s0.len() && s0[j] == x;
                assert(s[j] == x);
            }
        }
        if s.no_duplicates() && p(a) {
            assert(s0.no_duplicates()) by {
                assert forall|i: int, j: int| 0 <= i < s0.len() && 0 <= j < s0.len() && i != j implies s0[i] != s0[j] by {
                    assert(s[i] == s0[i] && s[j] == s0[j]);
                }
            }
            assert(!f.contains(a)) by {
                if f.contains(a) {
                    let j = choose|j: int| 0 <= j < s0.len() && s0[j] == a;
                    assert(s[j] == a && s[s.len() - 1] == a);
                }
            }
            assert forall|i: int, j: int| 0 <= i < f.push(a).len() && 0 <= j < f.push(a).len() && i != j
                implies f.push(a)[i] != f.push(a)[j] by {
                if i == f.len() {
                    assert(f.contains(f[j]));
                } else if j == f.len() {
                    assert(f.contains(f[i]));
                }
            }
        } else if s.no_duplicates() {
            assert forall|i: int, j: int| 0 <= i < s0.len() && 0 <= j < s0.len() && i != j implies s0[i] != s0[j] by {
                assert(s[i] == s0[i] && s[j] == s0[j]);
            }
        }
    }
}

/// A sound list filtered and read against fewer entries on the same stations stays sound.
proof fn lemma_listed_filter(m: Map<i32, TollLaneCacheEntry>, m2: Map<i32, TollLaneCacheEntry>, s: Seq<i32>, t: i32, p: spec_fn(i32) -> bool)
    requires
        listed_under(m, s, t),
        same_stations(m, m2),
    ensures
        listed_under(m2, s.filter(p), t),
{
    lemma_filter_sub(s, p);
    assert forall|x: i32| #[trigger] s.filter(p).contains(x) && m2.contains_key(x) implies m2[x].lane.toll_id == t by {
        assert(s.contains(x));
    }
}

/// A sound index stays sound against fewer entries on the same stations.
proof fn lemma_sound_fewer(m: Map<i32, TollLaneCacheEntry>, m2: Map<i32, TollLaneCacheEntry>, ix: Map<i32, Seq<i32>>)
    requires
        index_sound(m, ix),
        same_stations(m, m2),
    ensures
        index_sound(m2, ix),
{
    assert forall|t: i32| #[trigger] ix.contains_key(t) implies listed_under(m2, ix[t], t) by {
        assert(listed_under(m, ix[t], t));
    }
}

/// Stripping the ids of entries that left keeps a sound index sound.
proof fn lemma_sound_strip(m: Map<i32, TollLaneCacheEntry>, m2: Map<i32, TollLaneCacheEntry>, ix: Map<i32, Seq<i32>>, gone: Map<i32, TollLaneCacheEntry>)
    requires
        index_sound(m, ix),
        same_stations(m, m2),
    ensures
        index_sound(m2, index_strip(ix, gone)),
{
    assert forall|t: i32| #[trigger] index_strip(ix, gone).contains_key(t) implies listed_under(m2, index_strip(ix, gone)[t], t) by {
        assert(listed_under(m, ix[t], t));
        lemma_listed_filter(m, m2, ix[t], t, stays(gone, t));
    }
}

/// Unlinking an id keeps a sound index sound.
proof fn lemma_sound_unlink(m: Map<i32, TollLaneCacheEntry>, m2: Map<i32, TollLaneCacheEntry>, ix: Map<i32, Seq<i32>>, t0: i32, x: i32)
    requires
        index_sound(m, ix),
        same_stations(m, m2),
    ensures
        index_sound(m2, index_unlink(ix, t0, x)),
{
    lemma_sound_fewer(m, m2, ix);
    if ix.contains_key(t0) {
        assert(listed_under(m, ix[t0], t0));
        lemma_listed_filter(m, m2, ix[t0], t0, other_than(x));
    }
}

/// Whether every entry of `m` is listed under its own station in `ix`.
pub open spec fn index_complete(m: Map<i32, TollLaneCacheEntry>, ix: Map<i32, Seq<i32>>) -> bool {
    forall|x: i32| #[trigger] m.contains_key(x) ==> ix.contains_key(m[x].lane.toll_id) && ix[m[x].lane.toll_id].contains(x)
}

/// An id that a filter keeps stays in the filtered list.
proof fn lemma_filter_keeps(s: Seq<i32>, p: spec_fn(i32) -> bool, x: i32)
    requires
        s.contains(x),
        p(x),
    ensures
        s.filter(p).contains(x),
{
    let i = choose|i: int| 0 <= i < s.len() && s[i] == x;
    s.filter_lemma(p);
    assert(s.filter(p).contains(s[i]));
}

/// Fewer entries on the same stations, none of them gone, stay listed after the ids of the
/// gone entries are stripped.
proof fn lemma_complete_strip(m: Map<i32, TollLaneCacheEntry>, m2: Map<i32, TollLaneCacheEntry>, ix: Map<i32, Seq<i32>>, gone: Map<i32, TollLaneCacheEntry>)
    requires
        index_complete(m, ix),
        same_stations(m, m2),
        forall|x: i32| #[trigger] m2.contains_key(x) ==> !gone.contains_key(x),
    ensures
        index_complete(m2, index_strip(ix, gone)),
{
    assert forall|x: i32| #[trigger] m2.contains_key(x) implies index_strip(ix, gone).contains_key(m2[x].lane.toll_id)
        && index_strip(ix, gone)[m2[x].lane.toll_id].contains(x) by {
        let t = m2[x].lane.toll_id;
        assert(m.contains_key(x) && m[x].lane.toll_id == t);
        lemma_filter_keeps(ix[t], stays(gone, t), x);
        assert(kept_ids(ix[t], gone, t).len() > 0);
    }
}

/// Unlinking an id whose entry is gone keeps the other entries listed.
proof fn lemma_complete_unlink(m: Map<i32, TollLaneCacheEntry>, m2: Map<i32, TollLaneCacheEntry>, ix: Map<i32, Seq<i32>>, t0: i32, x0: i32)
    requires
        index_complete(m, ix),
        same_stations(m, m2),
        !m2.contains_key(x0),
    ensures
        index_complete(m2, index_unlink(ix, t0, x0)),
{
    assert forall|x: i32| #[trigger] m2.contains_key(x) implies index_unlink(ix, t0, x0).contains_key(m2[x].lane.toll_id)
        && index_unlink(ix, t0, x0)[m2[x].lane.toll_id].contains(x) by {
        let t = m2[x].lane.toll_id;
        assert(m.contains_key(x) && m[x].lane.toll_id == t);
        if t == t0 {
            lemma_filter_keeps(ix[t], other_than(x0), x);
            assert(ix[t].filter(other_than(x0)).len() > 0);
        }
    }
}

/// Storing an entry and adding its id keeps every entry listed.
proof fn lemma_complete_add(m: Map<i32, TollLaneCacheEntry>, ix: Map<i32, Seq<i32>>, x0: i32, e: TollLaneCacheEntry)
    requires
        index_complete(m, ix),
    ensures
        index_complete(m.insert(x0, e), index_add(ix, e.lane.toll_id, x0)),
{
    let m2 = m.insert(x0, e);
    let t0 = e.lane.toll_id;
    let ix0 = index_without(ix, x0);
    let ix1 = index_add(ix, t0, x0);
    assert forall|x: i32| #[trigger] m2.contains_key(x) implies ix1.contains_key(m2[x].lane.toll_id) && ix1[m2[x].lane.toll_id].contains(x) by {
        if x == x0 {
            let s1 = if ix0.contains_key(t0) { ix0[t0].push(x0) } else { seq![x0] };
            assert(s1[s1.len() - 1] == x0);
        } else {
            let t = m[x].lane.toll_id;
            assert(m.contains_key(x));
            lemma_filter_keeps(ix[t], other_than(x0), x);
            assert(ix0.contains_key(t));
            if t == t0 {
                let f = ix0[t0];
                let i = choose|i: int| 0 <= i < f.len() && f[i] == x;
                assert(f.push(x0)[i] == x);
            }
        }
    }
}

/// Storing an entry of station `t0` under id `x` and adding `x` to the index keeps it sound.
proof fn lemma_sound_add(m: Map<i32, TollLaneCacheEntry>, ix: Map<i32, Seq<i32>>, x: i32, e: TollLaneCacheEntry)
    requires
        index_sound(m, ix),
    ensures
        index_sound(m.insert(x, e), index_add(ix, e.lane.toll_id, x)),
{
    let t0 = e.lane.toll_id;
    let m2 = m.insert(x, e);
    let ix0 = index_without(ix, x);
    assert forall|t: i32| #[trigger] ix0.contains_key(t) implies listed_under(m2, ix0[t], t) && !ix0[t].contains(x) by {
        let s = ix[t];
        assert(listed_under(m, s, t));
        lemma_filter_sub(s, other_than(x));
        s.filter_lemma(other_than(x));
        assert forall|y: i32| #[trigger] s.filter(other_than(x)).contains(y) && m2.contains_key(y) implies m2[y].lane.toll_id == t by {
            let i = choose|i: int| 0 <= i < s.filter(other_than(x)).len() && s.filter(other_than(x))[i] == y;
            assert(other_than(x)(s.filter(other_than(x))[i]));
            assert(s.contains(y));
        }
        if s.filter(other_than(x)).contains(x) {
            let i = choose|i: int| 0 <= i < s.filter(other_than(x)).len() && s.filter(other_than(x))[i] == x;
            assert(other_than(x)(s.filter(other_than(x))[i]));
        }
    }
    let s1 = if ix0.contains_key(t0) { ix0[t0].push(x) } else { seq![x] };
    assert(listed_under(m2, s1, t0)) by {
        if ix0.contains_key(t0) {
            let f = ix0[t0];
            assert forall|i: int, j: int| 0 <= i < s1.len() && 0 <= j < s1.len() && i != j implies s1[i] != s1[j] by {
                if i == f.len() {
                    assert(f.contains(f[j]));
                } else if j == f.len() {
                    assert(f.contains(f[i]));
                }
            }
            assert forall|y: i32| #[trigger] s1.contains(y) && m2.contains_key(y) implies m2[y].lane.toll_id == t0 by {
                if y != x {
                    let i = choose|i: int| 0 <= i < s1.len() && s1[i] == y;
                    assert(f[i] == y);
                    assert(f.contains(y));
                }
            }
        } else {
            assert forall|y: i32| #[trigger] s1.contains(y) && m2.contains_key(y) implies m2[y].lane.toll_id == t0 by {
                let i = choose|i: int| 0 <= i < s1.len() && s1[i] == y;
            }
        }
    }
}

/// The ids of `s`, listed under station `t`, that survive when the entries of `gone` leave:
/// an id leaves the list of the station its entry belonged to.
pub open spec fn kept_ids(s: Seq<i32>, gone: Map<i32, TollLaneCacheEntry>, t: i32) -> Seq<i32> {
    s.filter(stays(gone, t))
}

/// Whether an id listed under station `t` stays when the entries of `gone` leave.
pub open spec fn stays(gone: Map<i32, TollLaneCacheEntry>, t: i32) -> spec_fn(i32) -> bool {
    |x: i32| !(gone.contains_key(x) && gone[x].lane.toll_id == t)
}

/// Whether an id is not `lane_id`.
pub open spec fn other_than(lane_id: i32) -> spec_fn(i32) -> bool {
    |x: i32| x != lane_id
}

/// The index after the entries of `gone` left the cache; lists left empty are dropped.
pub open spec fn index_strip(ix: Map<i32, Seq<i32>>, gone: Map<i32, TollLaneCacheEntry>) -> Map<i32, Seq<i32>> {
    Map::new(
        |t: i32| ix.contains_key(t) && kept_ids(ix[t], gone, t).len() > 0,
        |t: i32| kept_ids(ix[t], gone, t),
    )
}

/// The entries of `before` that are not in `after`.
pub open spec fn dropped(before: Map<i32, TollLaneCacheEntry>, after: Map<i32, TollLaneCacheEntry>) -> Map<i32, TollLaneCacheEntry> {
    before.remove_keys(after.dom())
}

/// `after` is `before` with some keys dropped, `n` of them, none of which was read more
/// recently than any key that stays.
pub open spec fn lane_lru_evicted(before: Map<i32, TollLaneCacheEntry>, after: Map<i32, TollLaneCacheEntry>, n: nat) -> bool {
    &&& after.dom().subset_of(before.dom())
    &&& forall|k: i32| #[trigger] after.contains_key(k) ==> after[k] == before[k]
    &&& after.len() + n == before.len()
    &&& forall|k1: i32, k2: i32|
        before.contains_key(k1) && !after.contains_key(k1) && after.contains_key(k2) ==> before[k1].last_access
            <= before[k2].last_access
}

/// `x + n`, wrapping modulo 2^64.
pub open spec fn wrap_add_lanes(x: u64, n: nat) -> u64
    decreases n,
{
    if n == 0 {
        x
    } else {
        wrap_inc(wrap_add_lanes(x, (n - 1) as nat))
    }
}

proof fn lemma_wrap_add_lanes_step(x: u64, n: nat)
    ensures
        wrap_add_lanes(x, n + 1) == wrap_inc(wrap_add_lanes(x, n)),
{
}

/// Filtering by `p` and then by `q` filters by their conjunction `r`.
proof fn lemma_filter_filter(s: Seq<i32>, p: spec_fn(i32) -> bool, q: spec_fn(i32) -> bool, r: spec_fn(i32) -> bool)
    requires
        forall|x: i32| #[trigger] r(x) == (p(x) && q(x)),
    ensures
        s.filter(p).filter(q) == s.filter(r),
    decreases s.len(),
{
    reveal(Seq::filter);
    if s.len() > 0 {
        lemma_filter_filter(s.drop_last(), p, q, r);
        assert(s.drop_last().push(s.last()) =~= s);
        s.drop_last().lemma_filter_push(s.last(), p);
        s.drop_last().lemma_filter_push(s.last(), r);
        s.drop_last().filter(p).lemma_filter_push(s.last(), q);
    }
}

/// Filters by predicates that agree on every element are equal.
proof fn lemma_filter_same(s: Seq<i32>, p: spec_fn(i32) -> bool, q: spec_fn(i32) -> bool)
    requires
        forall|x: i32| s.contains(x) ==> p(x) == q(x),
    ensures
        s.filter(p) == s.filter(q),
    decreases s.len(),
{
    reveal(Seq::filter);
    if s.len() > 0 {
        assert forall|x: i32| s.drop_last().contains(x) implies p(x) == q(x) by {
            let i = choose|i: int| 0 <= i < s.drop_last().len() && s.drop_last()[i] == x;
            assert(s[i] == x);
            assert(s.contains(x));
        }
        lemma_filter_same(s.drop_last(), p, q);
        assert(s.contains(s.last())) by {
            assert(s[s.len() - 1] == s.last());
        }
    }
}

/// Nothing gone leaves an index of non-empty lists as it is.
proof fn lemma_strip_empty(ix: Map<i32, Seq<i32>>)
    requires
        forall|t: i32| #[trigger] ix.contains_key(t) ==> ix[t].len() > 0,
    ensures
        index_strip(ix, Map::empty()) == ix,
{
    assert forall|t: i32| ix.contains_key(t) implies kept_ids(ix[t], Map::empty(), t) == ix[t] by {
        lemma_filter_all(ix[t], stays(Map::empty(), t));
    }
    assert(index_strip(ix, Map::empty()) =~= ix);
}

/// A filter that keeps every element keeps the sequence.
proof fn lemma_filter_all(s: Seq<i32>, p: spec_fn(i32) -> bool)
    requires
        forall|x: i32| #[trigger] p(x),
    ensures
        s.filter(p) == s,
    decreases s.len(),
{
    reveal(Seq::filter);
    if s.len() > 0 {
        lemma_filter_all(s.drop_last(), p);
        assert(s.drop_last().push(s.last()) =~= s);
    }
}

/// One more entry leaving: its id leaves the list of its own station.
proof fn lemma_strip_step(ix: Map<i32, Seq<i32>>, gone: Map<i32, TollLaneCacheEntry>, x: i32, e: TollLaneCacheEntry)
    requires
        !gone.contains_key(x),
    ensures
        index_strip(ix, gone.insert(x, e)) == index_unlink(index_strip(ix, gone), e.lane.toll_id, x),
{
    let g2 = gone.insert(x, e);
    let t0 = e.lane.toll_id;
    let s0 = index_strip(ix, gone);
    assert forall|t: i32| ix.contains_key(t) && t != t0 implies kept_ids(ix[t], g2, t) == kept_ids(ix[t], gone, t) by {
        lemma_filter_same(ix[t], stays(g2, t), stays(gone, t));
    }
    if ix.contains_key(t0) {
        lemma_filter_filter(ix[t0], stays(gone, t0), other_than(x), stays(g2, t0));
        if kept_ids(ix[t0], gone, t0).len() == 0 {
            assert(kept_ids(ix[t0], gone, t0) =~= Seq::<i32>::empty());
            reveal(Seq::filter);
            assert(kept_ids(ix[t0], g2, t0).len() == 0);
        }
    }
    assert(index_strip(ix, g2) =~= index_unlink(s0, t0, x));
}

/// The index after lane `lane_id` left the list of station `toll_id`; a list left empty is
/// dropped.
pub open spec fn index_unlink(ix: Map<i32, Seq<i32>>, toll_id: i32, lane_id: i32) -> Map<i32, Seq<i32>> {
    if ix.contains_key(toll_id) {
        let s = ix[toll_id].filter(other_than(lane_id));
        if s.len() == 0 {
            ix.remove(toll_id)
        } else {
            ix.insert(toll_id, s)
        }
    } else {
        ix
    }
}

/// The index with `lane_id` appended to the list of station `toll_id`.
pub open spec fn index_appended(ix: Map<i32, Seq<i32>>, toll_id: i32, lane_id: i32) -> Map<i32, Seq<i32>> {
    ix.insert(toll_id, if ix.contains_key(toll_id) { ix[toll_id].push(lane_id) } else { seq![lane_id] })
}

/// The index with `lane_id` taken out of the lists of the stations of `done`.
spec fn index_partial(ix: Map<i32, Seq<i32>>, lane_id: i32, done: Seq<i32>) -> Map<i32, Seq<i32>> {
    Map::new(
        |t: i32| ix.contains_key(t) && (done.contains(t) ==> ix[t].filter(other_than(lane_id)).len() > 0),
        |t: i32| if done.contains(t) { ix[t].filter(other_than(lane_id)) } else { ix[t] },
    )
}

/// TOLL_LANE memory cache: `toll_lane_id` -> TOLL_LANE, with an index by `toll_id`.
pub struct TollLaneCache {
    data: Vec<TollLaneCacheEntry>,
    index: Vec<LaneGroup>,
    default_ttl_ms: i64,
    max_total_entries: usize,
    hits: u64,
    misses: u64,
    evictions: u64,
}

impl View for TollLaneCache {
    type V = Map<i32, TollLaneCacheEntry>;

    closed spec fn view(&self) -> Map<i32, TollLaneCacheEntry> {
        seq_to_map(self.data@, |e: TollLaneCacheEntry| lane_key(e))
    }
}

impl TollLaneCache {
    /// The index: for each station, the lane ids stored under it, in the order they were stored.
    pub closed spec fn lane_index(&self) -> Map<i32, Seq<i32>> {
        seq_to_map(self.index@, |g: LaneGroup| group_key(g)).map_values(|g: LaneGroup| g.lane_ids@)
    }

    /// The layout of the cache: one entry per lane, one list per station, no empty list.
    closed spec fn shape(&self) -> bool {
        &&& distinct_keys(self.data@, |e: TollLaneCacheEntry| lane_key(e))
        &&& distinct_keys(self.index@, |g: LaneGroup| group_key(g))
        &&& forall|i: int| 0 <= i < self.index@.len() ==> #[trigger] self.index@[i].lane_ids@.len() > 0
    }

    /// The cache's internal consistency: its layout, and an index that lists each lane at most
    /// once per station, only under the station of its entry (see [`index_sound`]), and every
    /// stored lane under its station (see [`index_complete`]).
    pub closed spec fn wf(&self) -> bool {
        &&& self.shape()
        &&& index_sound(self@, self.lane_index())
        &&& index_complete(self@, self.lane_index())
    }

    /// Time-to-live of an entry, in milliseconds.
    pub closed spec fn ttl(&self) -> i64 {
        self.default_ttl_ms
    }

    /// Maximum number of entries.
    pub closed spec fn capacity(&self) -> usize {
        self.max_total_entries
    }

    /// Number of reads that found a live entry.
    pub closed spec fn hit_count(&self) -> u64 {
        self.hits
    }

    /// Number of reads that found no live entry.
    pub closed spec fn miss_count(&self) -> u64 {
        self.misses
    }

    /// Number of entries evicted for lack of room.
    pub closed spec fn eviction_count(&self) -> u64 {
        self.evictions
    }

    proof fn lemma_view(&self)
        requires
            distinct_keys(self.data@, |e: TollLaneCacheEntry| lane_key(e)),
        ensures
            self@.dom().finite(),
            self@.len() == self.data@.len(),
            forall|k: i32|
                self@.contains_key(k) <==> exists|i: int|
                    0 <= i < self.data@.len() && lane_key(self.data@[i]) == k,
            forall|i: int|
                0 <= i < self.data@.len() ==> #[trigger] self@[lane_key(self.data@[i])]
                    == self.data@[i],
    {
        lemma_seq_to_map_contents(self.data@, |e: TollLaneCacheEntry| lane_key(e));
        assert forall|k: i32| self@.contains_key(k) <==> exists|i: int|
            0 <= i < self.data@.len() && lane_key(self.data@[i]) == k by {
            assert(forall|i: int| #[trigger] lane_key(self.data@[i]) == (|e: TollLaneCacheEntry| lane_key(e))(self.data@[i]));
        }
    }

    proof fn lemma_index(&self)
        requires
            self.shape(),
        ensures
            self.lane_index().dom().finite(),
            forall|t: i32|
                self.lane_index().contains_key(t) <==> exists|i: int|
                    0 <= i < self.index@.len() && group_key(self.index@[i]) == t,
            forall|i: int|
                0 <= i < self.index@.len() ==> #[trigger] self.lane_index()[group_key(self.index@[i])]
                    == self.index@[i].lane_ids@,
            forall|t: i32| #[trigger] self.lane_index().contains_key(t) ==> self.lane_index()[t].len() > 0,
    {
        let key = |g: LaneGroup| group_key(g);
        lemma_seq_to_map_contents(self.index@, key);
        assert(self.lane_index().dom() =~= seq_to_map(self.index@, key).dom());
        assert forall|t: i32| self.lane_index().contains_key(t) <==> exists|i: int|
            0 <= i < self.index@.len() && group_key(self.index@[i]) == t by {
            assert(forall|i: int| #[trigger] group_key(self.index@[i]) == key(self.index@[i]));
        }
        assert forall|i: int| 0 <= i < self.index@.len() implies #[trigger] self.lane_index()[group_key(self.index@[i])]
            == self.index@[i].lane_ids@ by {
            assert(seq_to_map(self.index@, key)[key(self.index@[i])] == self.index@[i]);
        }
        assert forall|t: i32| #[trigger] self.lane_index().contains_key(t) implies self.lane_index()[t].len() > 0 by {
            let i = choose|i: int| 0 <= i < self.index@.len() && group_key(self.index@[i]) == t;
            assert(self.lane_index()[group_key(self.index@[i])] == self.index@[i].lane_ids@);
        }
    }

    /// A cache with time-to-live one hour and room for 5000 lanes.
    pub fn new() -> (r: TollLaneCache)
        ensures
            r.wf(),
            r@ == Map::<i32, TollLaneCacheEntry>::empty(),
            r.lane_index() == Map::<i32, Seq<i32>>::empty(),
            r.ttl() == 3_600_000,
            r.capacity() == 5000,
            r.hit_count() == 0 && r.miss_count() == 0 && r.eviction_count() == 0,
    {
        Self::with_config(3_600_000, 5000)
    }

    /// An empty cache with the given time-to-live and capacity.
    pub fn with_config(default_ttl_ms: i64, max_total_entries: usize) -> (r: TollLaneCache)
        ensures
            r.wf(),
            r@ == Map::<i32, TollLaneCacheEntry>::empty(),
            r.lane_index() == Map::<i32, Seq<i32>>::empty(),
            r.ttl() == default_ttl_ms,
            r.capacity() == max_total_entries,
            r.hit_count() == 0 && r.miss_count() == 0 && r.eviction_count() == 0,
    {
        let r = TollLaneCache {
            data: Vec::new(),
            index: Vec::new(),
            default_ttl_ms,
            max_total_entries,
            hits: 0,
            misses: 0,
            evictions: 0,
        };
        proof {
            r.lemma_view();
            r.lemma_index();
            assert(r.lane_index() =~= Map::<i32, Seq<i32>>::empty());
        }
        r
    }

    /// Position of the entry for `lane_id`, if any.
    fn find(&self, lane_id: i32) -> (r: Option<usize>)
        requires
            self.shape(),
        ensures
            match r {
                Some(i) => i < self.data@.len() && lane_key(self.data@[i as int]) == lane_id
                    && self@.contains_key(lane_id) && self@[lane_id] == self.data@[i as int],
                None => !self@.contains_key(lane_id),
            },
    {
        proof {
            self.lemma_view();
        }
        let mut i: usize = 0;
        while i < self.data.len()
            invariant
                self.shape(),
                i <= self.data@.len(),
                forall|j: int| 0 <= j < i ==> lane_key(self.data@[j]) != lane_id,
            decreases self.data@.len() - i,
        {
            if self.data[i].lane.toll_lane_id == lane_id {
                proof {
                    self.lemma_view();
                    assert(self@[lane_key(self.data@[i as int])] == self.data@[i as int]);
                }
                return Some(i);
            }
            i = i + 1;
        }
        None
    }

    /// Position of the list of station `toll_id`, if any.
    fn group_pos(&self, toll_id: i32) -> (r: Option<usize>)
        requires
            self.shape(),
        ensures
            match r {
                Some(i) => i < self.index@.len() && group_key(self.index@[i as int]) == toll_id
                    && self.lane_index().contains_key(toll_id)
                    && self.lane_index()[toll_id] == self.index@[i as int].lane_ids@,
                None => !self.lane_index().contains_key(toll_id),
            },
    {
        proof {
            self.lemma_index();
        }
        let mut i: usize = 0;
        while i < self.index.len()
            invariant
                self.shape(),
                i <= self.index@.len(),
                forall|j: int| 0 <= j < i ==> group_key(self.index@[j]) != toll_id,
            decreases self.index@.len() - i,
        {
            if self.index[i].toll_id == toll_id {
                proof {
                    self.lemma_index();
                    assert(self.lane_index()[group_key(self.index@[i as int])] == self.index@[i as int].lane_ids@);
                }
                return Some(i);
            }
            i = i + 1;
        }
        None
    }

    /// Appends `lane_id` to the list of station `toll_id`.
    fn index_append(&mut self, toll_id: i32, lane_id: i32)
        requires
            old(self).shape(),
        ensures
            final(self).shape(),
            final(self).lane_index() == index_appended(old(self).lane_index(), toll_id, lane_id),
            final(self).data == old(self).data,
            final(self).default_ttl_ms == old(self).default_ttl_ms,
            final(self).max_total_entries == old(self).max_total_entries,
            final(self).hits == old(self).hits && final(self).misses == old(self).misses,
            final(self).evictions == old(self).evictions,
    {
        let key = Ghost(|g: LaneGroup| group_key(g));
        proof {
            self.lemma_index();
        }
        match self.group_pos(toll_id) {
            Some(i) => {
                let mut g = self.index.remove(i);
                let ghost old_index = old(self).index@;
                g.lane_ids.push(lane_id);
                let ghost g2 = g;
                self.index.insert(i, g);
                proof {
                    assert(self.index@ =~= old_index.update(i as int, g2));
                    lemma_seq_to_map_update(old_index, key@, i as int, g2);
                    assert(self.lane_index() =~= index_appended(old(self).lane_index(), toll_id, lane_id));
                }
            },
            None => {
                let mut ids: Vec<i32> = Vec::new();
                ids.push(lane_id);
                let g = LaneGroup { toll_id, lane_ids: ids };
                let ghost g2 = g;
                let ghost old_index = self.index@;
                proof {
                    lemma_seq_to_map_push(old_index, key@, g2);
                    assert forall|a: int, b: int| 0 <= a < old_index.push(g2).len() && 0 <= b < old_index.push(g2).len() && a != b
                        implies group_key(old_index.push(g2)[a]) != group_key(old_index.push(g2)[b]) by {
                        if a == old_index.len() {
                            assert(group_key(old_index[b]) != toll_id);
                        } else if b == old_index.len() {
                            assert(group_key(old_index[a]) != toll_id);
                        }
                    }
                }
                self.index.push(g);
                proof {
                    assert(self.lane_index() =~= index_appended(old(self).lane_index(), toll_id, lane_id));
                }
            },
        }
    }

    /// Takes `lane_id` out of every list, dropping lists that empty.
    fn index_drop_id(&mut self, lane_id: i32)
        requires
            old(self).shape(),
        ensures
            final(self).shape(),
            final(self).lane_index() == index_without(old(self).lane_index(), lane_id),
            final(self).data == old(self).data,
            final(self).default_ttl_ms == old(self).default_ttl_ms,
            final(self).max_total_entries == old(self).max_total_entries,
            final(self).hits == old(self).hits && final(self).misses == old(self).misses,
            final(self).evictions == old(self).evictions,
    {
        proof {
            self.lemma_index();
        }
        let ghost ix0 = self.lane_index();
        let mut ts: Vec<i32> = Vec::new();
        let mut i: usize = 0;
        while i < self.index.len()
            invariant
                self.shape(),
                self.lane_index() == ix0,
                i <= self.index@.len(),
                ts@.len() == i,
                forall|k: int| 0 <= k < i ==> ts@[k] == group_key(#[trigger] self.index@[k]),
            decreases self.index@.len() - i,
        {
            ts.push(self.index[i].toll_id);
            i = i + 1;
        }
        proof {
            assert forall|a: int, b: int| 0 <= a < ts@.len() && 0 <= b < ts@.len() && a != b implies ts@[a] != ts@[b] by {
                assert(ts@[a] == group_key(self.index@[a]) && ts@[b] == group_key(self.index@[b]));
            }
            assert forall|t: i32| ix0.contains_key(t) <==> ts@.contains(t) by {
                if ix0.contains_key(t) {
                    let k = choose|k: int| 0 <= k < self.index@.len() && group_key(self.index@[k]) == t;
                    assert(ts@[k] == t);
                }
                if ts@.contains(t) {
                    let k = choose|k: int| 0 <= k < ts@.len() && ts@[k] == t;
                    assert(group_key(self.index@[k]) == t);
                }
            }
            assert(index_partial(ix0, lane_id, ts@.subrange(0, 0)) =~= ix0);
        }
        let mut j: usize = 0;
        while j < ts.len()
            invariant
                self.shape(),
                j <= ts@.len(),
                self.data == old(self).data,
                self.default_ttl_ms == old(self).default_ttl_ms,
                self.max_total_entries == old(self).max_total_entries,
                self.hits == old(self).hits && self.misses == old(self).misses,
                self.evictions == old(self).evictions,
                ix0 == old(self).lane_index(),
                forall|a: int, b: int| 0 <= a < ts@.len() && 0 <= b < ts@.len() && a != b ==> ts@[a] != ts@[b],
                forall|t: i32| ix0.contains_key(t) <==> ts@.contains(t),
                self.lane_index() == index_partial(ix0, lane_id, ts@.subrange(0, j as int)),
            decreases ts@.len() - j,
        {
            let t = ts[j];
            let ghost done = ts@.subrange(0, j as int);
            proof {
                assert(ts@.subrange(0, j + 1) =~= done.push(t));
                assert(!done.contains(t)) by {
                    if done.contains(t) {
                        let k = choose|k: int| 0 <= k < done.len() && done[k] == t;
                        assert(ts@[k] == ts@[j as int]);
                    }
                }
                assert(ts@.contains(t)) by {
                    assert(ts@[j as int] == t);
                }
                assert forall|u: i32| done.push(t).contains(u) <==> (done.contains(u) || u == t) by {
                    if done.push(t).contains(u) && u != t {
                        let k = choose|k: int| 0 <= k < done.push(t).len() && done.push(t)[k] == u;
                        assert(done[k] == u);
                    }
                    if done.contains(u) {
                        let k = choose|k: int| 0 <= k < done.len() && done[k] == u;
                        assert(done.push(t)[k] == u);
                    }
                    if u == t {
                        assert(done.push(t)[done.len() as int] == u);
                    }
                }
                assert(index_unlink(index_partial(ix0, lane_id, done), t, lane_id) =~= index_partial(ix0, lane_id, done.push(t)));
            }
            self.index_unlink_id(t, lane_id);
            j = j + 1;
        }
        proof {
            assert(ts@.subrange(0, ts@.len() as int) =~= ts@);
            assert(index_partial(ix0, lane_id, ts@) =~= index_without(ix0, lane_id));
        }
    }

    /// Takes `lane_id` out of every list and appends it to the list of station `toll_id`.
    fn index_push(&mut self, toll_id: i32, lane_id: i32)
        requires
            old(self).shape(),
        ensures
            final(self).shape(),
            final(self).lane_index() == index_add(old(self).lane_index(), toll_id, lane_id),
            final(self).data == old(self).data,
            final(self).default_ttl_ms == old(self).default_ttl_ms,
            final(self).max_total_entries == old(self).max_total_entries,
            final(self).hits == old(self).hits && final(self).misses == old(self).misses,
            final(self).evictions == old(self).evictions,
    {
        self.index_drop_id(lane_id);
        self.index_append(toll_id, lane_id);
    }

    /// Takes `lane_id` out of the list of station `toll_id`, dropping the list if it empties.
    fn index_unlink_id(&mut self, toll_id: i32, lane_id: i32)
        requires
            old(self).shape(),
        ensures
            final(self).shape(),
            final(self).lane_index() == index_unlink(old(self).lane_index(), toll_id, lane_id),
            final(self).data == old(self).data,
            final(self).default_ttl_ms == old(self).default_ttl_ms,
            final(self).max_total_entries == old(self).max_total_entries,
            final(self).hits == old(self).hits && final(self).misses == old(self).misses,
            final(self).evictions == old(self).evictions,
    {
        let key = Ghost(|g: LaneGroup| group_key(g));
        proof {
            self.lemma_index();
        }
        match self.group_pos(toll_id) {
            None => {},
            Some(i) => {
                let ghost ids0 = self.index@[i as int].lane_ids@;
                let mut kept: Vec<i32> = Vec::new();
                let mut k: usize = 0;
                while k < self.index[i].lane_ids.len()
                    invariant
                        i < self.index@.len(),
                        ids0 == self.index@[i as int].lane_ids@,
                        k <= ids0.len(),
                        kept@ == ids0.subrange(0, k as int).filter(other_than(lane_id)),
                    decreases ids0.len() - k,
                {
                    proof {
                        assert(ids0.subrange(0, k + 1) =~= ids0.subrange(0, k as int).push(ids0[k as int]));
                        ids0.subrange(0, k as int).lemma_filter_push(ids0[k as int], other_than(lane_id));
                    }
                    let x = self.index[i].lane_ids[k];
                    if x != lane_id {
                        kept.push(x);
                    }
                    k = k + 1;
                }
                proof {
                    assert(ids0.subrange(0, ids0.len() as int) =~= ids0);
                }
                let ghost old_index = self.index@;
                if kept.len() == 0 {
                    proof {
                        lemma_seq_to_map_remove(old_index, key@, i as int);
                        assert forall|a: int, b: int| 0 <= a < old_index.remove(i as int).len() && 0 <= b < old_index.remove(i as int).len() && a != b
                            implies group_key(old_index.remove(i as int)[a]) != group_key(old_index.remove(i as int)[b]) by {
                            let a2 = if a < i { a } else { a + 1 };
                            let b2 = if b < i { b } else { b + 1 };
                            assert(old_index.remove(i as int)[a] == old_index[a2]);
                            assert(old_index.remove(i as int)[b] == old_index[b2]);
                        }
                        assert forall|a: int| 0 <= a < old_index.remove(i as int).len() implies #[trigger] old_index.remove(i as int)[a].lane_ids@.len() > 0 by {
                            let a2 = if a < i { a } else { a + 1 };
                            assert(old_index.remove(i as int)[a] == old_index[a2]);
                        }
                    }
                    self.index.remove(i);
                    proof {
                        assert(self.lane_index() =~= index_unlink(old(self).lane_index(), toll_id, lane_id));
                    }
                } else {
                    let g = LaneGroup { toll_id, lane_ids: kept };
                    let ghost g2 = g;
                    proof {
                        lemma_seq_to_map_update(old_index, key@, i as int, g2);
                    }
                    self.index.set(i, g);
                    proof {
                        assert(self.lane_index() =~= index_unlink(old(self).lane_index(), toll_id, lane_id));
                    }
                }
            },
        }
    }

    /// Evicts least recently read entries until at most `capacity()` remain; each evicted id
    /// leaves the list of its station.
    fn evict_if_needed(&mut self)
        requires
            old(self).shape(),
        ensures
            final(self).shape(),
            final(self).default_ttl_ms == old(self).default_ttl_ms,
            final(self).max_total_entries == old(self).max_total_entries,
            final(self).hits == old(self).hits,
            final(self).misses == old(self).misses,
            old(self)@.len() <= old(self).max_total_entries ==> final(self)@ == old(self)@,
            old(self)@.len() > old(self).max_total_entries ==> final(self)@.len()
                == old(self).max_total_entries,
            lane_lru_evicted(old(self)@, final(self)@, (old(self)@.len() - final(self)@.len()) as nat),
            final(self).evictions == wrap_add_lanes(old(self).evictions, (old(self)@.len() - final(self)@.len()) as nat),
            final(self).lane_index() == index_strip(old(self).lane_index(), dropped(old(self)@, final(self)@)),
    {
        proof {
            self.lemma_view();
            self.lemma_index();
            lemma_strip_empty(self.lane_index());
        }
        let ghost before = self@;
        let ghost ix0 = self.lane_index();
        let ghost ev0 = self.evictions;
        if self.data.len() <= self.max_total_entries {
            proof {
                assert(before.len() - self@.len() == 0);
                assert(dropped(before, before) =~= Map::empty());
            }
            return;
        }
        let to_remove = self.data.len() - self.max_total_entries;
        proof {
            assert(dropped(before, before) =~= Map::empty());
        }
        let mut r: usize = 0;
        while r < to_remove
            invariant
                self.shape(),
                r <= to_remove,
                to_remove == before.len() - self.max_total_entries,
                self.data@.len() == before.len() - r,
                self@.dom().subset_of(before.dom()),
                forall|k: i32| #[trigger] self@.contains_key(k) ==> self@[k] == before[k],
                forall|k1: i32, k2: i32|
                    before.contains_key(k1) && !self@.contains_key(k1) && self@.contains_key(k2)
                        ==> before[k1].last_access <= before[k2].last_access,
                self.evictions == wrap_add_lanes(ev0, r as nat),
                self.lane_index() == index_strip(ix0, dropped(before, self@)),
                self.default_ttl_ms == old(self).default_ttl_ms,
                self.max_total_entries == old(self).max_total_entries,
                self.hits == old(self).hits,
                self.misses == old(self).misses,
                before == old(self)@,
                ix0 == old(self).lane_index(),
                before.dom().finite(),
                ev0 == old(self).evictions,
            decreases to_remove - r,
        {
            proof {
                self.lemma_view();
            }
            let mut best: usize = 0;
            let mut j: usize = 1;
            while j < self.data.len()
                invariant
                    0 < self.data@.len(),
                    best < j <= self.data@.len(),
                    forall|q: int| 0 <= q < j ==> self.data@[best as int].last_access
                        <= self.data@[q].last_access,
                decreases self.data@.len() - j,
            {
                if self.data[j].last_access < self.data[best].last_access {
                    best = j;
                }
                j = j + 1;
            }
            let ghost old_data = self.data@;
            let ghost old_map = self@;
            let ghost k0 = lane_key(old_data[best as int]);
            let ghost gone0 = dropped(before, old_map);
            proof {
                lemma_seq_to_map_remove(old_data, |e: TollLaneCacheEntry| lane_key(e), best as int);
                assert(old_map[k0] == old_data[best as int]);
                lemma_strip_step(ix0, gone0, k0, old_map[k0]);
                assert(dropped(before, old_map.remove(k0)) =~= gone0.insert(k0, old_map[k0]));
            }
            let e = self.data.remove(best);
            proof {
                assert forall|a: int, b: int| 0 <= a < self.data@.len() && 0 <= b < self.data@.len() && a != b
                    implies lane_key(self.data@[a]) != lane_key(self.data@[b]) by {
                    let a2 = if a < best { a } else { a + 1 };
                    let b2 = if b < best { b } else { b + 1 };
                    assert(self.data@[a] == old_data[a2]);
                    assert(self.data@[b] == old_data[b2]);
                }
            }
            self.index_unlink_id(e.lane.toll_id, e.lane.toll_lane_id);
            self.evictions = wrapping_inc(self.evictions);
            proof {
                lemma_wrap_add_lanes_step(ev0, r as nat);
                self.lemma_view();
                assert(self@ == old_map.remove(k0));
                assert forall|k1: i32, k2: i32|
                    before.contains_key(k1) && !self@.contains_key(k1) && self@.contains_key(k2)
                        implies before[k1].last_access <= before[k2].last_access by {
                    if k1 == k0 {
                        let q = choose|q: int| 0 <= q < self.data@.len() && lane_key(self.data@[q]) == k2;
                        let q2 = if q < best { q } else { q + 1 };
                        assert(self.data@[q] == old_data[q2]);
                        assert(old_map[k2] == old_data[q2]);
                    }
                }
            }
            r = r + 1;
        }
        proof {
            self.lemma_view();
            assert(self@.len() == before.len() - to_remove);
        }
    }
}

/// What storing a lane leaves: the lane stored (replacing any entry with its id), its id
/// appended to the list of its station, then least recently read entries evicted down to the
/// capacity, each evicted id leaving the list of its station.
pub open spec fn lane_put_post(old: TollLaneCache, new: TollLaneCache, lane: TOLL_LANE, now: i64) -> bool {
    let m1 = old@.insert(lane.toll_lane_id, new_lane_entry(lane, now));
    let ix1 = index_add(old.lane_index(), lane.toll_id, lane.toll_lane_id);
    &&& new.wf()
    &&& new.ttl() == old.ttl() && new.capacity() == old.capacity()
    &&& new.hit_count() == old.hit_count() && new.miss_count() == old.miss_count()
    &&& new@.len() == if m1.len() <= old.capacity() { m1.len() } else { old.capacity() as nat }
    &&& lane_lru_evicted(m1, new@, (m1.len() - new@.len()) as nat)
    &&& new.eviction_count() == wrap_add_lanes(old.eviction_count(), (m1.len() - new@.len()) as nat)
    &&& new.lane_index() == index_strip(ix1, dropped(m1, new@))
}

impl TollLaneCache {
    /// Stores `lane` as read at `now` (see [`lane_put_post`]).
    pub fn put_at(&mut self, lane: TOLL_LANE, now: i64)
        requires
            old(self).wf(),
        ensures
            lane_put_post(*old(self), *final(self), lane, now),
    {
        let ghost lane0 = lane;
        proof {
            self.lemma_view();
        }
        let lane_id = lane.toll_lane_id;
        let toll_id = lane.toll_id;
        let entry = TollLaneCacheEntry { lane, created_at: now, last_access: now, access_count: 0 };
        let ghost e = entry;
        match self.find(lane_id) {
            Some(i) => {
                proof {
                    lemma_seq_to_map_update(self.data@, |e: TollLaneCacheEntry| lane_key(e), i as int, e);
                }
                self.data.set(i, entry);
            },
            None => {
                proof {
                    lemma_seq_to_map_push(self.data@, |e: TollLaneCacheEntry| lane_key(e), e);
                    assert forall|a: int, b: int| 0 <= a < self.data@.push(e).len() && 0 <= b < self.data@.push(e).len() && a != b
                        implies lane_key(self.data@.push(e)[a]) != lane_key(self.data@.push(e)[b]) by {
                        if a == self.data@.len() {
                            assert(lane_key(self.data@[b]) != lane_id);
                        } else if b == self.data@.len() {
                            assert(lane_key(self.data@[a]) != lane_id);
                        }
                    }
                }
                self.data.push(entry);
            },
        }
        self.index_push(toll_id, lane_id);
        proof {
            self.lemma_view();
            assert(self@ == old(self)@.insert(lane_id, new_lane_entry(lane0, now)));
            lemma_sound_add(old(self)@, old(self).lane_index(), lane_id, e);
            lemma_complete_add(old(self)@, old(self).lane_index(), lane_id, e);
        }
        let ghost m1 = self@;
        let ghost ix1 = self.lane_index();
        self.evict_if_needed();
        proof {
            assert(same_stations(m1, self@));
            lemma_sound_strip(m1, self@, ix1, dropped(m1, self@));
            lemma_complete_strip(m1, self@, ix1, dropped(m1, self@));
        }
    }

    /// Stores `lane` as read now (see [`TollLaneCache::put_at`]).
    pub fn put(&mut self, lane: TOLL_LANE)
        requires
            old(self).wf(),
        ensures
            exists|now: i64| lane_put_post(*old(self), *final(self), lane, now),
    {
        let now = timestamp_ms();
        self.put_at(lane, now);
    }

    /// The lane `toll_lane_id` if its entry is live at `now`, marked read (a hit). An expired
    /// entry is dropped (its id stays in the index) and, like a missing one, counted as a miss.
    pub fn get_at(&mut self, toll_lane_id: i32, now: i64) -> (r: Option<TOLL_LANE>)
        requires
            old(self).wf(),
        ensures
            lane_get_post(*old(self), *final(self), toll_lane_id, now, r),
    {
        proof {
            self.lemma_view();
        }
        match self.find(toll_lane_id) {
            Some(i) => {
                if fresh(self.data[i].created_at, now, self.default_ttl_ms) {
                    let l = self.data[i].lane.clone();
                    let l2 = self.data[i].lane.clone();
                    let ghost old_e = self.data@[i as int];
                    let e2 = TollLaneCacheEntry {
                        lane: l2,
                        created_at: self.data[i].created_at,
                        last_access: now,
                        access_count: wrapping_inc(self.data[i].access_count),
                    };
                    proof {
                        assert(e2 == lane_touched(old_e, now));
                        lemma_seq_to_map_update(self.data@, |e: TollLaneCacheEntry| lane_key(e), i as int, e2);
                    }
                    self.data.set(i, e2);
                    self.hits = wrapping_inc(self.hits);
                    proof {
                        self.lemma_view();
                    }
                    Some(l)
                } else {
                    let ghost old_data = self.data@;
                    proof {
                        lemma_seq_to_map_remove(self.data@, |e: TollLaneCacheEntry| lane_key(e), i as int);
                    }
                    self.data.remove(i);
                    self.misses = wrapping_inc(self.misses);
                    proof {
                        assert forall|a: int, b: int| 0 <= a < self.data@.len() && 0 <= b < self.data@.len() && a != b
                            implies lane_key(self.data@[a]) != lane_key(self.data@[b]) by {
                            let a2 = if a < i { a } else { a + 1 };
                            let b2 = if b < i { b } else { b + 1 };
                            assert(self.data@[a] == old_data[a2]);
                            assert(self.data@[b] == old_data[b2]);
                        }
                        self.lemma_view();
                    }
                    None
                }
            },
            None => {
                self.misses = wrapping_inc(self.misses);
                None
            },
        }
    }

    /// The lane `toll_lane_id` if live now (see [`TollLaneCache::get_at`]).
    pub fn get(&mut self, toll_lane_id: i32) -> (r: Option<TOLL_LANE>)
        requires
            old(self).wf(),
        ensures
            exists|now: i64| lane_get_post(*old(self), *final(self), toll_lane_id, now, r),
    {
        let now = timestamp_ms();
        self.get_at(toll_lane_id, now)
    }

    /// Removes the entry of `toll_lane_id`, taking its id out of the list of its station;
    /// whether there was one.
    pub fn remove(&mut self, toll_lane_id: i32) -> (r: bool)
        requires
            old(self).wf(),
        ensures
            final(self).wf(),
            r == old(self)@.contains_key(toll_lane_id),
            final(self)@ == old(self)@.remove(toll_lane_id),
            r ==> final(self).lane_index() == index_unlink(old(self).lane_index(), old(self)@[toll_lane_id].lane.toll_id, toll_lane_id),
            !r ==> final(self).lane_index() == old(self).lane_index(),
            final(self).ttl() == old(self).ttl() && final(self).capacity() == old(self).capacity(),
            final(self).hit_count() == old(self).hit_count() && final(self).miss_count() == old(self).miss_count(),
            final(self).eviction_count() == old(self).eviction_count(),
    {
        proof {
            self.lemma_view();
        }
        match self.find(toll_lane_id) {
            Some(i) => {
                let ghost old_data = self.data@;
                proof {
                    lemma_seq_to_map_remove(self.data@, |e: TollLaneCacheEntry| lane_key(e), i as int);
                }
                let e = self.data.remove(i);
                proof {
                    assert forall|a: int, b: int| 0 <= a < self.data@.len() && 0 <= b < self.data@.len() && a != b
                        implies lane_key(self.data@[a]) != lane_key(self.data@[b]) by {
                        let a2 = if a < i { a } else { a + 1 };
                        let b2 = if b < i { b } else { b + 1 };
                        assert(self.data@[a] == old_data[a2]);
                        assert(self.data@[b] == old_data[b2]);
                    }
                }
                self.index_unlink_id(e.lane.toll_id, toll_lane_id);
                proof {
                    self.lemma_view();
                    assert(same_stations(old(self)@, self@));
                    lemma_sound_unlink(old(self)@, self@, old(self).lane_index(), e.lane.toll_id, toll_lane_id);
                    lemma_complete_unlink(old(self)@, self@, old(self).lane_index(), e.lane.toll_id, toll_lane_id);
                }
                true
            },
            None => {
                proof {
                    assert(old(self)@.remove(toll_lane_id) =~= old(self)@);
                }
                false
            },
        }
    }

    /// Removes every entry and the whole index; the counters are kept.
    pub fn clear(&mut self)
        requires
            old(self).wf(),
        ensures
            final(self).wf(),
            final(self)@ == Map::<i32, TollLaneCacheEntry>::empty(),
            final(self).lane_index() == Map::<i32, Seq<i32>>::empty(),
            final(self).ttl() == old(self).ttl() && final(self).capacity() == old(self).capacity(),
            final(self).hit_count() == old(self).hit_count() && final(self).miss_count() == old(self).miss_count(),
            final(self).eviction_count() == old(self).eviction_count(),
    {
        self.data.clear();
        self.index.clear();
        proof {
            self.lemma_view();
            self.lemma_index();
            assert(self.lane_index() =~= Map::<i32, Seq<i32>>::empty());
        }
    }

    /// Entry count and counters.
    pub fn get_stats(&self) -> (r: TollLaneCacheStats)
        requires
            self.wf(),
        ensures
            r.total_entries == self@.len(),
            r.hits == self.hit_count(),
            r.misses == self.miss_count(),
            r.evictions == self.eviction_count(),
    {
        proof {
            self.lemma_view();
        }
        TollLaneCacheStats {
            total_entries: self.data.len(),
            hits: self.hits,
            misses: self.misses,
            evictions: self.evictions,
        }
    }
}

/// What reading lane `toll_lane_id` at `now` answers and leaves: a live entry is returned and
/// marked read (a hit); an expired entry is dropped, its id staying in the index, and, like a
/// missing one, counted as a miss.
pub open spec fn lane_get_post(old: TollLaneCache, new: TollLaneCache, toll_lane_id: i32, now: i64, r: Option<TOLL_LANE>) -> bool {
    &&& new.wf()
    &&& new.ttl() == old.ttl() && new.capacity() == old.capacity()
    &&& new.eviction_count() == old.eviction_count()
    &&& new.lane_index() == old.lane_index()
    &&& if !old@.contains_key(toll_lane_id) {
        &&& r is None
        &&& new@ == old@
        &&& new.miss_count() == wrap_inc(old.miss_count())
        &&& new.hit_count() == old.hit_count()
    } else if lane_fresh(old@[toll_lane_id], now, old.ttl()) {
        &&& r == Some(old@[toll_lane_id].lane)
        &&& new@ == old@.insert(toll_lane_id, lane_touched(old@[toll_lane_id], now))
        &&& new.hit_count() == wrap_inc(old.hit_count())
        &&& new.miss_count() == old.miss_count()
    } else {
        &&& r is None
        &&& new@ == old@.remove(toll_lane_id)
        &&& new.miss_count() == wrap_inc(old.miss_count())
        &&& new.hit_count() == old.hit_count()
    }
}

/// The entries of `m` live at `now`.
pub open spec fn lanes_live(m: Map<i32, TollLaneCacheEntry>, now: i64, ttl: i64) -> Map<i32, TollLaneCacheEntry> {
    Map::new(|k: i32| m.contains_key(k) && lane_fresh(m[k], now, ttl), |k: i32| m[k])
}

impl TollLaneCache {
    /// Drops the entries expired at `now`, each taking its id out of the list of its station;
    /// how many were dropped.
    pub fn cleanup_expired_at(&mut self, now: i64) -> (r: usize)
        requires
            old(self).wf(),
        ensures
            final(self).wf(),
            final(self)@ == lanes_live(old(self)@, now, old(self).ttl()),
            final(self).lane_index() == index_strip(old(self).lane_index(), dropped(old(self)@, final(self)@)),
            r == old(self)@.len() - final(self)@.len(),
            final(self).ttl() == old(self).ttl() && final(self).capacity() == old(self).capacity(),
            final(self).hit_count() == old(self).hit_count() && final(self).miss_count() == old(self).miss_count(),
            final(self).eviction_count() == old(self).eviction_count(),
    {
        proof {
            self.lemma_view();
            self.lemma_index();
            lemma_strip_empty(self.lane_index());
            assert(dropped(old(self)@, old(self)@) =~= Map::empty());
        }
        let ghost m0 = self@;
        let ghost ix0 = self.lane_index();
        let ttl = self.default_ttl_ms;
        let mut count: usize = 0;
        proof {
            assert(m0.len() == self.data@.len());
            assert(self.data@.len() == self.data.len());
        }
        let mut i: usize = 0;
        while i < self.data.len()
            invariant
                self.shape(),
                i <= self.data@.len(),
                self.default_ttl_ms == ttl,
                ttl == old(self).default_ttl_ms,
                self.max_total_entries == old(self).max_total_entries,
                self.hits == old(self).hits && self.misses == old(self).misses,
                self.evictions == old(self).evictions,
                m0 == old(self)@,
                ix0 == old(self).lane_index(),
                m0.dom().finite(),
                forall|j: int| 0 <= j < i ==> lane_fresh(#[trigger] self.data@[j], now, ttl),
                self@.dom().subset_of(m0.dom()),
                forall|k: i32| #[trigger] self@.contains_key(k) ==> self@[k] == m0[k],
                forall|k: i32| #[trigger] m0.contains_key(k) && !self@.contains_key(k) ==> !lane_fresh(m0[k], now, ttl),
                self.lane_index() == index_strip(ix0, dropped(m0, self@)),
                count + self.data@.len() == m0.len(),
                m0.len() <= usize::MAX,
            decreases self.data@.len() - i,
        {
            proof {
                self.lemma_view();
            }
            if fresh(self.data[i].created_at, now, ttl) {
                i = i + 1;
            } else {
                let ghost old_data = self.data@;
                let ghost old_map = self@;
                let ghost k0 = lane_key(old_data[i as int]);
                proof {
                    lemma_seq_to_map_remove(old_data, |e: TollLaneCacheEntry| lane_key(e), i as int);
                    assert(old_map[k0] == old_data[i as int]);
                    lemma_strip_step(ix0, dropped(m0, old_map), k0, old_map[k0]);
                    assert(dropped(m0, old_map.remove(k0)) =~= dropped(m0, old_map).insert(k0, old_map[k0]));
                }
                let e = self.data.remove(i);
                proof {
                    assert forall|a: int, b: int| 0 <= a < self.data@.len() && 0 <= b < self.data@.len() && a != b
                        implies lane_key(self.data@[a]) != lane_key(self.data@[b]) by {
                        let a2 = if a < i { a } else { a + 1 };
                        let b2 = if b < i { b } else { b + 1 };
                        assert(self.data@[a] == old_data[a2]);
                        assert(self.data@[b] == old_data[b2]);
                    }
                    assert forall|j: int| 0 <= j < i implies lane_fresh(#[trigger] self.data@[j], now, ttl) by {
                        assert(self.data@[j] == old_data[j]);
                    }
                }
                self.index_unlink_id(e.lane.toll_id, e.lane.toll_lane_id);
                count = count + 1;
                proof {
                    self.lemma_view();
                }
            }
        }
        proof {
            self.lemma_view();
            assert forall|k: i32| #[trigger] self@.contains_key(k) implies lane_fresh(self@[k], now, ttl) by {
                let j = choose|j: int| 0 <= j < self.data@.len() && lane_key(self.data@[j]) == k;
                assert(self@[lane_key(self.data@[j])] == self.data@[j]);
            }
            assert(self@ =~= lanes_live(m0, now, ttl));
            assert(same_stations(old(self)@, self@));
            lemma_sound_strip(old(self)@, self@, old(self).lane_index(), dropped(old(self)@, self@));
            lemma_complete_strip(old(self)@, self@, old(self).lane_index(), dropped(old(self)@, self@));
        }
        count
    }

    /// Drops the entries expired now (see [`TollLaneCache::cleanup_expired_at`]).
    pub fn cleanup_expired(&mut self) -> (r: usize)
        requires
            old(self).wf(),
        ensures
            final(self).wf(),
            exists|now: i64| final(self)@ == lanes_live(old(self)@, now, old(self).ttl()),
            final(self).lane_index() == index_strip(old(self).lane_index(), dropped(old(self)@, final(self)@)),
            r == old(self)@.len() - final(self)@.len(),
            final(self).ttl() == old(self).ttl() && final(self).capacity() == old(self).capacity(),
            final(self).hit_count() == old(self).hit_count() && final(self).miss_count() == old(self).miss_count(),
            final(self).eviction_count() == old(self).eviction_count(),
    {
        let now = timestamp_ms();
        self.cleanup_expired_at(now)
    }
}

/// The lane ids listed under station `t` (none when it has no list).
pub open spec fn ids_of(ix: Map<i32, Seq<i32>>, t: i32) -> Seq<i32> {
    if ix.contains_key(t) {
        ix[t]
    } else {
        Seq::empty()
    }
}

/// Whether `x` has an entry in `m` live at `now`.
pub open spec fn live_id(m: Map<i32, TollLaneCacheEntry>, now: i64, ttl: i64) -> spec_fn(i32) -> bool {
    |x: i32| m.contains_key(x) && lane_fresh(m[x], now, ttl)
}

/// Whether `x` has an entry in `m` expired at `now`.
pub open spec fn expired_id(m: Map<i32, TollLaneCacheEntry>, now: i64, ttl: i64) -> spec_fn(i32) -> bool {
    |x: i32| m.contains_key(x) && !lane_fresh(m[x], now, ttl)
}

/// The lane of the entry of `x` in `m`.
pub open spec fn lane_of(m: Map<i32, TollLaneCacheEntry>) -> spec_fn(i32) -> TOLL_LANE {
    |x: i32| m[x].lane
}

/// `e` after `n` reads at time `now`.
pub open spec fn touch_n(e: TollLaneCacheEntry, now: i64, n: nat) -> TollLaneCacheEntry {
    if n == 0 {
        e
    } else {
        TollLaneCacheEntry { last_access: now, access_count: wrap_add_lanes(e.access_count, n), ..e }
    }
}

/// The entries of `m` after the ids of `ids` were read at `now`: a live entry is marked read once
/// per occurrence of its id; the others are unchanged.
pub open spec fn reads_applied(m: Map<i32, TollLaneCacheEntry>, ids: Seq<i32>, now: i64, ttl: i64) -> Map<i32, TollLaneCacheEntry> {
    Map::new(
        |k: i32| m.contains_key(k),
        |k: i32| if lane_fresh(m[k], now, ttl) { touch_n(m[k], now, ids.to_multiset().count(k)) } else { m[k] },
    )
}

/// The ids of `ids` whose entries in `m` are expired at `now`.
pub open spec fn expired_ids(m: Map<i32, TollLaneCacheEntry>, ids: Seq<i32>, now: i64, ttl: i64) -> Set<i32> {
    Set::new(|x: i32| ids.contains(x) && m.contains_key(x) && !lane_fresh(m[x], now, ttl))
}

proof fn lemma_count_push(p: Seq<i32>, a: i32, k: i32)
    ensures
        p.push(a).to_multiset().count(k) == p.to_multiset().count(k) + (if k == a { 1nat } else { 0nat }),
{
    broadcast use vstd::multiset::group_multiset_axioms;
    broadcast use vstd::multiset::group_multiset_properties;
    vstd::seq_lib::to_multiset_build(p, a);
}

proof fn lemma_count_empty(k: i32)
    ensures
        Seq::<i32>::empty().to_multiset().count(k) == 0,
{
    broadcast use vstd::multiset::group_multiset_axioms;
    broadcast use vstd::multiset::group_multiset_properties;
    vstd::seq_lib::to_multiset_len(Seq::<i32>::empty());
    if Seq::<i32>::empty().to_multiset().count(k) > 0 {
        vstd::multiset::lemma_multiset_empty_len(Seq::<i32>::empty().to_multiset());
    }
}

impl TollLaneCache {
    /// The lanes listed under station `toll_id` whose entries are live at `now`, in list order
    /// (each lane once, and only lanes of that station), each read counted as a hit and marked
    /// on its entry. Listed ids whose entries expired are dropped from the cache, each leaving the list
    /// of the station its entry belonged to. Misses are not counted.
    pub fn get_by_toll_id_at(&mut self, toll_id: i32, now: i64) -> (r: Vec<TOLL_LANE>)
        requires
            old(self).wf(),
        ensures
            final(self).wf(),
            ({
                let ids = ids_of(old(self).lane_index(), toll_id);
                let m0 = old(self)@;
                let ttl = old(self).ttl();
                &&& r@ == ids.filter(live_id(m0, now, ttl)).map_values(lane_of(m0))
                &&& final(self)@ == reads_applied(m0, ids, now, ttl).remove_keys(expired_ids(m0, ids, now, ttl))
                &&& final(self).lane_index() == index_strip(old(self).lane_index(), dropped(m0, final(self)@))
                &&& final(self).hit_count() == wrap_add_lanes(old(self).hit_count(), r@.len())
            }),
            forall|i: int| 0 <= i < r@.len() ==> #[trigger] r@[i].toll_id == toll_id,
            forall|i: int, j: int| 0 <= i < r@.len() && 0 <= j < r@.len() && i != j ==> r@[i].toll_lane_id != r@[j].toll_lane_id,
            forall|x: i32| #[trigger] old(self)@.contains_key(x) && old(self)@[x].lane.toll_id == toll_id
                && lane_fresh(old(self)@[x], now, old(self).ttl()) ==> r@.contains(old(self)@[x].lane),
            final(self).miss_count() == old(self).miss_count(),
            final(self).ttl() == old(self).ttl() && final(self).capacity() == old(self).capacity(),
            final(self).eviction_count() == old(self).eviction_count(),
    {
        proof {
            self.lemma_view();
            self.lemma_index();
        }
        let ghost m0 = self@;
        let ghost ix0 = self.lane_index();
        let ghost hits0 = self.hits;
        let ttl = self.default_ttl_ms;
        let ids: Vec<i32> = match self.group_pos(toll_id) {
            Some(g) => self.index[g].lane_ids.clone(),
            None => Vec::new(),
        };
        let ghost idsg = ids_of(ix0, toll_id);
        proof {
            assert(ids@ == idsg);
            assert forall|k: i32| m0.contains_key(k) implies #[trigger] Seq::<i32>::empty().to_multiset().count(k) == 0 by {
                lemma_count_empty(k);
            }
            assert(reads_applied(m0, ids@.subrange(0, 0), now, ttl) =~= m0) by {
                assert(ids@.subrange(0, 0) =~= Seq::<i32>::empty());
                assert forall|k: i32| m0.contains_key(k) implies reads_applied(m0, ids@.subrange(0, 0), now, ttl)[k] == m0[k] by {
                    lemma_count_empty(k);
                }
            }
            reveal(Seq::filter);
        }
        let mut result: Vec<TOLL_LANE> = Vec::new();
        let mut expired: Vec<i32> = Vec::new();
        let mut k: usize = 0;
        while k < ids.len()
            invariant
                self.shape(),
                k <= ids@.len(),
                ids@ == idsg,
                self.default_ttl_ms == ttl,
                ttl == old(self).default_ttl_ms,
                self.max_total_entries == old(self).max_total_entries,
                self.misses == old(self).misses,
                self.evictions == old(self).evictions,
                self.lane_index() == ix0,
                m0 == old(self)@,
                ix0 == old(self).lane_index(),
                self@ == reads_applied(m0, ids@.subrange(0, k as int), now, ttl),
                result@ == ids@.subrange(0, k as int).filter(live_id(m0, now, ttl)).map_values(lane_of(m0)),
                expired@ == ids@.subrange(0, k as int).filter(expired_id(m0, now, ttl)),
                self.hits == wrap_add_lanes(hits0, result@.len()),
            decreases ids@.len() - k,
        {
            let ghost p = ids@.subrange(0, k as int);
            let id = ids[k];
            proof {
                assert(ids@.subrange(0, k + 1) =~= p.push(id));
                p.lemma_filter_push(id, live_id(m0, now, ttl));
                p.lemma_filter_push(id, expired_id(m0, now, ttl));
                assert forall|q: i32| #[trigger] p.push(id).to_multiset().count(q) == p.to_multiset().count(q) + (if q == id { 1nat } else { 0nat }) by {
                    lemma_count_push(p, id, q);
                }
                self.lemma_view();
            }
            match self.find(id) {
                Some(pos) => {
                    if fresh(self.data[pos].created_at, now, ttl) {
                        let l = self.data[pos].lane.clone();
                        let l2 = self.data[pos].lane.clone();
                        let ghost cur = self.data@[pos as int];
                        let e2 = TollLaneCacheEntry {
                            lane: l2,
                            created_at: self.data[pos].created_at,
                            last_access: now,
                            access_count: wrapping_inc(self.data[pos].access_count),
                        };
                        proof {
                            lemma_seq_to_map_update(self.data@, |e: TollLaneCacheEntry| lane_key(e), pos as int, e2);
                            lemma_wrap_add_lanes_step(m0[id].access_count, p.to_multiset().count(id));
                            assert(e2 == touch_n(m0[id], now, p.to_multiset().count(id) + 1));
                        }
                        self.data.set(pos, e2);
                        self.hits = wrapping_inc(self.hits);
                        result.push(l);
                        proof {
                            lemma_wrap_add_lanes_step(hits0, (result@.len() - 1) as nat);
                            assert(self@ =~= reads_applied(m0, p.push(id), now, ttl));
                            assert(result@ =~= p.push(id).filter(live_id(m0, now, ttl)).map_values(lane_of(m0)));
                        }
                    } else {
                        expired.push(id);
                        proof {
                            assert(self@ =~= reads_applied(m0, p.push(id), now, ttl));
                        }
                    }
                },
                None => {
                    proof {
                        assert(self@ =~= reads_applied(m0, p.push(id), now, ttl));
                    }
                },
            }
            k = k + 1;
        }
        proof {
            assert(ids@.subrange(0, ids@.len() as int) =~= ids@);
        }
        let ghost t0 = self@;
        proof {
            lemma_strip_empty(ix0);
            assert(dropped(t0, t0) =~= Map::empty());
            assert(t0.remove_keys(Set::new(|x: i32| expired@.subrange(0, 0).contains(x))) =~= t0);
        }
        let mut j: usize = 0;
        while j < expired.len()
            invariant
                self.shape(),
                j <= expired@.len(),
                self.default_ttl_ms == old(self).default_ttl_ms,
                self.max_total_entries == old(self).max_total_entries,
                self.misses == old(self).misses,
                self.evictions == old(self).evictions,
                self.hits == wrap_add_lanes(hits0, result@.len()),
                t0.dom() == m0.dom(),
                t0.dom().finite(),
                self@ == t0.remove_keys(Set::new(|x: i32| expired@.subrange(0, j as int).contains(x))),
                self.lane_index() == index_strip(ix0, dropped(t0, self@)),
            decreases expired@.len() - j,
        {
            let id = expired[j];
            let ghost before = self@;
            let ghost sj = Set::new(|x: i32| expired@.subrange(0, j as int).contains(x));
            let ghost sj1 = Set::new(|x: i32| expired@.subrange(0, j + 1).contains(x));
            proof {
                assert(expired@.subrange(0, j + 1) =~= expired@.subrange(0, j as int).push(id));
                assert forall|x: i32| #[trigger] sj1.contains(x) <==> sj.insert(id).contains(x) by {
                    let a = expired@.subrange(0, j as int);
                    if a.push(id).contains(x) && x != id {
                        let i = choose|i: int| 0 <= i < a.push(id).len() && a.push(id)[i] == x;
                        assert(a[i] == x);
                    }
                    if a.contains(x) {
                        let i = choose|i: int| 0 <= i < a.len() && a[i] == x;
                        assert(a.push(id)[i] == x);
                    }
                    if x == id {
                        assert(a.push(id)[a.len() as int] == x);
                    }
                }
                assert(sj1 =~= sj.insert(id));
                self.lemma_view();
            }
            match self.find(id) {
                Some(pos) => {
                    let ghost old_data = self.data@;
                    proof {
                        lemma_seq_to_map_remove(old_data, |e: TollLaneCacheEntry| lane_key(e), pos as int);
                        assert(before[id] == t0[id]);
                        lemma_strip_step(ix0, dropped(t0, before), id, before[id]);
                        assert(dropped(t0, before.remove(id)) =~= dropped(t0, before).insert(id, before[id]));
                    }
                    let e = self.data.remove(pos);
                    proof {
                        assert forall|a: int, b: int| 0 <= a < self.data@.len() && 0 <= b < self.data@.len() && a != b
                            implies lane_key(self.data@[a]) != lane_key(self.data@[b]) by {
                            let a2 = if a < pos { a } else { a + 1 };
                            let b2 = if b < pos { b } else { b + 1 };
                            assert(self.data@[a] == old_data[a2]);
                            assert(self.data@[b] == old_data[b2]);
                        }
                    }
                    self.index_unlink_id(e.lane.toll_id, id);
                    proof {
                        self.lemma_view();
                        assert(self@ =~= t0.remove_keys(sj1));
                    }
                },
                None => {
                    proof {
                        assert(self@ =~= t0.remove_keys(sj1));
                    }
                },
            }
            j = j + 1;
        }
        proof {
            assert(expired@.subrange(0, expired@.len() as int) =~= expired@);
            let ex = expired_ids(m0, idsg, now, ttl);
            assert forall|x: i32| expired@.contains(x) <==> #[trigger] ex.contains(x) by {
                idsg.filter_lemma(expired_id(m0, now, ttl));
                if expired@.contains(x) {
                    let i = choose|i: int| 0 <= i < expired@.len() && expired@[i] == x;
                    assert(expired_id(m0, now, ttl)(expired@[i]));
                    idsg.lemma_filter_contains_rev(expired_id(m0, now, ttl), x);
                }
                if ex.contains(x) {
                    let i = choose|i: int| 0 <= i < idsg.len() && idsg[i] == x;
                    assert(expired_id(m0, now, ttl)(idsg[i]));
                }
            }
            assert(self@ =~= reads_applied(m0, idsg, now, ttl).remove_keys(ex));
            assert(dropped(t0, self@) =~= dropped(m0, self@));
            assert forall|x: i32| #[trigger] self@.contains_key(x) implies m0.contains_key(x) && self@[x].lane.toll_id == m0[x].lane.toll_id by {
                assert(reads_applied(m0, idsg, now, ttl).contains_key(x));
            }
            lemma_sound_strip(m0, self@, ix0, dropped(m0, self@));
            lemma_complete_strip(m0, self@, ix0, dropped(m0, self@));
            let f = idsg.filter(live_id(m0, now, ttl));
            assert forall|x: i32| #[trigger] m0.contains_key(x) && m0[x].lane.toll_id == toll_id
                && lane_fresh(m0[x], now, ttl) implies result@.contains(m0[x].lane) by {
                assert(ix0.contains_key(toll_id) && ix0[toll_id].contains(x));
                assert(idsg == ix0[toll_id]);
                lemma_filter_keeps(idsg, live_id(m0, now, ttl), x);
                let i = choose|i: int| 0 <= i < f.len() && f[i] == x;
                assert(result@[i] == lane_of(m0)(f[i]));
            }
            lemma_filter_sub(idsg, live_id(m0, now, ttl));
            f.filter_lemma(live_id(m0, now, ttl));
            idsg.filter_lemma(live_id(m0, now, ttl));
            assert(listed_under(m0, idsg, toll_id)) by {
                if ix0.contains_key(toll_id) {
                    assert(listed_under(m0, ix0[toll_id], toll_id));
                }
            }
            assert forall|i: int| 0 <= i < f.len() implies m0.contains_key(#[trigger] f[i]) && m0[f[i]].lane.toll_id == toll_id
                && m0[f[i]].lane.toll_lane_id == f[i] by {
                idsg.filter_lemma(live_id(m0, now, ttl));
                assert(live_id(m0, now, ttl)(f[i]));
                assert(f.contains(f[i]));
                assert(idsg.contains(f[i]));
                let d = choose|d: int| 0 <= d < old(self).data@.len() && lane_key(old(self).data@[d]) == f[i];
                assert(m0[lane_key(old(self).data@[d])] == old(self).data@[d]);
            }
        }
        result
    }

    /// The live lanes listed under station `toll_id` now (see
    /// [`TollLaneCache::get_by_toll_id_at`]).
    pub fn get_by_toll_id(&mut self, toll_id: i32) -> (r: Vec<TOLL_LANE>)
        requires
            old(self).wf(),
        ensures
            final(self).wf(),
            exists|now: i64| #![trigger live_id(old(self)@, now, old(self).ttl())] {
                let ids = ids_of(old(self).lane_index(), toll_id);
                let m0 = old(self)@;
                let ttl = old(self).ttl();
                &&& r@ == ids.filter(live_id(m0, now, ttl)).map_values(lane_of(m0))
                &&& final(self)@ == reads_applied(m0, ids, now, ttl).remove_keys(expired_ids(m0, ids, now, ttl))
                &&& forall|x: i32| #[trigger] m0.contains_key(x) && m0[x].lane.toll_id == toll_id
                    && lane_fresh(m0[x], now, ttl) ==> r@.contains(m0[x].lane)
            },
            forall|i: int| 0 <= i < r@.len() ==> #[trigger] r@[i].toll_id == toll_id,
            forall|i: int, j: int| 0 <= i < r@.len() && 0 <= j < r@.len() && i != j ==> r@[i].toll_lane_id != r@[j].toll_lane_id,
            final(self).lane_index() == index_strip(old(self).lane_index(), dropped(old(self)@, final(self)@)),
            final(self).miss_count() == old(self).miss_count(),
            final(self).ttl() == old(self).ttl() && final(self).capacity() == old(self).capacity(),
            final(self).eviction_count() == old(self).eviction_count(),
    {
        let now = timestamp_ms();
        self.get_by_toll_id_at(toll_id, now)
    }
}

/// The lanes of `lanes` as entries stored at `now`; a later lane wins an id.
pub open spec fn lane_entries_of(lanes: Seq<TOLL_LANE>, now: i64) -> Map<i32, TollLaneCacheEntry>
    decreases lanes.len(),
{
    if lanes.len() == 0 {
        Map::empty()
    } else {
        lane_entries_of(lanes.drop_last(), now).insert(lanes.last().toll_lane_id, new_lane_entry(lanes.last(), now))
    }
}

/// The index built by storing the lanes of `lanes` in order.
pub open spec fn index_of(lanes: Seq<TOLL_LANE>) -> Map<i32, Seq<i32>>
    decreases lanes.len(),
{
    if lanes.len() == 0 {
        Map::empty()
    } else {
        index_add(index_of(lanes.drop_last()), lanes.last().toll_id, lanes.last().toll_lane_id)
    }
}

impl TollLaneCache {
    /// Replaces all entries and the index by the lanes of `lanes`, stored at `now`. The
    /// counters are kept and nothing is evicted.
    pub fn replace_all_at(&mut self, lanes: Vec<TOLL_LANE>, now: i64)
        requires
            old(self).wf(),
        ensures
            final(self).wf(),
            final(self)@ == lane_entries_of(lanes@, now),
            final(self).lane_index() == index_of(lanes@),
            final(self).ttl() == old(self).ttl() && final(self).capacity() == old(self).capacity(),
            final(self).hit_count() == old(self).hit_count() && final(self).miss_count() == old(self).miss_count(),
            final(self).eviction_count() == old(self).eviction_count(),
    {
        self.data.clear();
        self.index.clear();
        proof {
            self.lemma_view();
            self.lemma_index();
            assert(self.lane_index() =~= Map::<i32, Seq<i32>>::empty());
        }
        let mut k: usize = 0;
        while k < lanes.len()
            invariant
                self.shape(),
                k <= lanes@.len(),
                self@ == lane_entries_of(lanes@.subrange(0, k as int), now),
                self.lane_index() == index_of(lanes@.subrange(0, k as int)),
                index_sound(self@, self.lane_index()),
                index_complete(self@, self.lane_index()),
                self.default_ttl_ms == old(self).default_ttl_ms,
                self.max_total_entries == old(self).max_total_entries,
                self.hits == old(self).hits && self.misses == old(self).misses,
                self.evictions == old(self).evictions,
            decreases lanes@.len() - k,
        {
            proof {
                assert(lanes@.subrange(0, k + 1).drop_last() =~= lanes@.subrange(0, k as int));
            }
            let l = lanes[k].clone();
            let lane_id = l.toll_lane_id;
            let toll_id = l.toll_id;
            let entry = TollLaneCacheEntry { lane: l, created_at: now, last_access: now, access_count: 0 };
            let ghost e = entry;
            let ghost m_before = self@;
            let ghost ix_before = self.lane_index();
            proof {
                self.lemma_view();
            }
            match self.find(lane_id) {
                Some(i) => {
                    proof {
                        lemma_seq_to_map_update(self.data@, |e: TollLaneCacheEntry| lane_key(e), i as int, e);
                    }
                    self.data.set(i, entry);
                },
                None => {
                    proof {
                        lemma_seq_to_map_push(self.data@, |e: TollLaneCacheEntry| lane_key(e), e);
                        assert forall|a: int, b: int| 0 <= a < self.data@.push(e).len() && 0 <= b < self.data@.push(e).len() && a != b
                            implies lane_key(self.data@.push(e)[a]) != lane_key(self.data@.push(e)[b]) by {
                            if a == self.data@.len() {
                                assert(lane_key(self.data@[b]) != lane_id);
                            } else if b == self.data@.len() {
                                assert(lane_key(self.data@[a]) != lane_id);
                            }
                        }
                    }
                    self.data.push(entry);
                },
            }
            self.index_push(toll_id, lane_id);
            proof {
                self.lemma_view();
                lemma_sound_add(m_before, ix_before, lane_id, e);
                lemma_complete_add(m_before, ix_before, lane_id, e);
            }
            k = k + 1;
        }
        proof {
            assert(lanes@.subrange(0, lanes@.len() as int) =~= lanes@);
        }
    }

    /// Replaces all entries and the index by the lanes of `lanes`, stored now.
    pub fn replace_all(&mut self, lanes: Vec<TOLL_LANE>)
        requires
            old(self).wf(),
        ensures
            final(self).wf(),
            exists|now: i64| final(self)@ == lane_entries_of(lanes@, now),
            final(self).lane_index() == index_of(lanes@),
            final(self).ttl() == old(self).ttl() && final(self).capacity() == old(self).capacity(),
            final(self).hit_count() == old(self).hit_count() && final(self).miss_count() == old(self).miss_count(),
            final(self).eviction_count() == old(self).eviction_count(),
    {
        let now = timestamp_ms();
        self.replace_all_at(lanes, now);
    }
}

/// A removed lane is no longer read.
pub proof fn law_lane_remove_then_get(c0: TollLaneCache, c1: TollLaneCache, c2: TollLaneCache, toll_lane_id: i32, now: i64, r: Option<TOLL_LANE>)
    requires
        c1@ == c0@.remove(toll_lane_id),
        lane_get_post(c1, c2, toll_lane_id, now, r),
    ensures
        r is None,
{
}

/// A stored lane that does not overflow the capacity is kept, as stored, and its id is listed
/// under its station.
pub proof fn law_lane_put_kept(c0: TollLaneCache, c1: TollLaneCache, lane: TOLL_LANE, now: i64)
    requires
        c0.wf(),
        lane_put_post(c0, c1, lane, now),
        c0@.insert(lane.toll_lane_id, new_lane_entry(lane, now)).len() <= c0.capacity(),
    ensures
        c1@.contains_key(lane.toll_lane_id),
        c1@[lane.toll_lane_id] == new_lane_entry(lane, now),
        c1.lane_index().contains_key(lane.toll_id),
        c1.lane_index()[lane.toll_id].contains(lane.toll_lane_id),
{
    let m1 = c0@.insert(lane.toll_lane_id, new_lane_entry(lane, now));
    let k = lane.toll_lane_id;
    c0.lemma_view();
    if !c1@.contains_key(k) {
        assert(c1@.dom().subset_of(m1.dom().remove(k)));
        vstd::set_lib::lemma_len_subset(c1@.dom(), m1.dom().remove(k));
    }
    let ix1 = index_add(c0.lane_index(), lane.toll_id, k);
    let g = dropped(m1, c1@);
    assert(!g.contains_key(k));
    let s = ix1[lane.toll_id];
    assert(s[s.len() - 1] == k);
    s.filter_lemma(stays(g, lane.toll_id));
    assert(stays(g, lane.toll_id)(s[s.len() - 1]));
    assert(kept_ids(s, g, lane.toll_id).contains(k));
}

/// A stored lane that does not overflow the capacity is read back right away.
pub proof fn law_lane_put_then_get(c0: TollLaneCache, c1: TollLaneCache, c2: TollLaneCache, lane: TOLL_LANE, now: i64, r: Option<TOLL_LANE>)
    requires
        c0.wf(),
        lane_put_post(c0, c1, lane, now),
        lane_get_post(c1, c2, lane.toll_lane_id, now, r),
        c0@.insert(lane.toll_lane_id, new_lane_entry(lane, now)).len() <= c0.capacity(),
        c0.ttl() > 0,
    ensures
        r == Some(lane),
{
    law_lane_put_kept(c0, c1, lane, now);
}

} // verus!
